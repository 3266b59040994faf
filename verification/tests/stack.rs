use nitor_vault::cloudformation::{
    find_output, find_version, get_stack_data, parse_version, CloudFormationParams,
    CloudFormationStackData, Stack, StackOutput, StackStatus,
};
use nitor_vault::stack::{
    capabilities, classify_existing, create_request, default_bucket_name, finish_update, plan_update, resolve,
    update_request, Capability, CreateStackRequest, CreateStackResult, InitPlan, InitStep,
    UpdateStackRequest, UpdateStackResult, UpdateStep, VAULT_STACK_VERSION,
};
use nitor_vault::VaultError;

const ALL_STATUSES: [StackStatus; 24] = [
    StackStatus::CreateComplete,
    StackStatus::CreateFailed,
    StackStatus::CreateInProgress,
    StackStatus::DeleteComplete,
    StackStatus::DeleteFailed,
    StackStatus::DeleteInProgress,
    StackStatus::ImportComplete,
    StackStatus::ImportInProgress,
    StackStatus::ImportRollbackComplete,
    StackStatus::ImportRollbackFailed,
    StackStatus::ImportRollbackInProgress,
    StackStatus::ReviewInProgress,
    StackStatus::RollbackComplete,
    StackStatus::RollbackFailed,
    StackStatus::RollbackInProgress,
    StackStatus::UpdateComplete,
    StackStatus::UpdateCompleteCleanupInProgress,
    StackStatus::UpdateFailed,
    StackStatus::UpdateInProgress,
    StackStatus::UpdateRollbackComplete,
    StackStatus::UpdateRollbackCompleteCleanupInProgress,
    StackStatus::UpdateRollbackFailed,
    StackStatus::UpdateRollbackInProgress,
    StackStatus::Unknown,
];

fn output(key: &str, value: &str) -> StackOutput {
    StackOutput { output_key: Some(key.to_string()), output_value: Some(value.to_string()) }
}

fn data(status: Option<StackStatus>, version: Option<u32>) -> CloudFormationStackData {
    CloudFormationStackData {
        bucket_name: Some("bucket".to_string()),
        key_arn: Some("arn:key".to_string()),
        version,
        status,
        status_reason: None,
    }
}

fn plan(bucket: Option<&str>) -> InitPlan {
    InitPlan {
        stack_name: "vault".to_string(),
        region: "eu-west-1".to_string(),
        bucket: bucket.map(str::to_string),
    }
}

fn creation(bucket: &str) -> CreateStackRequest {
    CreateStackRequest {
        stack_name: "vault".to_string(),
        parameter_key: "paramBucketName".to_string(),
        parameter_value: bucket.to_string(),
        capabilities: vec![Capability::CapabilityIam],
    }
}

#[test]
fn parse_version_reads_decimal_digits() {
    assert_eq!(parse_version("0"), Some(0));
    assert_eq!(parse_version("27"), Some(27));
    assert_eq!(parse_version("007"), Some(7));
    assert_eq!(parse_version("+5"), Some(5));
    assert_eq!(parse_version("4294967295"), Some(u32::MAX));
}

#[test]
fn parse_version_rejects_what_does_not_fit() {
    assert_eq!(parse_version("4294967296"), None);
    assert_eq!(parse_version("99999999999999999999999999"), None);
}

#[test]
fn parse_version_rejects_what_is_no_number() {
    for text in ["", "+", "-1", "++1", "1+", "1.0", " 1", "1 ", "v1", "١"] {
        assert_eq!(parse_version(text), None, "{:?}", text);
    }
}

#[test]
fn parse_version_agrees_with_the_standard_parser() {
    for text in ["0", "00", "+0", "+", "", "12a", "4294967295", "4294967296", "+4294967295", "٣", "1_0"] {
        assert_eq!(parse_version(text), text.parse::<u32>().ok(), "{:?}", text);
    }
}

#[test]
fn find_output_takes_the_last_output_of_the_name() {
    let outputs = vec![
        output("vaultBucketName", "first"),
        output("kmsKeyArn", "arn"),
        output("vaultBucketName", "second"),
        StackOutput { output_key: Some("vaultBucketName".to_string()), output_value: None },
        StackOutput { output_key: None, output_value: Some("nameless".to_string()) },
    ];
    assert_eq!(find_output(&outputs, "vaultBucketName"), Some("second".to_string()));
    assert_eq!(find_output(&outputs, "kmsKeyArn"), Some("arn".to_string()));
    assert_eq!(find_output(&outputs, "missing"), None);
    assert_eq!(find_output(&Vec::new(), "vaultBucketName"), None);
}

#[test]
fn find_version_takes_the_last_version_that_parses() {
    let outputs = vec![
        output("vaultStackVersion", "21"),
        output("vaultStackVersion", "22"),
        output("vaultStackVersion", "not a number"),
        output("other", "99"),
    ];
    assert_eq!(find_version(&outputs), Some(22));
    assert_eq!(find_version(&vec![output("vaultStackVersion", "x")]), None);
    assert_eq!(find_version(&Vec::new()), None);
}

#[test]
fn get_stack_data_reads_the_first_stack() {
    let response = Ok(vec![
        Stack {
            stack_status: Some(StackStatus::UpdateComplete),
            stack_status_reason: Some("done".to_string()),
            outputs: Some(vec![
                output("vaultBucketName", "bucket"),
                output("kmsKeyArn", "arn:key"),
                output("vaultStackVersion", "25"),
            ]),
        },
        Stack { stack_status: Some(StackStatus::CreateFailed), stack_status_reason: None, outputs: None },
    ]);
    assert_eq!(
        get_stack_data(&response),
        Ok(CloudFormationStackData {
            bucket_name: Some("bucket".to_string()),
            key_arn: Some("arn:key".to_string()),
            version: Some(25),
            status: Some(StackStatus::UpdateComplete),
            status_reason: Some("done".to_string()),
        })
    );
}

#[test]
fn get_stack_data_of_a_stack_without_outputs_has_only_the_status() {
    let response = Ok(vec![Stack {
        stack_status: Some(StackStatus::CreateFailed),
        stack_status_reason: None,
        outputs: None,
    }]);
    assert_eq!(
        get_stack_data(&response),
        Ok(CloudFormationStackData {
            bucket_name: None,
            key_arn: None,
            version: None,
            status: Some(StackStatus::CreateFailed),
            status_reason: None,
        })
    );
}

#[test]
fn get_stack_data_without_a_stack_is_stack_not_found() {
    assert_eq!(get_stack_data(&Ok(Vec::new())), Err(VaultError::StackNotFoundError));
}

#[test]
fn get_stack_data_hands_a_failed_request_through() {
    assert_eq!(get_stack_data(&Err(VaultError::DescribeStackError)), Err(VaultError::DescribeStackError));
}

#[test]
fn params_from_stack_need_the_bucket_and_take_the_key() {
    let stack = |outputs| Ok(vec![Stack { stack_status: None, stack_status_reason: None, outputs }]);
    assert_eq!(
        CloudFormationParams::from_stack(
            &stack(Some(vec![output("vaultBucketName", "bucket"), output("kmsKeyArn", "arn")])),
            "vault".to_string()
        ),
        Ok(CloudFormationParams {
            bucket_name: "bucket".to_string(),
            key_arn: Some("arn".to_string()),
            stack_name: "vault".to_string(),
        })
    );
    assert_eq!(
        CloudFormationParams::from_stack(
            &stack(Some(vec![output("vaultBucketName", "bucket")])),
            "vault".to_string()
        ),
        Ok(CloudFormationParams {
            bucket_name: "bucket".to_string(),
            key_arn: None,
            stack_name: "vault".to_string(),
        })
    );
    assert_eq!(
        CloudFormationParams::from_stack(&stack(Some(vec![output("kmsKeyArn", "arn")])), "vault".to_string()),
        Err(VaultError::BucketNameMissingError)
    );
    assert_eq!(
        CloudFormationParams::from_stack(&stack(None), "vault".to_string()),
        Err(VaultError::StackOutputsMissingError)
    );
    assert_eq!(
        CloudFormationParams::from_stack(&Ok(Vec::new()), "vault".to_string()),
        Err(VaultError::StackNotFoundError)
    );
    assert_eq!(
        CloudFormationParams::from_stack(&Err(VaultError::DescribeStackError), "vault".to_string()),
        Err(VaultError::DescribeStackError)
    );
}

#[test]
fn resolve_takes_the_first_source_that_has_a_value() {
    let a = || Some("a".to_string());
    let b = || Some("b".to_string());
    let c = || Some("c".to_string());
    assert_eq!(resolve(a(), b(), c()), a());
    assert_eq!(resolve(None, b(), c()), b());
    assert_eq!(resolve(None, None, c()), c());
    assert_eq!(resolve(a(), None, None), a());
    assert_eq!(resolve(None, None, None), None);
}

#[test]
fn default_bucket_name_joins_stack_region_and_account() {
    assert_eq!(default_bucket_name("vault", "eu-west-1", "123456789012"), "vault-eu-west-1-123456789012");
}

#[test]
fn create_request_sets_the_bucket_parameter_and_acknowledges_iam() {
    assert_eq!(create_request("vault", "bucket".to_string()), creation("bucket"));
}

#[test]
fn update_request_keeps_the_bucket_and_acknowledges_iam() {
    assert_eq!(
        update_request("vault"),
        UpdateStackRequest {
            stack_name: "vault".to_string(),
            parameter_key: "paramBucketName".to_string(),
            capabilities: vec![Capability::CapabilityIam],
        }
    );
}

#[test]
fn update_acknowledges_what_creation_acknowledges() {
    assert_eq!(update_request("vault").capabilities, create_request("vault", "bucket".to_string()).capabilities);
    assert_eq!(update_request("vault").capabilities, capabilities());
    assert_eq!(update_request("vault").parameter_key, create_request("vault", "b".to_string()).parameter_key);
}

#[test]
fn create_failed_is_a_failed_state() {
    let data = data(Some(StackStatus::CreateFailed), None);
    assert_eq!(classify_existing(data.clone()), Ok(CreateStackResult::ExistsWithFailedState { data }));
}

#[test]
fn rollback_failed_is_a_failed_state() {
    let data = data(Some(StackStatus::RollbackFailed), None);
    assert_eq!(classify_existing(data.clone()), Ok(CreateStackResult::ExistsWithFailedState { data }));
}

#[test]
fn delete_failed_is_a_failed_state() {
    let data = data(Some(StackStatus::DeleteFailed), None);
    assert_eq!(classify_existing(data.clone()), Ok(CreateStackResult::ExistsWithFailedState { data }));
}

#[test]
fn delete_in_progress_is_a_failed_state() {
    let data = data(Some(StackStatus::DeleteInProgress), None);
    assert_eq!(classify_existing(data.clone()), Ok(CreateStackResult::ExistsWithFailedState { data }));
}

#[test]
fn delete_complete_is_a_failed_state() {
    let data = data(Some(StackStatus::DeleteComplete), None);
    assert_eq!(classify_existing(data.clone()), Ok(CreateStackResult::ExistsWithFailedState { data }));
}

#[test]
fn every_other_state_is_a_healthy_exists() {
    let failed = [
        StackStatus::CreateFailed,
        StackStatus::RollbackFailed,
        StackStatus::DeleteFailed,
        StackStatus::DeleteInProgress,
        StackStatus::DeleteComplete,
    ];
    let mut healthy = 0;
    for status in ALL_STATUSES {
        assert_eq!(status.failed_state(), failed.contains(&status));
        let data = data(Some(status), Some(1));
        let expected = if failed.contains(&status) {
            CreateStackResult::ExistsWithFailedState { data: data.clone() }
        } else {
            healthy += 1;
            CreateStackResult::Exists { data: data.clone() }
        };
        assert_eq!(classify_existing(data.clone()), Ok(expected.clone()));
        assert_eq!(plan(None).on_described(Ok(data)), InitStep::Done(Ok(expected)));
    }
    assert_eq!(healthy, 19);
}

#[test]
fn a_description_without_status_is_an_error() {
    assert_eq!(classify_existing(data(None, Some(1))), Err(VaultError::MissingStackStatusError));
    assert_eq!(
        plan(Some("bucket")).on_described(Ok(data(None, None))),
        InitStep::Done(Err(VaultError::MissingStackStatusError))
    );
}

#[test]
fn a_missing_stack_is_created_with_the_configured_bucket() {
    assert_eq!(
        plan(Some("my-bucket")).on_described(Err(VaultError::StackNotFoundError)),
        InitStep::Create(creation("my-bucket"))
    );
}

#[test]
fn a_description_that_failed_otherwise_creates_nothing() {
    for error in [
        VaultError::DescribeStackError,
        VaultError::StackOutputsMissingError,
        VaultError::BucketNameMissingError,
        VaultError::NoRegionError,
    ] {
        assert_eq!(plan(Some("my-bucket")).on_described(Err(error)), InitStep::Done(Err(error)));
        assert_eq!(plan(None).on_described(Err(error)), InitStep::Done(Err(error)));
    }
}

#[test]
fn a_description_without_stacks_means_that_the_stack_is_missing() {
    let described = get_stack_data(&Ok(Vec::new()));
    assert_eq!(plan(Some("my-bucket")).on_described(described), InitStep::Create(creation("my-bucket")));
}

#[test]
fn a_missing_stack_without_a_bucket_asks_for_the_account() {
    assert_eq!(plan(None).on_described(Err(VaultError::StackNotFoundError)), InitStep::Identify);
}

#[test]
fn the_account_gives_the_default_bucket() {
    assert_eq!(
        plan(None).on_identified(Ok(Some("123456789012".to_string()))),
        Ok(creation("vault-eu-west-1-123456789012"))
    );
}

#[test]
fn an_answer_without_account_is_an_error() {
    assert_eq!(plan(None).on_identified(Ok(None)), Err(VaultError::MissingAccountIdError));
    assert_eq!(
        plan(None).on_identified(Err(VaultError::CallerIdentityError)),
        Err(VaultError::CallerIdentityError)
    );
}

#[test]
fn an_answered_creation_is_reported_as_created() {
    assert_eq!(
        plan(None).on_created(Ok(Some("stack-id".to_string()))),
        Ok(CreateStackResult::Created {
            stack_name: "vault".to_string(),
            stack_id: "stack-id".to_string(),
            region: "eu-west-1".to_string(),
        })
    );
    assert_eq!(plan(None).on_created(Ok(None)), Err(VaultError::MissingStackIdError));
    assert_eq!(
        plan(None).on_created(Err(VaultError::CreateStackError)),
        Err(VaultError::CreateStackError)
    );
}

#[test]
fn a_stack_of_the_current_version_is_up_to_date() {
    let data = data(Some(StackStatus::UpdateComplete), Some(VAULT_STACK_VERSION));
    assert_eq!(
        plan_update("vault", VAULT_STACK_VERSION, Ok(data.clone())),
        Ok(UpdateStep::UpToDate(UpdateStackResult::UpToDate { data }))
    );
}

#[test]
fn a_stack_of_a_later_version_is_up_to_date() {
    let data = data(Some(StackStatus::UpdateComplete), Some(u32::MAX));
    assert_eq!(
        plan_update("vault", 27, Ok(data.clone())),
        Ok(UpdateStep::UpToDate(UpdateStackResult::UpToDate { data }))
    );
}

#[test]
fn a_stack_of_an_older_version_gets_one_update_request() {
    for deployed in [0, 1, 26] {
        assert_eq!(
            plan_update("vault", 27, Ok(data(Some(StackStatus::CreateComplete), Some(deployed)))),
            Ok(UpdateStep::Update { request: update_request("vault"), previous_version: deployed })
        );
    }
}

#[test]
fn a_stack_without_version_cannot_be_updated() {
    assert_eq!(
        plan_update("vault", 27, Ok(data(Some(StackStatus::CreateComplete), None))),
        Err(VaultError::StackVersionNotFoundError)
    );
}

#[test]
fn an_update_of_a_stack_that_cannot_be_described_fails() {
    assert_eq!(
        plan_update("vault", 27, Err(VaultError::DescribeStackError)),
        Err(VaultError::DescribeStackError)
    );
}

#[test]
fn an_answered_update_reports_both_versions() {
    assert_eq!(
        finish_update(26, 27, Ok(Some("stack-id".to_string()))),
        Ok(UpdateStackResult::Updated { stack_id: "stack-id".to_string(), previous_version: 26, new_version: 27 })
    );
    assert_eq!(finish_update(26, 27, Ok(None)), Err(VaultError::MissingStackIdError));
    assert_eq!(
        finish_update(26, 27, Err(VaultError::UpdateStackError)),
        Err(VaultError::UpdateStackError)
    );
}
