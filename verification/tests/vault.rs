use std::collections::BTreeMap;

use nitor_vault::cipher::DataKey;
use nitor_vault::cloudformation::{CloudFormationParams, CloudFormationStackData, Stack, StackOutput, StackStatus};
use nitor_vault::stack::{InitPlan, UpdateStackResult, UpdateStep, VAULT_STACK_VERSION};
use nitor_vault::vault::{
    normalise_prefix, DataKeySpec, DeleteObjects, Environment, GenerateDataKey, ObjectRequest, Probe,
    PutObject, StackLookup, StoredSecret, VaultSetup,
};
use nitor_vault::{Value, Vault, VaultError};

type Bucket = BTreeMap<String, Vec<u8>>;

fn vault(prefix: &str) -> Vault {
    Vault {
        region: "eu-west-1".to_string(),
        prefix: prefix.to_string(),
        cloudformation_params: CloudFormationParams {
            bucket_name: "bucket".to_string(),
            key_arn: Some("arn:key".to_string()),
            stack_name: "vault".to_string(),
        },
    }
}

fn no_environment() -> Environment {
    Environment { vault_stack: None, vault_bucket: None, vault_key: None, vault_prefix: None }
}

fn text(value: &str) -> Option<String> {
    Some(value.to_string())
}

fn key() -> Vec<u8> {
    vec![42; 32]
}

fn data_key() -> DataKey {
    DataKey { plaintext: Some(key()), ciphertext_blob: Some(b"wrapped".to_vec()) }
}

fn put_all(bucket: &mut Bucket, puts: Vec<PutObject>) {
    for put in puts {
        assert_eq!(put.bucket, "bucket");
        bucket.insert(put.key, put.body);
    }
}

fn get(bucket: &Bucket, request: &ObjectRequest) -> Result<Vec<u8>, VaultError> {
    assert_eq!(request.bucket, "bucket");
    bucket.get(&request.key).cloned().ok_or(VaultError::S3GetObjectError)
}

fn head(bucket: &Bucket, request: &ObjectRequest) -> Probe {
    if bucket.contains_key(&request.key) {
        Probe::Found
    } else {
        Probe::NotFound
    }
}

fn delete_all(bucket: &mut Bucket, request: DeleteObjects) {
    assert_eq!(request.bucket, "bucket");
    for key in request.keys {
        bucket.remove(&key);
    }
}

fn list(bucket: &Bucket) -> Result<Vec<Option<String>>, VaultError> {
    Ok(bucket.keys().cloned().map(Some).collect())
}

fn all(vault: &Vault, bucket: &Bucket) -> Vec<String> {
    assert_eq!(vault.list_request(), "bucket");
    vault.all(&list(bucket)).unwrap()
}

fn store(vault: &Vault, bucket: &mut Bucket, name: &str, data: &[u8]) {
    assert_eq!(
        vault.data_key_request(),
        Ok(GenerateDataKey { key_id: "arn:key".to_string(), key_spec: DataKeySpec::Aes256 })
    );
    put_all(bucket, vault.store(name, data, &data_key()).unwrap());
}

fn lookup(vault: &Vault, bucket: &Bucket, name: &str) -> Result<Value, VaultError> {
    let gets = vault.lookup_requests(name);
    assert_eq!(gets.len(), 3);
    let secret = Vault::fetched(get(bucket, &gets[0]), get(bucket, &gets[1]), get(bucket, &gets[2]))?;
    secret.nonce()?;
    let unwrapped = if secret.data_key == b"wrapped" { Ok(Some(key())) } else { Err(VaultError::KMSDecryptError) };
    vault.lookup(&secret, unwrapped)
}

fn is_stored(vault: &Vault, bucket: &Bucket, name: &str) -> bool {
    vault.secret_exists(head(bucket, &vault.exists_probe(name))).unwrap()
}

fn delete(vault: &Vault, bucket: &mut Bucket, name: &str) -> Result<(), VaultError> {
    let found = is_stored(vault, bucket, name);
    delete_all(bucket, vault.delete(name, found)?);
    Vault::deleted(&Ok(Vec::new()))
}

#[test]
fn store_then_lookup_yields_the_stored_bytes() {
    let vault = vault("team/");
    let payloads: Vec<Vec<u8>> = vec![
        Vec::new(),
        b"secret text".to_vec(),
        vec![0xff, 0x00, 0xfe],
        "ä€🔑".as_bytes().to_vec(),
        vec![7; 100_000],
    ];
    for payload in payloads {
        let mut bucket = Bucket::new();
        store(&vault, &mut bucket, "name", &payload);
        assert_eq!(lookup(&vault, &bucket, "name").unwrap().to_bytes(), payload);
    }
}

#[test]
fn store_writes_exactly_the_three_artifacts() {
    let mut bucket = Bucket::new();
    store(&vault("team/"), &mut bucket, "name", b"payload");
    let keys: Vec<&str> = bucket.keys().map(String::as_str).collect();
    assert_eq!(keys, vec!["team/name.aesgcm.encrypted", "team/name.key", "team/name.meta"]);
    assert_eq!(bucket["team/name.key"], b"wrapped".to_vec());
    assert_eq!(bucket["team/name.aesgcm.encrypted"].len(), 7 + 16);
    assert!(bucket["team/name.meta"].starts_with(b"{\"nonce\":\""));
    assert!(bucket["team/name.meta"].ends_with(b"\",\"alg\":\"aesgcm\"}"));
    assert_eq!(bucket["team/name.meta"].len(), 43);
}

#[test]
fn store_requests_are_cipher_key_meta() {
    let puts = vault("").store("n", b"payload", &data_key()).unwrap();
    let keys: Vec<&str> = puts.iter().map(|put| put.key.as_str()).collect();
    assert_eq!(keys, vec!["n.aesgcm.encrypted", "n.key", "n.meta"]);
}

#[test]
fn lookup_requests_are_key_cipher_meta() {
    let gets = vault("p/").lookup_requests("n");
    let keys: Vec<&str> = gets.iter().map(|get| get.key.as_str()).collect();
    assert_eq!(keys, vec!["p/n.key", "p/n.aesgcm.encrypted", "p/n.meta"]);
}

#[test]
fn store_without_master_key_is_refused_before_anything_is_asked() {
    let mut vault = vault("");
    vault.cloudformation_params.key_arn = None;
    assert_eq!(vault.data_key_request(), Err(VaultError::KeyARNMissingError));
    assert_eq!(vault.store("n", b"payload", &data_key()), Err(VaultError::KeyARNMissingError));
    let generated = DataKey { plaintext: None, ciphertext_blob: None };
    assert_eq!(vault.store("n", b"payload", &generated), Err(VaultError::KeyARNMissingError));
}

#[test]
fn store_requests_nothing_where_sealing_fails() {
    let generated = DataKey { plaintext: None, ciphertext_blob: None };
    assert_eq!(vault("").store("n", b"payload", &generated), Err(VaultError::KMSDataKeyPlainTextMissingError));
}

#[test]
fn second_store_replaces_the_first() {
    let vault = vault("");
    let mut bucket = Bucket::new();
    store(&vault, &mut bucket, "name", b"a first and longer payload");
    store(&vault, &mut bucket, "name", b"second");
    assert_eq!(lookup(&vault, &bucket, "name"), Ok(Value::Utf8("second".to_string())));
    assert_eq!(bucket.len(), 3);
    assert_eq!(bucket["name.aesgcm.encrypted"].len(), 6 + 16);
}

#[test]
fn exists_is_false_then_true_then_false() {
    let vault = vault("team/");
    let mut bucket = Bucket::new();
    assert!(!is_stored(&vault, &bucket, "name"));
    store(&vault, &mut bucket, "name", b"payload");
    assert!(is_stored(&vault, &bucket, "name"));
    assert_eq!(delete(&vault, &mut bucket, "name"), Ok(()));
    assert!(!is_stored(&vault, &bucket, "name"));
}

#[test]
fn exists_probes_the_key_object_only() {
    assert_eq!(
        vault("team/").exists_probe("name"),
        ObjectRequest { bucket: "bucket".to_string(), key: "team/name.key".to_string() }
    );
}

#[test]
fn only_absence_becomes_false() {
    let vault = vault("");
    assert_eq!(vault.secret_exists(Probe::Found), Ok(true));
    assert_eq!(vault.secret_exists(Probe::NotFound), Ok(false));
    assert_eq!(vault.secret_exists(Probe::Failed), Err(VaultError::S3HeadObjectError));
}

#[test]
fn delete_removes_all_three_artifacts() {
    let vault = vault("");
    let mut bucket = Bucket::new();
    store(&vault, &mut bucket, "name", b"payload");
    store(&vault, &mut bucket, "other", b"kept");
    assert_eq!(delete(&vault, &mut bucket, "name"), Ok(()));
    assert_eq!(bucket.len(), 3);
    assert_eq!(lookup(&vault, &bucket, "name"), Err(VaultError::S3GetObjectError));
    assert_eq!(lookup(&vault, &bucket, "other"), Ok(Value::Utf8("kept".to_string())));
}

#[test]
fn delete_names_the_three_identifiers_in_one_request() {
    assert_eq!(
        vault("p/").delete("n", true),
        Ok(DeleteObjects {
            bucket: "bucket".to_string(),
            keys: vec!["p/n.key".to_string(), "p/n.aesgcm.encrypted".to_string(), "p/n.meta".to_string()],
        })
    );
}

#[test]
fn a_batch_deletion_that_reports_no_failure_ends_well() {
    assert_eq!(Vault::deleted(&Ok(Vec::new())), Ok(()));
}

#[test]
fn a_batch_deletion_that_reports_a_failure_fails() {
    assert_eq!(Vault::deleted(&Ok(vec![text("name.meta")])), Err(VaultError::S3DeleteObjectsError));
    assert_eq!(Vault::deleted(&Ok(vec![None])), Err(VaultError::S3DeleteObjectsError));
    assert_eq!(
        Vault::deleted(&Ok(vec![text("name.key"), text("name.aesgcm.encrypted"), text("name.meta")])),
        Err(VaultError::S3DeleteObjectsError)
    );
}

#[test]
fn a_failed_batch_deletion_is_handed_through() {
    assert_eq!(Vault::deleted(&Err(VaultError::S3DeleteObjectsError)), Err(VaultError::S3DeleteObjectsError));
    assert_eq!(Vault::deleted(&Err(VaultError::S3PutObjectError)), Err(VaultError::S3PutObjectError));
}

#[test]
fn a_partly_failed_deletion_leaves_the_deleted_objects_deleted() {
    let vault = vault("");
    let mut bucket = Bucket::new();
    store(&vault, &mut bucket, "name", b"payload");
    let mut request = vault.delete("name", true).unwrap();
    let kept = request.keys.pop().unwrap();
    delete_all(&mut bucket, request);
    assert_eq!(Vault::deleted(&Ok(vec![Some(kept.clone())])), Err(VaultError::S3DeleteObjectsError));
    assert_eq!(bucket.keys().cloned().collect::<Vec<_>>(), vec![kept]);
    assert!(!is_stored(&vault, &bucket, "name"));
}

#[test]
fn a_failed_listing_is_handed_through() {
    assert_eq!(vault("").all(&Err(VaultError::S3ListObjectsError)), Err(VaultError::S3ListObjectsError));
}

#[test]
fn the_data_key_asked_for_is_a_256_bit_key_under_the_master_key() {
    assert_eq!(
        vault("").data_key_request(),
        Ok(GenerateDataKey { key_id: "arn:key".to_string(), key_spec: DataKeySpec::Aes256 })
    );
}

#[test]
fn the_cipher_text_is_one_tag_longer_than_the_payload() {
    for length in [0usize, 1, 15, 16, 17, 1000] {
        let puts = vault("").store("n", &vec![7; length], &data_key()).unwrap();
        assert_eq!(puts[0].key, "n.aesgcm.encrypted");
        assert_eq!(puts[0].body.len(), length + 16);
    }
}

#[test]
fn delete_of_a_missing_secret_is_refused() {
    let vault = vault("");
    let mut bucket = Bucket::new();
    assert_eq!(delete(&vault, &mut bucket, "name"), Err(VaultError::S3DeleteObjectKeyMissingError));
    assert_eq!(vault.delete("name", false), Err(VaultError::S3DeleteObjectKeyMissingError));
}

#[test]
fn all_lists_what_was_stored_and_not_deleted() {
    let vault = vault("team/");
    let mut bucket = Bucket::new();
    assert_eq!(all(&vault, &bucket), Vec::<String>::new());
    for name in ["zeta", "alpha", "mid.key", "x.aesgcm.encrypted"] {
        store(&vault, &mut bucket, name, b"payload");
    }
    delete(&vault, &mut bucket, "alpha").unwrap();
    let mut names = all(&vault, &bucket);
    names.sort();
    assert_eq!(names, vec!["team/mid.key", "team/x.aesgcm.encrypted", "team/zeta"]);
}

#[test]
fn all_does_not_depend_on_the_order_of_stores() {
    let vault = vault("");
    let mut forward = Bucket::new();
    let mut backward = Bucket::new();
    let names = ["a", "b", "c"];
    for name in names {
        store(&vault, &mut forward, name, b"payload");
    }
    for name in names.iter().rev() {
        store(&vault, &mut backward, name, b"payload");
    }
    assert_eq!(all(&vault, &forward), all(&vault, &backward));
    assert_eq!(all(&vault, &forward), vec!["a", "b", "c"]);
}

#[test]
fn lookup_of_a_partly_written_secret_fails() {
    let vault = vault("");
    for missing in ["name.key", "name.aesgcm.encrypted", "name.meta"] {
        let mut bucket = Bucket::new();
        store(&vault, &mut bucket, "name", b"payload");
        bucket.remove(missing);
        assert_eq!(lookup(&vault, &bucket, "name"), Err(VaultError::S3GetObjectError));
    }
}

#[test]
fn fetched_reports_the_first_failure_in_order() {
    let ok = || Ok(vec![1u8]);
    assert_eq!(
        Vault::fetched(ok(), ok(), ok()),
        Ok(StoredSecret { data_key: vec![1], cipher: vec![1], meta: vec![1] })
    );
    assert_eq!(
        Vault::fetched(Err(VaultError::S3GetObjectError), Err(VaultError::S3GetObjectBodyError), ok()),
        Err(VaultError::S3GetObjectError)
    );
    assert_eq!(
        Vault::fetched(ok(), Err(VaultError::S3GetObjectBodyError), Err(VaultError::S3GetObjectError)),
        Err(VaultError::S3GetObjectBodyError)
    );
    assert_eq!(Vault::fetched(ok(), ok(), Err(VaultError::S3GetObjectError)), Err(VaultError::S3GetObjectError));
}

#[test]
fn lookup_fails_authentication_when_an_artifact_was_altered() {
    let vault = vault("");
    let mut bucket = Bucket::new();
    store(&vault, &mut bucket, "name", b"payload");
    let mut altered = bucket.clone();
    altered.get_mut("name.aesgcm.encrypted").unwrap()[0] ^= 0x01;
    assert_eq!(lookup(&vault, &altered, "name"), Err(VaultError::NonceDecryptError));
    let mut altered = bucket.clone();
    altered.get_mut("name.meta").unwrap()[40] ^= 0x01;
    assert_eq!(lookup(&vault, &altered, "name"), Err(VaultError::NonceDecryptError));
}

#[test]
fn lookup_under_another_secrets_metadata_fails_authentication() {
    let vault = vault("");
    let mut bucket = Bucket::new();
    store(&vault, &mut bucket, "one", b"payload");
    store(&vault, &mut bucket, "two", b"payload");
    let other = bucket["two.meta"].clone();
    bucket.insert("one.meta".to_string(), other);
    assert_eq!(lookup(&vault, &bucket, "one"), Err(VaultError::NonceDecryptError));
}

#[test]
fn lookup_hands_a_failed_unwrap_through() {
    let secret = StoredSecret {
        data_key: vec![1],
        cipher: vec![0; 16],
        meta: b"{\"nonce\":\"AAECAwQFBgcICQoL\",\"alg\":\"aesgcm\"}".to_vec(),
    };
    let vault = vault("");
    assert_eq!(vault.lookup(&secret, Err(VaultError::KMSDecryptError)), Err(VaultError::KMSDecryptError));
    assert_eq!(vault.lookup(&secret, Ok(None)), Err(VaultError::KMSDataKeyPlainTextMissingError));
    assert_eq!(vault.lookup(&secret, Ok(Some(vec![0; 32]))), Err(VaultError::NonceDecryptError));
}

#[test]
fn lookup_judges_the_metadata_before_the_unwrap() {
    let secret = StoredSecret { data_key: vec![1], cipher: vec![0; 16], meta: b"{}".to_vec() };
    assert_eq!(secret.nonce(), Err(VaultError::EncryptObjectMetaToJsonError));
    assert_eq!(
        vault("").lookup(&secret, Err(VaultError::KMSDecryptError)),
        Err(VaultError::EncryptObjectMetaToJsonError)
    );
}

#[test]
fn full_key_name_of_a_vault_uses_its_prefix() {
    assert_eq!(vault("team/").full_key_name("name"), "team/name");
    assert_eq!(vault("").full_key_name("name"), "name");
}

#[test]
fn stack_info_is_a_copy_of_the_parameters() {
    let vault = vault("");
    assert_eq!(vault.stack_info(), vault.cloudformation_params);
}

#[test]
fn prefix_gets_a_slash_unless_it_is_empty_or_has_one() {
    assert_eq!(normalise_prefix(String::new()), "");
    assert_eq!(normalise_prefix("team".to_string()), "team/");
    assert_eq!(normalise_prefix("team/".to_string()), "team/");
    assert_eq!(normalise_prefix("/".to_string()), "/");
    assert_eq!(normalise_prefix("a/b".to_string()), "a/b/");
    assert_eq!(normalise_prefix("ä".to_string()), "ä/");
}

#[test]
fn new_with_bucket_and_key_is_ready() {
    assert_eq!(
        Vault::new(text("stack"), text("eu-north-1"), text("b"), text("k"), text("p"), no_environment()),
        Ok(VaultSetup::Ready(Vault {
            region: "eu-north-1".to_string(),
            prefix: "p/".to_string(),
            cloudformation_params: CloudFormationParams {
                bucket_name: "b".to_string(),
                key_arn: text("k"),
                stack_name: "stack".to_string(),
            },
        }))
    );
}

#[test]
fn new_prefers_arguments_to_the_environment() {
    let environment = Environment {
        vault_stack: text("env-stack"),
        vault_bucket: text("env-bucket"),
        vault_key: text("env-key"),
        vault_prefix: text("env-prefix/"),
    };
    assert_eq!(
        Vault::new(None, text("r"), text("b"), None, None, environment.clone()),
        Ok(VaultSetup::Ready(Vault {
            region: "r".to_string(),
            prefix: "env-prefix/".to_string(),
            cloudformation_params: CloudFormationParams {
                bucket_name: "b".to_string(),
                key_arn: text("env-key"),
                stack_name: "env-stack".to_string(),
            },
        }))
    );
    assert_eq!(
        Vault::default(text("r"), environment),
        Ok(VaultSetup::Ready(Vault {
            region: "r".to_string(),
            prefix: "env-prefix/".to_string(),
            cloudformation_params: CloudFormationParams {
                bucket_name: "env-bucket".to_string(),
                key_arn: text("env-key"),
                stack_name: "env-stack".to_string(),
            },
        }))
    );
}

#[test]
fn new_without_bucket_or_key_reads_the_stack() {
    let lookup = |bucket: Option<String>, key: Option<String>| StackLookup {
        region: "r".to_string(),
        prefix: String::new(),
        stack_name: "vault".to_string(),
        bucket,
        key,
    };
    assert_eq!(Vault::default(text("r"), no_environment()), Ok(VaultSetup::FromStack(lookup(None, None))));
    assert_eq!(
        Vault::new(None, text("r"), text("b"), None, None, no_environment()),
        Ok(VaultSetup::FromStack(lookup(text("b"), None)))
    );
    assert_eq!(
        Vault::new(None, text("r"), None, text("k"), None, no_environment()),
        Ok(VaultSetup::FromStack(lookup(None, text("k"))))
    );
    let environment =
        Environment { vault_stack: None, vault_bucket: None, vault_key: text("env-key"), vault_prefix: None };
    assert_eq!(
        Vault::new(None, text("r"), None, None, None, environment),
        Ok(VaultSetup::FromStack(lookup(None, text("env-key"))))
    );
}

#[test]
fn new_without_region_fails() {
    assert_eq!(
        Vault::new(text("s"), None, text("b"), text("k"), None, no_environment()),
        Err(VaultError::NoRegionError)
    );
    assert_eq!(Vault::default(None, no_environment()), Err(VaultError::NoRegionError));
}

#[test]
fn a_described_stack_completes_the_vault() {
    let lookup = StackLookup {
        region: "r".to_string(),
        prefix: "p/".to_string(),
        stack_name: "vault".to_string(),
        bucket: None,
        key: None,
    };
    let response = Ok(vec![Stack {
        stack_status: Some(StackStatus::CreateComplete),
        stack_status_reason: None,
        outputs: Some(vec![
            StackOutput { output_key: text("vaultBucketName"), output_value: text("stack-bucket") },
            StackOutput { output_key: text("kmsKeyArn"), output_value: text("stack-key") },
        ]),
    }]);
    assert_eq!(
        lookup.clone().on_described(&response),
        Ok(Vault {
            region: "r".to_string(),
            prefix: "p/".to_string(),
            cloudformation_params: CloudFormationParams {
                bucket_name: "stack-bucket".to_string(),
                key_arn: text("stack-key"),
                stack_name: "vault".to_string(),
            },
        })
    );
    assert_eq!(lookup.clone().on_described(&Ok(Vec::new())), Err(VaultError::StackNotFoundError));
    assert_eq!(
        lookup.on_described(&Err(VaultError::DescribeStackError)),
        Err(VaultError::DescribeStackError)
    );
}

#[test]
fn what_is_configured_wins_over_what_the_stack_says() {
    let lookup = |bucket: Option<String>, key: Option<String>| StackLookup {
        region: "r".to_string(),
        prefix: String::new(),
        stack_name: "vault".to_string(),
        bucket,
        key,
    };
    let described = |key: Option<&str>| {
        let mut outputs =
            vec![StackOutput { output_key: text("vaultBucketName"), output_value: text("stack-bucket") }];
        if let Some(key) = key {
            outputs.push(StackOutput { output_key: text("kmsKeyArn"), output_value: text(key) });
        }
        Ok(vec![Stack { stack_status: None, stack_status_reason: None, outputs: Some(outputs) }])
    };
    let params = |vault: Result<Vault, VaultError>| {
        let params = vault.unwrap().cloudformation_params;
        (params.bucket_name, params.key_arn)
    };
    assert_eq!(
        params(lookup(text("my-bucket"), None).on_described(&described(Some("stack-key")))),
        ("my-bucket".to_string(), text("stack-key"))
    );
    assert_eq!(
        params(lookup(None, text("my-key")).on_described(&described(Some("stack-key")))),
        ("stack-bucket".to_string(), text("my-key"))
    );
    assert_eq!(
        params(lookup(None, text("my-key")).on_described(&described(None))),
        ("stack-bucket".to_string(), text("my-key"))
    );
    assert_eq!(
        params(lookup(None, None).on_described(&described(None))),
        ("stack-bucket".to_string(), None)
    );
    let without_bucket = Ok(vec![Stack {
        stack_status: None,
        stack_status_reason: None,
        outputs: Some(vec![StackOutput { output_key: text("kmsKeyArn"), output_value: text("stack-key") }]),
    }]);
    assert_eq!(
        lookup(text("my-bucket"), None).on_described(&without_bucket),
        Err(VaultError::BucketNameMissingError)
    );
    let without_outputs = Ok(vec![Stack { stack_status: None, stack_status_reason: None, outputs: None }]);
    assert_eq!(
        lookup(None, None).on_described(&without_outputs),
        Err(VaultError::StackOutputsMissingError)
    );
}

#[test]
fn init_resolves_stack_and_bucket() {
    assert_eq!(
        Vault::init(None, text("r"), None, no_environment()),
        Ok(InitPlan { stack_name: "vault".to_string(), region: "r".to_string(), bucket: None })
    );
    let environment = Environment {
        vault_stack: text("env-stack"),
        vault_bucket: text("env-bucket"),
        vault_key: None,
        vault_prefix: None,
    };
    assert_eq!(
        Vault::init(None, text("r"), None, environment.clone()),
        Ok(InitPlan { stack_name: "env-stack".to_string(), region: "r".to_string(), bucket: text("env-bucket") })
    );
    assert_eq!(
        Vault::init(text("s"), text("r"), text("b"), environment),
        Ok(InitPlan { stack_name: "s".to_string(), region: "r".to_string(), bucket: text("b") })
    );
    assert_eq!(Vault::init(text("s"), None, text("b"), no_environment()), Err(VaultError::NoRegionError));
}

#[test]
fn update_stack_compares_with_the_current_template() {
    let vault = vault("");
    let data = |version| CloudFormationStackData {
        bucket_name: text("bucket"),
        key_arn: text("arn:key"),
        version,
        status: Some(StackStatus::UpdateComplete),
        status_reason: None,
    };
    assert_eq!(
        vault.update_stack(Ok(data(Some(VAULT_STACK_VERSION)))),
        Ok(UpdateStep::UpToDate(UpdateStackResult::UpToDate { data: data(Some(VAULT_STACK_VERSION)) }))
    );
    match vault.update_stack(Ok(data(Some(VAULT_STACK_VERSION - 1)))) {
        Ok(UpdateStep::Update { request, previous_version }) => {
            assert_eq!(request.stack_name, "vault");
            assert_eq!(previous_version, VAULT_STACK_VERSION - 1);
            assert_eq!(
                Vault::stack_updated(previous_version, Ok(text("id"))),
                Ok(UpdateStackResult::Updated {
                    stack_id: "id".to_string(),
                    previous_version: VAULT_STACK_VERSION - 1,
                    new_version: VAULT_STACK_VERSION,
                })
            );
        }
        other => panic!("expected an update request, got {:?}", other),
    }
    assert_eq!(vault.update_stack(Ok(data(None))), Err(VaultError::StackVersionNotFoundError));
}

#[test]
fn stack_status_reads_the_description() {
    let response = Ok(vec![Stack {
        stack_status: Some(StackStatus::RollbackComplete),
        stack_status_reason: text("reason"),
        outputs: Some(vec![StackOutput { output_key: text("vaultStackVersion"), output_value: text("3") }]),
    }]);
    assert_eq!(
        vault("").stack_status(&response),
        Ok(CloudFormationStackData {
            bucket_name: None,
            key_arn: None,
            version: Some(3),
            status: Some(StackStatus::RollbackComplete),
            status_reason: text("reason"),
        })
    );
}
