//! Reading the description of the infrastructure stack: its status and the
//! outputs that tell the vault where its bucket and master key are.

use vstd::prelude::*;

use crate::errors::VaultError;

verus! {

/// The state the orchestration service reports for a stack.
#[derive(Debug, Clone, Copy, PartialEq, Eq, Structural)]
pub enum StackStatus {
    CreateComplete,
    CreateFailed,
    CreateInProgress,
    DeleteComplete,
    DeleteFailed,
    DeleteInProgress,
    ImportComplete,
    ImportInProgress,
    ImportRollbackComplete,
    ImportRollbackFailed,
    ImportRollbackInProgress,
    ReviewInProgress,
    RollbackComplete,
    RollbackFailed,
    RollbackInProgress,
    UpdateComplete,
    UpdateCompleteCleanupInProgress,
    UpdateFailed,
    UpdateInProgress,
    UpdateRollbackComplete,
    UpdateRollbackCompleteCleanupInProgress,
    UpdateRollbackFailed,
    UpdateRollbackInProgress,
    /// A status this library has no name for.
    Unknown,
}

impl StackStatus {
    /// Whether a stack in this state exists without being usable: its
    /// creation or its rollback failed, or it is being or has been deleted.
    /// Such a stack is reported, never repaired.
    pub open spec fn is_failed_state(self) -> bool {
        ||| self is CreateFailed
        ||| self is RollbackFailed
        ||| self is DeleteFailed
        ||| self is DeleteInProgress
        ||| self is DeleteComplete
    }

    /// Computes [`StackStatus::is_failed_state`].
    pub fn failed_state(&self) -> (failed: bool)
        ensures
            failed == self.is_failed_state(),
    {
        match self {
            StackStatus::CreateFailed
            | StackStatus::RollbackFailed
            | StackStatus::DeleteFailed
            | StackStatus::DeleteInProgress
            | StackStatus::DeleteComplete => true,
            _ => false,
        }
    }
}

/// One output of a described stack.
#[derive(Debug, Clone, PartialEq, Eq)]
pub struct StackOutput {
    /// The output's name, if it has one.
    pub output_key: Option<String>,
    /// The output's value, if it has one.
    pub output_value: Option<String>,
}

/// The mathematical content of [`StackOutput`].
pub struct StackOutputView {
    pub output_key: Option<Seq<char>>,
    pub output_value: Option<Seq<char>>,
}

impl View for StackOutput {
    type V = StackOutputView;

    open spec fn view(&self) -> StackOutputView {
        StackOutputView {
            output_key: self.output_key.deep_view(),
            output_value: self.output_value.deep_view(),
        }
    }
}

impl DeepView for StackOutput {
    type V = StackOutputView;

    open spec fn deep_view(&self) -> StackOutputView {
        self@
    }
}

/// One stack as the orchestration service describes it.
#[derive(Debug, Clone, PartialEq, Eq)]
pub struct Stack {
    /// The reported state.
    pub stack_status: Option<StackStatus>,
    /// The reason the service gives for the state.
    pub stack_status_reason: Option<String>,
    /// The outputs, if the description carries a list of them.
    pub outputs: Option<Vec<StackOutput>>,
}

/// The mathematical content of [`Stack`].
pub struct StackView {
    pub stack_status: Option<StackStatus>,
    pub stack_status_reason: Option<Seq<char>>,
    pub outputs: Option<Seq<StackOutputView>>,
}

impl View for Stack {
    type V = StackView;

    open spec fn view(&self) -> StackView {
        StackView {
            stack_status: self.stack_status,
            stack_status_reason: self.stack_status_reason.deep_view(),
            outputs: self.outputs.deep_view(),
        }
    }
}

impl DeepView for Stack {
    type V = StackView;

    open spec fn deep_view(&self) -> StackView {
        self@
    }
}

/// What the vault reads out of a stack description.
#[derive(Debug, Clone, PartialEq, Eq)]
pub struct CloudFormationStackData {
    /// Name of the vault's bucket.
    pub bucket_name: Option<String>,
    /// Identifier of the vault's master key.
    pub key_arn: Option<String>,
    /// Version of the template the stack was last deployed from.
    pub version: Option<u32>,
    /// The reported state.
    pub status: Option<StackStatus>,
    /// The reason the service gives for the state.
    pub status_reason: Option<String>,
}

/// The mathematical content of [`CloudFormationStackData`].
pub struct CloudFormationStackDataView {
    pub bucket_name: Option<Seq<char>>,
    pub key_arn: Option<Seq<char>>,
    pub version: Option<u32>,
    pub status: Option<StackStatus>,
    pub status_reason: Option<Seq<char>>,
}

impl View for CloudFormationStackData {
    type V = CloudFormationStackDataView;

    open spec fn view(&self) -> CloudFormationStackDataView {
        CloudFormationStackDataView {
            bucket_name: self.bucket_name.deep_view(),
            key_arn: self.key_arn.deep_view(),
            version: self.version,
            status: self.status,
            status_reason: self.status_reason.deep_view(),
        }
    }
}

/// Where a vault keeps its secrets and under which key.
#[derive(Debug, Clone, PartialEq, Eq)]
pub struct CloudFormationParams {
    /// Name of the vault's bucket.
    pub bucket_name: String,
    /// Identifier of the vault's master key; without it nothing can be stored.
    pub key_arn: Option<String>,
    /// Name of the stack that the vault belongs to.
    pub stack_name: String,
}

/// The mathematical content of [`CloudFormationParams`].
pub struct CloudFormationParamsView {
    pub bucket_name: Seq<char>,
    pub key_arn: Option<Seq<char>>,
    pub stack_name: Seq<char>,
}

impl View for CloudFormationParams {
    type V = CloudFormationParamsView;

    open spec fn view(&self) -> CloudFormationParamsView {
        CloudFormationParamsView {
            bucket_name: self.bucket_name@,
            key_arn: self.key_arn.deep_view(),
            stack_name: self.stack_name@,
        }
    }
}

/// Name of the output that holds the bucket's name.
pub open spec fn bucket_output() -> Seq<char> {
    "vaultBucketName"@
}

/// Name of the output that holds the master key's identifier.
pub open spec fn key_output() -> Seq<char> {
    "kmsKeyArn"@
}

/// Name of the output that holds the deployed template version.
pub open spec fn version_output() -> Seq<char> {
    "vaultStackVersion"@
}

/// The value of a decimal digit.
pub open spec fn digit_value(c: char) -> nat {
    (c as nat - '0' as nat) as nat
}

/// Whether a character is a decimal digit.
pub open spec fn is_digit(c: char) -> bool {
    '0' <= c <= '9'
}

/// Whether every character of a text is a decimal digit.
pub open spec fn all_digits(text: Seq<char>) -> bool {
    forall|i: int| 0 <= i < text.len() ==> is_digit(#[trigger] text[i])
}

/// The number that a text of decimal digits writes.
pub open spec fn decimal_value(digits: Seq<char>) -> nat
    decreases digits.len(),
{
    if digits.len() == 0 {
        0
    } else {
        decimal_value(digits.drop_last()) * 10 + digit_value(digits.last())
    }
}

/// The digits of a version text: the text itself, without one leading plus
/// sign if it has one.
pub open spec fn version_digits(text: Seq<char>) -> Seq<char> {
    if text.len() > 0 && text[0] == '+' {
        text.subrange(1, text.len() as int)
    } else {
        text
    }
}

/// The template version that a text writes: one or more decimal digits,
/// after an optional plus sign, of a value that fits 32 bits. Any other text
/// writes no version.
pub open spec fn version_of(text: Seq<char>) -> Option<u32> {
    let digits = version_digits(text);
    if digits.len() > 0 && all_digits(digits) && decimal_value(digits) <= u32::MAX {
        Some(decimal_value(digits) as u32)
    } else {
        None
    }
}

/// A number does not get smaller when digits are appended to its text.
proof fn lemma_decimal_value_grows(digits: Seq<char>, shorter: int)
    requires
        0 <= shorter <= digits.len(),
        all_digits(digits),
    ensures
        decimal_value(digits.take(shorter)) <= decimal_value(digits),
    decreases digits.len() - shorter,
{
    if shorter == digits.len() {
        assert(digits.take(shorter) =~= digits);
    } else {
        let longer = digits.take(shorter + 1);
        assert(longer.drop_last() =~= digits.take(shorter));
        assert(longer.last() == digits[shorter]);
        assert(is_digit(digits[shorter]));
        lemma_decimal_value_grows(digits, shorter + 1);
    }
}

/// Reads a template version. See [`version_of`].
pub fn parse_version(text: &str) -> (version: Option<u32>)
    ensures
        version == version_of(text@),
{
    let length = text.unicode_len();
    if length == 0 {
        return None;
    }
    let start: usize = if text.get_char(0) == '+' {
        1
    } else {
        0
    };
    let ghost digits = version_digits(text@);
    if start == length {
        return None;
    }
    let mut value: u64 = 0;
    let mut i: usize = start;
    assert(digits.take(0) =~= Seq::<char>::empty());
    while i < length
        invariant
            start <= i <= length,
            length == text@.len(),
            digits == version_digits(text@),
            digits.len() == length - start,
            forall|j: int| 0 <= j < digits.len() ==> digits[j] == text@[j + start],
            all_digits(digits.take(i - start)),
            value == decimal_value(digits.take(i - start)),
            value <= u32::MAX,
        decreases length - i,
    {
        let c = text.get_char(i);
        let ghost seen = digits.take(i - start + 1);
        assert(seen.drop_last() =~= digits.take(i - start));
        assert(seen.last() == c);
        if !('0' <= c && c <= '9') {
            assert(!is_digit(digits[i - start]));
            return None;
        }
        let digit: u64 = (c as u32 - '0' as u32) as u64;
        assert(digit == digit_value(c));
        let next: u64 = value * 10 + digit;
        assert forall|j: int| 0 <= j < seen.len() implies is_digit(#[trigger] seen[j]) by {
            if j < seen.len() - 1 {
                assert(is_digit(digits.take(i - start)[j]));
            }
        }
        if next > u32::MAX as u64 {
            proof {
                if all_digits(digits) {
                    lemma_decimal_value_grows(digits, i - start + 1);
                }
            }
            return None;
        }
        value = next;
        i += 1;
    }
    assert(digits.take(i - start) =~= digits);
    Some(value as u32)
}

/// The value that a list of outputs gives for a name: that of the last
/// output of the name that carries a value.
pub open spec fn output_value(outputs: Seq<StackOutputView>, name: Seq<char>) -> Option<Seq<char>>
    decreases outputs.len(),
{
    if outputs.len() == 0 {
        None
    } else {
        let last = outputs.last();
        if last.output_key == Some(name) && last.output_value is Some {
            last.output_value
        } else {
            output_value(outputs.drop_last(), name)
        }
    }
}

/// The template version that a list of outputs gives: that of the last
/// version output whose value writes a version.
pub open spec fn output_version(outputs: Seq<StackOutputView>) -> Option<u32>
    decreases outputs.len(),
{
    if outputs.len() == 0 {
        None
    } else {
        let last = outputs.last();
        if last.output_key == Some(version_output()) && last.output_value is Some && version_of(
            last.output_value.unwrap(),
        ) is Some {
            version_of(last.output_value.unwrap())
        } else {
            output_version(outputs.drop_last())
        }
    }
}

/// The outputs of a stack, none where the description carries no list.
pub open spec fn outputs_of(stack: StackView) -> Seq<StackOutputView> {
    match stack.outputs {
        Some(outputs) => outputs,
        None => Seq::empty(),
    }
}

/// What the vault reads out of one described stack.
pub open spec fn stack_data_of(stack: StackView) -> CloudFormationStackDataView {
    CloudFormationStackDataView {
        bucket_name: output_value(outputs_of(stack), bucket_output()),
        key_arn: output_value(outputs_of(stack), key_output()),
        version: output_version(outputs_of(stack)),
        status: stack.stack_status,
        status_reason: stack.stack_status_reason,
    }
}

/// What a description request's answer tells of the stack asked for: the
/// data of the first stack in it. An answer without a stack means that there
/// is no such stack; a failed request is handed through as it came.
pub open spec fn described(response: Result<Seq<StackView>, VaultError>) -> Result<
    CloudFormationStackDataView,
    VaultError,
> {
    match response {
        Err(error) => Err(error),
        Ok(stacks) => if stacks.len() == 0 {
            Err(VaultError::StackNotFoundError)
        } else {
            Ok(stack_data_of(stacks[0]))
        },
    }
}

/// The vault's parameters as a description request's answer gives them for
/// the stack `stack_name`: the bucket must be named, the key need not be.
pub open spec fn params_of(response: Result<Seq<StackView>, VaultError>, stack_name: Seq<char>)
    -> Result<CloudFormationParamsView, VaultError> {
    match response {
        Err(error) => Err(error),
        Ok(stacks) => if stacks.len() == 0 {
            Err(VaultError::StackNotFoundError)
        } else {
            match stacks[0].outputs {
                None => Err(VaultError::StackOutputsMissingError),
                Some(outputs) => match output_value(outputs, bucket_output()) {
                    None => Err(VaultError::BucketNameMissingError),
                    Some(bucket_name) => Ok(
                        CloudFormationParamsView {
                            bucket_name,
                            key_arn: output_value(outputs, key_output()),
                            stack_name,
                        },
                    ),
                },
            }
        },
    }
}

/// The content of a description request's answer.
pub open spec fn response_view(response: Result<Vec<Stack>, VaultError>) -> Result<
    Seq<StackView>,
    VaultError,
> {
    match response {
        Ok(stacks) => Ok(stacks.deep_view()),
        Err(error) => Err(error),
    }
}

/// Whether two texts are the same.
fn same_text(a: &str, b: &str) -> (same: bool)
    ensures
        same == (a@ == b@),
{
    let a = String::from_str(a);
    let b = String::from_str(b);
    a == b
}

/// Looks an output up by name. See [`output_value`].
pub fn find_output(outputs: &Vec<StackOutput>, name: &str) -> (value: Option<String>)
    ensures
        value.deep_view() == output_value(outputs.deep_view(), name@),
{
    let mut i: usize = outputs.len();
    let ghost all = outputs.deep_view();
    assert(all.take(i as int) =~= all);
    while i > 0
        invariant
            i <= outputs.len(),
            all == outputs.deep_view(),
            output_value(all, name@) == output_value(all.take(i as int), name@),
        decreases i,
    {
        let ghost seen = all.take(i as int);
        assert(seen.drop_last() =~= all.take(i - 1));
        assert(seen.last() == outputs[i - 1]@);
        i -= 1;
        let output = &outputs[i];
        match (&output.output_key, &output.output_value) {
            (Some(key), Some(value)) => {
                if same_text(key.as_str(), name) {
                    return Some(value.clone());
                }
            },
            _ => {},
        }
    }
    None
}

/// Looks the deployed template version up. See [`output_version`].
pub fn find_version(outputs: &Vec<StackOutput>) -> (version: Option<u32>)
    ensures
        version == output_version(outputs.deep_view()),
{
    let mut i: usize = outputs.len();
    let ghost all = outputs.deep_view();
    assert(all.take(i as int) =~= all);
    while i > 0
        invariant
            i <= outputs.len(),
            all == outputs.deep_view(),
            output_version(all) == output_version(all.take(i as int)),
        decreases i,
    {
        let ghost seen = all.take(i as int);
        assert(seen.drop_last() =~= all.take(i - 1));
        assert(seen.last() == outputs[i - 1]@);
        i -= 1;
        let output = &outputs[i];
        match (&output.output_key, &output.output_value) {
            (Some(key), Some(value)) => {
                if same_text(key.as_str(), "vaultStackVersion") {
                    match parse_version(value.as_str()) {
                        Some(version) => {
                            return Some(version);
                        },
                        None => {},
                    }
                }
            },
            _ => {},
        }
    }
    None
}

/// Reads the stack data out of a description request's answer.
pub fn get_stack_data(response: &Result<Vec<Stack>, VaultError>) -> (data: Result<
    CloudFormationStackData,
    VaultError,
>)
    ensures
        match data {
            Ok(d) => described(response_view(*response)) == Ok::<
                CloudFormationStackDataView,
                VaultError,
            >(d@),
            Err(error) => described(response_view(*response)) == Err::<
                CloudFormationStackDataView,
                VaultError,
            >(error),
        },
{
    let stacks = match response {
        Ok(stacks) => stacks,
        Err(error) => {
            return Err(*error);
        },
    };
    if stacks.len() == 0 {
        return Err(VaultError::StackNotFoundError);
    }
    let stack = &stacks[0];
    assert(stacks.deep_view()[0] == stack@);
    let data = match &stack.outputs {
        Some(outputs) => CloudFormationStackData {
            bucket_name: find_output(outputs, "vaultBucketName"),
            key_arn: find_output(outputs, "kmsKeyArn"),
            version: find_version(outputs),
            status: stack.stack_status,
            status_reason: stack.stack_status_reason.clone(),
        },
        None => CloudFormationStackData {
            bucket_name: None,
            key_arn: None,
            version: None,
            status: stack.stack_status,
            status_reason: stack.stack_status_reason.clone(),
        },
    };
    Ok(data)
}

impl CloudFormationParams {
    /// Parameters that are known without asking the stack.
    pub fn new(bucket_name: String, key_arn: Option<String>, stack_name: String) -> (params:
        CloudFormationParams)
        ensures
            params@ == (CloudFormationParamsView {
                bucket_name: bucket_name@,
                key_arn: key_arn.deep_view(),
                stack_name: stack_name@,
            }),
    {
        CloudFormationParams { bucket_name, key_arn, stack_name }
    }

    /// Parameters read out of a description request's answer for the stack
    /// `stack_name`.
    pub fn from_stack(response: &Result<Vec<Stack>, VaultError>, stack_name: String) -> (params:
        Result<CloudFormationParams, VaultError>)
        ensures
            match params {
                Ok(p) => params_of(response_view(*response), stack_name@) == Ok::<
                    CloudFormationParamsView,
                    VaultError,
                >(p@),
                Err(error) => params_of(response_view(*response), stack_name@) == Err::<
                    CloudFormationParamsView,
                    VaultError,
                >(error),
            },
    {
        let stacks = match response {
            Ok(stacks) => stacks,
            Err(error) => {
                return Err(*error);
            },
        };
        if stacks.len() == 0 {
            return Err(VaultError::StackNotFoundError);
        }
        let stack = &stacks[0];
        assert(stacks.deep_view()[0] == stack@);
        let outputs = match &stack.outputs {
            Some(outputs) => outputs,
            None => {
                return Err(VaultError::StackOutputsMissingError);
            },
        };
        let bucket_name = match find_output(outputs, "vaultBucketName") {
            Some(bucket_name) => bucket_name,
            None => {
                return Err(VaultError::BucketNameMissingError);
            },
        };
        let key_arn = find_output(outputs, "kmsKeyArn");
        Ok(CloudFormationParams { bucket_name, key_arn, stack_name })
    }
}

} // verus!
