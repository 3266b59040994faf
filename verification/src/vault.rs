//! The vault itself: its resolved configuration, and for each operation the
//! requests to send and the meaning of the answers.
//!
//! An operation that needs a remote service is split at each call. The part
//! before the call says what to ask; the part after it takes the answer as
//! an argument. The caller sends the requests, and may send the three object
//! requests of a store or a lookup at the same time.

use vstd::prelude::*;
use vstd::utf8::encode_utf8;

use crate::cipher::{
    decrypt, encrypt, nonce_of, opened, optional_bytes, seal_refusal, sealed, DataKey,
    DataKeyView, EncryptObject, EncryptObjectView, TAG_LENGTH,
};
use crate::cloudformation::{
    get_stack_data, params_of, response_view, CloudFormationParams, CloudFormationParamsView,
    CloudFormationStackData, CloudFormationStackDataView, Stack,
};
use crate::codec::{stored_nonce, NONCE_LENGTH};
use crate::errors::VaultError;
use crate::layout::{base_name, data_keys, full_key_name, listed, secret_names, S3DataKeys};
use crate::stack::{
    answer_view, described_view, finish_update, first_present, plan_update, resolve, update_step,
    updated, InitPlan, UpdateStackResult, UpdateStackResultView, UpdateStep, UpdateStepView,
    VAULT_STACK_VERSION,
};
use crate::value::{classified, Value};

verus! {

/// The configuration that the environment offers, one value for each
/// variable that the vault reads.
#[derive(Debug, Clone, PartialEq, Eq)]
pub struct Environment {
    /// Name of the stack.
    pub vault_stack: Option<String>,
    /// Name of the bucket.
    pub vault_bucket: Option<String>,
    /// Identifier of the master key.
    pub vault_key: Option<String>,
    /// Prefix of the secrets' names.
    pub vault_prefix: Option<String>,
}

/// A vault with its configuration resolved.
#[derive(Debug, Clone, PartialEq, Eq)]
pub struct Vault {
    /// The region the vault lives in.
    pub region: String,
    /// What is put before each secret's name: empty, or ending in a slash.
    pub prefix: String,
    /// The vault's bucket, master key and stack.
    pub cloudformation_params: CloudFormationParams,
}

/// The mathematical content of [`Vault`].
pub struct VaultView {
    pub region: Seq<char>,
    pub prefix: Seq<char>,
    pub cloudformation_params: CloudFormationParamsView,
}

impl View for Vault {
    type V = VaultView;

    open spec fn view(&self) -> VaultView {
        VaultView {
            region: self.region@,
            prefix: self.prefix@,
            cloudformation_params: self.cloudformation_params@,
        }
    }
}

/// A vault whose bucket and key are still to be read from its stack.
#[derive(Debug, Clone, PartialEq, Eq)]
pub struct StackLookup {
    /// The region the vault lives in.
    pub region: String,
    /// What is put before each secret's name.
    pub prefix: String,
    /// Name of the stack to describe.
    pub stack_name: String,
    /// The configured bucket name, if one is configured.
    pub bucket: Option<String>,
    /// The configured master key, if one is configured.
    pub key: Option<String>,
}

/// The mathematical content of [`StackLookup`].
pub struct StackLookupView {
    pub region: Seq<char>,
    pub prefix: Seq<char>,
    pub stack_name: Seq<char>,
    pub bucket: Option<Seq<char>>,
    pub key: Option<Seq<char>>,
}

impl View for StackLookup {
    type V = StackLookupView;

    open spec fn view(&self) -> StackLookupView {
        StackLookupView {
            region: self.region@,
            prefix: self.prefix@,
            stack_name: self.stack_name@,
            bucket: self.bucket.deep_view(),
            key: self.key.deep_view(),
        }
    }
}

/// How far constructing a vault got without asking a remote service.
#[derive(Debug, Clone, PartialEq, Eq)]
pub enum VaultSetup {
    /// Bucket and key are configured: the vault is ready.
    Ready(Vault),
    /// Bucket or key is not configured: describe the stack, then go on with
    /// [`StackLookup::on_described`].
    FromStack(StackLookup),
}

/// The mathematical content of [`VaultSetup`].
pub enum VaultSetupView {
    Ready(VaultView),
    FromStack(StackLookupView),
}

impl View for VaultSetup {
    type V = VaultSetupView;

    open spec fn view(&self) -> VaultSetupView {
        match self {
            VaultSetup::Ready(vault) => VaultSetupView::Ready(vault@),
            VaultSetup::FromStack(lookup) => VaultSetupView::FromStack(lookup@),
        }
    }
}

/// A request that names one object: an existence probe or a fetch.
#[derive(Debug, Clone, PartialEq, Eq)]
pub struct ObjectRequest {
    pub bucket: String,
    pub key: String,
}

/// The mathematical content of [`ObjectRequest`].
pub struct ObjectRequestView {
    pub bucket: Seq<char>,
    pub key: Seq<char>,
}

impl View for ObjectRequest {
    type V = ObjectRequestView;

    open spec fn view(&self) -> ObjectRequestView {
        ObjectRequestView { bucket: self.bucket@, key: self.key@ }
    }
}

impl DeepView for ObjectRequest {
    type V = ObjectRequestView;

    open spec fn deep_view(&self) -> ObjectRequestView {
        self@
    }
}

/// A request to write one object, replacing what is there.
#[derive(Debug, Clone, PartialEq, Eq)]
pub struct PutObject {
    pub bucket: String,
    pub key: String,
    pub body: Vec<u8>,
}

/// The mathematical content of [`PutObject`].
pub struct PutObjectView {
    pub bucket: Seq<char>,
    pub key: Seq<char>,
    pub body: Seq<u8>,
}

impl View for PutObject {
    type V = PutObjectView;

    open spec fn view(&self) -> PutObjectView {
        PutObjectView { bucket: self.bucket@, key: self.key@, body: self.body@ }
    }
}

impl DeepView for PutObject {
    type V = PutObjectView;

    open spec fn deep_view(&self) -> PutObjectView {
        self@
    }
}

/// One request to delete several objects.
#[derive(Debug, Clone, PartialEq, Eq)]
pub struct DeleteObjects {
    pub bucket: String,
    pub keys: Vec<String>,
}

/// The mathematical content of [`DeleteObjects`].
pub struct DeleteObjectsView {
    pub bucket: Seq<char>,
    pub keys: Seq<Seq<char>>,
}

impl View for DeleteObjects {
    type V = DeleteObjectsView;

    open spec fn view(&self) -> DeleteObjectsView {
        DeleteObjectsView { bucket: self.bucket@, keys: self.keys.deep_view() }
    }
}

/// The kind of data key to ask the key-management service for.
#[derive(Debug, Clone, Copy, PartialEq, Eq, Structural)]
pub enum DataKeySpec {
    /// A 128-bit symmetric key.
    Aes128,
    /// A 256-bit symmetric key.
    Aes256,
}

/// A request for a fresh data key under a master key.
#[derive(Debug, Clone, PartialEq, Eq)]
pub struct GenerateDataKey {
    /// Identifier of the master key that wraps the data key.
    pub key_id: String,
    /// The kind of data key asked for.
    pub key_spec: DataKeySpec,
}

/// The mathematical content of [`GenerateDataKey`].
pub struct GenerateDataKeyView {
    pub key_id: Seq<char>,
    pub key_spec: DataKeySpec,
}

impl View for GenerateDataKey {
    type V = GenerateDataKeyView;

    open spec fn view(&self) -> GenerateDataKeyView {
        GenerateDataKeyView { key_id: self.key_id@, key_spec: self.key_spec }
    }
}

/// How an existence probe was answered.
#[derive(Debug, Clone, Copy, PartialEq, Eq, Structural)]
pub enum Probe {
    /// The object is there.
    Found,
    /// The service says that there is no such object.
    NotFound,
    /// The probe failed for another reason.
    Failed,
}

/// The three artifacts of a secret as they were fetched.
#[derive(Debug, Clone, PartialEq, Eq)]
pub struct StoredSecret {
    /// The wrapped data key.
    pub data_key: Vec<u8>,
    /// Cipher text and tag.
    pub cipher: Vec<u8>,
    /// The metadata document.
    pub meta: Vec<u8>,
}

/// The mathematical content of [`StoredSecret`].
pub struct StoredSecretView {
    pub data_key: Seq<u8>,
    pub cipher: Seq<u8>,
    pub meta: Seq<u8>,
}

impl View for StoredSecret {
    type V = StoredSecretView;

    open spec fn view(&self) -> StoredSecretView {
        StoredSecretView { data_key: self.data_key@, cipher: self.cipher@, meta: self.meta@ }
    }
}

/// The name of the stack where none is configured.
pub open spec fn default_stack() -> Seq<char> {
    "vault"@
}

/// A prefix made fit to stand before a name: a prefix that is not empty ends
/// in a slash, and gets one where it has none.
pub open spec fn normalised(prefix: Seq<char>) -> Seq<char> {
    if prefix.len() > 0 && prefix.last() != '/' {
        prefix + "/"@
    } else {
        prefix
    }
}

/// The stack name among an argument and the environment, with the default
/// behind them.
pub open spec fn resolved_stack(argument: Option<Seq<char>>, environment: Option<Seq<char>>)
    -> Seq<char> {
    first_present(argument, environment, Some(default_stack())).unwrap()
}

/// How constructing a vault goes: each value is the argument where one is
/// given, else what the environment offers. Without a region there is no
/// vault. With bucket and key both known the vault is ready; otherwise the
/// stack is asked for what is not known.
pub open spec fn setup(
    vault_stack: Option<Seq<char>>,
    region: Option<Seq<char>>,
    bucket: Option<Seq<char>>,
    key: Option<Seq<char>>,
    prefix: Option<Seq<char>>,
    environment: EnvironmentView,
) -> Result<VaultSetupView, VaultError> {
    let stack_name = resolved_stack(vault_stack, environment.vault_stack);
    let prefix = normalised(
        first_present(prefix, environment.vault_prefix, Some(Seq::empty())).unwrap(),
    );
    match region {
        None => Err(VaultError::NoRegionError),
        Some(region) => match (
            first_present(bucket, environment.vault_bucket, None),
            first_present(key, environment.vault_key, None),
        ) {
            (Some(bucket_name), Some(key_arn)) => Ok(
                VaultSetupView::Ready(
                    VaultView {
                        region,
                        prefix,
                        cloudformation_params: CloudFormationParamsView {
                            bucket_name,
                            key_arn: Some(key_arn),
                            stack_name,
                        },
                    },
                ),
            ),
            (bucket, key) => Ok(
                VaultSetupView::FromStack(
                    StackLookupView { region, prefix, stack_name, bucket, key },
                ),
            ),
        },
    }
}

/// How constructing a vault ends once its stack was described: bucket and
/// key are what was configured, and what the stack's outputs give for the one
/// that was not. The description itself must name the bucket.
pub open spec fn completed(
    lookup: StackLookupView,
    response: Result<Seq<crate::cloudformation::StackView>, VaultError>,
) -> Result<VaultView, VaultError> {
    match params_of(response, lookup.stack_name) {
        Err(error) => Err(error),
        Ok(described) => Ok(
            VaultView {
                region: lookup.region,
                prefix: lookup.prefix,
                cloudformation_params: CloudFormationParamsView {
                    bucket_name: first_present(
                        lookup.bucket,
                        None,
                        Some(described.bucket_name),
                    ).unwrap(),
                    key_arn: first_present(lookup.key, None, described.key_arn),
                    stack_name: lookup.stack_name,
                },
            },
        ),
    }
}

/// The mathematical content of [`Environment`].
pub struct EnvironmentView {
    pub vault_stack: Option<Seq<char>>,
    pub vault_bucket: Option<Seq<char>>,
    pub vault_key: Option<Seq<char>>,
    pub vault_prefix: Option<Seq<char>>,
}

impl View for Environment {
    type V = EnvironmentView;

    open spec fn view(&self) -> EnvironmentView {
        EnvironmentView {
            vault_stack: self.vault_stack.deep_view(),
            vault_bucket: self.vault_bucket.deep_view(),
            vault_key: self.vault_key.deep_view(),
            vault_prefix: self.vault_prefix.deep_view(),
        }
    }
}

/// How initialising begins: stack name and bucket are the argument where one
/// is given, else what the environment offers; the stack name has a default,
/// the bucket has none. Without a region nothing is initialised.
pub open spec fn init_plan(
    vault_stack: Option<Seq<char>>,
    region: Option<Seq<char>>,
    bucket: Option<Seq<char>>,
    environment: EnvironmentView,
) -> Result<(Seq<char>, Seq<char>, Option<Seq<char>>), VaultError> {
    match region {
        None => Err(VaultError::NoRegionError),
        Some(region) => Ok(
            (
                resolved_stack(vault_stack, environment.vault_stack),
                region,
                first_present(bucket, environment.vault_bucket, None),
            ),
        ),
    }
}

/// The three requests that store the artifacts of a sealed payload: cipher
/// text, wrapped key, metadata.
pub open spec fn store_puts(bucket: Seq<char>, base: Seq<char>, sealed: EncryptObjectView) -> Seq<
    PutObjectView,
> {
    seq![
        PutObjectView { bucket, key: data_keys(base).cipher, body: sealed.aes_gcm_ciphertext },
        PutObjectView { bucket, key: data_keys(base).key, body: sealed.data_key },
        PutObjectView { bucket, key: data_keys(base).meta, body: encode_utf8(sealed.meta) },
    ]
}

/// The three requests that fetch the artifacts of a secret: wrapped key,
/// cipher text, metadata.
pub open spec fn lookup_gets(bucket: Seq<char>, base: Seq<char>) -> Seq<ObjectRequestView> {
    seq![
        ObjectRequestView { bucket, key: data_keys(base).key },
        ObjectRequestView { bucket, key: data_keys(base).cipher },
        ObjectRequestView { bucket, key: data_keys(base).meta },
    ]
}

/// All three answers or the first failure: the artifacts where each fetch
/// succeeded, otherwise the failure that comes first in the order key,
/// cipher text, metadata. No artifact is used once one is missing.
pub open spec fn joined(
    data_key: Result<Seq<u8>, VaultError>,
    cipher: Result<Seq<u8>, VaultError>,
    meta: Result<Seq<u8>, VaultError>,
) -> Result<StoredSecretView, VaultError> {
    match (data_key, cipher, meta) {
        (Ok(data_key), Ok(cipher), Ok(meta)) => Ok(StoredSecretView { data_key, cipher, meta }),
        (Err(error), _, _) => Err(error),
        (_, Err(error), _) => Err(error),
        (_, _, Err(error)) => Err(error),
    }
}

/// What a lookup hands back for the fetched artifacts and the answer of the
/// key-management service. The metadata is judged before that answer is.
pub open spec fn looked_up(
    secret: StoredSecretView,
    unwrapped: Result<Option<Seq<u8>>, VaultError>,
) -> Result<Seq<u8>, VaultError> {
    match stored_nonce(secret.meta) {
        Err(error) => Err(error),
        Ok(_) => match unwrapped {
            Err(error) => Err(error),
            Ok(key) => opened(key, secret.cipher, secret.meta),
        },
    }
}

/// The request for the data key of one store: a 256-bit key under the
/// vault's master key, and no request where the vault has no master key.
pub open spec fn data_key_request_of(vault: VaultView) -> Result<GenerateDataKeyView, VaultError> {
    match vault.cloudformation_params.key_arn {
        Some(key_id) => Ok(GenerateDataKeyView { key_id, key_spec: DataKeySpec::Aes256 }),
        None => Err(VaultError::KeyARNMissingError),
    }
}

/// What the answer to a listing request shows: the names read out of the
/// listing, or the failure of the request as it came.
pub open spec fn listing_names(listing: Result<Seq<Option<Seq<char>>>, VaultError>) -> Result<
    Seq<Seq<char>>,
    VaultError,
> {
    match listing {
        Ok(objects) => Ok(listed(objects)),
        Err(error) => Err(error),
    }
}

/// The content of the answer to a listing request, or of the answer to a
/// batch deletion: identifiers, some of which the service may have left out.
pub open spec fn identifiers_view(answer: Result<Vec<Option<String>>, VaultError>) -> Result<
    Seq<Option<Seq<char>>>,
    VaultError,
> {
    match answer {
        Ok(identifiers) => Ok(identifiers.deep_view()),
        Err(error) => Err(error),
    }
}

/// How a deletion ends once the batch request was answered with the objects
/// that could not be deleted: well exactly where the request went through and
/// no object is reported. A failed request is handed through as it came; a
/// failure for some object fails the deletion, and what was deleted stays
/// deleted.
pub open spec fn deletion_outcome(failed: Result<Seq<Option<Seq<char>>>, VaultError>) -> Result<
    (),
    VaultError,
> {
    match failed {
        Err(error) => Err(error),
        Ok(objects) => if objects.len() == 0 {
            Ok(())
        } else {
            Err(VaultError::S3DeleteObjectsError)
        },
    }
}

/// What an existence probe's answer means: only absence becomes `false`.
pub open spec fn probed(probe: Probe) -> Result<bool, VaultError> {
    match probe {
        Probe::Found => Ok(true),
        Probe::NotFound => Ok(false),
        Probe::Failed => Err(VaultError::S3HeadObjectError),
    }
}

/// The content of fetched bytes or the failure to fetch them.
pub open spec fn fetched_view(fetched: Result<Vec<u8>, VaultError>) -> Result<Seq<u8>, VaultError> {
    match fetched {
        Ok(bytes) => Ok(bytes@),
        Err(error) => Err(error),
    }
}

/// The content of the key-management service's answer to an unwrap request.
pub open spec fn unwrapped_view(unwrapped: Result<Option<Vec<u8>>, VaultError>) -> Result<
    Option<Seq<u8>>,
    VaultError,
> {
    match unwrapped {
        Ok(key) => Ok(optional_bytes(key)),
        Err(error) => Err(error),
    }
}

/// Whether `sealed` is what sealing `data` under the answered data key gives
/// for some nonce.
pub open spec fn is_sealing_of(sealed_object: EncryptObjectView, generated: DataKeyView, data: Seq<u8>)
    -> bool {
    exists|nonce: Seq<u8>|
        nonce.len() == NONCE_LENGTH && #[trigger] sealed(generated, nonce, data) == Ok::<
            EncryptObjectView,
            VaultError,
        >(sealed_object)
}

/// Why a vault cannot store a payload under the answered data key; nothing
/// where it can. A vault without a master key stores nothing, whatever the
/// data key.
pub open spec fn store_refusal(vault: VaultView, generated: DataKeyView, data: Seq<u8>) -> Option<
    VaultError,
> {
    if vault.cloudformation_params.key_arn is None {
        Some(VaultError::KeyARNMissingError)
    } else {
        seal_refusal(generated, data)
    }
}

/// Makes a prefix fit to stand before a name. See [`normalised`].
pub fn normalise_prefix(prefix: String) -> (fitted: String)
    ensures
        fitted@ == normalised(prefix@),
{
    let length = prefix.as_str().unicode_len();
    if length > 0 && prefix.as_str().get_char(length - 1) != '/' {
        prefix.concat("/")
    } else {
        prefix
    }
}

impl Vault {
    /// Constructs a vault from arguments and environment alone, as far as
    /// that goes. See [`setup`].
    ///
    /// `region` is the region the configuration settled on, if it settled on
    /// one.
    pub fn new(
        vault_stack: Option<String>,
        region: Option<String>,
        bucket: Option<String>,
        key: Option<String>,
        prefix: Option<String>,
        environment: Environment,
    ) -> (vault: Result<VaultSetup, VaultError>)
        ensures
            match vault {
                Ok(v) => setup(
                    vault_stack.deep_view(),
                    region.deep_view(),
                    bucket.deep_view(),
                    key.deep_view(),
                    prefix.deep_view(),
                    environment@,
                ) == Ok::<VaultSetupView, VaultError>(v@),
                Err(error) => setup(
                    vault_stack.deep_view(),
                    region.deep_view(),
                    bucket.deep_view(),
                    key.deep_view(),
                    prefix.deep_view(),
                    environment@,
                ) == Err::<VaultSetupView, VaultError>(error),
            },
    {
        let region = match region {
            Some(region) => region,
            None => {
                return Err(VaultError::NoRegionError);
            },
        };
        let stack_name = match resolve(
            vault_stack,
            environment.vault_stack,
            Some(String::from_str("vault")),
        ) {
            Some(stack_name) => stack_name,
            None => String::from_str("vault"),
        };
        let bucket = resolve(bucket, environment.vault_bucket, None);
        let key = resolve(key, environment.vault_key, None);
        let prefix = match resolve(prefix, environment.vault_prefix, Some(String::new())) {
            Some(prefix) => normalise_prefix(prefix),
            None => String::new(),
        };
        match (bucket, key) {
            (Some(bucket), Some(key)) => Ok(
                VaultSetup::Ready(
                    Vault {
                        region,
                        prefix,
                        cloudformation_params: CloudFormationParams::new(
                            bucket,
                            Some(key),
                            stack_name,
                        ),
                    },
                ),
            ),
            (bucket, key) => Ok(
                VaultSetup::FromStack(StackLookup { region, prefix, stack_name, bucket, key }),
            ),
        }
    }

    /// Constructs a vault from the environment alone, as far as that goes.
    pub fn default(region: Option<String>, environment: Environment) -> (vault: Result<
        VaultSetup,
        VaultError,
    >)
        ensures
            match vault {
                Ok(v) => setup(None, region.deep_view(), None, None, None, environment@) == Ok::<
                    VaultSetupView,
                    VaultError,
                >(v@),
                Err(error) => setup(None, region.deep_view(), None, None, None, environment@)
                    == Err::<VaultSetupView, VaultError>(error),
            },
    {
        Vault::new(None, region, None, None, None, environment)
    }

    /// Begins initialising a vault: resolves what the stack is called and
    /// which bucket it is to get. See [`init_plan`]. The stack is described
    /// next, and [`InitPlan::on_described`] goes on from there.
    pub fn init(
        vault_stack: Option<String>,
        region: Option<String>,
        bucket: Option<String>,
        environment: Environment,
    ) -> (plan: Result<InitPlan, VaultError>)
        ensures
            match plan {
                Ok(p) => init_plan(
                    vault_stack.deep_view(),
                    region.deep_view(),
                    bucket.deep_view(),
                    environment@,
                ) == Ok::<(Seq<char>, Seq<char>, Option<Seq<char>>), VaultError>(
                    (p.stack_name@, p.region@, p.bucket.deep_view()),
                ),
                Err(error) => init_plan(
                    vault_stack.deep_view(),
                    region.deep_view(),
                    bucket.deep_view(),
                    environment@,
                ) == Err::<(Seq<char>, Seq<char>, Option<Seq<char>>), VaultError>(error),
            },
    {
        let region = match region {
            Some(region) => region,
            None => {
                return Err(VaultError::NoRegionError);
            },
        };
        let stack_name = match resolve(
            vault_stack,
            environment.vault_stack,
            Some(String::from_str("vault")),
        ) {
            Some(stack_name) => stack_name,
            None => String::from_str("vault"),
        };
        let bucket = resolve(bucket, environment.vault_bucket, None);
        Ok(InitPlan { stack_name, region, bucket })
    }

    /// Decides what updating the stack does once the stack was described:
    /// nothing where the deployed template is the current one or a later one,
    /// one update request where it is older.
    pub fn update_stack(&self, described: Result<CloudFormationStackData, VaultError>) -> (step:
        Result<UpdateStep, VaultError>)
        ensures
            match step {
                Ok(s) => update_step(
                    self@.cloudformation_params.stack_name,
                    VAULT_STACK_VERSION,
                    described_view(described),
                ) == Ok::<UpdateStepView, VaultError>(s@),
                Err(error) => update_step(
                    self@.cloudformation_params.stack_name,
                    VAULT_STACK_VERSION,
                    described_view(described),
                ) == Err::<UpdateStepView, VaultError>(error),
            },
    {
        plan_update(self.cloudformation_params.stack_name.as_str(), VAULT_STACK_VERSION, described)
    }

    /// Ends an update once the update request was answered.
    pub fn stack_updated(previous_version: u32, answer: Result<Option<String>, VaultError>) -> (
    result: Result<UpdateStackResult, VaultError>)
        ensures
            match result {
                Ok(r) => updated(previous_version, VAULT_STACK_VERSION, answer_view(answer)) == Ok::<
                    UpdateStackResultView,
                    VaultError,
                >(r@),
                Err(error) => updated(previous_version, VAULT_STACK_VERSION, answer_view(answer))
                    == Err::<UpdateStackResultView, VaultError>(error),
            },
    {
        finish_update(previous_version, VAULT_STACK_VERSION, answer)
    }

    /// Reads the state of the vault's stack out of a description request's
    /// answer.
    pub fn stack_status(&self, response: &Result<Vec<Stack>, VaultError>) -> (data: Result<
        CloudFormationStackData,
        VaultError,
    >)
        ensures
            match data {
                Ok(d) => crate::cloudformation::described(response_view(*response)) == Ok::<
                    CloudFormationStackDataView,
                    VaultError,
                >(d@),
                Err(error) => crate::cloudformation::described(response_view(*response)) == Err::<
                    CloudFormationStackDataView,
                    VaultError,
                >(error),
            },
    {
        get_stack_data(response)
    }

    /// The vault's bucket, master key and stack: a copy, which later changes
    /// to the stack do not reach.
    pub fn stack_info(&self) -> (params: CloudFormationParams)
        ensures
            params@ == self@.cloudformation_params,
    {
        CloudFormationParams {
            bucket_name: self.cloudformation_params.bucket_name.clone(),
            key_arn: match &self.cloudformation_params.key_arn {
                Some(key_arn) => Some(key_arn.clone()),
                None => None,
            },
            stack_name: self.cloudformation_params.stack_name.clone(),
        }
    }

    /// The base identifier of a secret: the prefix, then the name.
    pub fn full_key_name(&self, name: &str) -> (base: String)
        ensures
            base@ == base_name(self@.prefix, name@),
    {
        full_key_name(self.prefix.as_str(), name)
    }

    /// The three object identifiers of a secret.
    pub fn data_keys(&self, name: &str) -> (keys: S3DataKeys)
        ensures
            keys@ == data_keys(base_name(self@.prefix, name@)),
    {
        let base = self.full_key_name(name);
        S3DataKeys::new(base.as_str())
    }

    /// The bucket to list for the names of all secrets: one listing request,
    /// of the whole bucket.
    pub fn list_request(&self) -> (bucket: String)
        ensures
            bucket@ == self@.cloudformation_params.bucket_name,
    {
        self.cloudformation_params.bucket_name.clone()
    }

    /// Reads the answer to the listing request back into the names of the
    /// secrets in the bucket: one for each listed cipher-text object, its
    /// suffix taken off. `listing` holds the identifier of each listed object,
    /// or nothing for an object listed without one. A failed request is handed
    /// through as it came.
    pub fn all(&self, listing: &Result<Vec<Option<String>>, VaultError>) -> (names: Result<
        Vec<String>,
        VaultError,
    >)
        ensures
            match names {
                Ok(n) => listing_names(identifiers_view(*listing)) == Ok::<
                    Seq<Seq<char>>,
                    VaultError,
                >(n.deep_view()),
                Err(error) => listing_names(identifiers_view(*listing)) == Err::<
                    Seq<Seq<char>>,
                    VaultError,
                >(error),
            },
    {
        match listing {
            Ok(objects) => Ok(secret_names(objects)),
            Err(error) => Err(*error),
        }
    }

    /// The probe that decides whether a secret exists: one probe, of the
    /// object that holds the wrapped key.
    pub fn exists_probe(&self, name: &str) -> (probe: ObjectRequest)
        ensures
            probe@ == (ObjectRequestView {
                bucket: self@.cloudformation_params.bucket_name,
                key: data_keys(base_name(self@.prefix, name@)).key,
            }),
    {
        let keys = self.data_keys(name);
        ObjectRequest { bucket: self.cloudformation_params.bucket_name.clone(), key: keys.key }
    }

    /// What the existence probe's answer means.
    pub fn secret_exists(&self, probe: Probe) -> (found: Result<bool, VaultError>)
        ensures
            found == probed(probe),
    {
        match probe {
            Probe::Found => Ok(true),
            Probe::NotFound => Ok(false),
            Probe::Failed => Err(VaultError::S3HeadObjectError),
        }
    }

    /// The request for the data key of one store, before anything is sealed:
    /// a fresh 256-bit key under the vault's master key.
    pub fn data_key_request(&self) -> (request: Result<GenerateDataKey, VaultError>)
        ensures
            match request {
                Ok(r) => data_key_request_of(self@) == Ok::<GenerateDataKeyView, VaultError>(r@),
                Err(error) => data_key_request_of(self@) == Err::<
                    GenerateDataKeyView,
                    VaultError,
                >(error),
            },
    {
        match &self.cloudformation_params.key_arn {
            Some(key_arn) => Ok(
                GenerateDataKey { key_id: key_arn.clone(), key_spec: DataKeySpec::Aes256 },
            ),
            None => Err(VaultError::KeyARNMissingError),
        }
    }

    /// The three requests that store the artifacts of a sealed payload under
    /// `name`.
    pub fn store_requests(&self, name: &str, sealed_object: EncryptObject) -> (puts: Vec<PutObject>)
        ensures
            puts.deep_view() == store_puts(
                self@.cloudformation_params.bucket_name,
                base_name(self@.prefix, name@),
                sealed_object@,
            ),
    {
        let keys = self.data_keys(name);
        let meta_bytes = sealed_object.meta.as_str().as_bytes_vec();
        let mut puts: Vec<PutObject> = Vec::new();
        puts.push(
            PutObject {
                bucket: self.cloudformation_params.bucket_name.clone(),
                key: keys.cipher,
                body: sealed_object.aes_gcm_ciphertext,
            },
        );
        puts.push(
            PutObject {
                bucket: self.cloudformation_params.bucket_name.clone(),
                key: keys.key,
                body: sealed_object.data_key,
            },
        );
        puts.push(
            PutObject {
                bucket: self.cloudformation_params.bucket_name.clone(),
                key: keys.meta,
                body: meta_bytes,
            },
        );
        assert(puts.deep_view() =~= store_puts(
            self@.cloudformation_params.bucket_name,
            base_name(self@.prefix, name@),
            sealed_object@,
        ));
        puts
    }

    /// Seals `data` under the answered data key and says what to write.
    ///
    /// The three requests carry the artifacts of one sealing of `data`, and
    /// those artifacts open to `data` again. Nothing is requested where the
    /// vault has no master key or the payload cannot be sealed.
    pub fn store(&self, name: &str, data: &[u8], generated: &DataKey) -> (puts: Result<
        Vec<PutObject>,
        VaultError,
    >)
        ensures
            match puts {
                Ok(p) => exists|sealed_object: EncryptObjectView|
                    {
                        &&& #[trigger] is_sealing_of(sealed_object, generated@, data@)
                        &&& opened(
                            generated@.plaintext,
                            sealed_object.aes_gcm_ciphertext,
                            encode_utf8(sealed_object.meta),
                        ) == Ok::<Seq<u8>, VaultError>(data@)
                        &&& sealed_object.aes_gcm_ciphertext.len() == data@.len() + TAG_LENGTH
                        &&& p.deep_view() == store_puts(
                            self@.cloudformation_params.bucket_name,
                            base_name(self@.prefix, name@),
                            sealed_object,
                        )
                    },
                Err(error) => error == store_refusal(self@, generated@, data@).unwrap_or(
                    VaultError::CiphertextEncryptionError,
                ),
            },
            store_refusal(self@, generated@, data@) is Some ==> puts is Err,
    {
        if self.cloudformation_params.key_arn.is_none() {
            return Err(VaultError::KeyARNMissingError);
        }
        match encrypt(generated, data) {
            Ok(sealed_object) => {
                let ghost content = sealed_object@;
                let puts = self.store_requests(name, sealed_object);
                assert(is_sealing_of(content, generated@, data@));
                Ok(puts)
            },
            Err(error) => Err(error),
        }
    }

    /// The three requests that fetch the artifacts of a secret.
    pub fn lookup_requests(&self, name: &str) -> (gets: Vec<ObjectRequest>)
        ensures
            gets.deep_view() == lookup_gets(
                self@.cloudformation_params.bucket_name,
                base_name(self@.prefix, name@),
            ),
    {
        let keys = self.data_keys(name);
        let mut gets: Vec<ObjectRequest> = Vec::new();
        gets.push(
            ObjectRequest { bucket: self.cloudformation_params.bucket_name.clone(), key: keys.key },
        );
        gets.push(
            ObjectRequest {
                bucket: self.cloudformation_params.bucket_name.clone(),
                key: keys.cipher,
            },
        );
        gets.push(
            ObjectRequest { bucket: self.cloudformation_params.bucket_name.clone(), key: keys.meta },
        );
        assert(gets.deep_view() =~= lookup_gets(
            self@.cloudformation_params.bucket_name,
            base_name(self@.prefix, name@),
        ));
        gets
    }

    /// Joins the answers to the three fetches. See [`joined`].
    pub fn fetched(
        data_key: Result<Vec<u8>, VaultError>,
        cipher: Result<Vec<u8>, VaultError>,
        meta: Result<Vec<u8>, VaultError>,
    ) -> (secret: Result<StoredSecret, VaultError>)
        ensures
            match secret {
                Ok(s) => joined(fetched_view(data_key), fetched_view(cipher), fetched_view(meta))
                    == Ok::<StoredSecretView, VaultError>(s@),
                Err(error) => joined(
                    fetched_view(data_key),
                    fetched_view(cipher),
                    fetched_view(meta),
                ) == Err::<StoredSecretView, VaultError>(error),
            },
    {
        let data_key = match data_key {
            Ok(data_key) => data_key,
            Err(error) => {
                return Err(error);
            },
        };
        let cipher = match cipher {
            Ok(cipher) => cipher,
            Err(error) => {
                return Err(error);
            },
        };
        let meta = match meta {
            Ok(meta) => meta,
            Err(error) => {
                return Err(error);
            },
        };
        Ok(StoredSecret { data_key, cipher, meta })
    }

    /// Opens a fetched secret with the key-management service's answer to the
    /// request to unwrap its data key, and classifies the payload.
    ///
    /// Malformed metadata is reported whatever the service answered. A
    /// payload is handed out only as the cipher authenticated it.
    pub fn lookup(&self, secret: &StoredSecret, unwrapped: Result<Option<Vec<u8>>, VaultError>) -> (
    value: Result<Value, VaultError>)
        ensures
            match value {
                Ok(v) => looked_up(secret@, unwrapped_view(unwrapped)) == Ok::<Seq<u8>, VaultError>(
                    v@.bytes(),
                ) && v@ == classified(v@.bytes()),
                Err(error) => looked_up(secret@, unwrapped_view(unwrapped)) == Err::<
                    Seq<u8>,
                    VaultError,
                >(error),
            },
    {
        match nonce_of(secret.meta.as_slice()) {
            Ok(_) => {},
            Err(error) => {
                return Err(error);
            },
        }
        match unwrapped {
            Err(error) => Err(error),
            Ok(key) => decrypt(&key, secret.cipher.as_slice(), secret.meta.as_slice()),
        }
    }

    /// Says what to delete for a secret that the existence probe found, and
    /// refuses where it found none: one request that names all three
    /// artifacts.
    pub fn delete(&self, name: &str, found: bool) -> (request: Result<DeleteObjects, VaultError>)
        ensures
            match request {
                Ok(r) => found && r@ == (DeleteObjectsView {
                    bucket: self@.cloudformation_params.bucket_name,
                    keys: data_keys(base_name(self@.prefix, name@)).identifiers(),
                }),
                Err(error) => !found && error == VaultError::S3DeleteObjectKeyMissingError,
            },
    {
        if !found {
            return Err(VaultError::S3DeleteObjectKeyMissingError);
        }
        let keys = self.data_keys(name);
        Ok(
            DeleteObjects {
                bucket: self.cloudformation_params.bucket_name.clone(),
                keys: keys.to_object_identifiers(),
            },
        )
    }
}

impl Vault {
    /// Ends a deletion once the batch request was answered. `failed` holds
    /// the identifier of each object that the answer reports as not deleted,
    /// or nothing for one reported without identifier. See
    /// [`deletion_outcome`].
    pub fn deleted(failed: &Result<Vec<Option<String>>, VaultError>) -> (outcome: Result<
        (),
        VaultError,
    >)
        ensures
            outcome == deletion_outcome(identifiers_view(*failed)),
    {
        match failed {
            Err(error) => Err(*error),
            Ok(objects) => {
                if objects.len() == 0 {
                    Ok(())
                } else {
                    Err(VaultError::S3DeleteObjectsError)
                }
            },
        }
    }
}

impl StoredSecret {
    /// The nonce that the fetched metadata names. Asking for it before the
    /// key-management service is asked spares the request where the metadata
    /// is malformed.
    pub fn nonce(&self) -> (nonce: Result<[u8; 12], VaultError>)
        ensures
            match nonce {
                Ok(n) => stored_nonce(self@.meta) == Ok::<Seq<u8>, VaultError>(n@),
                Err(error) => stored_nonce(self@.meta) == Err::<Seq<u8>, VaultError>(error),
            },
    {
        nonce_of(self.meta.as_slice())
    }
}

impl StackLookup {
    /// Completes the vault once its stack was described. See [`completed`].
    pub fn on_described(self, response: &Result<Vec<Stack>, VaultError>) -> (vault: Result<
        Vault,
        VaultError,
    >)
        ensures
            match vault {
                Ok(v) => completed(self@, response_view(*response)) == Ok::<VaultView, VaultError>(
                    v@,
                ),
                Err(error) => completed(self@, response_view(*response)) == Err::<
                    VaultView,
                    VaultError,
                >(error),
            },
    {
        let described = match CloudFormationParams::from_stack(response, self.stack_name) {
            Ok(described) => described,
            Err(error) => {
                return Err(error);
            },
        };
        let bucket_name = match resolve(self.bucket, None, None) {
            Some(bucket_name) => bucket_name,
            None => described.bucket_name,
        };
        let key_arn = resolve(self.key, None, described.key_arn);
        Ok(
            Vault {
                region: self.region,
                prefix: self.prefix,
                cloudformation_params: CloudFormationParams::new(
                    bucket_name,
                    key_arn,
                    described.stack_name,
                ),
            },
        )
    }
}

} // verus!
