//! The life of the infrastructure stack: finding out whether it is there,
//! creating it where it is not, and upgrading it where its template is older
//! than the one this library ships with.
//!
//! Each function looks at one answer of a remote service and decides the next
//! request. The caller sends the requests.

use vstd::prelude::*;

use crate::cloudformation::{CloudFormationStackData, CloudFormationStackDataView, StackStatus};
use crate::errors::VaultError;

verus! {

/// Version of the template that this library deploys.
pub const VAULT_STACK_VERSION: u32 = 27;

/// Name of the template parameter that holds the bucket's name.
pub open spec fn bucket_parameter() -> Seq<char> {
    "paramBucketName"@
}

/// A permission that a stack request must acknowledge.
#[derive(Debug, Clone, Copy, PartialEq, Eq, Structural)]
pub enum Capability {
    /// The template creates identity and access resources.
    CapabilityIam,
}

/// The permissions that every request that changes the stack acknowledges:
/// the template creates identity and access resources.
pub open spec fn acknowledged() -> Seq<Capability> {
    seq![Capability::CapabilityIam]
}

/// A request to create the stack from the current template.
#[derive(Debug, Clone, PartialEq, Eq)]
pub struct CreateStackRequest {
    /// Name of the stack to create.
    pub stack_name: String,
    /// Name of the template parameter that is set.
    pub parameter_key: String,
    /// The bucket name that the parameter is set to.
    pub parameter_value: String,
    /// The permissions acknowledged.
    pub capabilities: Vec<Capability>,
}

/// The mathematical content of [`CreateStackRequest`].
pub struct CreateStackRequestView {
    pub stack_name: Seq<char>,
    pub parameter_key: Seq<char>,
    pub parameter_value: Seq<char>,
    pub capabilities: Seq<Capability>,
}

impl View for CreateStackRequest {
    type V = CreateStackRequestView;

    open spec fn view(&self) -> CreateStackRequestView {
        CreateStackRequestView {
            stack_name: self.stack_name@,
            parameter_key: self.parameter_key@,
            parameter_value: self.parameter_value@,
            capabilities: self.capabilities@,
        }
    }
}

/// A request to update the stack to the current template. The bucket
/// parameter keeps the value it had.
#[derive(Debug, Clone, PartialEq, Eq)]
pub struct UpdateStackRequest {
    /// Name of the stack to update.
    pub stack_name: String,
    /// Name of the template parameter that keeps its previous value.
    pub parameter_key: String,
    /// The permissions acknowledged.
    pub capabilities: Vec<Capability>,
}

/// The mathematical content of [`UpdateStackRequest`].
pub struct UpdateStackRequestView {
    pub stack_name: Seq<char>,
    pub parameter_key: Seq<char>,
    pub capabilities: Seq<Capability>,
}

impl View for UpdateStackRequest {
    type V = UpdateStackRequestView;

    open spec fn view(&self) -> UpdateStackRequestView {
        UpdateStackRequestView {
            stack_name: self.stack_name@,
            parameter_key: self.parameter_key@,
            capabilities: self.capabilities@,
        }
    }
}

/// How initialising the vault ended.
#[derive(Debug, Clone, PartialEq, Eq)]
pub enum CreateStackResult {
    /// The stack is there already; nothing was changed.
    Exists { data: CloudFormationStackData },
    /// The stack is there but in a state that needs manual repair; nothing
    /// was changed.
    ExistsWithFailedState { data: CloudFormationStackData },
    /// The stack was not there and its creation was requested.
    Created { stack_name: String, stack_id: String, region: String },
}

/// The mathematical content of [`CreateStackResult`].
pub enum CreateStackResultView {
    Exists { data: CloudFormationStackDataView },
    ExistsWithFailedState { data: CloudFormationStackDataView },
    Created { stack_name: Seq<char>, stack_id: Seq<char>, region: Seq<char> },
}

impl View for CreateStackResult {
    type V = CreateStackResultView;

    open spec fn view(&self) -> CreateStackResultView {
        match self {
            CreateStackResult::Exists { data } => CreateStackResultView::Exists { data: data@ },
            CreateStackResult::ExistsWithFailedState { data } => {
                CreateStackResultView::ExistsWithFailedState { data: data@ }
            },
            CreateStackResult::Created { stack_name, stack_id, region } => {
                CreateStackResultView::Created {
                    stack_name: stack_name@,
                    stack_id: stack_id@,
                    region: region@,
                }
            },
        }
    }
}

/// How updating the vault's stack ended.
#[derive(Debug, Clone, PartialEq, Eq)]
pub enum UpdateStackResult {
    /// The deployed template is not older than the current one; nothing was
    /// changed.
    UpToDate { data: CloudFormationStackData },
    /// The update from `previous_version` to `new_version` was requested.
    Updated { stack_id: String, previous_version: u32, new_version: u32 },
}

/// The mathematical content of [`UpdateStackResult`].
pub enum UpdateStackResultView {
    UpToDate { data: CloudFormationStackDataView },
    Updated { stack_id: Seq<char>, previous_version: u32, new_version: u32 },
}

impl View for UpdateStackResult {
    type V = UpdateStackResultView;

    open spec fn view(&self) -> UpdateStackResultView {
        match self {
            UpdateStackResult::UpToDate { data } => UpdateStackResultView::UpToDate { data: data@ },
            UpdateStackResult::Updated { stack_id, previous_version, new_version } => {
                UpdateStackResultView::Updated {
                    stack_id: stack_id@,
                    previous_version: *previous_version,
                    new_version: *new_version,
                }
            },
        }
    }
}

/// What initialising does after the stack was asked for.
#[derive(Debug, PartialEq, Eq)]
pub enum InitStep {
    /// Stop: the outcome is known and nothing is to be requested.
    Done(Result<CreateStackResult, VaultError>),
    /// The stack is missing and no bucket name is configured: ask the
    /// identity service for the caller's account.
    Identify,
    /// The stack is missing: send this creation request.
    Create(CreateStackRequest),
}

/// The mathematical content of [`InitStep`].
pub enum InitStepView {
    Done(Result<CreateStackResultView, VaultError>),
    Identify,
    Create(CreateStackRequestView),
}

impl View for InitStep {
    type V = InitStepView;

    open spec fn view(&self) -> InitStepView {
        match self {
            InitStep::Done(Ok(result)) => InitStepView::Done(Ok(result@)),
            InitStep::Done(Err(error)) => InitStepView::Done(Err(*error)),
            InitStep::Identify => InitStepView::Identify,
            InitStep::Create(request) => InitStepView::Create(request@),
        }
    }
}

/// What updating does after the stack was asked for.
#[derive(Debug, PartialEq, Eq)]
pub enum UpdateStep {
    /// Stop: the stack is up to date and no request is to be sent.
    UpToDate(UpdateStackResult),
    /// Send this one update request; the stack was deployed from
    /// `previous_version`.
    Update { request: UpdateStackRequest, previous_version: u32 },
}

/// The mathematical content of [`UpdateStep`].
pub enum UpdateStepView {
    UpToDate(UpdateStackResultView),
    Update { request: UpdateStackRequestView, previous_version: u32 },
}

impl View for UpdateStep {
    type V = UpdateStepView;

    open spec fn view(&self) -> UpdateStepView {
        match self {
            UpdateStep::UpToDate(result) => UpdateStepView::UpToDate(result@),
            UpdateStep::Update { request, previous_version } => UpdateStepView::Update {
                request: request@,
                previous_version: *previous_version,
            },
        }
    }
}

impl UpdateStepView {
    /// How many requests that change the stack this step sends.
    pub open spec fn mutating_requests(self) -> nat {
        match self {
            UpdateStepView::UpToDate(_) => 0,
            UpdateStepView::Update { .. } => 1,
        }
    }
}

/// The first of three sources, in order, that has a value.
pub open spec fn first_present<T>(first: Option<T>, second: Option<T>, third: Option<T>) -> Option<
    T,
> {
    match first {
        Some(value) => Some(value),
        None => match second {
            Some(value) => Some(value),
            None => third,
        },
    }
}

/// Picks the first of three sources, in order, that has a value.
pub fn resolve(first: Option<String>, second: Option<String>, third: Option<String>) -> (value:
    Option<String>)
    ensures
        value == first_present(first, second, third),
{
    match first {
        Some(value) => Some(value),
        None => match second {
            Some(value) => Some(value),
            None => third,
        },
    }
}

/// The bucket name that a vault gets where none is configured.
pub open spec fn default_bucket(stack_name: Seq<char>, region: Seq<char>, account: Seq<char>)
    -> Seq<char> {
    stack_name + "-"@ + region + "-"@ + account
}

/// Derives the bucket name of a vault where none is configured: stack name,
/// region and account, joined by hyphens.
pub fn default_bucket_name(stack_name: &str, region: &str, account: &str) -> (bucket: String)
    ensures
        bucket@ == default_bucket(stack_name@, region@, account@),
{
    String::from_str(stack_name).concat("-").concat(region).concat("-").concat(account)
}

/// The creation request for a stack and its bucket.
pub open spec fn creation_of(stack_name: Seq<char>, bucket: Seq<char>) -> CreateStackRequestView {
    CreateStackRequestView {
        stack_name,
        parameter_key: bucket_parameter(),
        parameter_value: bucket,
        capabilities: acknowledged(),
    }
}

/// The update request for a stack: the bucket parameter keeps its value, and
/// the permissions acknowledged are those of the creation request.
pub open spec fn update_of(stack_name: Seq<char>) -> UpdateStackRequestView {
    UpdateStackRequestView {
        stack_name,
        parameter_key: bucket_parameter(),
        capabilities: acknowledged(),
    }
}

/// What a stack that is there means for initialising: its state decides
/// between usable and failed, and a description without a state is an error.
pub open spec fn existing(data: CloudFormationStackDataView) -> Result<
    CreateStackResultView,
    VaultError,
> {
    match data.status {
        None => Err(VaultError::MissingStackStatusError),
        Some(status) => if status.is_failed_state() {
            Ok(CreateStackResultView::ExistsWithFailedState { data })
        } else {
            Ok(CreateStackResultView::Exists { data })
        },
    }
}

/// What initialising does once the stack was asked for.
///
/// A stack that was described is classified and left alone. Only the answer
/// that there is no such stack means that there is none: then the stack is
/// created with the configured bucket, or the account is asked for first
/// where no bucket is configured. A description that failed for any other
/// reason ends the initialisation with that failure, and nothing is created.
pub open spec fn init_step(
    stack_name: Seq<char>,
    bucket: Option<Seq<char>>,
    described: Result<CloudFormationStackDataView, VaultError>,
) -> InitStepView {
    match described {
        Ok(data) => InitStepView::Done(existing(data)),
        Err(VaultError::StackNotFoundError) => match bucket {
            Some(bucket) => InitStepView::Create(creation_of(stack_name, bucket)),
            None => InitStepView::Identify,
        },
        Err(error) => InitStepView::Done(Err(error)),
    }
}

/// What initialising does once the identity service answered: a failed
/// request is handed through, an answer without an account is an error, and
/// with an account the stack is created with the derived bucket.
pub open spec fn identified(
    stack_name: Seq<char>,
    region: Seq<char>,
    identity: Result<Option<Seq<char>>, VaultError>,
) -> Result<CreateStackRequestView, VaultError> {
    match identity {
        Err(error) => Err(error),
        Ok(None) => Err(VaultError::MissingAccountIdError),
        Ok(Some(account)) => Ok(
            creation_of(stack_name, default_bucket(stack_name, region, account)),
        ),
    }
}

/// How initialising ends once the creation request was answered.
pub open spec fn created(
    stack_name: Seq<char>,
    region: Seq<char>,
    answer: Result<Option<Seq<char>>, VaultError>,
) -> Result<CreateStackResultView, VaultError> {
    match answer {
        Err(error) => Err(error),
        Ok(None) => Err(VaultError::MissingStackIdError),
        Ok(Some(stack_id)) => Ok(CreateStackResultView::Created { stack_name, stack_id, region }),
    }
}

/// What updating does once the stack was asked for, with `current` the
/// version of the template at hand.
///
/// The stack is updated only from an older version to the current one: where
/// the deployed version is the current one or a later one, nothing is sent.
pub open spec fn update_step(
    stack_name: Seq<char>,
    current: u32,
    described: Result<CloudFormationStackDataView, VaultError>,
) -> Result<UpdateStepView, VaultError> {
    match described {
        Err(error) => Err(error),
        Ok(data) => match data.version {
            None => Err(VaultError::StackVersionNotFoundError),
            Some(deployed) => if deployed < current {
                Ok(
                    UpdateStepView::Update {
                        request: update_of(stack_name),
                        previous_version: deployed,
                    },
                )
            } else {
                Ok(UpdateStepView::UpToDate(UpdateStackResultView::UpToDate { data }))
            },
        },
    }
}

/// How updating ends once the update request was answered.
pub open spec fn updated(
    previous_version: u32,
    current: u32,
    answer: Result<Option<Seq<char>>, VaultError>,
) -> Result<UpdateStackResultView, VaultError> {
    match answer {
        Err(error) => Err(error),
        Ok(None) => Err(VaultError::MissingStackIdError),
        Ok(Some(stack_id)) => Ok(
            UpdateStackResultView::Updated { stack_id, previous_version, new_version: current },
        ),
    }
}

/// The content of an answer that may carry one text.
pub open spec fn answer_view(answer: Result<Option<String>, VaultError>) -> Result<
    Option<Seq<char>>,
    VaultError,
> {
    match answer {
        Ok(text) => Ok(text.deep_view()),
        Err(error) => Err(error),
    }
}

/// The content of a description that was read or that failed.
pub open spec fn described_view(described: Result<CloudFormationStackData, VaultError>) -> Result<
    CloudFormationStackDataView,
    VaultError,
> {
    match described {
        Ok(data) => Ok(data@),
        Err(error) => Err(error),
    }
}

/// The permissions that a request that changes the stack acknowledges. See
/// [`acknowledged`].
pub fn capabilities() -> (capabilities: Vec<Capability>)
    ensures
        capabilities@ == acknowledged(),
{
    let mut capabilities: Vec<Capability> = Vec::new();
    capabilities.push(Capability::CapabilityIam);
    assert(capabilities@ =~= acknowledged());
    capabilities
}

/// Builds the creation request for a stack and its bucket.
pub fn create_request(stack_name: &str, bucket: String) -> (request: CreateStackRequest)
    ensures
        request@ == creation_of(stack_name@, bucket@),
{
    CreateStackRequest {
        stack_name: String::from_str(stack_name),
        parameter_key: String::from_str("paramBucketName"),
        parameter_value: bucket,
        capabilities: capabilities(),
    }
}

/// Builds the update request for a stack.
pub fn update_request(stack_name: &str) -> (request: UpdateStackRequest)
    ensures
        request@ == update_of(stack_name@),
{
    UpdateStackRequest {
        stack_name: String::from_str(stack_name),
        parameter_key: String::from_str("paramBucketName"),
        capabilities: capabilities(),
    }
}

/// Classifies a stack that is there. See [`existing`].
pub fn classify_existing(data: CloudFormationStackData) -> (result: Result<
    CreateStackResult,
    VaultError,
>)
    ensures
        match result {
            Ok(r) => existing(data@) == Ok::<CreateStackResultView, VaultError>(r@),
            Err(error) => existing(data@) == Err::<CreateStackResultView, VaultError>(error),
        },
{
    match data.status {
        None => Err(VaultError::MissingStackStatusError),
        Some(status) => {
            if status.failed_state() {
                Ok(CreateStackResult::ExistsWithFailedState { data })
            } else {
                Ok(CreateStackResult::Exists { data })
            }
        },
    }
}

/// An initialisation under way: what was resolved before the stack was
/// asked for.
#[derive(Debug, Clone, PartialEq, Eq)]
pub struct InitPlan {
    /// Name of the stack to find or create.
    pub stack_name: String,
    /// The region the vault lives in.
    pub region: String,
    /// The configured bucket name, if one is configured.
    pub bucket: Option<String>,
}

impl InitPlan {
    /// Decides what to do once the stack was asked for. See [`init_step`].
    pub fn on_described(&self, described: Result<CloudFormationStackData, VaultError>) -> (step:
        InitStep)
        ensures
            step@ == init_step(self.stack_name@, self.bucket.deep_view(), described_view(described)),
    {
        match described {
            Ok(data) => InitStep::Done(classify_existing(data)),
            Err(VaultError::StackNotFoundError) => match &self.bucket {
                Some(bucket) => InitStep::Create(
                    create_request(self.stack_name.as_str(), bucket.clone()),
                ),
                None => InitStep::Identify,
            },
            Err(error) => InitStep::Done(Err(error)),
        }
    }

    /// Decides what to do once the identity service answered. See
    /// [`identified`].
    pub fn on_identified(&self, identity: Result<Option<String>, VaultError>) -> (request: Result<
        CreateStackRequest,
        VaultError,
    >)
        ensures
            match request {
                Ok(r) => identified(self.stack_name@, self.region@, answer_view(identity)) == Ok::<
                    CreateStackRequestView,
                    VaultError,
                >(r@),
                Err(error) => identified(self.stack_name@, self.region@, answer_view(identity))
                    == Err::<CreateStackRequestView, VaultError>(error),
            },
    {
        match identity {
            Err(error) => Err(error),
            Ok(None) => Err(VaultError::MissingAccountIdError),
            Ok(Some(account)) => {
                let bucket = default_bucket_name(
                    self.stack_name.as_str(),
                    self.region.as_str(),
                    account.as_str(),
                );
                Ok(create_request(self.stack_name.as_str(), bucket))
            },
        }
    }

    /// Ends the initialisation once the creation request was answered. See
    /// [`created`].
    pub fn on_created(self, answer: Result<Option<String>, VaultError>) -> (result: Result<
        CreateStackResult,
        VaultError,
    >)
        ensures
            match result {
                Ok(r) => created(self.stack_name@, self.region@, answer_view(answer)) == Ok::<
                    CreateStackResultView,
                    VaultError,
                >(r@),
                Err(error) => created(self.stack_name@, self.region@, answer_view(answer)) == Err::<
                    CreateStackResultView,
                    VaultError,
                >(error),
            },
    {
        match answer {
            Err(error) => Err(error),
            Ok(None) => Err(VaultError::MissingStackIdError),
            Ok(Some(stack_id)) => Ok(
                CreateStackResult::Created {
                    stack_name: self.stack_name,
                    stack_id,
                    region: self.region,
                },
            ),
        }
    }
}

/// Decides what updating does once the stack was asked for, against the
/// template version `current`. See [`update_step`].
pub fn plan_update(
    stack_name: &str,
    current: u32,
    described: Result<CloudFormationStackData, VaultError>,
) -> (step: Result<UpdateStep, VaultError>)
    ensures
        match step {
            Ok(s) => update_step(stack_name@, current, described_view(described)) == Ok::<
                UpdateStepView,
                VaultError,
            >(s@),
            Err(error) => update_step(stack_name@, current, described_view(described)) == Err::<
                UpdateStepView,
                VaultError,
            >(error),
        },
{
    let data = match described {
        Ok(data) => data,
        Err(error) => {
            return Err(error);
        },
    };
    let deployed = match data.version {
        Some(deployed) => deployed,
        None => {
            return Err(VaultError::StackVersionNotFoundError);
        },
    };
    if deployed < current {
        Ok(UpdateStep::Update { request: update_request(stack_name), previous_version: deployed })
    } else {
        Ok(UpdateStep::UpToDate(UpdateStackResult::UpToDate { data }))
    }
}

/// Ends an update once the update request was answered. See [`updated`].
pub fn finish_update(
    previous_version: u32,
    current: u32,
    answer: Result<Option<String>, VaultError>,
) -> (result: Result<UpdateStackResult, VaultError>)
    ensures
        match result {
            Ok(r) => updated(previous_version, current, answer_view(answer)) == Ok::<
                UpdateStackResultView,
                VaultError,
            >(r@),
            Err(error) => updated(previous_version, current, answer_view(answer)) == Err::<
                UpdateStackResultView,
                VaultError,
            >(error),
        },
{
    match answer {
        Err(error) => Err(error),
        Ok(None) => Err(VaultError::MissingStackIdError),
        Ok(Some(stack_id)) => Ok(
            UpdateStackResult::Updated { stack_id, previous_version, new_version: current },
        ),
    }
}

/// Version monotonicity. A stack deployed from the current template or a
/// later one is reported up to date and no request that changes it is sent;
/// a stack deployed from an older template gets exactly one update request,
/// and the answered update reports the deployed version as the previous and
/// the current version as the new one.
pub proof fn lemma_update_is_monotonic(
    stack_name: Seq<char>,
    current: u32,
    data: CloudFormationStackDataView,
    stack_id: Seq<char>,
)
    requires
        data.version is Some,
    ensures
        data.version.unwrap() >= current ==> update_step(stack_name, current, Ok(data)) == Ok::<
            UpdateStepView,
            VaultError,
        >(UpdateStepView::UpToDate(UpdateStackResultView::UpToDate { data })),
        data.version.unwrap() >= current ==> update_step(
            stack_name,
            current,
            Ok(data),
        ).unwrap().mutating_requests() == 0,
        data.version.unwrap() < current ==> update_step(
            stack_name,
            current,
            Ok(data),
        ).unwrap().mutating_requests() == 1,
        data.version.unwrap() < current ==> update_step(stack_name, current, Ok(data)) == Ok::<
            UpdateStepView,
            VaultError,
        >(
            UpdateStepView::Update {
                request: update_of(stack_name),
                previous_version: data.version.unwrap(),
            },
        ),
        updated(data.version.unwrap(), current, Ok(Some(stack_id))) == Ok::<
            UpdateStackResultView,
            VaultError,
        >(
            UpdateStackResultView::Updated {
                stack_id,
                previous_version: data.version.unwrap(),
                new_version: current,
            },
        ),
{
}

/// An update acknowledges exactly the permissions that the creation did.
pub proof fn lemma_update_acknowledges_as_creation(stack_name: Seq<char>, bucket: Seq<char>)
    ensures
        update_of(stack_name).capabilities == creation_of(stack_name, bucket).capabilities,
        update_of(stack_name).parameter_key == creation_of(stack_name, bucket).parameter_key,
{
}

/// Only absence creates. A stack is created, or the account asked for, only
/// where the description answered that there is no such stack; a description
/// that failed for any other reason ends the initialisation with that very
/// failure.
pub proof fn lemma_only_absence_creates(
    stack_name: Seq<char>,
    bucket: Option<Seq<char>>,
    error: VaultError,
)
    ensures
        error != VaultError::StackNotFoundError ==> init_step(stack_name, bucket, Err(error))
            == InitStepView::Done(Err(error)),
        error == VaultError::StackNotFoundError ==> !(init_step(stack_name, bucket, Err(error))
            is Done),
{
}

/// Stack classification. A described stack in one of the five failed states
/// is reported as existing in a failed state, and a described stack in any
/// other state as existing: the two reports never coincide, and neither
/// changes anything.
pub proof fn lemma_failed_states_classified(
    stack_name: Seq<char>,
    bucket: Option<Seq<char>>,
    data: CloudFormationStackDataView,
)
    requires
        data.status is Some,
    ensures
        ({
            let status = data.status.unwrap();
            status == StackStatus::CreateFailed || status == StackStatus::RollbackFailed || status
                == StackStatus::DeleteFailed || status == StackStatus::DeleteInProgress || status
                == StackStatus::DeleteComplete
        }) <==> init_step(stack_name, bucket, Ok(data)) == InitStepView::Done(
            Ok(CreateStackResultView::ExistsWithFailedState { data }),
        ),
        !data.status.unwrap().is_failed_state() <==> init_step(stack_name, bucket, Ok(data))
            == InitStepView::Done(Ok(CreateStackResultView::Exists { data })),
{
}

} // verus!
