use vstd::prelude::*;
use crate::authoritative_document_diff::{CompareAuthoritativeDocumentRevisionsError, CompareAuthoritativeDocumentRevisionsUsecase};
use crate::document_diff::{DiffPolicyView, DocumentLineDiffService};
use crate::text::{contains_control, has_control_char, trim_text, trimmed};
use crate::text::{opt_sstr_view, opt_str_view, opt_to_string, opt_ref_view, pairs_view, strings_view};

verus! {
#[derive(Debug, Clone, Copy, PartialEq, Eq, Structural)]
pub enum DocumentDiffOperationEntryError {
    StatePayloadMismatch,
    InvalidFailureCode,
}

#[derive(Debug, Clone, Copy, PartialEq, Eq, Structural)]
pub enum DocumentDiffOperationCreateOutcome {
    Created,
    AlreadyExists,
}

#[derive(Debug, Clone, Copy, PartialEq, Eq, Structural)]
pub enum DocumentDiffOperationRegistryError {
    CapacityExceeded,
    Conflict,
    Unavailable,
}

impl DocumentDiffOperationRegistryError {
    pub fn code(self) -> (result: &'static str)
        ensures
            result@ == match self {
                Self::CapacityExceeded => "document_diff_operation_registry.capacity_exceeded"@,
                Self::Conflict => "document_diff_operation_registry.conflict"@,
                Self::Unavailable => "document_diff_operation_registry.unavailable"@,
            },
    {
        match self {
            Self::CapacityExceeded => "document_diff_operation_registry.capacity_exceeded",
            Self::Conflict => "document_diff_operation_registry.conflict",
            Self::Unavailable => "document_diff_operation_registry.unavailable",
        }
    }
}

pub trait DocumentDiffOperationIdGenerator {
    fn next_id(&mut self) -> Result<String, ()>;
}

#[derive(Debug, Clone, PartialEq, Eq)]
pub enum StartDocumentDiffOperationInput {
    CurrentToVersion { workspace_id: String, document_id: String, version_id: String },
    Versions { workspace_id: String, document_id: String, left_version_id: String, right_version_id: String },
}

/// [`StartDocumentDiffOperationInput`] with its texts as character sequences.
pub enum StartDocumentDiffOperationInputView {
    CurrentToVersion { workspace_id: Seq<char>, document_id: Seq<char>, version_id: Seq<char> },
    Versions { workspace_id: Seq<char>, document_id: Seq<char>, left_version_id: Seq<char>, right_version_id: Seq<char> },
}

impl View for StartDocumentDiffOperationInput {
    type V = StartDocumentDiffOperationInputView;

    open spec fn view(&self) -> StartDocumentDiffOperationInputView {
        match self {
            StartDocumentDiffOperationInput::CurrentToVersion { workspace_id, document_id, version_id } => StartDocumentDiffOperationInputView::CurrentToVersion { workspace_id: workspace_id@, document_id: document_id@, version_id: version_id@ },
            StartDocumentDiffOperationInput::Versions { workspace_id, document_id, left_version_id, right_version_id } => StartDocumentDiffOperationInputView::Versions { workspace_id: workspace_id@, document_id: document_id@, left_version_id: left_version_id@, right_version_id: right_version_id@ },
        }
    }
}

impl StartDocumentDiffOperationInput {
    pub fn current_to_version(workspace_id: &str, document_id: &str, version_id: &str) -> (result: Self)
        ensures
            result@ == (StartDocumentDiffOperationInputView::CurrentToVersion { workspace_id: workspace_id@, document_id: document_id@, version_id: version_id@ }),
    {
        StartDocumentDiffOperationInput::CurrentToVersion { workspace_id: workspace_id.to_string(), document_id: document_id.to_string(), version_id: version_id.to_string() }
    }

    pub fn versions(workspace_id: &str, document_id: &str, left_version_id: &str, right_version_id: &str) -> (result: Self)
        ensures
            result@ == (StartDocumentDiffOperationInputView::Versions { workspace_id: workspace_id@, document_id: document_id@, left_version_id: left_version_id@, right_version_id: right_version_id@ }),
    {
        StartDocumentDiffOperationInput::Versions { workspace_id: workspace_id.to_string(), document_id: document_id.to_string(), left_version_id: left_version_id.to_string(), right_version_id: right_version_id.to_string() }
    }

}

#[derive(Debug, Clone, Copy, PartialEq, Eq, Structural)]
pub struct StartDocumentDiffOperationUsecase;

impl StartDocumentDiffOperationUsecase {
    pub fn new() -> (result: Self)
        ensures
            result == (StartDocumentDiffOperationUsecase),
    {
        StartDocumentDiffOperationUsecase
    }
}

impl Default for StartDocumentDiffOperationUsecase {
    fn default() -> (result: Self)
        ensures
            result == (StartDocumentDiffOperationUsecase),
    {
        Self::new()
    }
}

#[derive(Debug, Clone, Copy, PartialEq, Eq, Structural)]
pub enum StartDocumentDiffOperationError {
    InvalidInput,
    OperationIdUnavailable,
    AlreadyExists,
    CapacityExceeded,
    RegistryUnavailable,
}

impl StartDocumentDiffOperationError {
    pub fn code(self) -> (result: &'static str)
        ensures
            result@ == match self {
                Self::InvalidInput => "document_diff_operation.invalid_input"@,
                Self::OperationIdUnavailable => "document_diff_operation.id_unavailable"@,
                Self::AlreadyExists => "document_diff_operation.already_exists"@,
                Self::CapacityExceeded => "document_diff_operation.capacity_exceeded"@,
                Self::RegistryUnavailable => "document_diff_operation.registry_unavailable"@,
            },
    {
        match self {
            Self::InvalidInput => "document_diff_operation.invalid_input",
            Self::OperationIdUnavailable => "document_diff_operation.id_unavailable",
            Self::AlreadyExists => "document_diff_operation.already_exists",
            Self::CapacityExceeded => "document_diff_operation.capacity_exceeded",
            Self::RegistryUnavailable => "document_diff_operation.registry_unavailable",
        }
    }

    pub fn retryable(self) -> (result: bool)
        ensures
            result == match self {
                Self::InvalidInput => false,
                Self::OperationIdUnavailable => true,
                Self::AlreadyExists => false,
                Self::CapacityExceeded => false,
                Self::RegistryUnavailable => true,
            },
    {
        match self {
            Self::InvalidInput => false,
            Self::OperationIdUnavailable => true,
            Self::AlreadyExists => false,
            Self::CapacityExceeded => false,
            Self::RegistryUnavailable => true,
        }
    }

}

#[derive(Debug, Clone, PartialEq, Eq)]
pub struct GetDocumentDiffOperationStatusInput {
    operation_id: String,
}

impl View for GetDocumentDiffOperationStatusInput {
    type V = Seq<char>;

    closed spec fn view(&self) -> Seq<char> {
        self.operation_id@
    }
}

impl GetDocumentDiffOperationStatusInput {
    pub fn new(operation_id: &str) -> (result: Self)
        ensures
            result@ == operation_id@,
    {
        Self {
            operation_id: operation_id.to_string(),
        }
    }

}

#[derive(Debug, Clone, Copy, PartialEq, Eq, Structural)]
pub struct GetDocumentDiffOperationStatusUsecase;

impl GetDocumentDiffOperationStatusUsecase {
    pub fn new() -> (result: Self)
        ensures
            result == (GetDocumentDiffOperationStatusUsecase),
    {
        GetDocumentDiffOperationStatusUsecase
    }
}

impl Default for GetDocumentDiffOperationStatusUsecase {
    fn default() -> (result: Self)
        ensures
            result == (GetDocumentDiffOperationStatusUsecase),
    {
        Self::new()
    }
}

#[derive(Debug, Clone, Copy, PartialEq, Eq, Structural)]
pub enum GetDocumentDiffOperationStatusError {
    InvalidInput,
    RegistryUnavailable,
}

impl GetDocumentDiffOperationStatusError {
    pub fn code(self) -> (result: &'static str)
        ensures
            result@ == match self {
                Self::InvalidInput => "document_diff_operation.invalid_input"@,
                Self::RegistryUnavailable => "document_diff_operation.registry_unavailable"@,
            },
    {
        match self {
            Self::InvalidInput => "document_diff_operation.invalid_input",
            Self::RegistryUnavailable => "document_diff_operation.registry_unavailable",
        }
    }

    pub fn retryable(self) -> (result: bool)
        ensures
            result == match self {
                Self::InvalidInput => false,
                Self::RegistryUnavailable => true,
            },
    {
        match self {
            Self::InvalidInput => false,
            Self::RegistryUnavailable => true,
        }
    }

}

#[derive(Debug, Clone, PartialEq, Eq)]
pub struct CancelDocumentDiffOperationInput {
    operation_id: String,
}

impl View for CancelDocumentDiffOperationInput {
    type V = Seq<char>;

    closed spec fn view(&self) -> Seq<char> {
        self.operation_id@
    }
}

impl CancelDocumentDiffOperationInput {
    pub fn new(operation_id: &str) -> (result: Self)
        ensures
            result@ == operation_id@,
    {
        Self {
            operation_id: operation_id.to_string(),
        }
    }

}

#[derive(Debug, Clone, Copy, PartialEq, Eq, Structural)]
pub struct CancelDocumentDiffOperationUsecase;

impl CancelDocumentDiffOperationUsecase {
    pub fn new() -> (result: Self)
        ensures
            result == (CancelDocumentDiffOperationUsecase),
    {
        CancelDocumentDiffOperationUsecase
    }
}

impl Default for CancelDocumentDiffOperationUsecase {
    fn default() -> (result: Self)
        ensures
            result == (CancelDocumentDiffOperationUsecase),
    {
        Self::new()
    }
}

#[derive(Debug, Clone, Copy, PartialEq, Eq, Structural)]
pub enum CancelDocumentDiffOperationError {
    InvalidInput,
    InvalidTransition,
    CancellationTooLate,
    Conflict,
    RegistryUnavailable,
}

impl CancelDocumentDiffOperationError {
    pub fn code(self) -> (result: &'static str)
        ensures
            result@ == match self {
                Self::InvalidInput => "document_diff_operation.invalid_input"@,
                Self::InvalidTransition => "document_diff_operation.invalid_transition"@,
                Self::CancellationTooLate => "document_diff_operation.cancellation_too_late"@,
                Self::Conflict => "document_diff_operation.conflict"@,
                Self::RegistryUnavailable => "document_diff_operation.registry_unavailable"@,
            },
    {
        match self {
            Self::InvalidInput => "document_diff_operation.invalid_input",
            Self::InvalidTransition => "document_diff_operation.invalid_transition",
            Self::CancellationTooLate => "document_diff_operation.cancellation_too_late",
            Self::Conflict => "document_diff_operation.conflict",
            Self::RegistryUnavailable => "document_diff_operation.registry_unavailable",
        }
    }

    pub fn retryable(self) -> (result: bool)
        ensures
            result == match self {
                Self::InvalidInput => false,
                Self::InvalidTransition => false,
                Self::CancellationTooLate => false,
                Self::Conflict => true,
                Self::RegistryUnavailable => true,
            },
    {
        match self {
            Self::InvalidInput => false,
            Self::InvalidTransition => false,
            Self::CancellationTooLate => false,
            Self::Conflict => true,
            Self::RegistryUnavailable => true,
        }
    }

}

#[derive(Debug, Clone, PartialEq, Eq)]
pub struct RunDocumentDiffOperationInput {
    operation_id: String,
}

impl View for RunDocumentDiffOperationInput {
    type V = Seq<char>;

    closed spec fn view(&self) -> Seq<char> {
        self.operation_id@
    }
}

impl RunDocumentDiffOperationInput {
    pub fn new(operation_id: &str) -> (result: Self)
        ensures
            result@ == operation_id@,
    {
        Self {
            operation_id: operation_id.to_string(),
        }
    }

}

#[derive(Debug, Clone, Copy, PartialEq, Eq, Structural)]
pub struct RunDocumentDiffOperationUsecase {
    executor: CompareAuthoritativeDocumentRevisionsUsecase,
}

impl View for RunDocumentDiffOperationUsecase {
    type V = DiffPolicyView;

    closed spec fn view(&self) -> DiffPolicyView {
        self.executor@
    }
}

impl RunDocumentDiffOperationUsecase {
    pub fn with_diff_service(diff_service: DocumentLineDiffService) -> (result: Self)
        ensures
            result@ == diff_service@,
    {
        Self { executor: CompareAuthoritativeDocumentRevisionsUsecase::with_policy(diff_service.policy()) }
    }
}

#[derive(Debug, Clone, Copy, PartialEq, Eq, Structural)]
pub enum RunDocumentDiffOperationError {
    InvalidInput,
    InvalidState,
    AlreadyRunning,
    Conflict,
    RegistryUnavailable,
}

impl RunDocumentDiffOperationError {
    pub fn code(self) -> (result: &'static str)
        ensures
            result@ == match self {
                Self::InvalidInput => "document_diff_operation.invalid_input"@,
                Self::InvalidState => "document_diff_operation.invalid_state"@,
                Self::AlreadyRunning => "document_diff_operation.already_running"@,
                Self::Conflict => "document_diff_operation.conflict"@,
                Self::RegistryUnavailable => "document_diff_operation.registry_unavailable"@,
            },
    {
        match self {
            Self::InvalidInput => "document_diff_operation.invalid_input",
            Self::InvalidState => "document_diff_operation.invalid_state",
            Self::AlreadyRunning => "document_diff_operation.already_running",
            Self::Conflict => "document_diff_operation.conflict",
            Self::RegistryUnavailable => "document_diff_operation.registry_unavailable",
        }
    }

    pub fn retryable(self) -> (result: bool)
        ensures
            result == match self {
                Self::InvalidInput => false,
                Self::InvalidState => false,
                Self::AlreadyRunning => false,
                Self::Conflict => true,
                Self::RegistryUnavailable => true,
            },
    {
        match self {
            Self::InvalidInput => false,
            Self::InvalidState => false,
            Self::AlreadyRunning => false,
            Self::Conflict => true,
            Self::RegistryUnavailable => true,
        }
    }

}

/// The states of a background diff operation, as the registry records them.
#[derive(Debug, Clone, Copy, PartialEq, Eq, Structural)]
pub enum DiffOperationState {
    Accepted,
    Running,
    Completed,
    Cancelled,
    Expired,
    Failed,
}

/// A failure code may be recorded when it is not blank and holds no
/// control character.
pub fn failure_code_is_valid(error_code: &str) -> (result: bool)
    ensures
        result == (trimmed(error_code@).len() > 0 && !has_control_char(error_code@)),
{
    !trim_text(error_code).is_empty() && !contains_control(error_code)
}

/// Whether the payload has the shape the state asks for: a result once
/// completed, a failure code once failed, neither in any other state.
pub open spec fn payload_fits_state(state: DiffOperationState, has_result: bool, failure_code: Option<&str>) -> bool {
    match state {
        DiffOperationState::Completed => has_result,
        DiffOperationState::Failed => failure_code is Some,
        _ => !has_result && failure_code is None,
    }
}

/// What checking an entry's payload against its state gives: a payload of
/// the wrong shape is a mismatch, a blank failure code or one holding a
/// control character is an invalid code, anything else is accepted.
pub open spec fn entry_payload_check(state: DiffOperationState, has_result: bool, failure_code: Option<&str>) -> Result<(), DocumentDiffOperationEntryError> {
    if !payload_fits_state(state, has_result, failure_code) {
        Err(DocumentDiffOperationEntryError::StatePayloadMismatch)
    } else if failure_code matches Some(code) && !(trimmed(code@).len() > 0 && !has_control_char(code@)) {
        Err(DocumentDiffOperationEntryError::InvalidFailureCode)
    } else {
        Ok(())
    }
}

/// Whether an entry in the state may carry the payload: pending work while
/// accepted, running, cancelled or expired, a result once completed, a
/// failure code once failed.
pub fn entry_payload_matches(state: DiffOperationState, has_result: bool, failure_code: Option<&str>) -> (result: Result<(), DocumentDiffOperationEntryError>)
    requires
        !(has_result && failure_code is Some),
    ensures
        result == entry_payload_check(state, has_result, failure_code),
{
    let matches = match state {
        DiffOperationState::Completed => has_result,
        DiffOperationState::Failed => failure_code.is_some(),
        _ => !has_result && failure_code.is_none(),
    };
    if !matches {
        return Err(DocumentDiffOperationEntryError::StatePayloadMismatch);
    }
    match failure_code {
        Some(code) => if !failure_code_is_valid(code) {
            Err(DocumentDiffOperationEntryError::InvalidFailureCode)
        } else {
            Ok(())
        },
        None => Ok(()),
    }
}

/// What a cancellation does with the operation it finds.
#[derive(Debug, Clone, Copy, PartialEq, Eq, Structural)]
pub enum CancelDecision {
    /// The operation was cancelled before; nothing changes.
    AlreadyCancelled,
    /// The operation is gone (`newly_expired`: the registry no longer has
    /// it) or has expired.
    Expired { newly_expired: bool },
    /// The operation is still pending and is cancelled now.
    Cancel,
}

/// Decides a cancellation from the state of the operation, `None` when the
/// registry no longer has it: finished work cannot be cancelled.
pub fn cancel_decision(state: Option<DiffOperationState>) -> (result: Result<CancelDecision, CancelDocumentDiffOperationError>)
    ensures
        result == match state {
            None => Ok::<CancelDecision, CancelDocumentDiffOperationError>(CancelDecision::Expired { newly_expired: true }),
            Some(DiffOperationState::Cancelled) => Ok(CancelDecision::AlreadyCancelled),
            Some(DiffOperationState::Expired) => Ok(CancelDecision::Expired { newly_expired: false }),
            Some(DiffOperationState::Completed) | Some(DiffOperationState::Failed) => Err(CancelDocumentDiffOperationError::CancellationTooLate),
            Some(DiffOperationState::Accepted) | Some(DiffOperationState::Running) => Ok(CancelDecision::Cancel),
        },
{
    match state {
        None => Ok(CancelDecision::Expired { newly_expired: true }),
        Some(DiffOperationState::Cancelled) => Ok(CancelDecision::AlreadyCancelled),
        Some(DiffOperationState::Expired) => Ok(CancelDecision::Expired { newly_expired: false }),
        Some(DiffOperationState::Completed) | Some(DiffOperationState::Failed) => Err(CancelDocumentDiffOperationError::CancellationTooLate),
        Some(DiffOperationState::Accepted) | Some(DiffOperationState::Running) => Ok(CancelDecision::Cancel),
    }
}

/// What a run does with the operation it finds.
#[derive(Debug, Clone, Copy, PartialEq, Eq, Structural)]
pub enum RunDecision {
    /// The registry no longer has the operation: it reports expired.
    Expired,
    /// The operation was accepted and is started now.
    Start,
    /// The operation has ended in this state, which is reported as it is.
    Ended(DiffOperationState),
}

/// Decides a run from the state of the operation, `None` when the registry
/// no longer has it: only an accepted operation starts, and one already
/// running is refused.
pub fn run_decision(state: Option<DiffOperationState>) -> (result: Result<RunDecision, RunDocumentDiffOperationError>)
    ensures
        result == match state {
            None => Ok::<RunDecision, RunDocumentDiffOperationError>(RunDecision::Expired),
            Some(DiffOperationState::Accepted) => Ok(RunDecision::Start),
            Some(DiffOperationState::Running) => Err(RunDocumentDiffOperationError::AlreadyRunning),
            Some(ended) => Ok(RunDecision::Ended(ended)),
        },
{
    match state {
        None => Ok(RunDecision::Expired),
        Some(DiffOperationState::Accepted) => Ok(RunDecision::Start),
        Some(DiffOperationState::Running) => Err(RunDocumentDiffOperationError::AlreadyRunning),
        Some(ended) => Ok(RunDecision::Ended(ended)),
    }
}

/// The failure code a finished run records: none when the diff is complete
/// (`Ok(true)`), the background limit when it was too large (`Ok(false)`),
/// else the code of the comparison's error.
pub fn run_failure_code(outcome: Result<bool, CompareAuthoritativeDocumentRevisionsError>) -> (result: Option<&'static str>)
    ensures
        match outcome {
            Ok(true) => result is None,
            Ok(false) => result is Some && result->Some_0@ == "document.diff.background_limit_exceeded"@,
            Err(error) => result is Some && result->Some_0@ == authoritative_error_code(error),
        },
{
    match outcome {
        Ok(true) => None,
        Ok(false) => Some("document.diff.background_limit_exceeded"),
        Err(error) => Some(error.code()),
    }
}

/// How a registry failure reads to a run.
pub fn map_run_registry_error(error: DocumentDiffOperationRegistryError) -> (result: RunDocumentDiffOperationError)
    ensures
        result == match error {
            DocumentDiffOperationRegistryError::Conflict => RunDocumentDiffOperationError::Conflict,
            _ => RunDocumentDiffOperationError::RegistryUnavailable,
        },
{
    match error {
        DocumentDiffOperationRegistryError::CapacityExceeded => RunDocumentDiffOperationError::RegistryUnavailable,
        DocumentDiffOperationRegistryError::Conflict => RunDocumentDiffOperationError::Conflict,
        DocumentDiffOperationRegistryError::Unavailable => RunDocumentDiffOperationError::RegistryUnavailable,
    }
}

/// How a registry failure reads to a status request.
pub fn map_status_registry_error(error: DocumentDiffOperationRegistryError) -> (result: GetDocumentDiffOperationStatusError)
    ensures
        result == GetDocumentDiffOperationStatusError::RegistryUnavailable,
{
    GetDocumentDiffOperationStatusError::RegistryUnavailable
}

/// How a registry failure reads to a cancellation.
pub fn map_cancel_registry_error(error: DocumentDiffOperationRegistryError) -> (result: CancelDocumentDiffOperationError)
    ensures
        result == match error {
            DocumentDiffOperationRegistryError::Conflict => CancelDocumentDiffOperationError::Conflict,
            _ => CancelDocumentDiffOperationError::RegistryUnavailable,
        },
{
    match error {
        DocumentDiffOperationRegistryError::CapacityExceeded => CancelDocumentDiffOperationError::RegistryUnavailable,
        DocumentDiffOperationRegistryError::Conflict => CancelDocumentDiffOperationError::Conflict,
        DocumentDiffOperationRegistryError::Unavailable => CancelDocumentDiffOperationError::RegistryUnavailable,
    }
}

/// How a registry failure reads to a start.
pub fn map_start_registry_error(error: DocumentDiffOperationRegistryError) -> (result: StartDocumentDiffOperationError)
    ensures
        result == match error {
            DocumentDiffOperationRegistryError::CapacityExceeded => StartDocumentDiffOperationError::CapacityExceeded,
            _ => StartDocumentDiffOperationError::RegistryUnavailable,
        },
{
    match error {
        DocumentDiffOperationRegistryError::CapacityExceeded => StartDocumentDiffOperationError::CapacityExceeded,
        DocumentDiffOperationRegistryError::Conflict | DocumentDiffOperationRegistryError::Unavailable => StartDocumentDiffOperationError::RegistryUnavailable,
    }
}

/// What a start answers once the registry has taken the entry.
pub fn start_outcome(created: DocumentDiffOperationCreateOutcome) -> (result: Result<DiffOperationState, StartDocumentDiffOperationError>)
    ensures
        result == match created {
            DocumentDiffOperationCreateOutcome::Created => Ok::<DiffOperationState, StartDocumentDiffOperationError>(DiffOperationState::Accepted),
            DocumentDiffOperationCreateOutcome::AlreadyExists => Err(StartDocumentDiffOperationError::AlreadyExists),
        },
{
    match created {
        DocumentDiffOperationCreateOutcome::Created => Ok(DiffOperationState::Accepted),
        DocumentDiffOperationCreateOutcome::AlreadyExists => Err(StartDocumentDiffOperationError::AlreadyExists),
    }
}

/// The code of an error of the authoritative comparison.
pub open spec fn authoritative_error_code(error: CompareAuthoritativeDocumentRevisionsError) -> Seq<char> {
    match error {
        CompareAuthoritativeDocumentRevisionsError::InvalidInput => "authoritative_document_diff.invalid_input"@,
        CompareAuthoritativeDocumentRevisionsError::NotFound => "authoritative_document_diff.not_found"@,
        CompareAuthoritativeDocumentRevisionsError::StorageUnavailable => "authoritative_document_diff.storage_unavailable"@,
        CompareAuthoritativeDocumentRevisionsError::CorruptedData => "authoritative_document_diff.corrupted_data"@,
    }
}
} // verus!
