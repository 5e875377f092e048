use vstd::prelude::*;
use crate::collaborator_errors::BackupStoreError;
use crate::text::{opt_sstr_view, opt_str_view, opt_to_string, opt_ref_view, pairs_view, strings_view};
use crate::text::{contains_control, has_control_char, trim_text, trimmed};

verus! {
#[derive(Debug, Clone, PartialEq, Eq)]
pub struct CreateBackupInput {
    actor_user_id: String,
    workspace_id: String,
    job_id: String,
}

impl View for CreateBackupInput {
    type V = (Seq<char>, Seq<char>, Seq<char>);

    closed spec fn view(&self) -> (Seq<char>, Seq<char>, Seq<char>) {
        (self.actor_user_id@, self.workspace_id@, self.job_id@)
    }
}

impl CreateBackupInput {
    pub fn new(actor_user_id: &str, workspace_id: &str, job_id: &str) -> (result: Self)
        ensures
            result@ == (actor_user_id@, workspace_id@, job_id@),
    {
        Self {
            actor_user_id: actor_user_id.to_string(),
            workspace_id: workspace_id.to_string(),
            job_id: job_id.to_string(),
        }
    }

}

#[derive(Debug, Clone, PartialEq, Eq)]
pub struct GetBackupStatusInput {
    actor_user_id: String,
    workspace_id: String,
    job_id: String,
}

impl View for GetBackupStatusInput {
    type V = (Seq<char>, Seq<char>, Seq<char>);

    closed spec fn view(&self) -> (Seq<char>, Seq<char>, Seq<char>) {
        (self.actor_user_id@, self.workspace_id@, self.job_id@)
    }
}

impl GetBackupStatusInput {
    pub fn new(actor_user_id: &str, workspace_id: &str, job_id: &str) -> (result: Self)
        ensures
            result@ == (actor_user_id@, workspace_id@, job_id@),
    {
        Self {
            actor_user_id: actor_user_id.to_string(),
            workspace_id: workspace_id.to_string(),
            job_id: job_id.to_string(),
        }
    }

}

#[derive(Debug, Clone, PartialEq, Eq)]
pub struct ExportWorkspaceInput {
    actor_user_id: String,
    workspace_id: String,
    job_id: String,
}

impl View for ExportWorkspaceInput {
    type V = (Seq<char>, Seq<char>, Seq<char>);

    closed spec fn view(&self) -> (Seq<char>, Seq<char>, Seq<char>) {
        (self.actor_user_id@, self.workspace_id@, self.job_id@)
    }
}

impl ExportWorkspaceInput {
    pub fn new(actor_user_id: &str, workspace_id: &str, job_id: &str) -> (result: Self)
        ensures
            result@ == (actor_user_id@, workspace_id@, job_id@),
    {
        Self {
            actor_user_id: actor_user_id.to_string(),
            workspace_id: workspace_id.to_string(),
            job_id: job_id.to_string(),
        }
    }

}

#[derive(Debug, Clone, PartialEq, Eq)]
pub struct GetExportStatusInput {
    actor_user_id: String,
    workspace_id: String,
    job_id: String,
}

impl View for GetExportStatusInput {
    type V = (Seq<char>, Seq<char>, Seq<char>);

    closed spec fn view(&self) -> (Seq<char>, Seq<char>, Seq<char>) {
        (self.actor_user_id@, self.workspace_id@, self.job_id@)
    }
}

impl GetExportStatusInput {
    pub fn new(actor_user_id: &str, workspace_id: &str, job_id: &str) -> (result: Self)
        ensures
            result@ == (actor_user_id@, workspace_id@, job_id@),
    {
        Self {
            actor_user_id: actor_user_id.to_string(),
            workspace_id: workspace_id.to_string(),
            job_id: job_id.to_string(),
        }
    }

}

#[derive(Debug, Clone, PartialEq, Eq)]
pub struct RestoreBackupInput {
    actor_user_id: String,
    workspace_id: String,
    source_backup_job_id: String,
    restore_job_id: String,
}

impl View for RestoreBackupInput {
    type V = (Seq<char>, Seq<char>, Seq<char>, Seq<char>);

    closed spec fn view(&self) -> (Seq<char>, Seq<char>, Seq<char>, Seq<char>) {
        (self.actor_user_id@, self.workspace_id@, self.source_backup_job_id@, self.restore_job_id@)
    }
}

impl RestoreBackupInput {
    pub fn new(actor_user_id: &str, workspace_id: &str, source_backup_job_id: &str, restore_job_id: &str) -> (result: Self)
        ensures
            result@ == (actor_user_id@, workspace_id@, source_backup_job_id@, restore_job_id@),
    {
        Self {
            actor_user_id: actor_user_id.to_string(),
            workspace_id: workspace_id.to_string(),
            source_backup_job_id: source_backup_job_id.to_string(),
            restore_job_id: restore_job_id.to_string(),
        }
    }

}

#[derive(Debug, Clone, Copy, PartialEq, Eq, Structural)]
pub enum BackupJobUsecaseError {
    InvalidInput,
    JobNotFound,
    StorageUnavailable,
    Conflict,
    AuditUnavailable,
}

impl BackupJobUsecaseError {
    pub fn code(self) -> (result: &'static str)
        ensures
            result@ == match self {
                Self::InvalidInput => "BACKUP_JOB_INVALID_INPUT"@,
                Self::JobNotFound => "BACKUP_JOB_NOT_FOUND"@,
                Self::StorageUnavailable => "BACKUP_JOB_STORAGE_UNAVAILABLE"@,
                Self::Conflict => "BACKUP_JOB_CONFLICT"@,
                Self::AuditUnavailable => "BACKUP_JOB_AUDIT_UNAVAILABLE"@,
            },
    {
        match self {
            Self::InvalidInput => "BACKUP_JOB_INVALID_INPUT",
            Self::JobNotFound => "BACKUP_JOB_NOT_FOUND",
            Self::StorageUnavailable => "BACKUP_JOB_STORAGE_UNAVAILABLE",
            Self::Conflict => "BACKUP_JOB_CONFLICT",
            Self::AuditUnavailable => "BACKUP_JOB_AUDIT_UNAVAILABLE",
        }
    }
}

#[derive(Debug, Clone, PartialEq, Eq)]
pub enum BackupJobProductEvent {
    JobCompleted {
        event_name: &'static str,
        job_id: String,
        workspace_id: String,
        operation: &'static str,
        state: &'static str,
        duration_bucket: &'static str,
    },
    JobFailed {
        event_name: &'static str,
        job_id: String,
        workspace_id: String,
        operation: &'static str,
        state: &'static str,
        error_code: &'static str,
        duration_bucket: &'static str,
    },
}

impl BackupJobProductEvent {
    pub fn event_name(&self) -> (result: &'static str)
        ensures
            result == match self {
                BackupJobProductEvent::JobCompleted { event_name, .. } => *event_name,
                BackupJobProductEvent::JobFailed { event_name, .. } => *event_name,
            },
    {
        match self {
            BackupJobProductEvent::JobCompleted { event_name, .. } => event_name,
            BackupJobProductEvent::JobFailed { event_name, .. } => event_name,
        }
    }
}

#[derive(Debug, Clone, PartialEq, Eq)]
pub struct BackupJobFieldDebugEvent {
    backend_type: String,
    retry_count: u16,
    job_state: &'static str,
    object_key_hash: Option<String>,
}

impl View for BackupJobFieldDebugEvent {
    type V = (Seq<char>, u16, Seq<char>, Option<Seq<char>>);

    closed spec fn view(&self) -> (Seq<char>, u16, Seq<char>, Option<Seq<char>>) {
        (self.backend_type@, self.retry_count, self.job_state@, opt_str_view(self.object_key_hash))
    }
}

impl BackupJobFieldDebugEvent {
    pub fn backend_type(&self) -> (result: &str)
        ensures
            result@ == self@.0,
    {
        self.backend_type.as_str()
    }

    pub fn retry_count(&self) -> (result: u16)
        ensures
            result == self@.1,
    {
        self.retry_count
    }

    pub fn job_state(&self) -> (result: &'static str)
        ensures
            result@ == self@.2,
    {
        self.job_state
    }

    pub fn object_key_hash(&self) -> (result: Option<&str>)
        ensures
            match result { Some(s) => Some(s@), None => None::<Seq<char>> } == self@.3,
    {
        match &self.object_key_hash {
            Some(s) => Some(s.as_str()),
            None => None,
        }
    }

}

pub trait BackupJobUsecaseLogger {
    fn write_product(&mut self, event: BackupJobProductEvent);

    fn write_field_debug(&mut self, event: BackupJobFieldDebugEvent) {
    }
}

#[derive(Debug, Clone, Copy, PartialEq, Eq, Structural)]
pub struct GetBackupStatusUsecase;

impl GetBackupStatusUsecase {
    pub fn new() -> (result: Self)
        ensures
            result == (GetBackupStatusUsecase),
    {
        GetBackupStatusUsecase
    }
}

impl Default for GetBackupStatusUsecase {
    fn default() -> (result: Self)
        ensures
            result == (GetBackupStatusUsecase),
    {
        Self::new()
    }
}

#[derive(Debug, Clone, Copy, PartialEq, Eq, Structural)]
pub struct ExportWorkspaceUsecase;

impl ExportWorkspaceUsecase {
    pub fn new() -> (result: Self)
        ensures
            result == (ExportWorkspaceUsecase),
    {
        ExportWorkspaceUsecase
    }
}

impl Default for ExportWorkspaceUsecase {
    fn default() -> (result: Self)
        ensures
            result == (ExportWorkspaceUsecase),
    {
        Self::new()
    }
}

#[derive(Debug, Clone, Copy, PartialEq, Eq, Structural)]
pub struct GetExportStatusUsecase;

impl GetExportStatusUsecase {
    pub fn new() -> (result: Self)
        ensures
            result == (GetExportStatusUsecase),
    {
        GetExportStatusUsecase
    }
}

impl Default for GetExportStatusUsecase {
    fn default() -> (result: Self)
        ensures
            result == (GetExportStatusUsecase),
    {
        Self::new()
    }
}

/// The text a job field holds once validated: the trimmed text, which must
/// be non-empty and free of control characters.
pub open spec fn validated_text(value: Seq<char>) -> Result<Seq<char>, BackupJobUsecaseError> {
    let trimmed = trimmed(value);
    if trimmed.len() == 0 || has_control_char(trimmed) {
        Err(BackupJobUsecaseError::InvalidInput)
    } else {
        Ok(trimmed)
    }
}

pub fn validate_text(value: &str) -> (result: Result<String, BackupJobUsecaseError>)
    ensures
        match (result, validated_text(value@)) {
            (Ok(text), Ok(expected)) => text@ == expected,
            (Err(error), Err(expected)) => error == expected,
            _ => false,
        },
{
    let trimmed = trim_text(value);
    if trimmed.is_empty() || contains_control(trimmed) {
        return Err(BackupJobUsecaseError::InvalidInput);
    }
    Ok(trimmed.to_string())
}

/// The code a restore is abandoned with when its staging does not validate:
/// the validation's own code, or the generic staging code when it gave none.
pub fn restore_staging_failure_code(error_code: Option<&'static str>) -> (result: &'static str)
    ensures
        match error_code {
            Some(code) => result == code,
            None => result == "BACKUP_RESTORE_STAGING_INVALID",
        },
{
    match error_code {
        Some(code) => code,
        None => "BACKUP_RESTORE_STAGING_INVALID",
    }
}


impl BackupJobUsecaseError {
    /// What `from_store_error` gives for each value.
    pub open spec fn from_store_error_spec(error: BackupStoreError) -> Self {
        match error {
            BackupStoreError::StorageUnavailable | BackupStoreError::CorruptedArtifact | BackupStoreError::MissingJob => Self::StorageUnavailable,
            BackupStoreError::Conflict => Self::Conflict,
        }
    }

    /// How this usecase reports each backup store failure.
    #[verifier::when_used_as_spec(from_store_error_spec)]
    pub fn from_store_error(error: BackupStoreError) -> (result: Self)
        ensures
            result == Self::from_store_error_spec(error),
    {
        match error {
            BackupStoreError::StorageUnavailable | BackupStoreError::CorruptedArtifact | BackupStoreError::MissingJob => Self::StorageUnavailable,
            BackupStoreError::Conflict => Self::Conflict,
        }
    }
}


/// The job events a restore applies.
#[derive(Debug, Clone, Copy, PartialEq, Eq)]
pub enum RestoreJobEvent {
    Start,
    /// Abandon the running job, leaving this error code on it.
    FailFatal(&'static str),
    Complete,
}

/// The audit records a restore writes.
#[derive(Debug, Clone, Copy, PartialEq, Eq, Structural)]
pub enum RestoreAudit {
    /// `restore.failed` with the job's state.
    Failed,
    /// `restore.completed` with the job's state and the retention days.
    Completed,
}

/// A call a restore from a backup makes to the outside world.
#[derive(Debug, Clone, Copy, PartialEq, Eq)]
pub enum RestoreJobCall {
    /// Build the queued job for the restore job id, the workspace and the
    /// restore operation, and save it.
    SaveQueued,
    /// Apply the event to the job in hand.
    Transition(RestoreJobEvent),
    /// Save the job in hand.
    SaveJob,
    /// Validate the staged restore of the source backup.
    ValidateStaging,
    /// Apply the staged restore.
    ApplyStaging,
    /// Build the audit record of the job in hand and record it.
    RecordAudit(RestoreAudit),
}

/// What came back from the last call of a restore from a backup; `J` is a
/// backup job as the job rules give it.
#[derive(Debug, Clone, Copy, PartialEq, Eq)]
pub enum RestoreJobReply<J> {
    Done,
    /// The call gave this job: the queued job, or the job a transition
    /// produced.
    Job(J),
    /// The staging was validated; whether it is valid, and the validation's
    /// code if it gave one.
    Validated(bool, Option<&'static str>),
    /// Applying the staging failed with a store error of this code.
    ApplyFailed(&'static str),
    StoreFailed(BackupStoreError),
    /// The job rules refused the value or the event.
    Refused,
    /// The audit record could not be built or recorded.
    AuditFailed,
}

/// A product event of a restore from a backup, about the job in hand.
#[derive(Debug, Clone, Copy, PartialEq, Eq, Structural)]
pub enum RestoreJobLog {
    /// `restore.failed` with the job's error code, or `BACKUP_JOB_FAILED`.
    Failed,
    /// `restore.completed`.
    Completed,
}

/// Where a restore from a backup stands: the call whose reply is awaited,
/// and the job in hand once there is one.
#[derive(Debug, PartialEq, Eq)]
pub enum RestoreJobStep<J> {
    SavingQueued,
    Starting(J),
    SavingRunning(J),
    Validating(J),
    Applying(J),
    Abandoning(J),
    SavingFailed(J),
    AuditingFailure(J),
    Completing(J),
    SavingCompleted(J),
    AuditingCompletion(J),
}

/// What a restore from a backup does next: make a call, or log an event
/// (if any) and end with the job in hand or an error.
#[derive(Debug, PartialEq, Eq)]
pub enum RestoreJobAction<J> {
    Call(RestoreJobCall),
    Finish(Option<RestoreJobLog>, Result<J, BackupJobUsecaseError>),
}

/// How a restore from a backup starts: with invalid identifiers it is
/// invalid input, else the queued job is saved.
pub open spec fn restore_job_start<J>(ids_valid: bool) -> (RestoreJobStep<J>, RestoreJobAction<J>) {
    if ids_valid {
        (RestoreJobStep::SavingQueued, RestoreJobAction::Call(RestoreJobCall::SaveQueued))
    } else {
        (RestoreJobStep::SavingQueued, RestoreJobAction::Finish(None, Err(BackupJobUsecaseError::InvalidInput)))
    }
}

/// One step of a restore from a backup: the queued job is saved, started
/// and saved running; the staging is validated; an invalid staging abandons
/// the job with the validation's code (or `BACKUP_RESTORE_STAGING_INVALID`),
/// an apply that fails abandons it with that failure's code; the abandoned
/// job is saved, its failure recorded in the audit log and logged, and it is
/// returned; a valid and applied staging completes the job, saves it,
/// records the completion in the audit log, logs it and returns the
/// completed job. A refused job rule is invalid input, a store failure
/// elsewhere is mapped by `from_store_error`, an audit failure leaves the
/// audit unavailable.
pub open spec fn restore_job_transition<J>(step: RestoreJobStep<J>, reply: RestoreJobReply<J>) -> (RestoreJobStep<J>, RestoreJobAction<J>) {
    match reply {
        RestoreJobReply::Refused => (RestoreJobStep::SavingQueued, RestoreJobAction::Finish(None, Err(BackupJobUsecaseError::InvalidInput))),
        RestoreJobReply::AuditFailed => (RestoreJobStep::SavingQueued, RestoreJobAction::Finish(None, Err(BackupJobUsecaseError::AuditUnavailable))),
        RestoreJobReply::StoreFailed(error) => (RestoreJobStep::SavingQueued, RestoreJobAction::Finish(None, Err(BackupJobUsecaseError::from_store_error(error)))),
        RestoreJobReply::ApplyFailed(code) => match step {
            RestoreJobStep::Applying(j) => (RestoreJobStep::Abandoning(j), RestoreJobAction::Call(RestoreJobCall::Transition(RestoreJobEvent::FailFatal(code)))),
            _ => (RestoreJobStep::SavingQueued, RestoreJobAction::Finish(None, Err(BackupJobUsecaseError::InvalidInput))),
        },
        RestoreJobReply::Validated(valid, code) => match step {
            RestoreJobStep::Validating(j) => if valid {
                (RestoreJobStep::Applying(j), RestoreJobAction::Call(RestoreJobCall::ApplyStaging))
            } else {
                (RestoreJobStep::Abandoning(j), RestoreJobAction::Call(RestoreJobCall::Transition(RestoreJobEvent::FailFatal(
                    match code { Some(c) => c, None => "BACKUP_RESTORE_STAGING_INVALID" },
                ))))
            },
            _ => (RestoreJobStep::SavingQueued, RestoreJobAction::Finish(None, Err(BackupJobUsecaseError::InvalidInput))),
        },
        RestoreJobReply::Job(job) => match step {
            RestoreJobStep::SavingQueued => (RestoreJobStep::Starting(job), RestoreJobAction::Call(RestoreJobCall::Transition(RestoreJobEvent::Start))),
            RestoreJobStep::Starting(_) => (RestoreJobStep::SavingRunning(job), RestoreJobAction::Call(RestoreJobCall::SaveJob)),
            RestoreJobStep::Abandoning(_) => (RestoreJobStep::SavingFailed(job), RestoreJobAction::Call(RestoreJobCall::SaveJob)),
            _ => (RestoreJobStep::SavingCompleted(job), RestoreJobAction::Call(RestoreJobCall::SaveJob)),
        },
        RestoreJobReply::Done => match step {
            RestoreJobStep::SavingRunning(j) => (RestoreJobStep::Validating(j), RestoreJobAction::Call(RestoreJobCall::ValidateStaging)),
            RestoreJobStep::Applying(j) => (RestoreJobStep::Completing(j), RestoreJobAction::Call(RestoreJobCall::Transition(RestoreJobEvent::Complete))),
            RestoreJobStep::SavingFailed(j) => (RestoreJobStep::AuditingFailure(j), RestoreJobAction::Call(RestoreJobCall::RecordAudit(RestoreAudit::Failed))),
            RestoreJobStep::AuditingFailure(j) => (RestoreJobStep::SavingQueued, RestoreJobAction::Finish(Some(RestoreJobLog::Failed), Ok(j))),
            RestoreJobStep::SavingCompleted(j) => (RestoreJobStep::AuditingCompletion(j), RestoreJobAction::Call(RestoreJobCall::RecordAudit(RestoreAudit::Completed))),
            RestoreJobStep::AuditingCompletion(j) => (RestoreJobStep::SavingQueued, RestoreJobAction::Finish(Some(RestoreJobLog::Completed), Ok(j))),
            _ => (RestoreJobStep::SavingQueued, RestoreJobAction::Finish(None, Err(BackupJobUsecaseError::InvalidInput))),
        },
    }
}

/// The reply can answer the call of the step.
pub open spec fn restore_job_reply_fits<J>(step: RestoreJobStep<J>, reply: RestoreJobReply<J>) -> bool {
    &&& reply is Validated ==> step is Validating
    &&& reply is ApplyFailed ==> step is Applying
    &&& reply is Job ==> step is SavingQueued || step is Starting || step is Abandoning || step is Completing
    &&& reply is Done ==> step is SavingRunning || step is Applying || step is SavingFailed || step is AuditingFailure
        || step is SavingCompleted || step is AuditingCompletion
}

/// Starts a restore from a backup, as `restore_job_start` describes.
pub fn restore_job_begin<J>(ids_valid: bool) -> (result: (RestoreJobStep<J>, RestoreJobAction<J>))
    ensures
        result == restore_job_start::<J>(ids_valid),
{
    if ids_valid {
        (RestoreJobStep::SavingQueued, RestoreJobAction::Call(RestoreJobCall::SaveQueued))
    } else {
        (RestoreJobStep::SavingQueued, RestoreJobAction::Finish(None, Err(BackupJobUsecaseError::InvalidInput)))
    }
}

/// Takes the reply to the last call of a restore from a backup and says what
/// comes next, as `restore_job_transition` describes.
pub fn restore_job_next<J>(step: RestoreJobStep<J>, reply: RestoreJobReply<J>) -> (result: (RestoreJobStep<J>, RestoreJobAction<J>))
    requires
        restore_job_reply_fits(step, reply),
    ensures
        result == restore_job_transition(step, reply),
{
    match reply {
        RestoreJobReply::Refused => (RestoreJobStep::SavingQueued, RestoreJobAction::Finish(None, Err(BackupJobUsecaseError::InvalidInput))),
        RestoreJobReply::AuditFailed => (RestoreJobStep::SavingQueued, RestoreJobAction::Finish(None, Err(BackupJobUsecaseError::AuditUnavailable))),
        RestoreJobReply::StoreFailed(error) => (RestoreJobStep::SavingQueued, RestoreJobAction::Finish(None, Err(BackupJobUsecaseError::from_store_error(error)))),
        RestoreJobReply::ApplyFailed(code) => match step {
            RestoreJobStep::Applying(j) => (RestoreJobStep::Abandoning(j), RestoreJobAction::Call(RestoreJobCall::Transition(RestoreJobEvent::FailFatal(code)))),
            _ => (RestoreJobStep::SavingQueued, RestoreJobAction::Finish(None, Err(BackupJobUsecaseError::InvalidInput))),
        },
        RestoreJobReply::Validated(valid, code) => match step {
            RestoreJobStep::Validating(j) => if valid {
                (RestoreJobStep::Applying(j), RestoreJobAction::Call(RestoreJobCall::ApplyStaging))
            } else {
                let code = restore_staging_failure_code(code);
                (RestoreJobStep::Abandoning(j), RestoreJobAction::Call(RestoreJobCall::Transition(RestoreJobEvent::FailFatal(code))))
            },
            _ => (RestoreJobStep::SavingQueued, RestoreJobAction::Finish(None, Err(BackupJobUsecaseError::InvalidInput))),
        },
        RestoreJobReply::Job(job) => match step {
            RestoreJobStep::SavingQueued => (RestoreJobStep::Starting(job), RestoreJobAction::Call(RestoreJobCall::Transition(RestoreJobEvent::Start))),
            RestoreJobStep::Starting(_) => (RestoreJobStep::SavingRunning(job), RestoreJobAction::Call(RestoreJobCall::SaveJob)),
            RestoreJobStep::Abandoning(_) => (RestoreJobStep::SavingFailed(job), RestoreJobAction::Call(RestoreJobCall::SaveJob)),
            _ => (RestoreJobStep::SavingCompleted(job), RestoreJobAction::Call(RestoreJobCall::SaveJob)),
        },
        RestoreJobReply::Done => match step {
            RestoreJobStep::SavingRunning(j) => (RestoreJobStep::Validating(j), RestoreJobAction::Call(RestoreJobCall::ValidateStaging)),
            RestoreJobStep::Applying(j) => (RestoreJobStep::Completing(j), RestoreJobAction::Call(RestoreJobCall::Transition(RestoreJobEvent::Complete))),
            RestoreJobStep::SavingFailed(j) => (RestoreJobStep::AuditingFailure(j), RestoreJobAction::Call(RestoreJobCall::RecordAudit(RestoreAudit::Failed))),
            RestoreJobStep::AuditingFailure(j) => (RestoreJobStep::SavingQueued, RestoreJobAction::Finish(Some(RestoreJobLog::Failed), Ok(j))),
            RestoreJobStep::SavingCompleted(j) => (RestoreJobStep::AuditingCompletion(j), RestoreJobAction::Call(RestoreJobCall::RecordAudit(RestoreAudit::Completed))),
            RestoreJobStep::AuditingCompletion(j) => (RestoreJobStep::SavingQueued, RestoreJobAction::Finish(Some(RestoreJobLog::Completed), Ok(j))),
            _ => (RestoreJobStep::SavingQueued, RestoreJobAction::Finish(None, Err(BackupJobUsecaseError::InvalidInput))),
        },
    }
}

/// Whether the reply can answer the call of the step, as
/// `restore_job_reply_fits` says; a runner checks this before it hands the
/// reply on.
pub fn check_restore_job_reply<J>(step: &RestoreJobStep<J>, reply: &RestoreJobReply<J>) -> (result: bool)
    ensures
        result == restore_job_reply_fits(*step, *reply),
{
    match reply {
        RestoreJobReply::Validated(_, _) => match step {
            RestoreJobStep::Validating(_) => true,
            _ => false,
        },
        RestoreJobReply::ApplyFailed(_) => match step {
            RestoreJobStep::Applying(_) => true,
            _ => false,
        },
        RestoreJobReply::Job(_) => match step {
            RestoreJobStep::SavingQueued | RestoreJobStep::Starting(_) | RestoreJobStep::Abandoning(_) | RestoreJobStep::Completing(_) => true,
            _ => false,
        },
        RestoreJobReply::Done => match step {
            RestoreJobStep::SavingRunning(_) | RestoreJobStep::Applying(_) | RestoreJobStep::SavingFailed(_)
            | RestoreJobStep::AuditingFailure(_) | RestoreJobStep::SavingCompleted(_) | RestoreJobStep::AuditingCompletion(_) => true,
            _ => false,
        },
        _ => true,
    }
}

} // verus!
