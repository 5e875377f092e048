use vstd::prelude::*;
use crate::collaborator_errors::{BackupPackageStoreError, BackupStoreError};
use crate::text::{opt_sstr_view, opt_str_view, opt_to_string, opt_ref_view, pairs_view, strings_view};

verus! {
#[derive(Debug, Clone, PartialEq, Eq)]
pub struct StartBackupPackageOperationInput {
    actor_user_id: String,
    workspace_id: String,
    operation_id: String,
}

impl View for StartBackupPackageOperationInput {
    type V = (Seq<char>, Seq<char>, Seq<char>);

    closed spec fn view(&self) -> (Seq<char>, Seq<char>, Seq<char>) {
        (self.actor_user_id@, self.workspace_id@, self.operation_id@)
    }
}

impl StartBackupPackageOperationInput {
    pub fn new(actor_user_id: &str, workspace_id: &str, operation_id: &str) -> (result: Self)
        ensures
            result@ == (actor_user_id@, workspace_id@, operation_id@),
    {
        Self {
            actor_user_id: actor_user_id.to_string(),
            workspace_id: workspace_id.to_string(),
            operation_id: operation_id.to_string(),
        }
    }

}

#[derive(Debug, Clone, PartialEq, Eq)]
pub struct RunBackupPackageOperationInput {
    actor_user_id: String,
    workspace_id: String,
    operation_id: String,
}

impl View for RunBackupPackageOperationInput {
    type V = (Seq<char>, Seq<char>, Seq<char>);

    closed spec fn view(&self) -> (Seq<char>, Seq<char>, Seq<char>) {
        (self.actor_user_id@, self.workspace_id@, self.operation_id@)
    }
}

impl RunBackupPackageOperationInput {
    pub fn new(actor_user_id: &str, workspace_id: &str, operation_id: &str) -> (result: Self)
        ensures
            result@ == (actor_user_id@, workspace_id@, operation_id@),
    {
        Self {
            actor_user_id: actor_user_id.to_string(),
            workspace_id: workspace_id.to_string(),
            operation_id: operation_id.to_string(),
        }
    }

}

#[derive(Debug, Clone, PartialEq, Eq)]
pub struct GetBackupPackageOperationInput {
    actor_user_id: String,
    workspace_id: String,
    operation_id: String,
}

impl View for GetBackupPackageOperationInput {
    type V = (Seq<char>, Seq<char>, Seq<char>);

    closed spec fn view(&self) -> (Seq<char>, Seq<char>, Seq<char>) {
        (self.actor_user_id@, self.workspace_id@, self.operation_id@)
    }
}

impl GetBackupPackageOperationInput {
    pub fn new(actor_user_id: &str, workspace_id: &str, operation_id: &str) -> (result: Self)
        ensures
            result@ == (actor_user_id@, workspace_id@, operation_id@),
    {
        Self {
            actor_user_id: actor_user_id.to_string(),
            workspace_id: workspace_id.to_string(),
            operation_id: operation_id.to_string(),
        }
    }

}

#[derive(Debug, Clone, PartialEq, Eq)]
pub struct CancelBackupPackageOperationInput {
    actor_user_id: String,
    workspace_id: String,
    operation_id: String,
}

impl View for CancelBackupPackageOperationInput {
    type V = (Seq<char>, Seq<char>, Seq<char>);

    closed spec fn view(&self) -> (Seq<char>, Seq<char>, Seq<char>) {
        (self.actor_user_id@, self.workspace_id@, self.operation_id@)
    }
}

impl CancelBackupPackageOperationInput {
    pub fn new(actor_user_id: &str, workspace_id: &str, operation_id: &str) -> (result: Self)
        ensures
            result@ == (actor_user_id@, workspace_id@, operation_id@),
    {
        Self {
            actor_user_id: actor_user_id.to_string(),
            workspace_id: workspace_id.to_string(),
            operation_id: operation_id.to_string(),
        }
    }

}

#[derive(Debug, Clone, Copy, PartialEq, Eq, Structural)]
pub enum BackupPackageOperationUsecaseError {
    InvalidInput,
    NotFound,
    Conflict,
    StorageUnavailable,
}

impl BackupPackageOperationUsecaseError {
    pub fn code(self) -> (result: &'static str)
        ensures
            result@ == match self {
                Self::InvalidInput => "BACKUP_OPERATION_INVALID_INPUT"@,
                Self::NotFound => "BACKUP_OPERATION_NOT_FOUND"@,
                Self::Conflict => "BACKUP_OPERATION_CONFLICT"@,
                Self::StorageUnavailable => "BACKUP_OPERATION_STORAGE_UNAVAILABLE"@,
            },
    {
        match self {
            Self::InvalidInput => "BACKUP_OPERATION_INVALID_INPUT",
            Self::NotFound => "BACKUP_OPERATION_NOT_FOUND",
            Self::Conflict => "BACKUP_OPERATION_CONFLICT",
            Self::StorageUnavailable => "BACKUP_OPERATION_STORAGE_UNAVAILABLE",
        }
    }
}

#[derive(Debug, Clone, Copy, PartialEq, Eq, Structural)]
pub struct StartBackupPackageOperationUsecase;

impl StartBackupPackageOperationUsecase {
    pub fn new() -> (result: Self)
        ensures
            result == (StartBackupPackageOperationUsecase),
    {
        StartBackupPackageOperationUsecase
    }
}

impl Default for StartBackupPackageOperationUsecase {
    fn default() -> (result: Self)
        ensures
            result == (StartBackupPackageOperationUsecase),
    {
        Self::new()
    }
}

#[derive(Debug, Clone, Copy, PartialEq, Eq, Structural)]
pub struct CancelBackupPackageOperationUsecase;

impl CancelBackupPackageOperationUsecase {
    pub fn new() -> (result: Self)
        ensures
            result == (CancelBackupPackageOperationUsecase),
    {
        CancelBackupPackageOperationUsecase
    }
}

impl Default for CancelBackupPackageOperationUsecase {
    fn default() -> (result: Self)
        ensures
            result == (CancelBackupPackageOperationUsecase),
    {
        Self::new()
    }
}

#[derive(Debug, Clone, Copy, PartialEq, Eq, Structural)]
pub struct GetBackupPackageOperationUsecase;

impl GetBackupPackageOperationUsecase {
    pub fn new() -> (result: Self)
        ensures
            result == (GetBackupPackageOperationUsecase),
    {
        GetBackupPackageOperationUsecase
    }
}

impl Default for GetBackupPackageOperationUsecase {
    fn default() -> (result: Self)
        ensures
            result == (GetBackupPackageOperationUsecase),
    {
        Self::new()
    }
}

/// Whether a failed job may be tried again.
#[derive(Debug, Clone, Copy, PartialEq, Eq, Structural)]
pub enum BackupJobFailureKind {
    Retryable,
    Fatal,
}

/// The state of a job that is not terminal, as a run sees it.
#[derive(Debug, Clone, Copy, PartialEq, Eq, Structural)]
pub enum BackupRunJobState {
    Queued,
    Retrying,
    Running,
    Other,
}

/// How a run or a cancellation treats the job it found.
#[derive(Debug, Clone, Copy, PartialEq, Eq, Structural)]
pub enum BackupJobGate {
    /// The job has ended; it is reported as it stands.
    ReportCurrent,
    /// The job is still open and the request goes on.
    Proceed,
}

/// What a run does with an open job before building its package.
#[derive(Debug, Clone, Copy, PartialEq, Eq, Structural)]
pub enum BackupRunStart {
    /// The job is started first.
    Start,
    /// The job is already running and is taken as it is.
    Resume,
}

/// What follows the package build.
#[derive(Debug, Clone, Copy, PartialEq, Eq)]
pub enum BackupBuildNext {
    /// The job was abandoned meanwhile: the package is discarded.
    Discard,
    /// The job completes.
    Complete,
    /// The job fails, retryably or not, with this error code.
    Fail(BackupJobFailureKind, &'static str),
}

/// Whether a failed package build may be retried: only when the storage was
/// unavailable.
pub open spec fn package_failure_kind(failure: BackupPackageStoreError) -> BackupJobFailureKind {
    if failure == BackupPackageStoreError::StorageUnavailable {
        BackupJobFailureKind::Retryable
    } else {
        BackupJobFailureKind::Fatal
    }
}

/// The error code a failed package build leaves on its job.
pub open spec fn package_failure_code(failure: BackupPackageStoreError) -> Seq<char> {
    match failure {
        BackupPackageStoreError::StorageUnavailable => "BACKUP_PACKAGE_STORAGE_UNAVAILABLE"@,
        BackupPackageStoreError::Conflict => "BACKUP_PACKAGE_CONFLICT"@,
        BackupPackageStoreError::PackageNotFound => "BACKUP_PACKAGE_NOT_FOUND"@,
        BackupPackageStoreError::CorruptedPackage => "BACKUP_PACKAGE_CORRUPTED"@,
    }
}

/// The error code a failed package build leaves on its job, as the literal.
pub open spec fn package_failure_str(failure: BackupPackageStoreError) -> &'static str {
    match failure {
        BackupPackageStoreError::StorageUnavailable => "BACKUP_PACKAGE_STORAGE_UNAVAILABLE",
        BackupPackageStoreError::Conflict => "BACKUP_PACKAGE_CONFLICT",
        BackupPackageStoreError::PackageNotFound => "BACKUP_PACKAGE_NOT_FOUND",
        BackupPackageStoreError::CorruptedPackage => "BACKUP_PACKAGE_CORRUPTED",
    }
}

/// A failed package build: unavailable storage may be retried, every other
/// failure is fatal; each has its own error code.
pub fn package_failure(failure: BackupPackageStoreError) -> (result: (BackupJobFailureKind, &'static str))
    ensures
        result.0 == package_failure_kind(failure),
        result.1@ == package_failure_code(failure),
        result.1 == package_failure_str(failure),
{
    match failure {
        BackupPackageStoreError::StorageUnavailable => (
            BackupJobFailureKind::Retryable,
            "BACKUP_PACKAGE_STORAGE_UNAVAILABLE",
        ),
        BackupPackageStoreError::Conflict => (BackupJobFailureKind::Fatal, "BACKUP_PACKAGE_CONFLICT"),
        BackupPackageStoreError::PackageNotFound => (BackupJobFailureKind::Fatal, "BACKUP_PACKAGE_NOT_FOUND"),
        BackupPackageStoreError::CorruptedPackage => (BackupJobFailureKind::Fatal, "BACKUP_PACKAGE_CORRUPTED"),
    }
}

/// The error code logged when discarding an abandoned job's package fails.
pub fn package_cleanup_failure(failure: BackupPackageStoreError) -> (result: &'static str)
    ensures
        result@ == match failure {
            BackupPackageStoreError::StorageUnavailable => "BACKUP_PACKAGE_DISCARD_STORAGE_UNAVAILABLE"@,
            BackupPackageStoreError::PackageNotFound => "BACKUP_PACKAGE_DISCARD_NOT_FOUND"@,
            BackupPackageStoreError::CorruptedPackage => "BACKUP_PACKAGE_DISCARD_CORRUPTED"@,
            BackupPackageStoreError::Conflict => "BACKUP_PACKAGE_DISCARD_CONFLICT"@,
        },
{
    match failure {
        BackupPackageStoreError::StorageUnavailable => "BACKUP_PACKAGE_DISCARD_STORAGE_UNAVAILABLE",
        BackupPackageStoreError::PackageNotFound => "BACKUP_PACKAGE_DISCARD_NOT_FOUND",
        BackupPackageStoreError::CorruptedPackage => "BACKUP_PACKAGE_DISCARD_CORRUPTED",
        BackupPackageStoreError::Conflict => "BACKUP_PACKAGE_DISCARD_CONFLICT",
    }
}

/// A run or a cancellation accepts only backup jobs; one that has ended is
/// reported as it stands, an open one goes on.
pub fn backup_job_gate(is_backup: bool, terminal: bool) -> (result: Result<BackupJobGate, BackupPackageOperationUsecaseError>)
    ensures
        !is_backup ==> result == Err::<BackupJobGate, BackupPackageOperationUsecaseError>(
            BackupPackageOperationUsecaseError::Conflict,
        ),
        is_backup && terminal ==> result == Ok::<BackupJobGate, BackupPackageOperationUsecaseError>(
            BackupJobGate::ReportCurrent,
        ),
        is_backup && !terminal ==> result == Ok::<BackupJobGate, BackupPackageOperationUsecaseError>(
            BackupJobGate::Proceed,
        ),
{
    if !is_backup {
        Err(BackupPackageOperationUsecaseError::Conflict)
    } else if terminal {
        Ok(BackupJobGate::ReportCurrent)
    } else {
        Ok(BackupJobGate::Proceed)
    }
}

/// An open job that is queued or waiting for a retry is started; a running
/// one is resumed; any other state is a conflict.
pub fn backup_run_start(state: BackupRunJobState) -> (result: Result<BackupRunStart, BackupPackageOperationUsecaseError>)
    ensures
        (state == BackupRunJobState::Queued || state == BackupRunJobState::Retrying) ==> result
            == Ok::<BackupRunStart, BackupPackageOperationUsecaseError>(BackupRunStart::Start),
        state == BackupRunJobState::Running ==> result == Ok::<
            BackupRunStart,
            BackupPackageOperationUsecaseError,
        >(BackupRunStart::Resume),
        state == BackupRunJobState::Other ==> result == Err::<
            BackupRunStart,
            BackupPackageOperationUsecaseError,
        >(BackupPackageOperationUsecaseError::Conflict),
{
    match state {
        BackupRunJobState::Queued | BackupRunJobState::Retrying => Ok(BackupRunStart::Start),
        BackupRunJobState::Running => Ok(BackupRunStart::Resume),
        BackupRunJobState::Other => Err(BackupPackageOperationUsecaseError::Conflict),
    }
}

/// After the build: a failed build fails the job as `package_failure` says;
/// a successful one completes it, unless the job was abandoned meanwhile, in
/// which case the package is discarded.
pub fn backup_build_next(build: Result<(), BackupPackageStoreError>, abandoned: bool) -> (result: BackupBuildNext)
    ensures
        match build {
            Err(failure) => result matches BackupBuildNext::Fail(kind, code) && kind
                == package_failure_kind(failure) && code@ == package_failure_code(failure),
            Ok(_) => result == (if abandoned {
                BackupBuildNext::Discard
            } else {
                BackupBuildNext::Complete
            }),
        },
{
    match build {
        Err(failure) => {
            let (kind, code) = package_failure(failure);
            BackupBuildNext::Fail(kind, code)
        },
        Ok(_) => {
            if abandoned {
                BackupBuildNext::Discard
            } else {
                BackupBuildNext::Complete
            }
        },
    }
}

/// What `map_job_error` gives for each value.
pub open spec fn map_job_error_spec(error: BackupStoreError) -> BackupPackageOperationUsecaseError {
    match error {
        BackupStoreError::Conflict => BackupPackageOperationUsecaseError::Conflict,
        BackupStoreError::StorageUnavailable | BackupStoreError::CorruptedArtifact | BackupStoreError::MissingJob => BackupPackageOperationUsecaseError::StorageUnavailable,
    }
}

/// How this usecase reports each backup store failure.
#[verifier::when_used_as_spec(map_job_error_spec)]
pub fn map_job_error(error: BackupStoreError) -> (result: BackupPackageOperationUsecaseError)
    ensures
        result == map_job_error_spec(error),
{
    match error {
        BackupStoreError::Conflict => BackupPackageOperationUsecaseError::Conflict,
        BackupStoreError::StorageUnavailable | BackupStoreError::CorruptedArtifact | BackupStoreError::MissingJob => BackupPackageOperationUsecaseError::StorageUnavailable,
    }
}


/// A call a backup run makes to the outside world; the job in hand is the
/// one the run's step holds.
#[derive(Debug, Clone, Copy, PartialEq, Eq)]
pub enum BackupRunCall {
    /// Read the job.
    GetJob,
    /// Apply the job event to the job in hand.
    Transition(BackupRunEvent),
    /// Save the job in hand.
    SaveJob,
    /// Build the package.
    BuildPackage,
    /// Read the job again after the build.
    GetLatestJob,
    /// Discard the built package.
    DiscardPackage,
}

/// The job events a backup run applies: start, complete, or fail retryably
/// or fatally, leaving the error code on the job.
#[derive(Debug, Clone, Copy, PartialEq, Eq)]
pub enum BackupRunEvent {
    Start,
    Complete,
    Fail(BackupJobFailureKind, &'static str),
}

/// What came back from the last call of a backup run; `J` is a backup job
/// as the job rules give it.
#[derive(Debug, Clone, Copy, PartialEq, Eq)]
pub enum BackupRunReply<J> {
    Done,
    /// The job read: whether it is a backup, whether it has ended, its
    /// state, and the job itself.
    Found(bool, bool, BackupRunJobState, J),
    /// The job read again after the build: whether it is abandoned, and
    /// the job itself.
    Latest(bool, J),
    /// The job a transition produced.
    Job(J),
    JobMissing,
    JobStoreFailed(BackupStoreError),
    /// The job state machine refused the event.
    TransitionRefused,
    PackageStoreFailed(BackupPackageStoreError),
}

/// A product event of a backup run, about the job in hand.
#[derive(Debug, Clone, Copy, PartialEq, Eq, Structural)]
pub enum BackupRunLog {
    /// `backup.operation.running`.
    Running,
    /// `backup.operation.completed`.
    Completed,
    /// `backup.operation.failed`, with the job's error code.
    Failed,
    /// `backup.package.discarded`.
    Discarded,
    /// `backup.package.discard_failed`, with `package_cleanup_failure` of the
    /// failure.
    DiscardFailed(BackupPackageStoreError),
}

/// Where a backup run stands: the call whose reply is awaited, and the job
/// in hand once there is one.
#[derive(Debug, Clone, Copy, PartialEq, Eq)]
pub enum BackupRunStep<J> {
    Reading,
    /// Starting the job read.
    Starting(J),
    SavingRunning(J),
    Building(J),
    /// Reading the job again; the running job is in hand.
    ReadingLatest(J),
    /// Discarding the package of the abandoned job read again.
    Discarding(J),
    /// Completing the running job.
    Completing(J),
    SavingCompleted(J),
    /// Failing the running job.
    Failing(J),
    SavingFailed(J),
}

/// What a backup run does next: log an event (if any) and make a call, or
/// log an event (if any) and end with a job or an error.
#[derive(Debug, PartialEq, Eq)]
pub enum BackupRunAction<J> {
    Call(Option<BackupRunLog>, BackupRunCall),
    Finish(Option<BackupRunLog>, Result<J, BackupPackageOperationUsecaseError>),
}

/// How a backup run starts: with invalid identifiers it is invalid input,
/// else the job is read.
pub open spec fn backup_run_begin_spec<J>(ids_valid: bool) -> (BackupRunStep<J>, BackupRunAction<J>) {
    if ids_valid {
        (BackupRunStep::Reading, BackupRunAction::Call(None, BackupRunCall::GetJob))
    } else {
        (BackupRunStep::Reading, BackupRunAction::Finish(None, Err(BackupPackageOperationUsecaseError::InvalidInput)))
    }
}

/// One step of a backup run: a missing job is not found and a job store
/// failure is mapped by `map_job_error`; a job that is not a backup or is in
/// a state that cannot run is a conflict, as is a refused transition; an
/// ended job is returned as it was read; a queued or retrying job is
/// started and a running one taken as it is, then saved and logged running
/// before the package is built; a failed build fails the running job with
/// the failure's kind and code, and the failed job is saved, logged and
/// returned; after a build, a job abandoned meanwhile has its package
/// discarded and is returned as read again (a failed discard is logged and
/// ends as unavailable storage); otherwise the running job is completed,
/// saved, logged and returned.
pub open spec fn backup_run_transition<J>(step: BackupRunStep<J>, reply: BackupRunReply<J>) -> (BackupRunStep<J>, BackupRunAction<J>) {
    match reply {
        BackupRunReply::JobMissing => (BackupRunStep::Reading, BackupRunAction::Finish(None, Err(BackupPackageOperationUsecaseError::NotFound))),
        BackupRunReply::JobStoreFailed(error) => (BackupRunStep::Reading, BackupRunAction::Finish(None, Err(map_job_error(error)))),
        BackupRunReply::TransitionRefused => (BackupRunStep::Reading, BackupRunAction::Finish(None, Err(BackupPackageOperationUsecaseError::Conflict))),
        BackupRunReply::Found(is_backup, terminal, state, job) => if !is_backup {
            (BackupRunStep::Reading, BackupRunAction::Finish(None, Err(BackupPackageOperationUsecaseError::Conflict)))
        } else if terminal {
            (BackupRunStep::Reading, BackupRunAction::Finish(None, Ok(job)))
        } else {
            match state {
                BackupRunJobState::Queued | BackupRunJobState::Retrying => (
                    BackupRunStep::Starting(job),
                    BackupRunAction::Call(None, BackupRunCall::Transition(BackupRunEvent::Start)),
                ),
                BackupRunJobState::Running => (BackupRunStep::SavingRunning(job), BackupRunAction::Call(None, BackupRunCall::SaveJob)),
                BackupRunJobState::Other => (BackupRunStep::Reading, BackupRunAction::Finish(None, Err(BackupPackageOperationUsecaseError::Conflict))),
            }
        },
        BackupRunReply::PackageStoreFailed(error) => match step {
            BackupRunStep::Building(running) => (BackupRunStep::Failing(running), BackupRunAction::Call(
                None,
                BackupRunCall::Transition(BackupRunEvent::Fail(package_failure_kind(error), package_failure_str(error))),
            )),
            _ => (BackupRunStep::Reading, BackupRunAction::Finish(
                Some(BackupRunLog::DiscardFailed(error)),
                Err(BackupPackageOperationUsecaseError::StorageUnavailable),
            )),
        },
        BackupRunReply::Latest(abandoned, latest) => match step {
            BackupRunStep::ReadingLatest(running) => if abandoned {
                (BackupRunStep::Discarding(latest), BackupRunAction::Call(None, BackupRunCall::DiscardPackage))
            } else {
                (BackupRunStep::Completing(running), BackupRunAction::Call(None, BackupRunCall::Transition(BackupRunEvent::Complete)))
            },
            _ => (BackupRunStep::Reading, BackupRunAction::Finish(None, Err(BackupPackageOperationUsecaseError::Conflict))),
        },
        BackupRunReply::Job(job) => match step {
            BackupRunStep::Starting(_) => (BackupRunStep::SavingRunning(job), BackupRunAction::Call(None, BackupRunCall::SaveJob)),
            BackupRunStep::Completing(_) => (BackupRunStep::SavingCompleted(job), BackupRunAction::Call(None, BackupRunCall::SaveJob)),
            _ => (BackupRunStep::SavingFailed(job), BackupRunAction::Call(None, BackupRunCall::SaveJob)),
        },
        BackupRunReply::Done => match step {
            BackupRunStep::SavingRunning(j) => (BackupRunStep::Building(j), BackupRunAction::Call(
                Some(BackupRunLog::Running),
                BackupRunCall::BuildPackage,
            )),
            BackupRunStep::Building(j) => (BackupRunStep::ReadingLatest(j), BackupRunAction::Call(None, BackupRunCall::GetLatestJob)),
            BackupRunStep::Discarding(j) => (BackupRunStep::Reading, BackupRunAction::Finish(Some(BackupRunLog::Discarded), Ok(j))),
            BackupRunStep::SavingCompleted(j) => (BackupRunStep::Reading, BackupRunAction::Finish(Some(BackupRunLog::Completed), Ok(j))),
            BackupRunStep::SavingFailed(j) => (BackupRunStep::Reading, BackupRunAction::Finish(Some(BackupRunLog::Failed), Ok(j))),
            _ => (BackupRunStep::Reading, BackupRunAction::Finish(None, Err(BackupPackageOperationUsecaseError::Conflict))),
        },
    }
}

/// Which replies answer the call a backup run awaits at a step.
pub open spec fn backup_run_reply_fits<J>(step: BackupRunStep<J>, reply: BackupRunReply<J>) -> bool {
    match reply {
        BackupRunReply::Found(_, _, _, _) => step is Reading,
        BackupRunReply::Latest(_, _) => step is ReadingLatest,
        BackupRunReply::Job(_) => step is Starting || step is Completing || step is Failing,
        BackupRunReply::PackageStoreFailed(_) => step is Building || step is Discarding,
        BackupRunReply::Done => step is SavingRunning || step is Building || step is Discarding
            || step is SavingCompleted || step is SavingFailed,
        _ => true,
    }
}

/// Starts a backup run, as `backup_run_begin_spec` describes.
pub fn backup_run_begin<J>(ids_valid: bool) -> (result: (BackupRunStep<J>, BackupRunAction<J>))
    ensures
        result == backup_run_begin_spec::<J>(ids_valid),
{
    if ids_valid {
        (BackupRunStep::Reading, BackupRunAction::Call(None, BackupRunCall::GetJob))
    } else {
        (BackupRunStep::Reading, BackupRunAction::Finish(None, Err(BackupPackageOperationUsecaseError::InvalidInput)))
    }
}

/// Takes the reply to the last call of a backup run and says what comes
/// next, as `backup_run_transition` describes.
pub fn backup_run_next<J>(step: BackupRunStep<J>, reply: BackupRunReply<J>) -> (result: (BackupRunStep<J>, BackupRunAction<J>))
    requires
        backup_run_reply_fits(step, reply),
    ensures
        result == backup_run_transition(step, reply),
{
    match reply {
        BackupRunReply::JobMissing => (BackupRunStep::Reading, BackupRunAction::Finish(None, Err(BackupPackageOperationUsecaseError::NotFound))),
        BackupRunReply::JobStoreFailed(error) => (BackupRunStep::Reading, BackupRunAction::Finish(None, Err(map_job_error(error)))),
        BackupRunReply::TransitionRefused => (BackupRunStep::Reading, BackupRunAction::Finish(None, Err(BackupPackageOperationUsecaseError::Conflict))),
        BackupRunReply::Found(is_backup, terminal, state, job) => match backup_job_gate(is_backup, terminal) {
            Err(error) => (BackupRunStep::Reading, BackupRunAction::Finish(None, Err(error))),
            Ok(BackupJobGate::ReportCurrent) => (BackupRunStep::Reading, BackupRunAction::Finish(None, Ok(job))),
            Ok(BackupJobGate::Proceed) => match backup_run_start(state) {
                Ok(BackupRunStart::Start) => (
                    BackupRunStep::Starting(job),
                    BackupRunAction::Call(None, BackupRunCall::Transition(BackupRunEvent::Start)),
                ),
                Ok(BackupRunStart::Resume) => (BackupRunStep::SavingRunning(job), BackupRunAction::Call(None, BackupRunCall::SaveJob)),
                Err(error) => (BackupRunStep::Reading, BackupRunAction::Finish(None, Err(error))),
            },
        },
        BackupRunReply::PackageStoreFailed(error) => match step {
            BackupRunStep::Building(running) => {
                let (kind, code) = package_failure(error);
                (BackupRunStep::Failing(running), BackupRunAction::Call(
                    None,
                    BackupRunCall::Transition(BackupRunEvent::Fail(kind, code)),
                ))
            },
            _ => (BackupRunStep::Reading, BackupRunAction::Finish(
                Some(BackupRunLog::DiscardFailed(error)),
                Err(BackupPackageOperationUsecaseError::StorageUnavailable),
            )),
        },
        BackupRunReply::Latest(abandoned, latest) => match step {
            BackupRunStep::ReadingLatest(running) => if abandoned {
                (BackupRunStep::Discarding(latest), BackupRunAction::Call(None, BackupRunCall::DiscardPackage))
            } else {
                (BackupRunStep::Completing(running), BackupRunAction::Call(None, BackupRunCall::Transition(BackupRunEvent::Complete)))
            },
            _ => (BackupRunStep::Reading, BackupRunAction::Finish(None, Err(BackupPackageOperationUsecaseError::Conflict))),
        },
        BackupRunReply::Job(job) => match step {
            BackupRunStep::Starting(_) => (BackupRunStep::SavingRunning(job), BackupRunAction::Call(None, BackupRunCall::SaveJob)),
            BackupRunStep::Completing(_) => (BackupRunStep::SavingCompleted(job), BackupRunAction::Call(None, BackupRunCall::SaveJob)),
            _ => (BackupRunStep::SavingFailed(job), BackupRunAction::Call(None, BackupRunCall::SaveJob)),
        },
        BackupRunReply::Done => match step {
            BackupRunStep::SavingRunning(j) => (BackupRunStep::Building(j), BackupRunAction::Call(
                Some(BackupRunLog::Running),
                BackupRunCall::BuildPackage,
            )),
            BackupRunStep::Building(j) => (BackupRunStep::ReadingLatest(j), BackupRunAction::Call(None, BackupRunCall::GetLatestJob)),
            BackupRunStep::Discarding(j) => (BackupRunStep::Reading, BackupRunAction::Finish(Some(BackupRunLog::Discarded), Ok(j))),
            BackupRunStep::SavingCompleted(j) => (BackupRunStep::Reading, BackupRunAction::Finish(Some(BackupRunLog::Completed), Ok(j))),
            BackupRunStep::SavingFailed(j) => (BackupRunStep::Reading, BackupRunAction::Finish(Some(BackupRunLog::Failed), Ok(j))),
            _ => (BackupRunStep::Reading, BackupRunAction::Finish(None, Err(BackupPackageOperationUsecaseError::Conflict))),
        },
    }
}

/// Where a cancellation or a start of a backup operation stands: the call
/// whose reply is awaited, and the job in hand once there is one.
#[derive(Debug, Clone, Copy, PartialEq, Eq)]
pub enum BackupOperationStep<J> {
    /// Reading the job.
    Reading,
    /// Abandoning the job in hand with `BACKUP_OPERATION_CANCELLED`, or (for
    /// a start) building the queued backup job.
    Transitioning,
    /// Saving the job in hand.
    Saving(J),
}

/// A call a cancellation or a start of a backup operation makes.
#[derive(Debug, Clone, Copy, PartialEq, Eq)]
pub enum BackupOperationCall<J> {
    GetJob,
    /// Abandon this job, leaving the code `BACKUP_OPERATION_CANCELLED`.
    Abandon(J),
    /// Build the queued backup job for the operation and workspace.
    BuildQueued,
    /// Save the job in hand.
    SaveJob,
}

/// What a cancellation or a start does next: make a call, or log the event
/// (if any) and end with a job or an error.
#[derive(Debug, PartialEq, Eq)]
pub enum BackupOperationAction<J> {
    Call(BackupOperationCall<J>),
    /// The event logged about the job returned, if any
    /// (`backup.operation.cancelled` or `backup.operation.queued`), and the
    /// result.
    Finish(Option<BackupOperationLog>, Result<J, BackupPackageOperationUsecaseError>),
}

/// The product events of a cancellation or a start.
#[derive(Debug, Clone, Copy, PartialEq, Eq, Structural)]
pub enum BackupOperationLog {
    Cancelled,
    Queued,
}

/// Which replies answer the call a cancellation or a start awaits at a
/// step.
pub open spec fn backup_operation_reply_fits<J>(step: BackupOperationStep<J>, reply: BackupRunReply<J>) -> bool {
    &&& !(reply is Latest) && !(reply is PackageStoreFailed)
    &&& (reply is Found || reply is JobMissing) ==> step is Reading
    &&& reply is Job ==> step is Transitioning
    &&& reply is Done ==> step is Saving
}

/// One step of cancelling a backup operation: a missing job is not found, a
/// store failure is mapped by `map_job_error`; a job that is not a backup
/// is a conflict, one that has ended is returned as it was read; an open one
/// is abandoned (a refused transition is a conflict), and the abandoned job
/// is saved, logged as cancelled and returned.
pub open spec fn cancel_backup_transition<J>(step: BackupOperationStep<J>, reply: BackupRunReply<J>) -> (BackupOperationStep<J>, BackupOperationAction<J>) {
    match reply {
        BackupRunReply::JobMissing => (BackupOperationStep::Reading, BackupOperationAction::Finish(None, Err(BackupPackageOperationUsecaseError::NotFound))),
        BackupRunReply::JobStoreFailed(error) => (BackupOperationStep::Reading, BackupOperationAction::Finish(None, Err(map_job_error(error)))),
        BackupRunReply::Found(is_backup, terminal, _, job) => if !is_backup {
            (BackupOperationStep::Reading, BackupOperationAction::Finish(None, Err(BackupPackageOperationUsecaseError::Conflict)))
        } else if terminal {
            (BackupOperationStep::Reading, BackupOperationAction::Finish(None, Ok(job)))
        } else {
            (BackupOperationStep::Transitioning, BackupOperationAction::Call(BackupOperationCall::Abandon(job)))
        },
        BackupRunReply::Job(job) => (BackupOperationStep::Saving(job), BackupOperationAction::Call(BackupOperationCall::SaveJob)),
        BackupRunReply::Done => match step {
            BackupOperationStep::Saving(job) => (BackupOperationStep::Reading, BackupOperationAction::Finish(Some(BackupOperationLog::Cancelled), Ok(job))),
            _ => (BackupOperationStep::Reading, BackupOperationAction::Finish(None, Err(BackupPackageOperationUsecaseError::Conflict))),
        },
        _ => (BackupOperationStep::Reading, BackupOperationAction::Finish(None, Err(BackupPackageOperationUsecaseError::Conflict))),
    }
}

/// Takes the reply to the last call of a cancellation and says what comes
/// next, as `cancel_backup_transition` describes; the first call reads the
/// job.
pub fn cancel_backup_next<J>(step: BackupOperationStep<J>, reply: BackupRunReply<J>) -> (result: (BackupOperationStep<J>, BackupOperationAction<J>))
    requires
        backup_operation_reply_fits(step, reply),
    ensures
        result == cancel_backup_transition(step, reply),
{
    match reply {
        BackupRunReply::JobMissing => (BackupOperationStep::Reading, BackupOperationAction::Finish(None, Err(BackupPackageOperationUsecaseError::NotFound))),
        BackupRunReply::JobStoreFailed(error) => (BackupOperationStep::Reading, BackupOperationAction::Finish(None, Err(map_job_error(error)))),
        BackupRunReply::Found(is_backup, terminal, _, job) => match backup_job_gate(is_backup, terminal) {
            Err(error) => (BackupOperationStep::Reading, BackupOperationAction::Finish(None, Err(error))),
            Ok(BackupJobGate::ReportCurrent) => (BackupOperationStep::Reading, BackupOperationAction::Finish(None, Ok(job))),
            Ok(BackupJobGate::Proceed) => (BackupOperationStep::Transitioning, BackupOperationAction::Call(BackupOperationCall::Abandon(job))),
        },
        BackupRunReply::Job(job) => (BackupOperationStep::Saving(job), BackupOperationAction::Call(BackupOperationCall::SaveJob)),
        BackupRunReply::Done => match step {
            BackupOperationStep::Saving(job) => (BackupOperationStep::Reading, BackupOperationAction::Finish(Some(BackupOperationLog::Cancelled), Ok(job))),
            _ => (BackupOperationStep::Reading, BackupOperationAction::Finish(None, Err(BackupPackageOperationUsecaseError::Conflict))),
        },
        _ => (BackupOperationStep::Reading, BackupOperationAction::Finish(None, Err(BackupPackageOperationUsecaseError::Conflict))),
    }
}

/// One step of starting a backup operation: a store failure is mapped by
/// `map_job_error`; a job that already exists is a conflict; otherwise the
/// queued job is built (a refused job is invalid input), and the queued job
/// is saved, logged as queued and returned.
pub open spec fn start_backup_transition<J>(step: BackupOperationStep<J>, reply: BackupRunReply<J>) -> (BackupOperationStep<J>, BackupOperationAction<J>) {
    match reply {
        BackupRunReply::JobStoreFailed(error) => (BackupOperationStep::Reading, BackupOperationAction::Finish(None, Err(map_job_error(error)))),
        BackupRunReply::Found(_, _, _, _) => (BackupOperationStep::Reading, BackupOperationAction::Finish(None, Err(BackupPackageOperationUsecaseError::Conflict))),
        BackupRunReply::JobMissing => (BackupOperationStep::Transitioning, BackupOperationAction::Call(BackupOperationCall::BuildQueued)),
        BackupRunReply::TransitionRefused => (BackupOperationStep::Reading, BackupOperationAction::Finish(None, Err(BackupPackageOperationUsecaseError::InvalidInput))),
        BackupRunReply::Job(job) => (BackupOperationStep::Saving(job), BackupOperationAction::Call(BackupOperationCall::SaveJob)),
        _ => match step {
            BackupOperationStep::Saving(job) => (BackupOperationStep::Reading, BackupOperationAction::Finish(Some(BackupOperationLog::Queued), Ok(job))),
            _ => (BackupOperationStep::Reading, BackupOperationAction::Finish(None, Err(BackupPackageOperationUsecaseError::Conflict))),
        },
    }
}

/// Takes the reply to the last call of a start and says what comes next,
/// as `start_backup_transition` describes; the first call reads the job.
pub fn start_backup_next<J>(step: BackupOperationStep<J>, reply: BackupRunReply<J>) -> (result: (BackupOperationStep<J>, BackupOperationAction<J>))
    requires
        backup_operation_reply_fits(step, reply),
    ensures
        result == start_backup_transition(step, reply),
{
    match reply {
        BackupRunReply::JobStoreFailed(error) => (BackupOperationStep::Reading, BackupOperationAction::Finish(None, Err(map_job_error(error)))),
        BackupRunReply::Found(_, _, _, _) => (BackupOperationStep::Reading, BackupOperationAction::Finish(None, Err(BackupPackageOperationUsecaseError::Conflict))),
        BackupRunReply::JobMissing => (BackupOperationStep::Transitioning, BackupOperationAction::Call(BackupOperationCall::BuildQueued)),
        BackupRunReply::TransitionRefused => (BackupOperationStep::Reading, BackupOperationAction::Finish(None, Err(BackupPackageOperationUsecaseError::InvalidInput))),
        BackupRunReply::Job(job) => (BackupOperationStep::Saving(job), BackupOperationAction::Call(BackupOperationCall::SaveJob)),
        _ => match step {
            BackupOperationStep::Saving(job) => (BackupOperationStep::Reading, BackupOperationAction::Finish(Some(BackupOperationLog::Queued), Ok(job))),
            _ => (BackupOperationStep::Reading, BackupOperationAction::Finish(None, Err(BackupPackageOperationUsecaseError::Conflict))),
        },
    }
}

/// Whether the reply can answer the call of the step, as
/// `backup_run_reply_fits` says; a runner checks this before it hands the
/// reply on.
pub fn check_backup_run_reply<J>(step: &BackupRunStep<J>, reply: &BackupRunReply<J>) -> (result: bool)
    ensures
        result == backup_run_reply_fits(*step, *reply),
{
    match reply {
        BackupRunReply::Found(_, _, _, _) => match step {
            BackupRunStep::Reading => true,
            _ => false,
        },
        BackupRunReply::Latest(_, _) => match step {
            BackupRunStep::ReadingLatest(_) => true,
            _ => false,
        },
        BackupRunReply::Job(_) => match step {
            BackupRunStep::Starting(_) | BackupRunStep::Completing(_) | BackupRunStep::Failing(_) => true,
            _ => false,
        },
        BackupRunReply::PackageStoreFailed(_) => match step {
            BackupRunStep::Building(_) | BackupRunStep::Discarding(_) => true,
            _ => false,
        },
        BackupRunReply::Done => match step {
            BackupRunStep::SavingRunning(_) | BackupRunStep::Building(_) | BackupRunStep::Discarding(_)
            | BackupRunStep::SavingCompleted(_) | BackupRunStep::SavingFailed(_) => true,
            _ => false,
        },
        _ => true,
    }
}

/// Whether the reply can answer the call of the step of a cancellation or
/// a start, as `backup_operation_reply_fits` says; a runner checks this
/// before it hands the reply on.
pub fn check_backup_operation_reply<J>(step: &BackupOperationStep<J>, reply: &BackupRunReply<J>) -> (result: bool)
    ensures
        result == backup_operation_reply_fits(*step, *reply),
{
    let reading = match step {
        BackupOperationStep::Reading => true,
        _ => false,
    };
    match reply {
        BackupRunReply::Latest(_, _) | BackupRunReply::PackageStoreFailed(_) => false,
        BackupRunReply::Found(_, _, _, _) | BackupRunReply::JobMissing => reading,
        BackupRunReply::Job(_) => match step {
            BackupOperationStep::Transitioning => true,
            _ => false,
        },
        BackupRunReply::Done => match step {
            BackupOperationStep::Saving(_) => true,
            _ => false,
        },
        _ => true,
    }
}

} // verus!
