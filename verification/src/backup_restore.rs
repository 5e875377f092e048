use vstd::prelude::*;
use crate::collaborator_errors::{BackupPackageStoreError, BackupRestoreStoreError};
use crate::text::{opt_sstr_view, opt_str_view, opt_to_string, opt_ref_view, pairs_view, strings_view};

verus! {
#[derive(Debug, Clone, PartialEq, Eq)]
pub struct ConfirmBackupRestoreInput {
    actor_user_id: String,
    workspace_id: String,
    package_id: String,
    operation_id: String,
    confirmed: bool,
}

impl View for ConfirmBackupRestoreInput {
    type V = (Seq<char>, Seq<char>, Seq<char>, Seq<char>, bool);

    closed spec fn view(&self) -> (Seq<char>, Seq<char>, Seq<char>, Seq<char>, bool) {
        (self.actor_user_id@, self.workspace_id@, self.package_id@, self.operation_id@, self.confirmed)
    }
}

impl ConfirmBackupRestoreInput {
    pub fn new(actor_user_id: &str, workspace_id: &str, package_id: &str, operation_id: &str, confirmed: bool) -> (result: Self)
        ensures
            result@ == (actor_user_id@, workspace_id@, package_id@, operation_id@, confirmed),
    {
        Self {
            actor_user_id: actor_user_id.to_string(),
            workspace_id: workspace_id.to_string(),
            package_id: package_id.to_string(),
            operation_id: operation_id.to_string(),
            confirmed: confirmed,
        }
    }

}

#[derive(Debug, Clone, PartialEq, Eq)]
pub struct CancelBackupRestoreInput {
    actor_user_id: String,
    workspace_id: String,
    operation_id: String,
}

impl View for CancelBackupRestoreInput {
    type V = (Seq<char>, Seq<char>, Seq<char>);

    closed spec fn view(&self) -> (Seq<char>, Seq<char>, Seq<char>) {
        (self.actor_user_id@, self.workspace_id@, self.operation_id@)
    }
}

impl CancelBackupRestoreInput {
    pub fn new(actor_user_id: &str, workspace_id: &str, operation_id: &str) -> (result: Self)
        ensures
            result@ == (actor_user_id@, workspace_id@, operation_id@),
    {
        Self {
            actor_user_id: actor_user_id.to_string(),
            workspace_id: workspace_id.to_string(),
            operation_id: operation_id.to_string(),
        }
    }

}

#[derive(Debug, Clone, PartialEq, Eq)]
pub struct StartBackupRestoreOperationInput(ConfirmBackupRestoreInput);

impl View for StartBackupRestoreOperationInput {
    type V = (Seq<char>, Seq<char>, Seq<char>, Seq<char>, bool);

    closed spec fn view(&self) -> (Seq<char>, Seq<char>, Seq<char>, Seq<char>, bool) {
        self.0@
    }
}

impl StartBackupRestoreOperationInput {
    pub fn new(
        actor_user_id: &str,
        workspace_id: &str,
        package_id: &str,
        operation_id: &str,
        confirmed: bool,
    ) -> (result: Self)
        ensures
            result@ == (actor_user_id@, workspace_id@, package_id@, operation_id@, confirmed),
    {
        Self(ConfirmBackupRestoreInput::new(actor_user_id, workspace_id, package_id, operation_id, confirmed))
    }
}

#[derive(Debug, Clone, PartialEq, Eq)]
pub struct GetBackupRestoreOperationInput {
    actor_user_id: String,
    workspace_id: String,
    operation_id: String,
}

impl View for GetBackupRestoreOperationInput {
    type V = (Seq<char>, Seq<char>, Seq<char>);

    closed spec fn view(&self) -> (Seq<char>, Seq<char>, Seq<char>) {
        (self.actor_user_id@, self.workspace_id@, self.operation_id@)
    }
}

impl GetBackupRestoreOperationInput {
    pub fn new(actor_user_id: &str, workspace_id: &str, operation_id: &str) -> (result: Self)
        ensures
            result@ == (actor_user_id@, workspace_id@, operation_id@),
    {
        Self {
            actor_user_id: actor_user_id.to_string(),
            workspace_id: workspace_id.to_string(),
            operation_id: operation_id.to_string(),
        }
    }

}

#[derive(Debug, Clone, Copy, PartialEq, Eq, Structural)]
pub enum ConfirmBackupRestoreError {
    ConfirmationRequired,
    InvalidInput,
    PackageInvalid,
    StorageUnavailable,
    Conflict,
}

impl ConfirmBackupRestoreError {
    pub fn code(self) -> (result: &'static str)
        ensures
            result@ == match self {
                Self::ConfirmationRequired => "RESTORE_CONFIRMATION_REQUIRED"@,
                Self::InvalidInput => "RESTORE_INVALID_INPUT"@,
                Self::PackageInvalid => "RESTORE_PACKAGE_INVALID"@,
                Self::StorageUnavailable => "RESTORE_STORAGE_UNAVAILABLE"@,
                Self::Conflict => "RESTORE_CONFLICT"@,
            },
    {
        match self {
            Self::ConfirmationRequired => "RESTORE_CONFIRMATION_REQUIRED",
            Self::InvalidInput => "RESTORE_INVALID_INPUT",
            Self::PackageInvalid => "RESTORE_PACKAGE_INVALID",
            Self::StorageUnavailable => "RESTORE_STORAGE_UNAVAILABLE",
            Self::Conflict => "RESTORE_CONFLICT",
        }
    }
}

#[derive(Debug, Clone, Copy, PartialEq, Eq, Structural)]
pub struct ConfirmBackupRestoreUsecase;

impl ConfirmBackupRestoreUsecase {
    pub fn new() -> (result: Self)
        ensures
            result == (ConfirmBackupRestoreUsecase),
    {
        ConfirmBackupRestoreUsecase
    }
}

impl Default for ConfirmBackupRestoreUsecase {
    fn default() -> (result: Self)
        ensures
            result == (ConfirmBackupRestoreUsecase),
    {
        Self::new()
    }
}

#[derive(Debug, Clone, Copy, PartialEq, Eq, Structural)]
pub struct StartBackupRestoreOperationUsecase;

impl StartBackupRestoreOperationUsecase {
    pub fn new() -> (result: Self)
        ensures
            result == (StartBackupRestoreOperationUsecase),
    {
        StartBackupRestoreOperationUsecase
    }
}

impl Default for StartBackupRestoreOperationUsecase {
    fn default() -> (result: Self)
        ensures
            result == (StartBackupRestoreOperationUsecase),
    {
        Self::new()
    }
}

#[derive(Debug, Clone, Copy, PartialEq, Eq, Structural)]
pub struct GetBackupRestoreOperationUsecase;

impl GetBackupRestoreOperationUsecase {
    pub fn new() -> (result: Self)
        ensures
            result == (GetBackupRestoreOperationUsecase),
    {
        GetBackupRestoreOperationUsecase
    }
}

impl Default for GetBackupRestoreOperationUsecase {
    fn default() -> (result: Self)
        ensures
            result == (GetBackupRestoreOperationUsecase),
    {
        Self::new()
    }
}

#[derive(Debug, Clone, Copy, PartialEq, Eq, Structural)]
pub struct CancelBackupRestoreUsecase;

impl CancelBackupRestoreUsecase {
    pub fn new() -> (result: Self)
        ensures
            result == (CancelBackupRestoreUsecase),
    {
        CancelBackupRestoreUsecase
    }
}

impl Default for CancelBackupRestoreUsecase {
    fn default() -> (result: Self)
        ensures
            result == (CancelBackupRestoreUsecase),
    {
        Self::new()
    }
}

/// The name of the product event a restore log entry writes.
pub open spec fn restore_log_name(log: RestoreLog) -> Seq<char> {
    match log {
        RestoreLog::Failed => "restore.failed"@,
        RestoreLog::Confirmed => "restore.confirmed"@,
        RestoreLog::RolledBack => "restore.rolled_back"@,
        RestoreLog::Completed => "restore.completed"@,
    }
}

/// A restore goes ahead only when the actor confirmed it.
pub fn check_restore_confirmation(confirmed: bool) -> (result: Result<(), ConfirmBackupRestoreError>)
    ensures
        confirmed ==> result is Ok,
        !confirmed ==> result == Err::<(), ConfirmBackupRestoreError>(ConfirmBackupRestoreError::ConfirmationRequired),
{
    if !confirmed {
        return Err(ConfirmBackupRestoreError::ConfirmationRequired);
    }
    Ok(())
}

/// The event a confirmed restore logs once its package is validated: it is
/// confirmed when the package is valid, and fails (refusing the restore)
/// otherwise.
pub fn restore_validation_event(valid: bool) -> (result: (&'static str, Result<(), ConfirmBackupRestoreError>))
    ensures
        valid ==> result.0@ == "restore.confirmed"@ && result.1 is Ok,
        !valid ==> result.0@ == "restore.failed"@ && result.1 == Err::<(), ConfirmBackupRestoreError>(ConfirmBackupRestoreError::PackageInvalid),
        valid ==> result.0@ == restore_log_name(RestoreLog::Confirmed),
        !valid ==> result.0@ == restore_log_name(RestoreLog::Failed),
{
    if valid {
        ("restore.confirmed", Ok(()))
    } else {
        ("restore.failed", Err(ConfirmBackupRestoreError::PackageInvalid))
    }
}

/// How an applied restore ends, by whether the workspace reopened: it
/// completes, or it is rolled back and reported with the reopen failure.
pub fn restore_reopen_outcome(reopened: bool) -> (result: (&'static str, Option<&'static str>))
    ensures
        reopened ==> result.0@ == "restore.completed"@ && result.1 is None,
        reopened ==> result.0@ == restore_log_name(RestoreLog::Completed),
        !reopened ==> result.0@ == restore_log_name(RestoreLog::RolledBack),
        !reopened ==> result.0@ == "restore.rolled_back"@ && result.1 == Some("RESTORE_REOPEN_FAILED"),
{
    if reopened {
        ("restore.completed", None)
    } else {
        ("restore.rolled_back", Some("RESTORE_REOPEN_FAILED"))
    }
}



/// What `map_package_error` gives for each value.
pub open spec fn map_package_error_spec(error: BackupPackageStoreError) -> ConfirmBackupRestoreError {
    match error {
        BackupPackageStoreError::PackageNotFound | BackupPackageStoreError::CorruptedPackage => ConfirmBackupRestoreError::PackageInvalid,
        BackupPackageStoreError::StorageUnavailable => ConfirmBackupRestoreError::StorageUnavailable,
        BackupPackageStoreError::Conflict => ConfirmBackupRestoreError::Conflict,
    }
}

/// How this usecase reports each backup package store failure.
#[verifier::when_used_as_spec(map_package_error_spec)]
pub fn map_package_error(error: BackupPackageStoreError) -> (result: ConfirmBackupRestoreError)
    ensures
        result == map_package_error_spec(error),
{
    match error {
        BackupPackageStoreError::PackageNotFound | BackupPackageStoreError::CorruptedPackage => ConfirmBackupRestoreError::PackageInvalid,
        BackupPackageStoreError::StorageUnavailable => ConfirmBackupRestoreError::StorageUnavailable,
        BackupPackageStoreError::Conflict => ConfirmBackupRestoreError::Conflict,
    }
}

/// What `map_restore_error` gives for each value.
pub open spec fn map_restore_error_spec(error: BackupRestoreStoreError) -> ConfirmBackupRestoreError {
    match error {
        BackupRestoreStoreError::PackageInvalid | BackupRestoreStoreError::CorruptedOperation => ConfirmBackupRestoreError::PackageInvalid,
        BackupRestoreStoreError::StorageUnavailable | BackupRestoreStoreError::OperationNotFound => ConfirmBackupRestoreError::StorageUnavailable,
        BackupRestoreStoreError::Conflict => ConfirmBackupRestoreError::Conflict,
    }
}

/// How this usecase reports each backup restore store failure.
#[verifier::when_used_as_spec(map_restore_error_spec)]
pub fn map_restore_error(error: BackupRestoreStoreError) -> (result: ConfirmBackupRestoreError)
    ensures
        result == map_restore_error_spec(error),
{
    match error {
        BackupRestoreStoreError::PackageInvalid | BackupRestoreStoreError::CorruptedOperation => ConfirmBackupRestoreError::PackageInvalid,
        BackupRestoreStoreError::StorageUnavailable | BackupRestoreStoreError::OperationNotFound => ConfirmBackupRestoreError::StorageUnavailable,
        BackupRestoreStoreError::Conflict => ConfirmBackupRestoreError::Conflict,
    }
}


/// What a restore works on: the restore operation it runs.
#[derive(Debug, Clone, PartialEq, Eq)]
pub struct RestoreRun {
    pub operation_id: String,
}

/// What a restore reports when it does not fail: the operation, the state
/// the last store call left it in, and the code of a rolled back restore.
#[derive(Debug, Clone, PartialEq, Eq)]
pub struct RestoreOutcome<S> {
    pub operation_id: String,
    pub state: S,
    pub error_code: Option<&'static str>,
}

/// A call a confirmed restore makes to the outside world.
#[derive(Debug, Clone, Copy, PartialEq, Eq, Structural)]
pub enum RestoreCall {
    InspectManifest,
    ValidatePackage,
    PrepareRestore,
    ApplyRestore,
    ReopenWorkspace,
    RollbackRestore,
    FinalizeRestore,
}

/// What came back from the last call of a restore; `S` is the state of a
/// restore operation as the restore store reports it.
#[derive(Debug, Clone, Copy, PartialEq, Eq)]
pub enum RestoreReply<S> {
    Done,
    /// The rollback, the finalization or the request ended with the
    /// operation in this state.
    Ended(S),
    /// The package was inspected and found invalid.
    PackageInvalid,
    /// The reopened workspace could not be opened.
    ReopenFailed,
    PackageStoreFailed(BackupPackageStoreError),
    RestoreStoreFailed(BackupRestoreStoreError),
}

/// A product event of a restore; workspace, package, operation and the
/// validation's code are filled in by the runner.
#[derive(Debug, Clone, Copy, PartialEq, Eq, Structural)]
pub enum RestoreLog {
    /// `restore.failed` in the failed state, with the validation's code.
    Failed,
    /// `restore.confirmed`, in the staging state when a restore is
    /// confirmed, in the outcome's state when one is started.
    Confirmed,
    /// `restore.rolled_back` in the outcome's state, code
    /// `RESTORE_REOPEN_FAILED`.
    RolledBack,
    /// `restore.completed` in the outcome's state.
    Completed,
}

/// Where a restore stands: the call whose reply is awaited.
#[derive(Debug, Clone, Copy, PartialEq, Eq, Structural)]
pub enum RestoreStep {
    Inspecting,
    Validating,
    Preparing,
    Applying,
    Reopening,
    RollingBack,
    Finalizing,
}

/// What a restore does next: log an event (if any) and make a call, or log
/// an event (if any) and end with the result.
#[derive(Debug, PartialEq, Eq)]
pub enum RestoreAction<S> {
    Call(Option<RestoreLog>, RestoreCall),
    Finish(Option<RestoreLog>, Result<RestoreOutcome<S>, ConfirmBackupRestoreError>),
}

/// The reply can answer the call of the step.
pub open spec fn restore_reply_fits<S>(step: RestoreStep, reply: RestoreReply<S>) -> bool {
    &&& reply is PackageInvalid ==> step == RestoreStep::Validating
    &&& reply is ReopenFailed ==> step == RestoreStep::Reopening
    &&& reply is Ended ==> step == RestoreStep::RollingBack || step == RestoreStep::Finalizing
    &&& step == RestoreStep::RollingBack || step == RestoreStep::Finalizing ==> reply is Ended || reply is RestoreStoreFailed
}

/// How a restore starts: without confirmation it is refused, with invalid
/// identifiers it is invalid input, else the package manifest is inspected.
pub open spec fn restore_start<S>(confirmed: bool, ids_valid: bool) -> (RestoreStep, RestoreAction<S>) {
    if !confirmed {
        (RestoreStep::Inspecting, RestoreAction::Finish(None, Err(ConfirmBackupRestoreError::ConfirmationRequired)))
    } else if !ids_valid {
        (RestoreStep::Inspecting, RestoreAction::Finish(None, Err(ConfirmBackupRestoreError::InvalidInput)))
    } else {
        (RestoreStep::Inspecting, RestoreAction::Call(None, RestoreCall::InspectManifest))
    }
}

/// One step of a restore: store failures end it with their mapped error;
/// an invalid package is logged as failed and refused; a valid one is
/// logged as confirmed before it is prepared; after the restore is applied
/// the workspace is reopened; if that fails the restore is rolled back,
/// never finalized, logged rolled back and reported for the operation in the
/// rollback's state with the code `RESTORE_REOPEN_FAILED`; otherwise it is
/// finalized, logged completed and reported in the finalized state.
pub open spec fn restore_transition<S>(run: RestoreRun, step: RestoreStep, reply: RestoreReply<S>) -> (RestoreStep, RestoreAction<S>) {
    match reply {
        RestoreReply::PackageStoreFailed(error) => (step, RestoreAction::Finish(None, Err(map_package_error(error)))),
        RestoreReply::RestoreStoreFailed(error) => (step, RestoreAction::Finish(None, Err(map_restore_error(error)))),
        RestoreReply::PackageInvalid => (step, RestoreAction::Finish(
            Some(RestoreLog::Failed),
            Err(ConfirmBackupRestoreError::PackageInvalid),
        )),
        RestoreReply::ReopenFailed => (RestoreStep::RollingBack, RestoreAction::Call(None, RestoreCall::RollbackRestore)),
        RestoreReply::Ended(state) => if step == RestoreStep::RollingBack {
            (step, RestoreAction::Finish(Some(RestoreLog::RolledBack), Ok(RestoreOutcome {
                operation_id: run.operation_id,
                state,
                error_code: Some("RESTORE_REOPEN_FAILED"),
            })))
        } else {
            (step, RestoreAction::Finish(Some(RestoreLog::Completed), Ok(RestoreOutcome {
                operation_id: run.operation_id,
                state,
                error_code: None,
            })))
        },
        RestoreReply::Done => match step {
            RestoreStep::Inspecting => (RestoreStep::Validating, RestoreAction::Call(None, RestoreCall::ValidatePackage)),
            RestoreStep::Validating => (RestoreStep::Preparing, RestoreAction::Call(
                Some(RestoreLog::Confirmed),
                RestoreCall::PrepareRestore,
            )),
            RestoreStep::Preparing => (RestoreStep::Applying, RestoreAction::Call(None, RestoreCall::ApplyRestore)),
            RestoreStep::Applying => (RestoreStep::Reopening, RestoreAction::Call(None, RestoreCall::ReopenWorkspace)),
            _ => (RestoreStep::Finalizing, RestoreAction::Call(None, RestoreCall::FinalizeRestore)),
        },
    }
}

/// Starts a restore, as `restore_start` describes.
pub fn restore_begin<S>(confirmed: bool, ids_valid: bool) -> (result: (RestoreStep, RestoreAction<S>))
    ensures
        result == restore_start::<S>(confirmed, ids_valid),
{
    if let Err(error) = check_restore_confirmation(confirmed) {
        (RestoreStep::Inspecting, RestoreAction::Finish(None, Err(error)))
    } else if !ids_valid {
        (RestoreStep::Inspecting, RestoreAction::Finish(None, Err(ConfirmBackupRestoreError::InvalidInput)))
    } else {
        (RestoreStep::Inspecting, RestoreAction::Call(None, RestoreCall::InspectManifest))
    }
}

/// Takes the reply to the last call of a restore and says what comes next,
/// as `restore_transition` describes.
pub fn restore_next<S>(run: &RestoreRun, step: RestoreStep, reply: RestoreReply<S>) -> (result: (RestoreStep, RestoreAction<S>))
    requires
        restore_reply_fits(step, reply),
    ensures
        result == restore_transition(*run, step, reply),
{
    match reply {
        RestoreReply::PackageStoreFailed(error) => (step, RestoreAction::Finish(None, Err(map_package_error(error)))),
        RestoreReply::RestoreStoreFailed(error) => (step, RestoreAction::Finish(None, Err(map_restore_error(error)))),
        RestoreReply::PackageInvalid => {
            let (_, refused) = restore_validation_event(false);
            let error = match refused {
                Err(error) => error,
                Ok(()) => ConfirmBackupRestoreError::PackageInvalid,
            };
            (step, RestoreAction::Finish(Some(RestoreLog::Failed), Err(error)))
        },
        RestoreReply::ReopenFailed => (RestoreStep::RollingBack, RestoreAction::Call(None, RestoreCall::RollbackRestore)),
        RestoreReply::Ended(state) => match step {
            RestoreStep::RollingBack => (step, RestoreAction::Finish(Some(RestoreLog::RolledBack), Ok(RestoreOutcome {
                operation_id: run.operation_id.clone(),
                state,
                error_code: restore_reopen_outcome(false).1,
            }))),
            _ => (step, RestoreAction::Finish(Some(RestoreLog::Completed), Ok(RestoreOutcome {
                operation_id: run.operation_id.clone(),
                state,
                error_code: None,
            }))),
        },
        RestoreReply::Done => match step {
            RestoreStep::Inspecting => (RestoreStep::Validating, RestoreAction::Call(None, RestoreCall::ValidatePackage)),
            RestoreStep::Validating => (RestoreStep::Preparing, RestoreAction::Call(
                Some(RestoreLog::Confirmed),
                RestoreCall::PrepareRestore,
            )),
            RestoreStep::Preparing => (RestoreStep::Applying, RestoreAction::Call(None, RestoreCall::ApplyRestore)),
            RestoreStep::Applying => (RestoreStep::Reopening, RestoreAction::Call(None, RestoreCall::ReopenWorkspace)),
            _ => (RestoreStep::Finalizing, RestoreAction::Call(None, RestoreCall::FinalizeRestore)),
        },
    }
}

/// A restore whose workspace fails to reopen is rolled back and never
/// finalized: the only call after a failed reopen is the rollback, and what
/// the rollback answers ends the run, reporting the operation in the state
/// the rollback left it in with the code `RESTORE_REOPEN_FAILED`.
pub proof fn lemma_failed_reopen_rolls_back<S>(run: RestoreRun, reply: RestoreReply<S>)
    requires
        restore_reply_fits(RestoreStep::RollingBack, reply),
    ensures
        restore_transition(run, RestoreStep::Reopening, RestoreReply::<S>::ReopenFailed).1
            == RestoreAction::<S>::Call(None, RestoreCall::RollbackRestore),
        restore_transition(run, RestoreStep::RollingBack, reply).1 is Finish,
        reply matches RestoreReply::Ended(state) ==> restore_transition(run, RestoreStep::RollingBack, reply).1
            == RestoreAction::Finish(Some(RestoreLog::RolledBack), Ok(RestoreOutcome {
                operation_id: run.operation_id,
                state,
                error_code: Some("RESTORE_REOPEN_FAILED"),
            })),
{
}

/// A call that starting a restore operation makes to the outside world.
#[derive(Debug, Clone, Copy, PartialEq, Eq, Structural)]
pub enum StartRestoreCall {
    InspectManifest,
    ValidatePackage,
    /// Ask the restore store to request the restore operation.
    RequestRestore,
}

/// Where the start of a restore operation stands: the call whose reply is
/// awaited.
#[derive(Debug, Clone, Copy, PartialEq, Eq, Structural)]
pub enum StartRestoreStep {
    Inspecting,
    Validating,
    Requesting,
}

/// What starting a restore operation does next: make a call, or end; a
/// requested operation logs `restore.confirmed` in its state and is
/// reported in that state.
#[derive(Debug, PartialEq, Eq)]
pub enum StartRestoreAction<S> {
    Call(StartRestoreCall),
    Finish(Option<RestoreLog>, Result<RestoreOutcome<S>, ConfirmBackupRestoreError>),
}

/// How starting a restore operation begins: without confirmation it is
/// refused, with invalid identifiers it is invalid input, else the manifest
/// is inspected.
pub open spec fn start_restore_start<S>(confirmed: bool, ids_valid: bool) -> (StartRestoreStep, StartRestoreAction<S>) {
    if !confirmed {
        (StartRestoreStep::Inspecting, StartRestoreAction::Finish(None, Err(ConfirmBackupRestoreError::ConfirmationRequired)))
    } else if !ids_valid {
        (StartRestoreStep::Inspecting, StartRestoreAction::Finish(None, Err(ConfirmBackupRestoreError::InvalidInput)))
    } else {
        (StartRestoreStep::Inspecting, StartRestoreAction::Call(StartRestoreCall::InspectManifest))
    }
}

/// One step of starting a restore operation: store failures end it with
/// their mapped error; an invalid package is refused unlogged; a valid one
/// has its restore requested, which is logged as confirmed and reported in
/// the requested state.
pub open spec fn start_restore_transition<S>(run: RestoreRun, step: StartRestoreStep, reply: RestoreReply<S>) -> (StartRestoreStep, StartRestoreAction<S>) {
    match reply {
        RestoreReply::PackageStoreFailed(error) => (step, StartRestoreAction::Finish(None, Err(map_package_error(error)))),
        RestoreReply::RestoreStoreFailed(error) => (step, StartRestoreAction::Finish(None, Err(map_restore_error(error)))),
        RestoreReply::PackageInvalid => (step, StartRestoreAction::Finish(None, Err(ConfirmBackupRestoreError::PackageInvalid))),
        RestoreReply::Ended(state) => (step, StartRestoreAction::Finish(Some(RestoreLog::Confirmed), Ok(RestoreOutcome {
            operation_id: run.operation_id,
            state,
            error_code: None,
        }))),
        _ => match step {
            StartRestoreStep::Inspecting => (StartRestoreStep::Validating, StartRestoreAction::Call(StartRestoreCall::ValidatePackage)),
            _ => (StartRestoreStep::Requesting, StartRestoreAction::Call(StartRestoreCall::RequestRestore)),
        },
    }
}

/// Begins starting a restore operation, as `start_restore_start` describes.
pub fn start_restore_begin<S>(confirmed: bool, ids_valid: bool) -> (result: (StartRestoreStep, StartRestoreAction<S>))
    ensures
        result == start_restore_start::<S>(confirmed, ids_valid),
{
    if let Err(error) = check_restore_confirmation(confirmed) {
        (StartRestoreStep::Inspecting, StartRestoreAction::Finish(None, Err(error)))
    } else if !ids_valid {
        (StartRestoreStep::Inspecting, StartRestoreAction::Finish(None, Err(ConfirmBackupRestoreError::InvalidInput)))
    } else {
        (StartRestoreStep::Inspecting, StartRestoreAction::Call(StartRestoreCall::InspectManifest))
    }
}

/// The reply can answer the call of the step of a start.
pub open spec fn start_restore_reply_fits<S>(step: StartRestoreStep, reply: RestoreReply<S>) -> bool {
    &&& reply is PackageInvalid ==> step == StartRestoreStep::Validating
    &&& !(reply is ReopenFailed)
    &&& reply is Ended ==> step == StartRestoreStep::Requesting
    &&& reply is Done ==> step != StartRestoreStep::Requesting
}

/// Takes the reply to the last call of starting a restore operation and
/// says what comes next, as `start_restore_transition` describes.
pub fn start_restore_next<S>(run: &RestoreRun, step: StartRestoreStep, reply: RestoreReply<S>) -> (result: (StartRestoreStep, StartRestoreAction<S>))
    requires
        start_restore_reply_fits(step, reply),
    ensures
        result == start_restore_transition(*run, step, reply),
{
    match reply {
        RestoreReply::PackageStoreFailed(error) => (step, StartRestoreAction::Finish(None, Err(map_package_error(error)))),
        RestoreReply::RestoreStoreFailed(error) => (step, StartRestoreAction::Finish(None, Err(map_restore_error(error)))),
        RestoreReply::PackageInvalid => (step, StartRestoreAction::Finish(None, Err(ConfirmBackupRestoreError::PackageInvalid))),
        RestoreReply::Ended(state) => (step, StartRestoreAction::Finish(Some(RestoreLog::Confirmed), Ok(RestoreOutcome {
            operation_id: run.operation_id.clone(),
            state,
            error_code: None,
        }))),
        _ => match step {
            StartRestoreStep::Inspecting => (StartRestoreStep::Validating, StartRestoreAction::Call(StartRestoreCall::ValidatePackage)),
            _ => (StartRestoreStep::Requesting, StartRestoreAction::Call(StartRestoreCall::RequestRestore)),
        },
    }
}

/// Whether the reply can answer the call of the step, as
/// `restore_reply_fits` says; a runner checks this before it hands the
/// reply on.
pub fn check_restore_reply<S>(step: RestoreStep, reply: &RestoreReply<S>) -> (result: bool)
    ensures
        result == restore_reply_fits(step, *reply),
{
    let ending = step == RestoreStep::RollingBack || step == RestoreStep::Finalizing;
    match reply {
        RestoreReply::PackageInvalid => step == RestoreStep::Validating,
        RestoreReply::ReopenFailed => step == RestoreStep::Reopening,
        RestoreReply::Ended(_) => ending,
        RestoreReply::RestoreStoreFailed(_) => true,
        _ => !ending,
    }
}

/// Whether the reply can answer the call of the step, as
/// `start_restore_reply_fits` says; a runner checks this before it hands
/// the reply on.
pub fn check_start_restore_reply<S>(step: StartRestoreStep, reply: &RestoreReply<S>) -> (result: bool)
    ensures
        result == start_restore_reply_fits(step, *reply),
{
    match reply {
        RestoreReply::PackageInvalid => step == StartRestoreStep::Validating,
        RestoreReply::ReopenFailed => false,
        RestoreReply::Ended(_) => step == StartRestoreStep::Requesting,
        RestoreReply::Done => step != StartRestoreStep::Requesting,
        _ => true,
    }
}

} // verus!
