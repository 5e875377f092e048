use vstd::prelude::*;
use crate::text::{opt_sstr_view, opt_str_view, opt_to_string, opt_ref_view, pairs_view, strings_view};
use crate::collaborator_errors::BackupRestoreStoreError;

verus! {
#[derive(Debug, Clone, PartialEq, Eq)]
pub struct RecoverBackupStartupInput {
    actor_user_id: String,
    workspace_id: String,
}

impl View for RecoverBackupStartupInput {
    type V = (Seq<char>, Seq<char>);

    closed spec fn view(&self) -> (Seq<char>, Seq<char>) {
        (self.actor_user_id@, self.workspace_id@)
    }
}

impl RecoverBackupStartupInput {
    pub fn new(actor_user_id: &str, workspace_id: &str) -> (result: Self)
        ensures
            result@ == (actor_user_id@, workspace_id@),
    {
        Self {
            actor_user_id: actor_user_id.to_string(),
            workspace_id: workspace_id.to_string(),
        }
    }

}

#[derive(Debug, Clone, PartialEq, Eq)]
pub struct RecoverBackupStartupOutput {
    cleaned_staging_count: u64,
    rolled_back_operation_ids: Vec<String>,
    cleanup_required_operation_ids: Vec<String>,
}

impl View for RecoverBackupStartupOutput {
    type V = (u64, Seq<Seq<char>>, Seq<Seq<char>>);

    closed spec fn view(&self) -> (u64, Seq<Seq<char>>, Seq<Seq<char>>) {
        (
            self.cleaned_staging_count,
            strings_view(self.rolled_back_operation_ids@),
            strings_view(self.cleanup_required_operation_ids@),
        )
    }
}

impl RecoverBackupStartupOutput {
    /// The answer of a startup recovery: how many stagings were cleaned,
    /// and the operations rolled back and those still needing cleanup, in
    /// order.
    pub fn new(cleaned_staging_count: u64, rolled_back_operation_ids: Vec<String>, cleanup_required_operation_ids: Vec<String>) -> (result: Self)
        ensures
            result@ == (
                cleaned_staging_count,
                strings_view(rolled_back_operation_ids@),
                strings_view(cleanup_required_operation_ids@),
            ),
    {
        RecoverBackupStartupOutput { cleaned_staging_count, rolled_back_operation_ids, cleanup_required_operation_ids }
    }

    pub fn cleaned_staging_count(&self) -> (result: u64)
        ensures
            result == self@.0,
    {
        self.cleaned_staging_count
    }

    pub fn rolled_back_operation_ids(&self) -> (result: &[String])
        ensures
            strings_view(result@) == self@.1,
    {
        self.rolled_back_operation_ids.as_slice()
    }

    pub fn rolled_back_operation_count(&self) -> (result: usize)
        ensures
            result == self@.1.len(),
    {
        self.rolled_back_operation_ids.len()
    }

    pub fn cleanup_required_operation_ids(&self) -> (result: &[String])
        ensures
            strings_view(result@) == self@.2,
    {
        self.cleanup_required_operation_ids.as_slice()
    }

    pub fn cleanup_required_operation_count(&self) -> (result: usize)
        ensures
            result == self@.2.len(),
    {
        self.cleanup_required_operation_ids.len()
    }
}

#[derive(Debug, Clone, Copy, PartialEq, Eq, Structural)]
pub enum BackupRecoveryUsecaseError {
    InvalidInput,
    StorageUnavailable,
}

#[derive(Debug, Clone, PartialEq, Eq)]
pub struct BackupRecoveryProductEvent {
    event_name: &'static str,
    workspace_id: String,
    cleaned_staging_count: u64,
    rolled_back_operation_count: usize,
    cleanup_required_operation_count: usize,
}

impl View for BackupRecoveryProductEvent {
    type V = (Seq<char>, Seq<char>, u64, usize, usize);

    closed spec fn view(&self) -> (Seq<char>, Seq<char>, u64, usize, usize) {
        (self.event_name@, self.workspace_id@, self.cleaned_staging_count, self.rolled_back_operation_count, self.cleanup_required_operation_count)
    }
}

impl BackupRecoveryProductEvent {
    pub fn event_name(&self) -> (result: &'static str)
        ensures
            result@ == self@.0,
    {
        self.event_name
    }

}

pub trait BackupRecoveryUsecaseLogger {
    fn write_product(&mut self, event: BackupRecoveryProductEvent);
}

#[derive(Debug, Clone, Copy, PartialEq, Eq, Structural)]
pub struct RecoverBackupStartupUsecase;

impl RecoverBackupStartupUsecase {
    pub fn new() -> (result: Self)
        ensures
            result == (RecoverBackupStartupUsecase),
    {
        RecoverBackupStartupUsecase
    }
}

impl Default for RecoverBackupStartupUsecase {
    fn default() -> (result: Self)
        ensures
            result == (RecoverBackupStartupUsecase),
    {
        Self::new()
    }
}

/// What a startup recovery reports from the store's answer: a failed store
/// is unavailable storage; a report becomes the output, and the
/// `backup.recovery.completed` event of the workspace with its counts.
pub fn startup_recovery_outcome(
    workspace_id: &str,
    report: Result<(u64, Vec<String>, Vec<String>), BackupRestoreStoreError>,
) -> (result: Result<(RecoverBackupStartupOutput, BackupRecoveryProductEvent), BackupRecoveryUsecaseError>)
    ensures
        report is Err <==> result == Err::<(RecoverBackupStartupOutput, BackupRecoveryProductEvent), BackupRecoveryUsecaseError>(
            BackupRecoveryUsecaseError::StorageUnavailable,
        ),
        report matches Ok((cleaned, rolled_back, cleanup_required)) ==> result matches Ok((output, event)) && {
            &&& output@ == (cleaned, strings_view(rolled_back@), strings_view(cleanup_required@))
            &&& event@ == ("backup.recovery.completed"@, workspace_id@, cleaned, rolled_back@.len() as usize, cleanup_required@.len() as usize)
        },
{
    match report {
        Err(_) => Err(BackupRecoveryUsecaseError::StorageUnavailable),
        Ok((cleaned, rolled_back, cleanup_required)) => {
            let rolled_back_count = rolled_back.len();
            let cleanup_required_count = cleanup_required.len();
            let output = RecoverBackupStartupOutput::new(cleaned, rolled_back, cleanup_required);
            let event = BackupRecoveryProductEvent {
                event_name: "backup.recovery.completed",
                workspace_id: workspace_id.to_string(),
                cleaned_staging_count: cleaned,
                rolled_back_operation_count: rolled_back_count,
                cleanup_required_operation_count: cleanup_required_count,
            };
            Ok((output, event))
        },
    }
}

} // verus!
