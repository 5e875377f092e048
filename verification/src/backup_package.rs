use vstd::prelude::*;
use crate::collaborator_errors::BackupPackageStoreError;
use crate::text::{opt_sstr_view, opt_str_view, opt_to_string, opt_ref_view, pairs_view, strings_view};

verus! {
#[derive(Debug, Clone, PartialEq, Eq)]
pub struct CreateBackupPackageInput {
    actor_user_id: String,
    workspace_id: String,
    package_id: String,
}

impl View for CreateBackupPackageInput {
    type V = (Seq<char>, Seq<char>, Seq<char>);

    closed spec fn view(&self) -> (Seq<char>, Seq<char>, Seq<char>) {
        (self.actor_user_id@, self.workspace_id@, self.package_id@)
    }
}

impl CreateBackupPackageInput {
    pub fn new(actor_user_id: &str, workspace_id: &str, package_id: &str) -> (result: Self)
        ensures
            result@ == (actor_user_id@, workspace_id@, package_id@),
    {
        Self {
            actor_user_id: actor_user_id.to_string(),
            workspace_id: workspace_id.to_string(),
            package_id: package_id.to_string(),
        }
    }

}

#[derive(Debug, Clone, PartialEq, Eq)]
pub struct PreviewBackupRestoreInput {
    actor_user_id: String,
    workspace_id: String,
    package_id: String,
}

impl View for PreviewBackupRestoreInput {
    type V = (Seq<char>, Seq<char>, Seq<char>);

    closed spec fn view(&self) -> (Seq<char>, Seq<char>, Seq<char>) {
        (self.actor_user_id@, self.workspace_id@, self.package_id@)
    }
}

impl PreviewBackupRestoreInput {
    pub fn new(actor_user_id: &str, workspace_id: &str, package_id: &str) -> (result: Self)
        ensures
            result@ == (actor_user_id@, workspace_id@, package_id@),
    {
        Self {
            actor_user_id: actor_user_id.to_string(),
            workspace_id: workspace_id.to_string(),
            package_id: package_id.to_string(),
        }
    }

}

#[derive(Debug, Clone, Copy, PartialEq, Eq, Structural)]
pub enum BackupPackageUsecaseError {
    InvalidInput,
    StorageUnavailable,
    PackageNotFound,
    CorruptedPackage,
    Conflict,
}

impl BackupPackageUsecaseError {
    pub fn code(self) -> (result: &'static str)
        ensures
            result@ == match self {
                Self::InvalidInput => "BACKUP_PACKAGE_INVALID_INPUT"@,
                Self::StorageUnavailable => "BACKUP_PACKAGE_STORAGE_UNAVAILABLE"@,
                Self::PackageNotFound => "BACKUP_PACKAGE_NOT_FOUND"@,
                Self::CorruptedPackage => "BACKUP_PACKAGE_CORRUPTED"@,
                Self::Conflict => "BACKUP_PACKAGE_CONFLICT"@,
            },
    {
        match self {
            Self::InvalidInput => "BACKUP_PACKAGE_INVALID_INPUT",
            Self::StorageUnavailable => "BACKUP_PACKAGE_STORAGE_UNAVAILABLE",
            Self::PackageNotFound => "BACKUP_PACKAGE_NOT_FOUND",
            Self::CorruptedPackage => "BACKUP_PACKAGE_CORRUPTED",
            Self::Conflict => "BACKUP_PACKAGE_CONFLICT",
        }
    }
}

#[derive(Debug, Clone, PartialEq, Eq)]
pub struct BackupPackageProductEvent {
    event_name: &'static str,
    workspace_id: String,
    package_id: String,
    entry_count: Option<usize>,
    record_count: Option<u64>,
    error_code: Option<&'static str>,
}

impl View for BackupPackageProductEvent {
    type V = (Seq<char>, Seq<char>, Seq<char>, Option<usize>, Option<u64>, Option<Seq<char>>);

    closed spec fn view(&self) -> (Seq<char>, Seq<char>, Seq<char>, Option<usize>, Option<u64>, Option<Seq<char>>) {
        (self.event_name@, self.workspace_id@, self.package_id@, self.entry_count, self.record_count, opt_sstr_view(self.error_code))
    }
}

impl BackupPackageProductEvent {
    pub fn event_name(&self) -> (result: &'static str)
        ensures
            result@ == self@.0,
    {
        self.event_name
    }

    pub fn workspace_id(&self) -> (result: &str)
        ensures
            result@ == self@.1,
    {
        self.workspace_id.as_str()
    }

    pub fn package_id(&self) -> (result: &str)
        ensures
            result@ == self@.2,
    {
        self.package_id.as_str()
    }

    pub fn error_code(&self) -> (result: Option<&'static str>)
        ensures
            opt_sstr_view(result) == self@.5,
    {
        self.error_code
    }

}

pub trait BackupPackageUsecaseLogger {
    fn write_product(&mut self, event: BackupPackageProductEvent);
}

#[derive(Debug, Clone, Copy, PartialEq, Eq, Structural)]
pub struct CreateBackupPackageUsecase;

impl CreateBackupPackageUsecase {
    pub fn new() -> (result: Self)
        ensures
            result == (CreateBackupPackageUsecase),
    {
        CreateBackupPackageUsecase
    }
}

impl Default for CreateBackupPackageUsecase {
    fn default() -> (result: Self)
        ensures
            result == (CreateBackupPackageUsecase),
    {
        Self::new()
    }
}

#[derive(Debug, Clone, Copy, PartialEq, Eq, Structural)]
pub struct PreviewBackupRestoreUsecase;

impl PreviewBackupRestoreUsecase {
    pub fn new() -> (result: Self)
        ensures
            result == (PreviewBackupRestoreUsecase),
    {
        PreviewBackupRestoreUsecase
    }
}

impl Default for PreviewBackupRestoreUsecase {
    fn default() -> (result: Self)
        ensures
            result == (PreviewBackupRestoreUsecase),
    {
        Self::new()
    }
}

/// What a package summary reads of a manifest entry: whether the entry's
/// data is authoritative (as opposed to rebuildable), and its record and
/// byte counts.
#[derive(Debug, Clone, Copy, PartialEq, Eq, Structural)]
pub struct PackageEntryCounts {
    pub authoritative: bool,
    pub record_count: u64,
    pub byte_count: u64,
}

/// The totals of a package summary.
#[derive(Debug, Clone, Copy, PartialEq, Eq, Structural)]
pub struct PackageTotals {
    pub authoritative_record_count: u64,
    pub rebuildable_record_count: u64,
    pub byte_count: u64,
}

/// The value capped at `u64::MAX`.
pub open spec fn saturate(total: nat) -> u64 {
    if total > u64::MAX {
        u64::MAX
    } else {
        total as u64
    }
}

/// The records of the authoritative entries, the records of the rebuildable
/// ones, and the bytes of all of them, summed without bound.
pub open spec fn entry_sums(entries: Seq<PackageEntryCounts>) -> (nat, nat, nat)
    decreases entries.len(),
{
    if entries.len() == 0 {
        (0, 0, 0)
    } else {
        let (a, r, b) = entry_sums(entries.drop_last());
        let e = entries.last();
        if e.authoritative {
            (a + e.record_count as nat, r, b + e.byte_count as nat)
        } else {
            (a, r + e.record_count as nat, b + e.byte_count as nat)
        }
    }
}

/// The totals of a package's entries, each capped at `u64::MAX`: adding with
/// saturation entry by entry gives the capped sum.
pub fn package_totals(entries: &[PackageEntryCounts]) -> (result: PackageTotals)
    ensures
        result.authoritative_record_count == saturate(entry_sums(entries@).0),
        result.rebuildable_record_count == saturate(entry_sums(entries@).1),
        result.byte_count == saturate(entry_sums(entries@).2),
{
    let mut authoritative_record_count: u64 = 0;
    let mut rebuildable_record_count: u64 = 0;
    let mut byte_count: u64 = 0;
    let mut i: usize = 0;
    assert(entries@.take(0) =~= Seq::<PackageEntryCounts>::empty());
    while i < entries.len()
        invariant
            i <= entries@.len(),
            authoritative_record_count == saturate(entry_sums(entries@.take(i as int)).0),
            rebuildable_record_count == saturate(entry_sums(entries@.take(i as int)).1),
            byte_count == saturate(entry_sums(entries@.take(i as int)).2),
        decreases entries@.len() - i,
    {
        let entry = entries[i];
        assert(entries@.take(i + 1).drop_last() =~= entries@.take(i as int));
        if entry.authoritative {
            authoritative_record_count = authoritative_record_count.saturating_add(entry.record_count);
        } else {
            rebuildable_record_count = rebuildable_record_count.saturating_add(entry.record_count);
        }
        byte_count = byte_count.saturating_add(entry.byte_count);
        i = i + 1;
    }
    assert(entries@.take(entries@.len() as int) =~= entries@);
    PackageTotals { authoritative_record_count, rebuildable_record_count, byte_count }
}

/// The event a restore preview logs and the validation code it reports:
/// ready when the package is valid, else failed with the validation's code.
pub fn preview_validation_outcome(valid: bool, error_code: Option<&'static str>) -> (result: (&'static str, Option<&'static str>))
    ensures
        valid ==> result.0@ == "restore.preview.ready"@ && result.1 is None,
        !valid ==> result.0@ == "restore.preview.failed"@ && result.1 == error_code,
{
    if valid {
        ("restore.preview.ready", None)
    } else {
        ("restore.preview.failed", error_code)
    }
}




impl BackupPackageUsecaseError {
    /// What `from_store` gives for each value.
    pub open spec fn from_store_spec(error: BackupPackageStoreError) -> Self {
        match error {
            BackupPackageStoreError::StorageUnavailable => Self::StorageUnavailable,
            BackupPackageStoreError::PackageNotFound => Self::PackageNotFound,
            BackupPackageStoreError::CorruptedPackage => Self::CorruptedPackage,
            BackupPackageStoreError::Conflict => Self::Conflict,
        }
    }

    /// How this usecase reports each backup package store failure.
    #[verifier::when_used_as_spec(from_store_spec)]
    pub fn from_store(error: BackupPackageStoreError) -> (result: Self)
        ensures
            result == Self::from_store_spec(error),
    {
        match error {
            BackupPackageStoreError::StorageUnavailable => Self::StorageUnavailable,
            BackupPackageStoreError::PackageNotFound => Self::PackageNotFound,
            BackupPackageStoreError::CorruptedPackage => Self::CorruptedPackage,
            BackupPackageStoreError::Conflict => Self::Conflict,
        }
    }
}


/// The totals of a package's entries, each capped at `u64::MAX`.
pub open spec fn entry_totals(entries: Seq<PackageEntryCounts>) -> PackageTotals {
    PackageTotals {
        authoritative_record_count: saturate(entry_sums(entries).0),
        rebuildable_record_count: saturate(entry_sums(entries).1),
        byte_count: saturate(entry_sums(entries).2),
    }
}

/// The package a restore preview is about.
pub struct PreviewRun {
    pub package_id: String,
}

/// A call a restore preview makes to the outside world.
#[derive(Debug, Clone, Copy, PartialEq, Eq, Structural)]
pub enum PreviewCall {
    InspectManifest,
    /// Validate the package against the manifest in hand.
    ValidatePackage,
}

/// What came back from the last call of a restore preview; `M` is a
/// package manifest as the store gives it.
#[derive(Debug, Clone, PartialEq, Eq)]
pub enum PreviewReply<M> {
    /// The manifest read, with what the summary reads of its entries, in
    /// order.
    Inspected(M, Vec<PackageEntryCounts>),
    /// The package was validated: whether it is valid, and the
    /// validation's code if it gave one.
    Validated(bool, Option<&'static str>),
    StoreFailed(BackupPackageStoreError),
}

/// What a restore preview writes to the product log when it ends.
#[derive(Debug, Clone, Copy, PartialEq, Eq, Structural)]
pub enum PreviewLog {
    /// `restore.preview.failed` without a summary, with the error's code.
    Unreadable(BackupPackageUsecaseError),
    /// `restore.preview.ready` with the package summary of the outcome.
    Ready,
    /// `restore.preview.failed` with the package summary and the
    /// validation code of the outcome.
    Invalid,
}

/// Where a restore preview stands: the call whose reply is awaited, and the
/// manifest with its totals once it is read.
#[derive(Debug, Clone, Copy, PartialEq, Eq)]
pub enum PreviewStep<M> {
    Inspecting,
    Validating(M, PackageTotals),
}

/// What a restore preview reports: the package id, the manifest its summary
/// is read from and the summary's totals, whether the restore may be
/// confirmed, and the validation's code when it may not.
#[derive(Debug, Clone, PartialEq, Eq)]
pub struct PreviewOutcome<M> {
    pub package_id: String,
    pub manifest: M,
    pub totals: PackageTotals,
    pub confirmation_ready: bool,
    pub validation_error_code: Option<&'static str>,
}

/// What a restore preview does next.
#[derive(Debug, PartialEq, Eq)]
pub enum PreviewAction<M> {
    Call(PreviewCall),
    /// The log entry, if any, is written, and the preview ends.
    Finish(Option<PreviewLog>, Result<PreviewOutcome<M>, BackupPackageUsecaseError>),
}

/// How a restore preview starts: invalid identifiers are invalid input,
/// else the manifest is inspected.
pub open spec fn preview_start<M>(ids_valid: bool) -> (PreviewStep<M>, PreviewAction<M>) {
    if ids_valid {
        (PreviewStep::Inspecting, PreviewAction::Call(PreviewCall::InspectManifest))
    } else {
        (PreviewStep::Inspecting, PreviewAction::Finish(None, Err(BackupPackageUsecaseError::InvalidInput)))
    }
}

/// One step of a restore preview: a manifest that cannot be read is logged
/// as a failed preview and ends it with the mapped error; a failed
/// validation ends it unlogged with the mapped error; a validated package
/// is logged ready or failed and reported with the run's package id, the
/// manifest and the totals of its entries, whether it is valid, and (when
/// it is not) the validation's code.
pub open spec fn preview_transition<M>(run: PreviewRun, step: PreviewStep<M>, reply: PreviewReply<M>) -> (PreviewStep<M>, PreviewAction<M>) {
    match reply {
        PreviewReply::StoreFailed(error) => match step {
            PreviewStep::Inspecting => (PreviewStep::Inspecting, PreviewAction::Finish(
                Some(PreviewLog::Unreadable(BackupPackageUsecaseError::from_store(error))),
                Err(BackupPackageUsecaseError::from_store(error)),
            )),
            _ => (PreviewStep::Inspecting, PreviewAction::Finish(None, Err(BackupPackageUsecaseError::from_store(error)))),
        },
        PreviewReply::Inspected(manifest, entries) => (
            PreviewStep::Validating(manifest, entry_totals(entries@)),
            PreviewAction::Call(PreviewCall::ValidatePackage),
        ),
        PreviewReply::Validated(valid, code) => match step {
            PreviewStep::Validating(manifest, totals) => (PreviewStep::Inspecting, PreviewAction::Finish(
                Some(if valid { PreviewLog::Ready } else { PreviewLog::Invalid }),
                Ok(PreviewOutcome {
                    package_id: run.package_id,
                    manifest,
                    totals,
                    confirmation_ready: valid,
                    validation_error_code: if valid { None } else { code },
                }),
            )),
            _ => (PreviewStep::Inspecting, PreviewAction::Finish(None, Err(BackupPackageUsecaseError::InvalidInput))),
        },
    }
}

/// Which replies answer the call a restore preview awaits at a step.
pub open spec fn preview_reply_fits<M>(step: PreviewStep<M>, reply: PreviewReply<M>) -> bool {
    &&& reply is Inspected ==> step is Inspecting
    &&& reply is Validated ==> step is Validating
}

/// Starts a restore preview, as `preview_start` describes.
pub fn preview_begin<M>(ids_valid: bool) -> (result: (PreviewStep<M>, PreviewAction<M>))
    ensures
        result == preview_start::<M>(ids_valid),
{
    if ids_valid {
        (PreviewStep::Inspecting, PreviewAction::Call(PreviewCall::InspectManifest))
    } else {
        (PreviewStep::Inspecting, PreviewAction::Finish(None, Err(BackupPackageUsecaseError::InvalidInput)))
    }
}

/// Takes the reply to the last call of a restore preview and says what
/// comes next, as `preview_transition` describes.
pub fn preview_next<M>(run: &PreviewRun, step: PreviewStep<M>, reply: PreviewReply<M>) -> (result: (PreviewStep<M>, PreviewAction<M>))
    requires
        preview_reply_fits(step, reply),
    ensures
        result == preview_transition(*run, step, reply),
{
    match reply {
        PreviewReply::StoreFailed(error) => {
            let mapped = BackupPackageUsecaseError::from_store(error);
            match step {
                PreviewStep::Inspecting => (PreviewStep::Inspecting, PreviewAction::Finish(Some(PreviewLog::Unreadable(mapped)), Err(mapped))),
                PreviewStep::Validating(_, _) => (PreviewStep::Inspecting, PreviewAction::Finish(None, Err(mapped))),
            }
        },
        PreviewReply::Inspected(manifest, entries) => {
            let totals = package_totals(entries.as_slice());
            (PreviewStep::Validating(manifest, totals), PreviewAction::Call(PreviewCall::ValidatePackage))
        },
        PreviewReply::Validated(valid, code) => match step {
            PreviewStep::Validating(manifest, totals) => {
                let log = if valid { PreviewLog::Ready } else { PreviewLog::Invalid };
                let validation_error_code = if valid { None } else { code };
                (PreviewStep::Inspecting, PreviewAction::Finish(Some(log), Ok(PreviewOutcome {
                    package_id: run.package_id.clone(),
                    manifest,
                    totals,
                    confirmation_ready: valid,
                    validation_error_code,
                })))
            },
            PreviewStep::Inspecting => (PreviewStep::Inspecting, PreviewAction::Finish(None, Err(BackupPackageUsecaseError::InvalidInput))),
        },
    }
}

/// Whether the reply can answer the call of the step, as
/// `preview_reply_fits` says; a runner checks this before it hands the
/// reply on.
pub fn check_preview_reply<M>(step: &PreviewStep<M>, reply: &PreviewReply<M>) -> (result: bool)
    ensures
        result == preview_reply_fits(*step, *reply),
{
    match reply {
        PreviewReply::Inspected(_, _) => match step {
            PreviewStep::Inspecting => true,
            _ => false,
        },
        PreviewReply::Validated(_, _) => match step {
            PreviewStep::Validating(_, _) => true,
            _ => false,
        },
        _ => true,
    }
}

} // verus!
