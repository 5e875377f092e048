use cabinet_usecases::collaborator_errors::BackupPackageStoreError;
use cabinet_usecases::backup_package_operation::{
    backup_build_next, backup_job_gate, backup_run_start, package_cleanup_failure,
    package_failure, BackupBuildNext, BackupJobFailureKind, BackupJobGate, BackupPackageOperationUsecaseError, BackupRunJobState, BackupRunStart,
};

#[test]
fn package_failures_are_retryable_only_for_unavailable_storage() {
    assert_eq!(
        package_failure(BackupPackageStoreError::StorageUnavailable),
        (BackupJobFailureKind::Retryable, "BACKUP_PACKAGE_STORAGE_UNAVAILABLE")
    );
    assert_eq!(
        package_failure(BackupPackageStoreError::CorruptedPackage),
        (BackupJobFailureKind::Fatal, "BACKUP_PACKAGE_CORRUPTED")
    );
    assert_eq!(
        package_cleanup_failure(BackupPackageStoreError::PackageNotFound),
        "BACKUP_PACKAGE_DISCARD_NOT_FOUND"
    );
}

#[test]
fn run_gate_and_start_follow_job_state() {
    assert_eq!(backup_job_gate(false, false), Err(BackupPackageOperationUsecaseError::Conflict));
    assert_eq!(backup_job_gate(true, true), Ok(BackupJobGate::ReportCurrent));
    assert_eq!(backup_job_gate(true, false), Ok(BackupJobGate::Proceed));
    assert_eq!(backup_run_start(BackupRunJobState::Retrying), Ok(BackupRunStart::Start));
    assert_eq!(backup_run_start(BackupRunJobState::Running), Ok(BackupRunStart::Resume));
    assert_eq!(backup_run_start(BackupRunJobState::Other), Err(BackupPackageOperationUsecaseError::Conflict));
}

#[test]
fn build_outcome_discards_completes_or_fails() {
    assert_eq!(backup_build_next(Ok(()), true), BackupBuildNext::Discard);
    assert_eq!(backup_build_next(Ok(()), false), BackupBuildNext::Complete);
    assert_eq!(
        backup_build_next(Err(BackupPackageStoreError::Conflict), false),
        BackupBuildNext::Fail(BackupJobFailureKind::Fatal, "BACKUP_PACKAGE_CONFLICT")
    );
}
