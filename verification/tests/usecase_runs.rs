use cabinet_usecases::ai::{
    answered_reply, ask_begin, ask_next, AnswerJobStep, AskAction, AskCall, AskConclusion, AskKnowledgeBaseError,
    AskOutcome, AskReply, AskRun,
};
use cabinet_usecases::asset_import::{
    cancel_import_begin, cancel_import_next, import_begin, import_next, recover_begin, recover_next,
    CancelAssetImportError, CancelImportAction, CancelImportCall, CancelImportReply, ImportAction,
    ImportAssetError, ImportAssetProductEvent, ImportCall, ImportOperationEvent, ImportReply, ImportRun,
    RecoverAction, RecoverAssetImportsError, RecoverCall, RecoverLog, RecoverReply,
};
use cabinet_usecases::asset_lifecycle::{
    asset_link_begin, asset_link_next, AssetLifecycleError, AssetLifecycleProductEvent, AssetLinkAction,
    AssetLinkCall, AssetLinkReply, AssetLinkRun,
};
use cabinet_usecases::attachment_diff::{compare_attachment_snapshots, AttachmentDiff};
use cabinet_usecases::audit::{
    audit_query_begin, audit_query_next, AuditQueryAction, AuditQueryCall, AuditQueryLog, AuditQueryReply,
    AuditQueryRun, AuditUsecaseError, ListAuditEventsInput, ListAuditEventsOutput, ListAuditEventsScopeInput,
};
use cabinet_usecases::auth::{
    login_begin, login_next, session_begin, session_next, AuthError, LoginAction, LoginCall, LoginLog,
    LoginOutcome, LoginReply, SessionAction, SessionCall, SessionCheckFailure, SessionLog, SessionReply,
};
use cabinet_usecases::authoritative_document_diff::{
    CommittedRevision, CompareAuthoritativeDocumentRevisionsError, CompareAuthoritativeDocumentRevisionsUsecase,
};
use cabinet_usecases::backup::{
    restore_job_begin, restore_job_next, BackupJobUsecaseError, RestoreAudit, RestoreJobAction, RestoreJobCall,
    RestoreJobEvent, RestoreJobLog, RestoreJobReply,
};
use cabinet_usecases::backup_catalog::{accept_catalog_page, ListBackupCatalogError};
use cabinet_usecases::backup_package::{
    preview_begin, preview_next, BackupPackageUsecaseError, PackageEntryCounts, PackageTotals, PreviewAction,
    PreviewCall, PreviewLog, PreviewOutcome, PreviewReply, PreviewRun,
};
use cabinet_usecases::backup_package_operation::{
    backup_run_begin, backup_run_next, cancel_backup_next, start_backup_next, BackupJobFailureKind,
    BackupOperationAction, BackupOperationCall, BackupOperationLog, BackupOperationStep,
    BackupPackageOperationUsecaseError, BackupRunAction, BackupRunCall, BackupRunEvent, BackupRunJobState,
    BackupRunLog, BackupRunReply,
};
use cabinet_usecases::backup_restore::{
    restore_begin, restore_next, start_restore_begin, start_restore_next, ConfirmBackupRestoreError, RestoreAction,
    RestoreCall, RestoreLog, RestoreOutcome, RestoreReply, RestoreRun, StartRestoreAction, StartRestoreCall,
};
use cabinet_usecases::collaborator_errors::{
    AiProviderError, AuditLogStoreError, BackupCatalogError, BackupPackageStoreError, CommittedVersionRecordReadError,
    SessionStoreError,
};
use cabinet_usecases::document_diff::{DiffComputation, DiffPolicy, DocumentLineDiffService, DocumentTitleDelta, LineDiffKind};
use cabinet_usecases::document_diff_operation::{entry_payload_matches, DiffOperationState, DocumentDiffOperationEntryError};

fn import_run() -> ImportRun {
    ImportRun { operation_id: "op-1".to_string(), document_id: "doc-1".to_string() }
}

#[test]
fn import_run_calls_every_step_and_logs_completion() {
    let run = import_run();
    let (mut step, mut action) = import_begin();
    let mut calls = Vec::new();
    loop {
        match action {
            ImportAction::Call(call) => {
                calls.push(call);
                let next = import_next(&run, step, ImportReply::Done);
                step = next.0;
                action = next.1;
            }
            ImportAction::Finish(log, result) => {
                assert_eq!(
                    log,
                    Some(ImportAssetProductEvent::Completed { operation_id: "op-1".to_string(), document_id: "doc-1".to_string() })
                );
                assert_eq!(result, Ok(()));
                break;
            }
        }
    }
    let advance = |event, after| ImportCall::Advance { event, after };
    assert_eq!(
        calls,
        vec![
            ImportCall::CheckDocument,
            ImportCall::DescribeSource,
            ImportCall::CreateOperation,
            advance(ImportOperationEvent::Begin, None),
            advance(ImportOperationEvent::ValidationSucceeded, Some(ImportOperationEvent::Begin)),
            ImportCall::Stage,
            advance(ImportOperationEvent::StagingSucceeded, Some(ImportOperationEvent::ValidationSucceeded)),
            advance(ImportOperationEvent::HashingSucceeded, Some(ImportOperationEvent::StagingSucceeded)),
            ImportCall::Publish,
            advance(ImportOperationEvent::ObjectPublished, Some(ImportOperationEvent::HashingSucceeded)),
            ImportCall::PutMetadata,
            advance(ImportOperationEvent::MetadataPersisted, Some(ImportOperationEvent::ObjectPublished)),
            ImportCall::Link,
            advance(ImportOperationEvent::LinkSucceeded, Some(ImportOperationEvent::MetadataPersisted)),
        ]
    );
}

#[test]
fn import_of_missing_document_is_logged_and_stops() {
    let run = import_run();
    let (step, _) = import_begin();
    let (_, action) = import_next(&run, step, ImportReply::DocumentMissing);
    assert_eq!(
        action,
        ImportAction::Finish(
            Some(ImportAssetProductEvent::Failed {
                operation_id: "op-1".to_string(),
                error_code: "asset_import.document_not_found",
            }),
            Err(ImportAssetError::DocumentNotFound)
        )
    );
}

#[test]
fn import_publish_failure_records_event_then_fails() {
    let run = import_run();
    let mut step = import_begin().0;
    for _ in 0..8 {
        step = import_next(&run, step, ImportReply::Done).0;
    }
    let error = ImportAssetError::Publish("asset_object.unavailable");
    let (step, action) = import_next(&run, step, ImportReply::Failed(error));
    assert_eq!(
        action,
        ImportAction::Call(ImportCall::Advance {
            event: ImportOperationEvent::ObjectPublishFailed,
            after: Some(ImportOperationEvent::HashingSucceeded),
        })
    );
    let (_, action) = import_next(&run, step, ImportReply::Done);
    assert_eq!(
        action,
        ImportAction::Finish(
            Some(ImportAssetProductEvent::Failed { operation_id: "op-1".to_string(), error_code: "asset_object.unavailable" }),
            Err(error)
        )
    );
}

#[test]
fn import_value_error_before_publish_ends_unlogged() {
    let run = import_run();
    let mut step = import_begin().0;
    for _ in 0..8 {
        step = import_next(&run, step, ImportReply::Done).0;
    }
    let (_, action) = import_next(&run, step, ImportReply::Failed(ImportAssetError::InvalidInput));
    assert_eq!(action, ImportAction::Finish(None, Err(ImportAssetError::InvalidInput)));
}

fn restore_run() -> RestoreRun {
    RestoreRun { operation_id: "op-r".to_string() }
}

#[test]
fn restore_with_failed_reopen_rolls_back_and_never_finalizes() {
    let run = restore_run();
    let (mut step, mut action) = restore_begin::<&str>(true, true);
    let mut calls = Vec::new();
    let mut logs = Vec::new();
    loop {
        match action {
            RestoreAction::Call(log, call) => {
                logs.extend(log);
                calls.push(call);
                let reply = match call {
                    RestoreCall::ReopenWorkspace => RestoreReply::ReopenFailed,
                    RestoreCall::RollbackRestore => RestoreReply::Ended("rolled_back"),
                    _ => RestoreReply::Done,
                };
                let next = restore_next(&run, step, reply);
                step = next.0;
                action = next.1;
            }
            RestoreAction::Finish(log, result) => {
                logs.extend(log);
                assert_eq!(
                    result,
                    Ok(RestoreOutcome {
                        operation_id: "op-r".to_string(),
                        state: "rolled_back",
                        error_code: Some("RESTORE_REOPEN_FAILED"),
                    })
                );
                break;
            }
        }
    }
    assert!(!calls.contains(&RestoreCall::FinalizeRestore));
    assert_eq!(calls.last(), Some(&RestoreCall::RollbackRestore));
    assert_eq!(logs, vec![RestoreLog::Confirmed, RestoreLog::RolledBack]);
}

#[test]
fn restore_refusals() {
    let run = restore_run();
    assert_eq!(restore_begin::<u8>(false, true).1, RestoreAction::Finish(None, Err(ConfirmBackupRestoreError::ConfirmationRequired)));
    let step = restore_next(&run, restore_begin::<u8>(true, true).0, RestoreReply::<&str>::Done).0;
    assert_eq!(
        restore_next(&run, step, RestoreReply::<u8>::PackageInvalid).1,
        RestoreAction::Finish(Some(RestoreLog::Failed), Err(ConfirmBackupRestoreError::PackageInvalid))
    );
    assert_eq!(
        restore_next(&run, step, RestoreReply::<u8>::PackageStoreFailed(BackupPackageStoreError::PackageNotFound)).1,
        RestoreAction::Finish(None, Err(ConfirmBackupRestoreError::PackageInvalid))
    );
}

fn ask_run() -> AskRun {
    AskRun { job_id: "job-1".to_string(), candidate_ids: vec!["s1".to_string(), "s2".to_string()] }
}

fn ask_until_generating(run: &AskRun) -> cabinet_usecases::ai::AskStep<&'static str, &'static str> {
    let step = ask_begin(run).0;
    let step = ask_next(run, step, AskReply::Done).0;
    let step = ask_next(run, step, AskReply::Recorded("preparing")).0;
    ask_next(run, step, AskReply::Recorded("requesting")).0
}

#[test]
fn ask_with_retryable_failure_schedules_retry() {
    let empty = AskRun { job_id: "job-0".to_string(), candidate_ids: Vec::new() };
    assert_eq!(ask_begin::<u8, u8>(&empty).1, AskAction::Finish(Err(AskKnowledgeBaseError::NoRetrievalContext)));
    let run = ask_run();
    let step = ask_until_generating(&run);
    let (step, action) = ask_next(&run, step, AskReply::ProviderFailed(AiProviderError::Timeout, true));
    assert_eq!(action, AskAction::Call(AskCall::Record(AnswerJobStep::ScheduleRetry)));
    assert_eq!(
        ask_next(&run, step, AskReply::Recorded("retrying")).1,
        AskAction::Finish(Ok(AskOutcome { job_id: "job-1".to_string(), state: "retrying", result: None, citation_count: 0 }))
    );
    let step = ask_until_generating(&run);
    let (step, action) = ask_next(&run, step, AskReply::ProviderFailed(AiProviderError::ProviderUnavailable, false));
    assert_eq!(action, AskAction::Call(AskCall::Record(AnswerJobStep::Fail)));
    assert_eq!(
        ask_next(&run, step, AskReply::Recorded("failed")).1,
        AskAction::Finish(Err(AskKnowledgeBaseError::ProviderUnavailable))
    );
}

#[test]
fn ask_answer_is_validated_concluded_and_saved() {
    let run = ask_run();
    let step = ask_until_generating(&run);
    let reply = answered_reply(&["s2".to_string(), "other".to_string(), "s1".to_string()], &run.candidate_ids);
    assert_eq!(reply, AskReply::Answered(2));
    let (step, action) = ask_next(&run, step, reply);
    assert_eq!(action, AskAction::Call(AskCall::Record(AnswerJobStep::ValidateCitations)));
    let (step, action) = ask_next(&run, step, AskReply::Recorded("validating"));
    assert_eq!(action, AskAction::Call(AskCall::Conclude(AskConclusion::Complete(2))));
    let (step, action) = ask_next(&run, step, AskReply::Concluded("completed", "answer"));
    assert_eq!(action, AskAction::Call(AskCall::SaveResult));
    let (step, action) = ask_next(&run, step, AskReply::Done);
    assert_eq!(action, AskAction::Call(AskCall::SaveStatus));
    assert_eq!(
        ask_next(&run, step, AskReply::Done).1,
        AskAction::Finish(Ok(AskOutcome {
            job_id: "job-1".to_string(),
            state: "completed",
            result: Some("answer"),
            citation_count: 2,
        }))
    );
}

#[test]
fn ask_answer_without_valid_citation_is_refused_with_reason() {
    let run = ask_run();
    let step = ask_until_generating(&run);
    let reply = answered_reply(&["elsewhere".to_string()], &run.candidate_ids);
    assert_eq!(reply, AskReply::Answered(0));
    let step = ask_next(&run, step, reply).0;
    let (_, action) = ask_next(&run, step, AskReply::Recorded("validating"));
    assert_eq!(action, AskAction::Call(AskCall::Conclude(AskConclusion::RefuseWithReason("ai.refusal.no_valid_citation"))));
}

#[test]
fn backup_run_discards_package_of_abandoned_job() {
    let (step, action) = backup_run_begin::<&str>(true);
    assert_eq!(action, BackupRunAction::Call(None, BackupRunCall::GetJob));
    let (step, action) = backup_run_next(step, BackupRunReply::Found(true, false, BackupRunJobState::Running, "running"));
    assert_eq!(action, BackupRunAction::Call(None, BackupRunCall::SaveJob));
    let (step, action) = backup_run_next(step, BackupRunReply::Done);
    assert_eq!(action, BackupRunAction::Call(Some(BackupRunLog::Running), BackupRunCall::BuildPackage));
    let (step, action) = backup_run_next(step, BackupRunReply::Done);
    assert_eq!(action, BackupRunAction::Call(None, BackupRunCall::GetLatestJob));
    let (step, action) = backup_run_next(step, BackupRunReply::Latest(true, "abandoned"));
    assert_eq!(action, BackupRunAction::Call(None, BackupRunCall::DiscardPackage));
    assert_eq!(
        backup_run_next(step, BackupRunReply::PackageStoreFailed(BackupPackageStoreError::Conflict)).1,
        BackupRunAction::Finish(
            Some(BackupRunLog::DiscardFailed(BackupPackageStoreError::Conflict)),
            Err(BackupPackageOperationUsecaseError::StorageUnavailable)
        )
    );
    assert_eq!(backup_run_next(step, BackupRunReply::Done).1, BackupRunAction::Finish(Some(BackupRunLog::Discarded), Ok("abandoned")));
}

#[test]
fn backup_run_failed_build_fails_job_retryably() {
    let step = backup_run_begin::<&str>(true).0;
    let (step, action) = backup_run_next(step, BackupRunReply::Found(true, false, BackupRunJobState::Queued, "queued"));
    assert_eq!(action, BackupRunAction::Call(None, BackupRunCall::Transition(BackupRunEvent::Start)));
    let (step, action) = backup_run_next(step, BackupRunReply::Job("running"));
    assert_eq!(action, BackupRunAction::Call(None, BackupRunCall::SaveJob));
    let step = backup_run_next(step, BackupRunReply::Done).0;
    let (step, action) = backup_run_next(step, BackupRunReply::PackageStoreFailed(BackupPackageStoreError::StorageUnavailable));
    assert_eq!(
        action,
        BackupRunAction::Call(
            None,
            BackupRunCall::Transition(BackupRunEvent::Fail(BackupJobFailureKind::Retryable, "BACKUP_PACKAGE_STORAGE_UNAVAILABLE"))
        )
    );
    let (step, action) = backup_run_next(step, BackupRunReply::Job("failed"));
    assert_eq!(action, BackupRunAction::Call(None, BackupRunCall::SaveJob));
    assert_eq!(backup_run_next(step, BackupRunReply::Done).1, BackupRunAction::Finish(Some(BackupRunLog::Failed), Ok("failed")));
    assert_eq!(
        backup_run_next(backup_run_begin::<&str>(true).0, BackupRunReply::Found(false, false, BackupRunJobState::Queued, "restore")).1,
        BackupRunAction::Finish(None, Err(BackupPackageOperationUsecaseError::Conflict))
    );
    assert_eq!(
        backup_run_next(backup_run_begin::<&str>(true).0, BackupRunReply::Found(true, true, BackupRunJobState::Other, "done")).1,
        BackupRunAction::Finish(None, Ok("done"))
    );
}

#[test]
fn backup_run_completes_the_running_job() {
    let step = backup_run_begin::<&str>(true).0;
    let step = backup_run_next(step, BackupRunReply::Found(true, false, BackupRunJobState::Running, "running")).0;
    let step = backup_run_next(step, BackupRunReply::Done).0;
    let step = backup_run_next(step, BackupRunReply::Done).0;
    let (step, action) = backup_run_next(step, BackupRunReply::Latest(false, "latest"));
    assert_eq!(action, BackupRunAction::Call(None, BackupRunCall::Transition(BackupRunEvent::Complete)));
    let step = backup_run_next(step, BackupRunReply::Job("completed")).0;
    assert_eq!(backup_run_next(step, BackupRunReply::Done).1, BackupRunAction::Finish(Some(BackupRunLog::Completed), Ok("completed")));
}

#[test]
fn restore_job_with_invalid_staging_is_abandoned_and_audited() {
    let (step, action) = restore_job_begin::<&str>(true);
    assert_eq!(action, RestoreJobAction::Call(RestoreJobCall::SaveQueued));
    let step = restore_job_next(step, RestoreJobReply::Job("queued")).0;
    let step = restore_job_next(step, RestoreJobReply::Job("running")).0;
    let (step, action) = restore_job_next(step, RestoreJobReply::Done);
    assert_eq!(action, RestoreJobAction::Call(RestoreJobCall::ValidateStaging));
    let (step, action) = restore_job_next(step, RestoreJobReply::Validated(false, None));
    assert_eq!(action, RestoreJobAction::Call(RestoreJobCall::Transition(RestoreJobEvent::FailFatal("BACKUP_RESTORE_STAGING_INVALID"))));
    let (step, action) = restore_job_next(step, RestoreJobReply::Job("failed"));
    assert_eq!(action, RestoreJobAction::Call(RestoreJobCall::SaveJob));
    let (step, action) = restore_job_next(step, RestoreJobReply::Done);
    assert_eq!(action, RestoreJobAction::Call(RestoreJobCall::RecordAudit(RestoreAudit::Failed)));
    assert_eq!(restore_job_next(step, RestoreJobReply::Done).1, RestoreJobAction::Finish(Some(RestoreJobLog::Failed), Ok("failed")));
    assert_eq!(
        restore_job_next(restore_job_begin::<&str>(true).0, RestoreJobReply::AuditFailed).1,
        RestoreJobAction::Finish(None, Err(BackupJobUsecaseError::AuditUnavailable))
    );
}

#[test]
fn login_outcomes() {
    assert_eq!(
        login_begin::<&str, &str, &str>(false).1,
        LoginAction::Finish(LoginLog::Failed(AuthError::InvalidCredential), Err(AuthError::InvalidCredential))
    );
    let step = login_begin::<&str, &str, &str>(true).0;
    assert_eq!(
        login_next(step, LoginReply::User(false, "u1")).1,
        LoginAction::Finish(LoginLog::Failed(AuthError::UserNotActive), Err(AuthError::UserNotActive))
    );
    let (step, action) = login_next(step, LoginReply::User(true, "u1"));
    assert_eq!(action, LoginAction::Call(LoginCall::IssueToken));
    let (step, action) = login_next(step, LoginReply::Token("t1"));
    assert_eq!(action, LoginAction::Call(LoginCall::BuildSession));
    let (step, action) = login_next(step, LoginReply::Session("s1"));
    assert_eq!(action, LoginAction::Call(LoginCall::CreateSession));
    assert_eq!(
        login_next(step, LoginReply::Done).1,
        LoginAction::Finish(LoginLog::Succeeded, Ok(LoginOutcome { user_id: "u1", token: "t1", session: "s1" }))
    );
    assert_eq!(
        login_next(step, LoginReply::StoreFailed(SessionStoreError::Conflict)).1,
        LoginAction::Finish(LoginLog::Failed(AuthError::SessionStoreUnavailable), Err(AuthError::SessionStoreUnavailable))
    );
}

#[test]
fn expired_session_is_stored_expired_and_refused() {
    let (step, action) = session_begin::<&str>();
    assert_eq!(action, SessionAction::Call(SessionCall::LookupKey));
    let reading = session_next(step, SessionReply::Done).0;
    let (step, action) = session_next(reading, SessionReply::Checked(Some(SessionCheckFailure::Expired), "s1", false));
    assert_eq!(action, SessionAction::Call(SessionCall::ExpireSession));
    let (marking, action) = session_next(step, SessionReply::Expired("s1 expired"));
    assert_eq!(action, SessionAction::Call(SessionCall::UpdateSession));
    assert_eq!(
        session_next(marking, SessionReply::StoreFailed(SessionStoreError::Unavailable)).1,
        SessionAction::Finish(Some(SessionLog::Expired("s1 expired")), Err(AuthError::SessionExpired))
    );
    assert_eq!(
        session_next(step, SessionReply::ExpireRefused).0,
        session_next(reading, SessionReply::Checked(Some(SessionCheckFailure::Expired), "s1", true)).0
    );
    assert_eq!(
        session_next(reading, SessionReply::Missing).1,
        SessionAction::Finish(Some(SessionLog::ValidationFailed(AuthError::SessionMissing)), Err(AuthError::SessionMissing))
    );
    assert_eq!(session_next(reading, SessionReply::Checked(None, "s3", false)).1, SessionAction::Finish(None, Ok("s3")));
    assert_eq!(
        session_next(reading, SessionReply::Checked(Some(SessionCheckFailure::Revoked), "s4", false)).1,
        SessionAction::Finish(Some(SessionLog::Revoked("s4")), Err(AuthError::SessionRevoked))
    );
}

#[test]
fn preview_outcomes() {
    let run = PreviewRun { package_id: "pkg-1".to_string() };
    let (step, action) = preview_begin::<&str>(true);
    assert_eq!(action, PreviewAction::Call(PreviewCall::InspectManifest));
    assert_eq!(
        preview_next(&run, step, PreviewReply::StoreFailed(BackupPackageStoreError::PackageNotFound)).1,
        PreviewAction::Finish(
            Some(PreviewLog::Unreadable(BackupPackageUsecaseError::PackageNotFound)),
            Err(BackupPackageUsecaseError::PackageNotFound)
        )
    );
    let entries = vec![
        PackageEntryCounts { authoritative: true, record_count: 3, byte_count: 10 },
        PackageEntryCounts { authoritative: false, record_count: 2, byte_count: u64::MAX },
    ];
    let (validating, action) = preview_next(&run, step, PreviewReply::Inspected("manifest", entries));
    assert_eq!(action, PreviewAction::Call(PreviewCall::ValidatePackage));
    let totals = PackageTotals { authoritative_record_count: 3, rebuildable_record_count: 2, byte_count: u64::MAX };
    assert_eq!(
        preview_next(&run, validating, PreviewReply::Validated(false, Some("BACKUP_PACKAGE_INVALID"))).1,
        PreviewAction::Finish(
            Some(PreviewLog::Invalid),
            Ok(PreviewOutcome {
                package_id: "pkg-1".to_string(),
                manifest: "manifest",
                totals,
                confirmation_ready: false,
                validation_error_code: Some("BACKUP_PACKAGE_INVALID"),
            })
        )
    );
    assert_eq!(
        preview_next(&run, validating, PreviewReply::Validated(true, Some("ignored"))).1,
        PreviewAction::Finish(
            Some(PreviewLog::Ready),
            Ok(PreviewOutcome {
                package_id: "pkg-1".to_string(),
                manifest: "manifest",
                totals,
                confirmation_ready: true,
                validation_error_code: None,
            })
        )
    );
    assert_eq!(
        preview_next(&run, validating, PreviewReply::StoreFailed(BackupPackageStoreError::Conflict)).1,
        PreviewAction::Finish(None, Err(BackupPackageUsecaseError::Conflict))
    );
}

#[test]
fn recovery_tallies_cleanups_and_logs_each_import() {
    let (step, _) = recover_begin();
    let (mut step, mut action) = recover_next(step, RecoverReply::Listed(2));
    let mut logs = Vec::new();
    let mut advances = Vec::new();
    let mut cleanups = 0;
    loop {
        match action {
            RecoverAction::Call(log, call) => {
                logs.extend(log);
                let reply = match call {
                    RecoverCall::Cleanup(_) => {
                        cleanups += 1;
                        RecoverReply::Cleaned(cleanups == 1)
                    }
                    RecoverCall::Advance { index, event, after } => {
                        advances.push((index, event, after));
                        RecoverReply::Done
                    }
                    _ => RecoverReply::Done,
                };
                let next = recover_next(step, reply);
                step = next.0;
                action = next.1;
            }
            RecoverAction::Finish(log, result) => {
                logs.extend(log);
                assert_eq!(result, Ok((1, 1)));
                break;
            }
        }
    }
    assert_eq!(logs, vec![RecoverLog { index: 0, cleaned_up: true }, RecoverLog { index: 1, cleaned_up: false }]);
    assert_eq!(
        advances,
        vec![
            (0, ImportOperationEvent::CancelRequested, None),
            (0, ImportOperationEvent::CleanupSucceeded, Some(ImportOperationEvent::CancelRequested)),
            (1, ImportOperationEvent::CancelRequested, None),
            (1, ImportOperationEvent::CleanupFailed, Some(ImportOperationEvent::CancelRequested)),
        ]
    );
    assert_eq!(recover_next(recover_begin().0, RecoverReply::Listed(0)).1, RecoverAction::Finish(None, Ok((0, 0))));
    assert_eq!(
        recover_next(recover_begin().0, RecoverReply::RepositoryFailed("repo.down")).1,
        RecoverAction::Finish(None, Err(RecoverAssetImportsError::Repository("repo.down")))
    );
}

#[test]
fn cancelling_an_import_cleans_up_and_logs() {
    let (step, action) = cancel_import_begin::<&str>();
    assert_eq!(action, CancelImportAction::Call(CancelImportCall::GetOperation));
    assert_eq!(
        cancel_import_next(step, CancelImportReply::Found(false, false, "other")).1,
        CancelImportAction::Finish(None, Err(CancelAssetImportError::NotFound))
    );
    assert_eq!(
        cancel_import_next(step, CancelImportReply::Found(true, true, "ended")).1,
        CancelImportAction::Finish(None, Ok("ended"))
    );
    let (step, action) = cancel_import_next(step, CancelImportReply::Found(true, false, "open"));
    assert_eq!(
        action,
        CancelImportAction::Call(CancelImportCall::Advance { event: ImportOperationEvent::CancelRequested, after: None })
    );
    let (step, action) = cancel_import_next(step, CancelImportReply::Operation("cancelled"));
    assert_eq!(action, CancelImportAction::Call(CancelImportCall::Cleanup));
    let (step, action) = cancel_import_next(step, CancelImportReply::Cleaned(false));
    assert_eq!(
        action,
        CancelImportAction::Call(CancelImportCall::Advance {
            event: ImportOperationEvent::CleanupFailed,
            after: Some(ImportOperationEvent::CancelRequested),
        })
    );
    assert_eq!(
        cancel_import_next(step, CancelImportReply::Operation("cleanup required")).1,
        CancelImportAction::Finish(Some(false), Ok("cleanup required"))
    );
}

#[test]
fn linking_an_asset_counts_references_and_logs_a_change() {
    let run = AssetLinkRun { document_id: "doc-1".to_string(), linking: true };
    let (step, _) = asset_link_begin();
    assert_eq!(
        asset_link_next(&run, step, AssetLinkReply::DocumentMissing).1,
        AssetLinkAction::Finish(None, Err(AssetLifecycleError::DocumentNotFound))
    );
    let (step, action) = asset_link_next(&run, step, AssetLinkReply::Done);
    assert_eq!(action, AssetLinkAction::Call(AssetLinkCall::GetMetadata));
    assert_eq!(
        asset_link_next(&run, step, AssetLinkReply::AssetMissing).1,
        AssetLinkAction::Finish(None, Err(AssetLifecycleError::AssetNotFound))
    );
    let (step, action) = asset_link_next(&run, step, AssetLinkReply::AssetFound);
    assert_eq!(action, AssetLinkAction::Call(AssetLinkCall::Change));
    let (changed, _) = asset_link_next(&run, step, AssetLinkReply::Changed(true));
    assert_eq!(
        asset_link_next(&run, changed, AssetLinkReply::Counted(2)).1,
        AssetLinkAction::Finish(Some(AssetLifecycleProductEvent::Linked { document_id: "doc-1".to_string() }), Ok((true, 2)))
    );
    let unlink = AssetLinkRun { document_id: "doc-1".to_string(), linking: false };
    assert_eq!(
        asset_link_next(&unlink, changed, AssetLinkReply::Counted(0)).1,
        AssetLinkAction::Finish(Some(AssetLifecycleProductEvent::Unlinked { document_id: "doc-1".to_string() }), Ok((true, 0)))
    );
    let (unchanged, _) = asset_link_next(&run, step, AssetLinkReply::Changed(false));
    assert_eq!(asset_link_next(&run, unchanged, AssetLinkReply::Counted(1)).1, AssetLinkAction::Finish(None, Ok((false, 1))));
}

#[test]
fn starting_a_restore_requests_it_after_validation() {
    let run = restore_run();
    assert_eq!(
        start_restore_begin::<&str>(true, false).1,
        StartRestoreAction::Finish(None, Err(ConfirmBackupRestoreError::InvalidInput))
    );
    let (step, _) = start_restore_begin::<&str>(true, true);
    let (step, action) = start_restore_next(&run, step, RestoreReply::<&str>::Done);
    assert_eq!(action, StartRestoreAction::Call(StartRestoreCall::ValidatePackage));
    assert_eq!(
        start_restore_next(&run, step, RestoreReply::<&str>::PackageInvalid).1,
        StartRestoreAction::Finish(None, Err(ConfirmBackupRestoreError::PackageInvalid))
    );
    let (step, action) = start_restore_next(&run, step, RestoreReply::<&str>::Done);
    assert_eq!(action, StartRestoreAction::Call(StartRestoreCall::RequestRestore));
    assert_eq!(
        start_restore_next(&run, step, RestoreReply::Ended("requested")).1,
        StartRestoreAction::Finish(
            Some(RestoreLog::Confirmed),
            Ok(RestoreOutcome { operation_id: "op-r".to_string(), state: "requested", error_code: None })
        )
    );
}

#[test]
fn audit_queries_check_permission_then_list() {
    let input = ListAuditEventsInput::new("user-1", "ws-1", ListAuditEventsScopeInput::workspace(), 20, Some("c1"));
    let run = AuditQueryRun::from_input(&input, 365);
    assert_eq!(
        audit_query_begin(&run, Some(AuditUsecaseError::InvalidCursor)).1,
        AuditQueryAction::Finish(None, Err(AuditUsecaseError::InvalidCursor))
    );
    let (step, action) = audit_query_begin(&run, None);
    assert_eq!(
        action,
        AuditQueryAction::Call(AuditQueryCall::CheckPermission { actor_user_id: "user-1".to_string(), workspace_id: "ws-1".to_string() })
    );
    assert_eq!(
        audit_query_next(&run, step, AuditQueryReply::Decided(false)).1,
        AuditQueryAction::Finish(Some(AuditQueryLog::Denied), Err(AuditUsecaseError::Unauthorized))
    );
    let (step, action) = audit_query_next(&run, step, AuditQueryReply::Decided(true));
    assert_eq!(
        action,
        AuditQueryAction::Call(AuditQueryCall::ListEvents {
            workspace_id: "ws-1".to_string(),
            scope: ListAuditEventsScopeInput::workspace(),
            limit: 20,
            cursor: Some("c1".to_string()),
        })
    );
    assert_eq!(
        audit_query_next(&run, step, AuditQueryReply::StoreFailed(AuditLogStoreError::CorruptedState)).1,
        AuditQueryAction::Finish(None, Err(AuditUsecaseError::StoreUnavailable))
    );
    assert_eq!(
        audit_query_next(&run, step, AuditQueryReply::Listed(Vec::new(), Some("c2".to_string()))).1,
        AuditQueryAction::Finish(
            Some(AuditQueryLog::Listed(true, 0)),
            Ok(ListAuditEventsOutput::new(Vec::new(), Some("c2".to_string()), 365))
        )
    );
}

#[test]
fn cancelling_and_starting_backup_operations() {
    let reading = BackupOperationStep::<&str>::Reading;
    assert_eq!(
        cancel_backup_next(reading, BackupRunReply::Found(true, true, BackupRunJobState::Other, "ended")).1,
        BackupOperationAction::Finish(None, Ok("ended"))
    );
    let (step, action) = cancel_backup_next(reading, BackupRunReply::Found(true, false, BackupRunJobState::Running, "running"));
    assert_eq!(action, BackupOperationAction::Call(BackupOperationCall::Abandon("running")));
    let (step, action) = cancel_backup_next(step, BackupRunReply::Job("cancelled"));
    assert_eq!(action, BackupOperationAction::Call(BackupOperationCall::SaveJob));
    assert_eq!(
        cancel_backup_next(step, BackupRunReply::Done).1,
        BackupOperationAction::Finish(Some(BackupOperationLog::Cancelled), Ok("cancelled"))
    );
    assert_eq!(
        start_backup_next(reading, BackupRunReply::Found(true, false, BackupRunJobState::Queued, "existing")).1,
        BackupOperationAction::Finish(None, Err(BackupPackageOperationUsecaseError::Conflict))
    );
    let (step, action) = start_backup_next(reading, BackupRunReply::JobMissing);
    assert_eq!(action, BackupOperationAction::Call(BackupOperationCall::BuildQueued));
    assert_eq!(
        start_backup_next(step, BackupRunReply::TransitionRefused).1,
        BackupOperationAction::Finish(None, Err(BackupPackageOperationUsecaseError::InvalidInput))
    );
    let (step, _) = start_backup_next(step, BackupRunReply::Job("queued"));
    assert_eq!(start_backup_next(step, BackupRunReply::Done).1, BackupOperationAction::Finish(Some(BackupOperationLog::Queued), Ok("queued")));
}

fn revision(document_id: &str, version_id: &str, body: &str) -> CommittedRevision {
    CommittedRevision {
        document_id: document_id.to_string(),
        version_id: version_id.to_string(),
        body: body.to_string(),
        attachments: Some(Vec::new()),
    }
}

#[test]
fn compare_loaded_revisions_checks_records_then_diffs() {
    let usecase = CompareAuthoritativeDocumentRevisionsUsecase::new();
    let missing = usecase.compare_loaded_revisions("doc", "v1", "v2", Ok(None), Ok(Some(revision("doc", "v2", "b"))), DocumentTitleDelta::Unchanged);
    assert_eq!(missing, Err(CompareAuthoritativeDocumentRevisionsError::NotFound));
    let mismatch = usecase.compare_loaded_revisions(
        "doc",
        "v1",
        "v2",
        Ok(Some(revision("doc", "v1", "a"))),
        Ok(Some(revision("other", "v2", "b"))),
        DocumentTitleDelta::Unchanged,
    );
    assert_eq!(mismatch, Err(CompareAuthoritativeDocumentRevisionsError::CorruptedData));
    let unavailable = usecase.compare_loaded_revisions(
        "doc",
        "v1",
        "v2",
        Err(CommittedVersionRecordReadError::StorageUnavailable),
        Ok(None),
        DocumentTitleDelta::Unchanged,
    );
    assert_eq!(unavailable, Err(CompareAuthoritativeDocumentRevisionsError::StorageUnavailable));
    let output = usecase
        .compare_loaded_revisions(
            "doc",
            "v1",
            "v2",
            Ok(Some(revision("doc", "v1", "a\nb\n"))),
            Ok(Some(revision("doc", "v2", "a\nc\n"))),
            DocumentTitleDelta::Unchanged,
        )
        .unwrap();
    assert_eq!(output.left_version_id(), "v1");
    assert_eq!(output.right_version_id(), "v2");
    match output.computation() {
        DiffComputation::Complete(diff) => {
            assert_eq!(diff.added_count(), 1);
            assert_eq!(diff.removed_count(), 1);
        }
        other => panic!("unexpected computation {:?}", other),
    }
}

#[test]
fn entry_payload_accepts_valid_failure_code() {
    assert_eq!(entry_payload_matches(DiffOperationState::Failed, false, Some("x.y")), Ok(()));
    assert_eq!(
        entry_payload_matches(DiffOperationState::Failed, false, Some("   ")),
        Err(DocumentDiffOperationEntryError::InvalidFailureCode)
    );
    assert_eq!(
        entry_payload_matches(DiffOperationState::Completed, false, None),
        Err(DocumentDiffOperationEntryError::StatePayloadMismatch)
    );
    assert_eq!(entry_payload_matches(DiffOperationState::Running, false, None), Ok(()));
}

#[test]
fn hunks_of_a_diff_add_up_and_stay_near_changes() {
    let service = DocumentLineDiffService::with_policy(DiffPolicy::new(1, 1_000_000, 10_000, 100).unwrap());
    let left = "a\nb\nc\nd\ne\nf\ng\nh\n";
    let right = "a\nB\nc\nd\ne\nf\nG\nh\n";
    match service.compare(left, right, DocumentTitleDelta::Unchanged) {
        DiffComputation::Complete(diff) => {
            let hunks = diff.hunks();
            assert_eq!(hunks.len(), 2);
            let added: usize = hunks.iter().map(|h| h.added_count()).sum();
            let removed: usize = hunks.iter().map(|h| h.removed_count()).sum();
            assert_eq!(added, diff.added_count());
            assert_eq!(removed, diff.removed_count());
            for hunk in hunks {
                let lines = hunk.lines();
                let first_change = lines.iter().position(|l| l.kind() != LineDiffKind::Equal).unwrap();
                let last_change = lines.iter().rposition(|l| l.kind() != LineDiffKind::Equal).unwrap();
                assert!(first_change <= 1);
                assert!(lines.len() - 1 - last_change <= 1);
            }
        }
        other => panic!("unexpected computation {:?}", other),
    }
    match service.compare(left, left, DocumentTitleDelta::Unchanged) {
        DiffComputation::Complete(diff) => {
            assert!(diff.hunks().is_empty());
            assert_eq!(diff.added_count() + diff.removed_count(), 0);
        }
        other => panic!("unexpected computation {:?}", other),
    }
}

#[test]
fn attachment_diff_read_the_other_way_swaps_sides() {
    let left = vec![("a1".to_string(), "one".to_string()), ("a2".to_string(), "two".to_string()), ("a3".to_string(), "x".to_string())];
    let right = vec![("a2".to_string(), "deux".to_string()), ("a3".to_string(), "x".to_string()), ("a4".to_string(), "four".to_string())];
    let forward = compare_attachment_snapshots(Some(left.as_slice()), Some(right.as_slice()));
    let backward = compare_attachment_snapshots(Some(right.as_slice()), Some(left.as_slice()));
    match (forward, backward) {
        (AttachmentDiff::Known(f), AttachmentDiff::Known(b)) => {
            assert_eq!(f.added(), b.removed());
            assert_eq!(f.removed(), b.added());
            assert_eq!(f.unchanged_count(), b.unchanged_count());
            assert_eq!(f.relabeled().len(), 1);
            assert_eq!(f.relabeled()[0].before_label(), b.relabeled()[0].after_label());
            assert_eq!(f.relabeled()[0].after_label(), b.relabeled()[0].before_label());
        }
        _ => panic!("both snapshots record their references"),
    }
    match compare_attachment_snapshots(Some(left.as_slice()), Some(left.as_slice())) {
        AttachmentDiff::Known(same) => {
            assert!(same.added().is_empty() && same.removed().is_empty() && same.relabeled().is_empty());
            assert_eq!(same.unchanged_count(), 3);
        }
        _ => panic!("both snapshots record their references"),
    }
}

#[test]
fn catalog_pages_are_checked() {
    let ids = vec!["p2".to_string(), "p1".to_string()];
    let created = vec![Some(20u64), Some(10u64)];
    assert_eq!(accept_catalog_page(5, Ok(()), &ids, &created, None), Ok(()));
    assert_eq!(accept_catalog_page(1, Ok(()), &ids, &created, None), Err(ListBackupCatalogError::CorruptedCatalog));
    let reversed = vec![Some(10u64), Some(20u64)];
    assert_eq!(accept_catalog_page(5, Ok(()), &ids, &reversed, None), Err(ListBackupCatalogError::CorruptedCatalog));
    assert_eq!(
        accept_catalog_page(5, Err(BackupCatalogError::InvalidCursor), &ids, &created, None),
        Err(ListBackupCatalogError::InvalidInput)
    );
}
