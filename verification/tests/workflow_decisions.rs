use cabinet_usecases::ai::{
    answer_job_plan, check_retrieval_context, cited_candidates, no_valid_citation_reason, summary_freshness,
    AnswerJobStep, AskKnowledgeBaseError, ProviderOutcome, SourceFreshness,
};
use cabinet_usecases::asset_import::{
    accept_chunk, asset_page_limit_is_valid, cleanup_event, cleanup_outcome_code, failure_event, import_events,
    import_label, recovery_tally, staging_complete, ImportOperationEvent, ImportStage,
};
use cabinet_usecases::attachment_diff::{compare_attachment_snapshots, AttachmentDiff};
use cabinet_usecases::auth::{check_login, mask_user_id, session_check_error, AuthError, SessionCheckFailure};
use cabinet_usecases::backup::restore_staging_failure_code;
use cabinet_usecases::backup_package::preview_validation_outcome;
use cabinet_usecases::backup_restore::{
    check_restore_confirmation, restore_reopen_outcome, restore_validation_event, ConfirmBackupRestoreError,
};

fn refs(items: &[(&str, &str)]) -> Vec<(String, String)> {
    items.iter().map(|(a, b)| (a.to_string(), b.to_string())).collect()
}

#[test]
fn attachments_compared_by_asset_id() {
    let left = refs(&[("b", "Diagram"), ("a", "Old"), ("c", "Spec"), ("a", "Photo")]);
    let right = refs(&[("d", "New"), ("a", "Photo"), ("c", "Spec v2")]);
    let AttachmentDiff::Known(diff) = compare_attachment_snapshots(Some(&left), Some(&right)) else { panic!("known") };
    assert_eq!(diff.added().to_vec(), refs(&[("d", "New")]));
    assert_eq!(diff.removed().to_vec(), refs(&[("b", "Diagram")]));
    assert_eq!(diff.relabeled().len(), 1);
    assert_eq!((diff.relabeled()[0].asset_id(), diff.relabeled()[0].before_label(), diff.relabeled()[0].after_label()), ("c", "Spec", "Spec v2"));
    assert_eq!(diff.unchanged_count(), 1);
    assert_eq!(compare_attachment_snapshots(None, Some(&right)), AttachmentDiff::LegacyUnknown);
    assert_eq!(compare_attachment_snapshots(Some(&left), None), AttachmentDiff::LegacyUnknown);
}

#[test]
fn added_assets_come_in_id_order() {
    let right = refs(&[("z", "1"), ("m", "2"), ("a", "3")]);
    let AttachmentDiff::Known(diff) = compare_attachment_snapshots(Some(&[]), Some(&right)) else { panic!("known") };
    assert_eq!(diff.added().to_vec(), refs(&[("a", "3"), ("m", "2"), ("z", "1")]));
    assert!(diff.removed().is_empty());
}

#[test]
fn answer_citations_and_steps() {
    let candidates = vec!["s1".to_string(), "s2".to_string(), "s2".to_string()];
    let cited = vec!["s2".to_string(), "unknown".to_string(), "s1".to_string(), "s2".to_string()];
    assert_eq!(cited_candidates(&cited, &candidates), vec![1, 0, 1]);
    assert!(cited_candidates(&["x".to_string()], &candidates).is_empty());
    assert_eq!(answer_job_plan(ProviderOutcome::RetryableFailure), vec![AnswerJobStep::PrepareRetrieval, AnswerJobStep::RequestProvider, AnswerJobStep::ScheduleRetry]);
    assert_eq!(answer_job_plan(ProviderOutcome::Failure).last(), Some(&AnswerJobStep::Fail));
    assert_eq!(answer_job_plan(ProviderOutcome::Answered { valid_citations: 2 }).last(), Some(&AnswerJobStep::Complete));
    assert_eq!(answer_job_plan(ProviderOutcome::Answered { valid_citations: 0 }).last(), Some(&AnswerJobStep::Refuse));
    assert_eq!(answer_job_plan(ProviderOutcome::Refused).len(), 4);
    assert_eq!(no_valid_citation_reason(), "ai.refusal.no_valid_citation");
    assert_eq!(check_retrieval_context(0), Err(AskKnowledgeBaseError::NoRetrievalContext));
    assert_eq!(check_retrieval_context(3), Ok(()));
}

#[test]
fn summary_freshness_takes_the_worst() {
    assert_eq!(summary_freshness(&[SourceFreshness::Fresh, SourceFreshness::Unknown, SourceFreshness::Stale]), SourceFreshness::Stale);
    assert_eq!(summary_freshness(&[SourceFreshness::Fresh, SourceFreshness::Unknown]), SourceFreshness::Unknown);
    assert_eq!(summary_freshness(&[SourceFreshness::Fresh]), SourceFreshness::Fresh);
    assert_eq!(summary_freshness(&[]), SourceFreshness::Fresh);
}

#[test]
fn import_event_logs() {
    assert_eq!(import_events(None), vec![
        ImportOperationEvent::Begin,
        ImportOperationEvent::ValidationSucceeded,
        ImportOperationEvent::StagingSucceeded,
        ImportOperationEvent::HashingSucceeded,
        ImportOperationEvent::ObjectPublished,
        ImportOperationEvent::MetadataPersisted,
        ImportOperationEvent::LinkSucceeded,
    ]);
    assert_eq!(import_events(Some(ImportStage::Staging)), vec![
        ImportOperationEvent::Begin,
        ImportOperationEvent::ValidationSucceeded,
        ImportOperationEvent::StagingFailed,
    ]);
    assert_eq!(import_events(Some(ImportStage::Linking)).len(), 7);
    assert_eq!(import_events(Some(ImportStage::Linking)).last(), Some(&ImportOperationEvent::LinkFailed));
    assert_eq!(failure_event(ImportStage::PersistingMetadata), ImportOperationEvent::MetadataPersistFailed);
}

#[test]
fn import_requests_and_staging_chunks() {
    assert_eq!(import_label("  cover image ", 1024), Some("cover image".to_string()));
    assert_eq!(import_label("   ", 1024), None);
    assert_eq!(import_label("x", 0), None);
    assert_eq!(accept_chunk(0, 10, 0, 4, false), Some((4, false)));
    assert_eq!(accept_chunk(4, 10, 4, 6, true), Some((10, true)));
    assert_eq!(accept_chunk(4, 10, 5, 6, true), None);
    assert_eq!(accept_chunk(4, 10, 4, 0, false), None);
    assert_eq!(accept_chunk(4, 10, 4, 2, true), None);
    assert_eq!(accept_chunk(u64::MAX, u64::MAX, u64::MAX, 1, false), None);
    assert!(staging_complete(10, 10, true));
    assert!(!staging_complete(10, 10, false));
    assert!(!staging_complete(9, 10, true));
}

#[test]
fn recovery_tallies_cleanups() {
    let tally = recovery_tally(&[true, false, true]);
    assert_eq!((tally.cancelled(), tally.cleanup_required()), (2, 1));
    assert_eq!(cleanup_outcome_code(true), "asset.import.cancelled");
    assert_eq!(cleanup_outcome_code(false), "asset.import.cleanup_required");
    assert_eq!(cleanup_event(false), ImportOperationEvent::CleanupFailed);
    assert!(asset_page_limit_is_valid(500));
    assert!(!asset_page_limit_is_valid(0));
    assert!(!asset_page_limit_is_valid(501));
}

#[test]
fn login_and_session_checks() {
    assert_eq!(check_login(false, Some(true)), Err(AuthError::InvalidCredential));
    assert_eq!(check_login(true, None), Err(AuthError::InvalidCredential));
    assert_eq!(check_login(true, Some(false)), Err(AuthError::UserNotActive));
    assert_eq!(check_login(true, Some(true)), Ok(()));
    assert_eq!(session_check_error(SessionCheckFailure::Expired), AuthError::SessionExpired);
    assert_eq!(session_check_error(SessionCheckFailure::Revoked), AuthError::SessionRevoked);
    assert_eq!(session_check_error(SessionCheckFailure::NotActive), AuthError::InvalidSession);
    assert_eq!(mask_user_id("u-1"), "masked:u-1");
    assert_eq!(AuthError::SessionExpired.failure_category(), "session_expired");
    assert_eq!(AuthError::SessionExpired.code(), "AUTH_SESSION_EXPIRED");
}

#[test]
fn restore_flow_decisions() {
    assert_eq!(check_restore_confirmation(false), Err(ConfirmBackupRestoreError::ConfirmationRequired));
    assert_eq!(check_restore_confirmation(true), Ok(()));
    assert_eq!(restore_validation_event(true), ("restore.confirmed", Ok(())));
    assert_eq!(restore_validation_event(false), ("restore.failed", Err(ConfirmBackupRestoreError::PackageInvalid)));
    assert_eq!(restore_reopen_outcome(true), ("restore.completed", None));
    assert_eq!(restore_reopen_outcome(false), ("restore.rolled_back", Some("RESTORE_REOPEN_FAILED")));
    assert_eq!(preview_validation_outcome(true, Some("X")), ("restore.preview.ready", None));
    assert_eq!(preview_validation_outcome(false, Some("BAD_MANIFEST")), ("restore.preview.failed", Some("BAD_MANIFEST")));
    assert_eq!(restore_staging_failure_code(None), "BACKUP_RESTORE_STAGING_INVALID");
    assert_eq!(restore_staging_failure_code(Some("STAGING_HASH")), "STAGING_HASH");
}
