use cabinet_usecases::authoritative_document_diff::CompareAuthoritativeDocumentRevisionsError;
use cabinet_usecases::document::{
    compare_versions_outcome, restore_preview_outcome, CompareDocumentVersionsError,
    PreviewDocumentRestoreError, RestoreDocumentVersionError, RestoreDocumentVersionState,
};
use cabinet_usecases::document_diff::{DiffComputation, DiffLimitReason, DocumentLineDiffService, DocumentTitleDelta};
use cabinet_usecases::document_diff_operation::{
    cancel_decision, entry_payload_matches, failure_code_is_valid, map_cancel_registry_error,
    map_run_registry_error, map_start_registry_error, run_decision, run_failure_code, start_outcome,
    CancelDecision, CancelDocumentDiffOperationError, DiffOperationState, DocumentDiffOperationCreateOutcome,
    DocumentDiffOperationEntryError, DocumentDiffOperationRegistryError, RunDecision,
    RunDocumentDiffOperationError, StartDocumentDiffOperationError,
};
use cabinet_usecases::document_link_catalog_projection::{catalog_entry_of, planned_catalog_change, DocumentLinkCatalogChangeOutcome};
use cabinet_usecases::document::DocumentChangeEvent;
use cabinet_usecases::document_revision_metadata::{check_created_at, GenerateDocumentRevisionMetadataError};
use cabinet_usecases::export::{assemble_export, ExportItemError, ExportMarkdownState, ExportPdfOutput, ExportPdfUsecase};
use cabinet_usecases::group::{
    added_membership_result, group_member_count, group_member_ids, group_summaries, mask_member_id,
    member_dtos, removed_membership_result, AddUserToGroupError, CreateGroupProductEvent,
    GroupMembershipResult, RemoveUserFromGroupError,
};

fn pairs(items: &[(&str, &str)]) -> Vec<(String, String)> {
    items.iter().map(|(a, b)| (a.to_string(), b.to_string())).collect()
}

#[test]
fn group_members_are_counted_and_sorted() {
    let memberships = pairs(&[("g1", "zoe"), ("g2", "amy"), ("g1", "adam"), ("g1", "Bob")]);
    assert_eq!(group_member_count(&memberships, "g1"), 3);
    assert_eq!(group_member_count(&memberships, "g3"), 0);
    assert_eq!(group_member_ids(&memberships, "g1"), vec!["zoe".to_string(), "adam".to_string(), "Bob".to_string()]);
    let groups = pairs(&[("g1", "Writers"), ("g3", "Empty")]);
    let summaries = group_summaries(&groups, &memberships);
    assert_eq!(summaries.len(), 2);
    assert_eq!(summaries[0].group_id(), "g1");
    assert_eq!(summaries[0].name(), "Writers");
    assert_eq!(summaries[0].member_user_ids().to_vec(), vec!["Bob".to_string(), "adam".to_string(), "zoe".to_string()]);
    assert!(summaries[1].member_user_ids().is_empty());
    let members = member_dtos(&memberships);
    assert_eq!((members[1].group_id(), members[1].user_id()), ("g2", "amy"));
}

#[test]
fn membership_results_and_events() {
    assert_eq!(added_membership_result(true), GroupMembershipResult::Added);
    assert_eq!(added_membership_result(false), GroupMembershipResult::AlreadyMember);
    assert_eq!(removed_membership_result(true), Ok(GroupMembershipResult::Removed));
    assert_eq!(removed_membership_result(false), Err(RemoveUserFromGroupError::MembershipNotFound));
    assert_eq!(RemoveUserFromGroupError::from_add_error(AddUserToGroupError::UserNotFound), RemoveUserFromGroupError::UserNotFound);
    assert_eq!(mask_member_id("g1"), "masked:g1");
    let event = CreateGroupProductEvent::membership_added("ws", "g1", "u9", 2);
    assert_eq!(event.event_name(), "group.membership.added");
    assert_eq!(event, CreateGroupProductEvent::MembershipAdded {
        workspace_id: "ws".to_string(),
        masked_group_id: "masked:g1".to_string(),
        masked_user_id: "masked:u9".to_string(),
        member_count: 2,
    });
    assert_eq!(CreateGroupProductEvent::group_created("ws", "g1").event_name(), "group.created");
    assert_eq!(RemoveUserFromGroupError::MembershipNotFound.code(), "MEMBERSHIP_NOT_FOUND");
}

#[test]
fn export_gathers_files_and_failures() {
    let ids = vec!["d1".to_string(), "d2".to_string(), "d3".to_string()];
    let outcomes = vec![
        Ok(("a.md".to_string(), "# A".to_string())),
        Err(ExportItemError::NotFound),
        Ok(("c.md".to_string(), "# C".to_string())),
    ];
    let output = assemble_export(ids, outcomes);
    assert_eq!(output.final_state(), ExportMarkdownState::PartiallyFailed);
    assert_eq!(output.files().len(), 2);
    assert_eq!((output.files()[1].path(), output.files()[1].content()), ("c.md", "# C"));
    assert_eq!(output.failed_items().len(), 1);
    assert_eq!((output.failed_items()[0].document_id(), output.failed_items()[0].error_code()), ("d2", "markdown_export.not_found"));
    let all_failed = assemble_export(vec!["d1".to_string()], vec![Err(ExportItemError::InvalidInput)]);
    assert_eq!(all_failed.final_state(), ExportMarkdownState::Failed);
    let nothing = assemble_export(vec![], vec![]);
    assert_eq!(nothing.final_state(), ExportMarkdownState::Failed);
    let complete = assemble_export(vec!["d1".to_string()], vec![Ok(("a.md".to_string(), String::new()))]);
    assert_eq!(complete.final_state(), ExportMarkdownState::Completed);
    assert_eq!(ExportPdfUsecase::new().execute(), ExportPdfOutput::Unsupported);
}

#[test]
fn diff_operation_decisions() {
    assert_eq!(cancel_decision(None), Ok(CancelDecision::Expired { newly_expired: true }));
    assert_eq!(cancel_decision(Some(DiffOperationState::Expired)), Ok(CancelDecision::Expired { newly_expired: false }));
    assert_eq!(cancel_decision(Some(DiffOperationState::Cancelled)), Ok(CancelDecision::AlreadyCancelled));
    assert_eq!(cancel_decision(Some(DiffOperationState::Completed)), Err(CancelDocumentDiffOperationError::CancellationTooLate));
    assert_eq!(cancel_decision(Some(DiffOperationState::Running)), Ok(CancelDecision::Cancel));
    assert_eq!(run_decision(None), Ok(RunDecision::Expired));
    assert_eq!(run_decision(Some(DiffOperationState::Accepted)), Ok(RunDecision::Start));
    assert_eq!(run_decision(Some(DiffOperationState::Running)), Err(RunDocumentDiffOperationError::AlreadyRunning));
    assert_eq!(run_decision(Some(DiffOperationState::Failed)), Ok(RunDecision::Ended(DiffOperationState::Failed)));
    assert_eq!(run_failure_code(Ok(true)), None);
    assert_eq!(run_failure_code(Ok(false)), Some("document.diff.background_limit_exceeded"));
    assert_eq!(run_failure_code(Err(CompareAuthoritativeDocumentRevisionsError::NotFound)), Some("authoritative_document_diff.not_found"));
    assert_eq!(start_outcome(DocumentDiffOperationCreateOutcome::Created), Ok(DiffOperationState::Accepted));
    assert_eq!(start_outcome(DocumentDiffOperationCreateOutcome::AlreadyExists), Err(StartDocumentDiffOperationError::AlreadyExists));
}

#[test]
fn diff_operation_errors_and_payloads() {
    assert_eq!(map_start_registry_error(DocumentDiffOperationRegistryError::CapacityExceeded), StartDocumentDiffOperationError::CapacityExceeded);
    assert_eq!(map_start_registry_error(DocumentDiffOperationRegistryError::Conflict), StartDocumentDiffOperationError::RegistryUnavailable);
    assert_eq!(map_run_registry_error(DocumentDiffOperationRegistryError::Conflict), RunDocumentDiffOperationError::Conflict);
    assert_eq!(map_cancel_registry_error(DocumentDiffOperationRegistryError::Unavailable), CancelDocumentDiffOperationError::RegistryUnavailable);
    assert!(StartDocumentDiffOperationError::OperationIdUnavailable.retryable());
    assert!(!StartDocumentDiffOperationError::AlreadyExists.retryable());
    assert!(failure_code_is_valid("document.diff.failed"));
    assert!(!failure_code_is_valid("   "));
    assert!(!failure_code_is_valid("bad\ncode"));
    assert_eq!(entry_payload_matches(DiffOperationState::Completed, true, None), Ok(()));
    assert_eq!(entry_payload_matches(DiffOperationState::Completed, false, None), Err(DocumentDiffOperationEntryError::StatePayloadMismatch));
    assert_eq!(entry_payload_matches(DiffOperationState::Failed, false, Some(" ")), Err(DocumentDiffOperationEntryError::InvalidFailureCode));
    assert_eq!(entry_payload_matches(DiffOperationState::Failed, false, Some("x.y")), Ok(()));
    assert_eq!(entry_payload_matches(DiffOperationState::Running, false, Some("x.y")), Err(DocumentDiffOperationEntryError::StatePayloadMismatch));
}

#[test]
fn document_outcomes_from_diffs() {
    let complete = DocumentLineDiffService::default().compare("a", "b", DocumentTitleDelta::Unchanged);
    let output = compare_versions_outcome(complete.clone()).unwrap();
    assert_eq!(output.diff().added_count(), 1);
    assert_eq!(output.lines().len(), 2);
    assert_eq!(output.hunks().len(), 1);
    assert_eq!(output.title_delta(), &DocumentTitleDelta::Unchanged);
    assert_eq!(compare_versions_outcome(DiffComputation::TooLarge(DiffLimitReason::Lines)).unwrap_err(), CompareDocumentVersionsError::TooLarge);
    let (can_restore, diff) = restore_preview_outcome(complete).unwrap();
    assert!(can_restore);
    assert_eq!(diff.added_count(), 1);
    assert_eq!(restore_preview_outcome(DiffComputation::TooLarge(DiffLimitReason::Bytes)).unwrap_err(), PreviewDocumentRestoreError::TooLarge);
    assert!(CompareDocumentVersionsError::TooLarge.retryable());
    let error = RestoreDocumentVersionError::not_found(RestoreDocumentVersionState::Failed);
    assert_eq!(error.code(), "document.restore_target_not_found");
    assert_eq!(error.final_state(), RestoreDocumentVersionState::Failed);
}

#[test]
fn catalog_changes_follow_document_events() {
    let created = DocumentChangeEvent::DocumentCreated {
        workspace_id: "ws".to_string(),
        document_id: "d1".to_string(),
        version_id: "v1".to_string(),
        title: "Plan".to_string(),
        path: "plan.md".to_string(),
    };
    assert_eq!(planned_catalog_change(&created), DocumentLinkCatalogChangeOutcome::Upserted);
    assert_eq!(catalog_entry_of(&created), Some(("ws", "d1", "Plan", "plan.md")));
    let renamed = DocumentChangeEvent::DocumentRenamed {
        workspace_id: "ws".to_string(),
        document_id: "d1".to_string(),
        version_id: "v2".to_string(),
        title: "Plan".to_string(),
        old_path: "plan.md".to_string(),
        new_path: "roadmap.md".to_string(),
    };
    assert_eq!(catalog_entry_of(&renamed), Some(("ws", "d1", "Plan", "roadmap.md")));
    let deleted = DocumentChangeEvent::DocumentDeleted { workspace_id: "ws".to_string(), document_id: "d1".to_string(), version_id: "v3".to_string() };
    assert_eq!(planned_catalog_change(&deleted), DocumentLinkCatalogChangeOutcome::Removed);
    assert_eq!(catalog_entry_of(&deleted), None);
    let attached = DocumentChangeEvent::DocumentAssetAttached { workspace_id: "ws".to_string(), document_id: "d1".to_string(), version_id: "v4".to_string(), asset_id: "a1".to_string() };
    assert_eq!(planned_catalog_change(&attached), DocumentLinkCatalogChangeOutcome::Ignored);
}

#[test]
fn revision_timestamps_must_be_set() {
    assert_eq!(check_created_at(0), Err(GenerateDocumentRevisionMetadataError::InvalidTimestamp));
    assert_eq!(check_created_at(1_700_000_000_000), Ok(1_700_000_000_000));
}
