use cabinet_usecases::canvas_graph_projection::{canvas_edge_tally, edge_centers, CanvasEdgeTallyError, CanvasNodeKind};
use cabinet_usecases::ai::{
    prompt_reference_text, related_document_picks, summary_context_freshness, AiSummaryUsecaseError, AskKnowledgeBaseError,
    SourceFreshness,
};
use cabinet_usecases::asset_external_open::{open_externally_outcome, AssetExternalOpenProductEvent, OpenAssetExternallyError, OpenAssetExternallyOutput};
use cabinet_usecases::asset_import::{
    check_document_assets_reply, document_assets_begin, document_assets_next, DocumentAssetsAction,
    DocumentAssetsCall, DocumentAssetsReply, ListCatalogDocumentAssetsError,
};
use cabinet_usecases::asset_import::{
    check_stage_reply, import_extraction_status, stage_begin, stage_next, AssetExtractionStatus, AssetPreviewSupport,
    StageAction, StageAssetImportError, StageCall, StageReply, StageStep,
};
use cabinet_usecases::asset_lifecycle::{LinkAssetOutput, UnlinkAssetOutput};
use cabinet_usecases::audit::{record_audit_outcome, AuditProductEvent, AuditUsecaseError, RecordAuditEventStatus};
use cabinet_usecases::backup_recovery::startup_recovery_outcome;
use cabinet_usecases::canvas_catalog::{select_canvas_check, select_canvas_saved, SelectCanvasError};
use cabinet_usecases::collaborator_errors::{AuditLogStoreError, BackupRestoreStoreError, CanvasCatalogError, LastCanvasSelectionError};
use cabinet_usecases::collaboration::UpdatePresenceOutput;
use cabinet_usecases::document_diff::{diff_of_changes, DiffComputation, DiffLimitReason, DiffPolicy, DocumentTitleDelta, LineDiffKind};
use cabinet_usecases::backup_recovery::BackupRecoveryUsecaseError;

fn stage_run(replies: Vec<StageReply<&'static str>>) -> (Vec<StageCall>, Result<&'static str, StageAssetImportError>) {
    let (mut step, mut action) = stage_begin();
    let mut calls = Vec::new();
    let mut replies = replies.into_iter();
    loop {
        match action {
            StageAction::Call(call) => {
                calls.push(call);
                let reply = replies.next().expect("a reply for every call");
                assert!(check_stage_reply(step, &reply));
                let next = stage_next(3, step, reply);
                step = next.0;
                action = next.1;
            }
            StageAction::Finish(result) => return (calls, result),
        }
    }
}

#[test]
fn staging_reads_chunks_until_the_expected_size_then_finalizes() {
    let (calls, result) = stage_run(vec![
        StageReply::Described(5),
        StageReply::Done,
        StageReply::Chunk { offset: 0, len: 3, eof: false },
        StageReply::Done,
        StageReply::Chunk { offset: 3, len: 2, eof: true },
        StageReply::Done,
        StageReply::Finalized("asset"),
    ]);
    assert_eq!(result, Ok("asset"));
    assert_eq!(
        calls,
        vec![
            StageCall::Describe,
            StageCall::Begin,
            StageCall::ReadChunk { offset: 0, max_bytes: 3 },
            StageCall::Append { offset: 0 },
            StageCall::ReadChunk { offset: 3, max_bytes: 3 },
            StageCall::Append { offset: 3 },
            StageCall::Finalize { expected: 5 },
        ]
    );
}

#[test]
fn staging_failures_clean_up_once_staging_began() {
    let (calls, result) = stage_run(vec![
        StageReply::Described(5),
        StageReply::Done,
        StageReply::Chunk { offset: 1, len: 3, eof: false },
        StageReply::Done,
    ]);
    assert_eq!(result, Err(StageAssetImportError::SizeMismatch));
    assert_eq!(calls.last(), Some(&StageCall::Cleanup));
    let (calls, result) = stage_run(vec![
        StageReply::Described(5),
        StageReply::Done,
        StageReply::Chunk { offset: 0, len: 3, eof: true },
        StageReply::Done,
        StageReply::StagingFailed("asset_staging.unavailable"),
    ]);
    assert_eq!(result, Err(StageAssetImportError::SizeMismatch));
    assert_eq!(calls[3], StageCall::Append { offset: 0 });
    assert_eq!(calls.last(), Some(&StageCall::Cleanup));
    let (calls, result) = stage_run(vec![StageReply::Described(0), StageReply::Done, StageReply::Done]);
    assert_eq!(result, Err(StageAssetImportError::SizeMismatch));
    assert_eq!(calls, vec![StageCall::Describe, StageCall::Begin, StageCall::Cleanup]);
    let (calls, result) = stage_run(vec![StageReply::SourceFailed("asset_source.unreadable")]);
    assert_eq!(result, Err(StageAssetImportError::Source("asset_source.unreadable")));
    assert_eq!(calls, vec![StageCall::Describe]);
    let (_, result) = stage_run(vec![
        StageReply::Described(4),
        StageReply::StagingFailed("asset_staging.conflict"),
    ]);
    assert_eq!(result, Err(StageAssetImportError::Staging("asset_staging.conflict")));
    assert!(!check_stage_reply(StageStep::Describing, &StageReply::<&str>::Done));
}

#[test]
fn extraction_status_follows_preview_support() {
    assert_eq!(import_extraction_status(AssetPreviewSupport::Unsupported), AssetExtractionStatus::Unsupported);
    assert_eq!(import_extraction_status(AssetPreviewSupport::Supported), AssetExtractionStatus::NotRequested);
}

#[test]
fn diff_of_changes_numbers_counts_and_groups_lines() {
    let policy = DiffPolicy::new(1, 1_000_000, 10_000, 100).unwrap();
    let changes = vec![
        (LineDiffKind::Equal, "a".to_string()),
        (LineDiffKind::Equal, "b".to_string()),
        (LineDiffKind::Equal, "c".to_string()),
        (LineDiffKind::Removed, "d".to_string()),
        (LineDiffKind::Added, "D".to_string()),
        (LineDiffKind::Equal, "e".to_string()),
    ];
    match diff_of_changes(policy, &changes, true, false, DocumentTitleDelta::Unchanged) {
        DiffComputation::Complete(diff) => {
            assert_eq!(diff.added_count(), 1);
            assert_eq!(diff.removed_count(), 1);
            assert!(diff.old_ends_with_newline());
            assert!(!diff.new_ends_with_newline());
            let lines = diff.lines();
            assert_eq!(lines.len(), 6);
            assert_eq!(lines[3].old_line_number(), Some(4));
            assert_eq!(lines[3].new_line_number(), None);
            assert_eq!(lines[4].old_line_number(), None);
            assert_eq!(lines[4].new_line_number(), Some(4));
            assert_eq!(lines[5].old_line_number(), Some(5));
            assert_eq!(diff.hunks().len(), 1);
            let hunk = &diff.hunks()[0];
            assert_eq!(hunk.lines().len(), 4);
            assert_eq!(hunk.old_start_line(), 3);
            assert_eq!(hunk.new_start_line(), 3);
        }
        other => panic!("unexpected computation {:?}", other),
    }
    let tight = DiffPolicy::new(0, 1_000_000, 10_000, 1).unwrap();
    let two_changes = vec![
        (LineDiffKind::Added, "x".to_string()),
        (LineDiffKind::Equal, "a".to_string()),
        (LineDiffKind::Added, "y".to_string()),
    ];
    assert_eq!(
        diff_of_changes(tight, &two_changes, false, false, DocumentTitleDelta::Unchanged),
        DiffComputation::TooLarge(DiffLimitReason::Hunks)
    );
}

#[test]
fn selecting_a_canvas_checks_the_catalog() {
    let ids = vec!["c1".to_string(), "c2".to_string(), "c2".to_string()];
    let archived = vec![false, true, false];
    assert_eq!(select_canvas_check(true, 10, "c1", Ok((&ids, &archived))), Ok(()));
    assert_eq!(select_canvas_check(true, 10, "c2", Ok((&ids, &archived))), Err(SelectCanvasError::CanvasArchived));
    assert_eq!(select_canvas_check(true, 10, "c9", Ok((&ids, &archived))), Err(SelectCanvasError::CanvasNotFound));
    assert_eq!(select_canvas_check(true, 0, "c1", Ok((&ids, &archived))), Err(SelectCanvasError::InvalidInput));
    assert_eq!(select_canvas_check(false, 10, "c1", Ok((&ids, &archived))), Err(SelectCanvasError::InvalidInput));
    assert_eq!(
        select_canvas_check(true, 10, "c1", Err(CanvasCatalogError::LimitExceeded)),
        Err(SelectCanvasError::CatalogLimitExceeded)
    );
    assert_eq!(select_canvas_saved("c1", Ok(())).unwrap().selected_canvas_id(), "c1");
    assert_eq!(
        select_canvas_saved("c1", Err(LastCanvasSelectionError::CorruptedSelection)),
        Err(SelectCanvasError::CorruptedSelection)
    );
}

#[test]
fn recording_an_audit_event_reports_or_logs_its_failure() {
    let (log, result) = record_audit_outcome("ev-1", "user-123456", "document.updated", "document", Ok(()), 90);
    assert_eq!(log, None);
    let output = result.unwrap();
    assert_eq!(output.status(), RecordAuditEventStatus::Recorded);
    assert_eq!(output.event_id(), "ev-1");
    assert_eq!(output.retention_days(), 90);
    let (log, result) = record_audit_outcome(
        "ev-1",
        "user-123456",
        "document.updated",
        "document",
        Err((AuditLogStoreError::StorageUnavailable, "audit_store.unavailable")),
        90,
    );
    assert_eq!(result, Err(AuditUsecaseError::StoreUnavailable));
    match log {
        Some(AuditProductEvent::StoreFailed { masked_actor_id, action, target_type, error_code }) => {
            assert_eq!(masked_actor_id, "masked:3456");
            assert_eq!(action, "document.updated");
            assert_eq!(target_type, "document");
            assert_eq!(error_code, "audit_store.unavailable");
        }
        other => panic!("unexpected log {:?}", other),
    }
}

#[test]
fn opening_an_asset_externally_logs_each_failure() {
    assert_eq!(open_externally_outcome(Ok(true), Ok(())), (None, Ok(OpenAssetExternallyOutput::new())));
    assert_eq!(
        open_externally_outcome(Ok(false), Ok(())),
        (
            Some(AssetExternalOpenProductEvent::Failed { error_code: "asset_external_open.not_found" }),
            Err(OpenAssetExternallyError::NotFound)
        )
    );
    assert_eq!(
        open_externally_outcome(Ok(true), Err("asset_open.no_handler")),
        (
            Some(AssetExternalOpenProductEvent::Failed { error_code: "asset_open.no_handler" }),
            Err(OpenAssetExternallyError::Open("asset_open.no_handler"))
        )
    );
    assert_eq!(
        open_externally_outcome(Err("asset_metadata.unavailable"), Ok(())).1,
        Err(OpenAssetExternallyError::Metadata("asset_metadata.unavailable"))
    );
}

#[test]
fn startup_recovery_reports_the_store_report() {
    let report = (2u64, vec!["op-1".to_string()], vec!["op-2".to_string(), "op-3".to_string()]);
    let (output, event) = startup_recovery_outcome("ws-1", Ok(report)).unwrap();
    assert_eq!(output.cleaned_staging_count(), 2);
    assert_eq!(output.rolled_back_operation_ids(), &["op-1".to_string()]);
    assert_eq!(output.cleanup_required_operation_count(), 2);
    assert_eq!(event.event_name(), "backup.recovery.completed");
    assert_eq!(
        startup_recovery_outcome("ws-1", Err(BackupRestoreStoreError::StorageUnavailable)).map(|_| ()),
        Err(BackupRecoveryUsecaseError::StorageUnavailable)
    );
}

#[test]
fn output_builders_keep_their_parts() {
    let linked = LinkAssetOutput::new(true, 3);
    assert!(linked.linked());
    assert_eq!(linked.reference_count(), 3);
    let unlinked = UnlinkAssetOutput::new(false, 1);
    assert!(!unlinked.removed());
    assert_eq!(unlinked.remaining_references(), 1);
    assert_eq!(UpdatePresenceOutput::new(4).presence_count(), 4);
}

#[test]
fn related_documents_are_the_first_documents_up_to_the_limit() {
    let kinds = [false, true, true, false, true];
    assert_eq!(related_document_picks(&kinds, 2), Ok(vec![1, 2]));
    assert_eq!(related_document_picks(&kinds, 10), Ok(vec![1, 2, 4]));
    assert_eq!(related_document_picks(&kinds, 0), Err(AiSummaryUsecaseError::InvalidLimit));
    assert_eq!(related_document_picks(&[false, false], 3), Err(AiSummaryUsecaseError::NoRecommendations));
}

#[test]
fn document_assets_are_read_in_asset_id_order() {
    let (step, action) = document_assets_begin::<u32>();
    assert_eq!(action, DocumentAssetsAction::Call(DocumentAssetsCall::CheckDocument));
    let (step, action) = document_assets_next(step, DocumentAssetsReply::Exists(true));
    assert_eq!(action, DocumentAssetsAction::Call(DocumentAssetsCall::ListAssets));
    let listed = DocumentAssetsReply::Listed(vec!["b".to_string(), "c".to_string(), "a".to_string()]);
    assert!(check_document_assets_reply(&step, &listed));
    let (step, action) = document_assets_next(step, listed);
    assert_eq!(action, DocumentAssetsAction::Call(DocumentAssetsCall::GetMetadata { asset_id: "a".to_string() }));
    let (step, action) = document_assets_next(step, DocumentAssetsReply::Record(Some(1)));
    assert_eq!(action, DocumentAssetsAction::Call(DocumentAssetsCall::GetMetadata { asset_id: "b".to_string() }));
    let (step, _) = document_assets_next(step, DocumentAssetsReply::Record(Some(2)));
    let (_, action) = document_assets_next(step, DocumentAssetsReply::Record(Some(3)));
    assert_eq!(
        action,
        DocumentAssetsAction::Finish(Ok(vec![("a".to_string(), 1), ("b".to_string(), 2), ("c".to_string(), 3)]))
    );
    let (step, _) = document_assets_next(document_assets_begin::<u32>().0, DocumentAssetsReply::Exists(true));
    let (step, _) = document_assets_next(step, DocumentAssetsReply::Listed(vec!["x".to_string()]));
    assert_eq!(
        document_assets_next(step, DocumentAssetsReply::Record(None)).1,
        DocumentAssetsAction::Finish(Err(ListCatalogDocumentAssetsError::DanglingMetadata))
    );
    assert_eq!(
        document_assets_next(document_assets_begin::<u32>().0, DocumentAssetsReply::Exists(false)).1,
        DocumentAssetsAction::Finish(Err(ListCatalogDocumentAssetsError::DocumentNotFound))
    );
}

#[test]
fn prompt_reference_names_the_job_and_the_candidates() {
    assert_eq!(prompt_reference_text("job-1", 12), Ok("prompt:job-1:retrieval-citations:12".to_string()));
    assert_eq!(prompt_reference_text("job-1", 7), Ok("prompt:job-1:retrieval-citations:7".to_string()));
    assert_eq!(prompt_reference_text("job-1", 0), Err(AskKnowledgeBaseError::NoRetrievalContext));
}

#[test]
fn summary_freshness_needs_a_source() {
    assert_eq!(summary_context_freshness(&[]), Err(AiSummaryUsecaseError::NoRetrievalContext));
    assert_eq!(
        summary_context_freshness(&[SourceFreshness::Fresh, SourceFreshness::Unknown]),
        Ok(SourceFreshness::Unknown)
    );
    assert_eq!(
        summary_context_freshness(&[SourceFreshness::Unknown, SourceFreshness::Stale]),
        Ok(SourceFreshness::Stale)
    );
}

#[test]
fn canvas_edges_are_tallied_for_projection() {
    let doc = |id: &str| CanvasNodeKind::Document(id.to_string());
    assert_eq!(edge_centers(&doc("d1"), &doc("d1")), vec!["d1".to_string()]);
    assert_eq!(edge_centers(&doc("d1"), &doc("d2")), vec!["d1".to_string(), "d2".to_string()]);
    assert_eq!(edge_centers(&CanvasNodeKind::Attachment, &doc("d2")), vec!["d2".to_string()]);
    assert!(edge_centers(&CanvasNodeKind::Attachment, &CanvasNodeKind::ExternalLink).is_empty());
    let edges = vec![
        Some((doc("d1"), CanvasNodeKind::Attachment)),
        Some((CanvasNodeKind::TextCard, doc("d2"))),
        Some((CanvasNodeKind::Attachment, CanvasNodeKind::ExternalLink)),
        Some((doc("d1"), doc("d2"))),
    ];
    assert_eq!(canvas_edge_tally(false, &edges, 10), Ok((2, 2)));
    assert_eq!(canvas_edge_tally(false, &edges, 1), Err(CanvasEdgeTallyError::RelationLimitExceeded));
    assert_eq!(canvas_edge_tally(true, &edges, 1), Ok((0, 4)));
    let broken = vec![Some((doc("d1"), doc("d2"))), None];
    assert_eq!(canvas_edge_tally(false, &broken, 10), Err(CanvasEdgeTallyError::CorruptedProjection));
}
