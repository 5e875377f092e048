use cabinet_usecases::domain_errors::CommentError;
use cabinet_usecases::{audit, authoritative_document_diff, authoritative_document_query, authoritative_restore_preview, backup_catalog, backup_package_operation, backup_restore, canvas_catalog, canvas_lifecycle, canvas_mutation, canvas_recovery, canvas_target_presentation, canvas_viewport, create_document_revision, document_link_catalog_projection, document_lock, document_revision_commit, document_revision_metadata, document_revision_recovery, field_debug, global_graph};
use cabinet_usecases::ai::AskKnowledgeBaseError;
use cabinet_usecases::asset_search::SearchAssetsError;
use cabinet_usecases::audit::AuditUsecaseError;
use cabinet_usecases::auth::AuthError;
use cabinet_usecases::authoritative_document_diff::CompareAuthoritativeDocumentRevisionsError;
use cabinet_usecases::authoritative_document_query::GetAuthoritativeDocumentRevisionError;
use cabinet_usecases::authoritative_restore_preview::PreviewAuthoritativeDocumentRestoreError;
use cabinet_usecases::backup::BackupJobUsecaseError;
use cabinet_usecases::backup_catalog::ListBackupCatalogError;
use cabinet_usecases::backup_package::BackupPackageUsecaseError;
use cabinet_usecases::backup_package_operation::BackupPackageOperationUsecaseError;
use cabinet_usecases::backup_restore::ConfirmBackupRestoreError;
use cabinet_usecases::canvas::CanvasUsecaseError;
use cabinet_usecases::canvas_catalog::{ResolveInitialCanvasError, SelectCanvasError};
use cabinet_usecases::canvas_lifecycle::CanvasLifecycleUsecaseError;
use cabinet_usecases::canvas_mutation::CanvasMutationError;
use cabinet_usecases::canvas_recovery::CanvasRecoveryError;
use cabinet_usecases::canvas_target_presentation::ResolveCanvasTargetPresentationsError;
use cabinet_usecases::canvas_viewport::GetCanvasViewportError;
use cabinet_usecases::collaboration::CollaborationUsecaseError;
use cabinet_usecases::collaborator_errors::{AiAnswerStoreError, AiProviderError, AssetMetadataCatalogError, AssetSearchError, AssetStoreError, AuditLogStoreError, AuditPermissionCheckError, BackupCatalogError, BackupPackageStoreError, BackupRestoreStoreError, BackupStoreError, CanvasCatalogError, CanvasRecoveryRepositoryError, CanvasRepositoryError, CanvasViewportQueryError, CollaborationEventLogError, CollaborationSessionStoreError, CommentPermissionCheckError, CommentRepositoryError, CommittedVersionRecordReadError, ConnectorPortError, CredentialVerifierError, CurrentDocumentVersionPointerError, DocumentAssetRepositoryError, DocumentExistenceError, DocumentLinkCatalogError, DocumentLockPermissionCheckError, DocumentLockRepositoryError, DocumentOperationJournalError, DocumentOperationTerminalFailure, DocumentRepositoryError, DocumentRevisionCommitError, DocumentRevisionMetadataPortError, DocumentTitleReaderError, FieldDebugPermissionCheckError, FieldDebugSessionRepositoryError, GraphProjectionError, GroupRepositoryError, InlineAnchorDocumentLookupError, LastCanvasSelectionError, PermissionAwareQueryError, SessionStoreError, TokenIssuerError, UserRepositoryError, VersionStoreError};
use cabinet_usecases::comment::CommentUsecaseError;
use cabinet_usecases::connector::ConnectorUsecaseError;
use cabinet_usecases::create_document_revision::CreateDocumentRevisionError;
use cabinet_usecases::document::{AttachFileToDocumentError, CreateDocumentError, GetCurrentDocumentError, GetDocumentHistoryError, GetDocumentVersionError, PreviewDocumentRestoreError, UpdateDocumentError};
use cabinet_usecases::document_link_catalog_projection::ApplyDocumentLinkCatalogChangeError;
use cabinet_usecases::document_lock::DocumentLockUsecaseError;
use cabinet_usecases::document_revision_commit::CommitDocumentRevisionError;
use cabinet_usecases::document_revision_metadata::GenerateDocumentRevisionMetadataError;
use cabinet_usecases::document_revision_recovery::RecoverDocumentRevisionError;
use cabinet_usecases::domain_errors::{AiError, AuditError, CanvasError, ConnectorError, DocumentLockError, DocumentLockErrorCode, FieldDebugError, FieldDebugSessionState};
use cabinet_usecases::field_debug::{FieldDebugSessionOutputStatus, FieldDebugUsecaseError};
use cabinet_usecases::global_graph::GetGlobalKnowledgeGraphError;
use cabinet_usecases::graph::{GetLocalKnowledgeGraphError, PermissionAwareGraphError};
use cabinet_usecases::group::{AddUserToGroupError, CreateGroupError, RemoveUserFromGroupError};

#[test]
fn ai_failures_are_reported_as_mapped() {
    assert_eq!(AskKnowledgeBaseError::from_domain_error(AiError::EmptyQuestion), AskKnowledgeBaseError::InvalidInput);
    assert_eq!(AskKnowledgeBaseError::from_domain_error(AiError::InvalidQuestion), AskKnowledgeBaseError::InvalidInput);
    assert_eq!(AskKnowledgeBaseError::from_domain_error(AiError::InvalidAnswerReference), AskKnowledgeBaseError::InvalidInput);
    assert_eq!(AskKnowledgeBaseError::from_domain_error(AiError::CitationRequired), AskKnowledgeBaseError::InvalidInput);
    assert_eq!(AskKnowledgeBaseError::from_domain_error(AiError::InvalidSummaryReference), AskKnowledgeBaseError::InvalidInput);
    assert_eq!(AskKnowledgeBaseError::from_domain_error(AiError::SummaryCitationRequired), AskKnowledgeBaseError::InvalidInput);
    assert_eq!(AskKnowledgeBaseError::from_domain_error(AiError::InvalidRecommendationReason), AskKnowledgeBaseError::InvalidInput);
    assert_eq!(AskKnowledgeBaseError::from_domain_error(AiError::InvalidRefusalReason), AskKnowledgeBaseError::InvalidInput);
    assert_eq!(AskKnowledgeBaseError::from_domain_error(AiError::InvalidAnswerJobId), AskKnowledgeBaseError::InvalidInput);
    assert_eq!(AskKnowledgeBaseError::from_domain_error(AiError::InvalidAnswerJobTransition), AskKnowledgeBaseError::InvalidTransition);
    assert_eq!(AskKnowledgeBaseError::from_provider_error(AiProviderError::Timeout), AskKnowledgeBaseError::ProviderTimeout);
    assert_eq!(AskKnowledgeBaseError::from_provider_error(AiProviderError::ProviderUnavailable), AskKnowledgeBaseError::ProviderUnavailable);
    assert_eq!(AskKnowledgeBaseError::from_provider_error(AiProviderError::InvalidPromptReference), AskKnowledgeBaseError::InvalidInput);
    assert_eq!(AskKnowledgeBaseError::from_provider_error(AiProviderError::SensitivePromptReference), AskKnowledgeBaseError::InvalidInput);
    assert_eq!(AskKnowledgeBaseError::from_provider_error(AiProviderError::MissingCitationContext), AskKnowledgeBaseError::InvalidInput);
    assert_eq!(AskKnowledgeBaseError::from_provider_error(AiProviderError::InvalidPolicy), AskKnowledgeBaseError::InvalidInput);
    assert_eq!(AskKnowledgeBaseError::from_store_error(AiAnswerStoreError::StoreUnavailable), AskKnowledgeBaseError::StoreUnavailable);
}

#[test]
fn asset_search_failures_are_reported_as_mapped() {
    assert_eq!(SearchAssetsError::from_asset_search_error(AssetSearchError::InvalidQuery), SearchAssetsError::InvalidInput);
    assert_eq!(SearchAssetsError::from_asset_search_error(AssetSearchError::InvalidLimit), SearchAssetsError::InvalidInput);
    assert_eq!(SearchAssetsError::from_asset_search_error(AssetSearchError::InvalidAssetMetadata), SearchAssetsError::InvalidInput);
    assert_eq!(SearchAssetsError::from_asset_search_error(AssetSearchError::StorageUnavailable), SearchAssetsError::StorageUnavailable);
    assert_eq!(SearchAssetsError::from_asset_search_error(AssetSearchError::CorruptedIndex), SearchAssetsError::StorageUnavailable);
}

#[test]
fn audit_failures_are_reported_as_mapped() {
    assert_eq!(AuditUsecaseError::from_store_error(AuditLogStoreError::InvalidLimit), AuditUsecaseError::InvalidInput);
    assert_eq!(AuditUsecaseError::from_store_error(AuditLogStoreError::InvalidScope), AuditUsecaseError::InvalidInput);
    assert_eq!(AuditUsecaseError::from_store_error(AuditLogStoreError::InvalidCursor), AuditUsecaseError::InvalidCursor);
    assert_eq!(AuditUsecaseError::from_store_error(AuditLogStoreError::StorageUnavailable), AuditUsecaseError::StoreUnavailable);
    assert_eq!(AuditUsecaseError::from_store_error(AuditLogStoreError::CorruptedState), AuditUsecaseError::StoreUnavailable);
    assert_eq!(AuditUsecaseError::from_store_error(AuditLogStoreError::Conflict), AuditUsecaseError::Conflict);
    assert_eq!(AuditUsecaseError::from_permission_error(AuditPermissionCheckError::StorageUnavailable), AuditUsecaseError::StoreUnavailable);
    assert_eq!(audit::map_audit_error(AuditError::EmptyMetadataKey), AuditUsecaseError::InvalidMetadata);
    assert_eq!(audit::map_audit_error(AuditError::InvalidMetadataKey), AuditUsecaseError::InvalidMetadata);
    assert_eq!(audit::map_audit_error(AuditError::EmptyMetadataValue), AuditUsecaseError::InvalidMetadata);
    assert_eq!(audit::map_audit_error(AuditError::InvalidMetadataValue), AuditUsecaseError::InvalidMetadata);
    assert_eq!(audit::map_audit_error(AuditError::SensitiveMetadataKey), AuditUsecaseError::InvalidMetadata);
    assert_eq!(audit::map_audit_error(AuditError::SensitiveMetadataValue), AuditUsecaseError::InvalidMetadata);
    assert_eq!(audit::map_audit_error(AuditError::EmptyEventId), AuditUsecaseError::InvalidInput);
    assert_eq!(audit::map_audit_error(AuditError::InvalidEventId), AuditUsecaseError::InvalidInput);
    assert_eq!(audit::map_audit_error(AuditError::EmptyTargetId), AuditUsecaseError::InvalidInput);
    assert_eq!(audit::map_audit_error(AuditError::InvalidTargetId), AuditUsecaseError::InvalidInput);
}

#[test]
fn auth_failures_are_reported_as_mapped() {
    assert_eq!(AuthError::from_credential_error(CredentialVerifierError::Unavailable), AuthError::SessionStoreUnavailable);
    assert_eq!(AuthError::from_token_error(TokenIssuerError::Unavailable), AuthError::TokenUnavailable);
    assert_eq!(AuthError::from_token_error(TokenIssuerError::InvalidToken), AuthError::InvalidToken);
    assert_eq!(AuthError::from_session_store_error(SessionStoreError::Conflict), AuthError::SessionStoreUnavailable);
    assert_eq!(AuthError::from_session_store_error(SessionStoreError::NotFound), AuthError::SessionStoreUnavailable);
    assert_eq!(AuthError::from_session_store_error(SessionStoreError::Unavailable), AuthError::SessionStoreUnavailable);
}

#[test]
fn authoritative_document_diff_failures_are_reported_as_mapped() {
    assert_eq!(authoritative_document_diff::map_pointer_error(CurrentDocumentVersionPointerError::StorageUnavailable), CompareAuthoritativeDocumentRevisionsError::StorageUnavailable);
    assert_eq!(authoritative_document_diff::map_pointer_error(CurrentDocumentVersionPointerError::Conflict), CompareAuthoritativeDocumentRevisionsError::CorruptedData);
    assert_eq!(authoritative_document_diff::map_pointer_error(CurrentDocumentVersionPointerError::CorruptedPointer), CompareAuthoritativeDocumentRevisionsError::CorruptedData);
    assert_eq!(authoritative_document_diff::map_record_error(CommittedVersionRecordReadError::StorageUnavailable), CompareAuthoritativeDocumentRevisionsError::StorageUnavailable);
    assert_eq!(authoritative_document_diff::map_record_error(CommittedVersionRecordReadError::CorruptedRecord), CompareAuthoritativeDocumentRevisionsError::CorruptedData);
}

#[test]
fn authoritative_document_query_failures_are_reported_as_mapped() {
    assert_eq!(authoritative_document_query::map_pointer_error(CurrentDocumentVersionPointerError::StorageUnavailable), GetAuthoritativeDocumentRevisionError::StorageUnavailable);
    assert_eq!(authoritative_document_query::map_pointer_error(CurrentDocumentVersionPointerError::Conflict), GetAuthoritativeDocumentRevisionError::CorruptedData);
    assert_eq!(authoritative_document_query::map_pointer_error(CurrentDocumentVersionPointerError::CorruptedPointer), GetAuthoritativeDocumentRevisionError::CorruptedData);
    assert_eq!(authoritative_document_query::map_version_error(CommittedVersionRecordReadError::StorageUnavailable), GetAuthoritativeDocumentRevisionError::StorageUnavailable);
    assert_eq!(authoritative_document_query::map_version_error(CommittedVersionRecordReadError::CorruptedRecord), GetAuthoritativeDocumentRevisionError::CorruptedData);
}

#[test]
fn authoritative_restore_preview_failures_are_reported_as_mapped() {
    assert_eq!(authoritative_restore_preview::map_compare_error(CompareAuthoritativeDocumentRevisionsError::InvalidInput), PreviewAuthoritativeDocumentRestoreError::InvalidInput);
    assert_eq!(authoritative_restore_preview::map_compare_error(CompareAuthoritativeDocumentRevisionsError::NotFound), PreviewAuthoritativeDocumentRestoreError::NotFound);
    assert_eq!(authoritative_restore_preview::map_compare_error(CompareAuthoritativeDocumentRevisionsError::StorageUnavailable), PreviewAuthoritativeDocumentRestoreError::StorageUnavailable);
    assert_eq!(authoritative_restore_preview::map_compare_error(CompareAuthoritativeDocumentRevisionsError::CorruptedData), PreviewAuthoritativeDocumentRestoreError::CorruptedData);
}

#[test]
fn backup_failures_are_reported_as_mapped() {
    assert_eq!(BackupJobUsecaseError::from_store_error(BackupStoreError::StorageUnavailable), BackupJobUsecaseError::StorageUnavailable);
    assert_eq!(BackupJobUsecaseError::from_store_error(BackupStoreError::CorruptedArtifact), BackupJobUsecaseError::StorageUnavailable);
    assert_eq!(BackupJobUsecaseError::from_store_error(BackupStoreError::MissingJob), BackupJobUsecaseError::StorageUnavailable);
    assert_eq!(BackupJobUsecaseError::from_store_error(BackupStoreError::Conflict), BackupJobUsecaseError::Conflict);
}

#[test]
fn backup_catalog_failures_are_reported_as_mapped() {
    assert_eq!(backup_catalog::map_catalog_error(BackupCatalogError::InvalidLimit), ListBackupCatalogError::InvalidInput);
    assert_eq!(backup_catalog::map_catalog_error(BackupCatalogError::InvalidCursor), ListBackupCatalogError::InvalidInput);
    assert_eq!(backup_catalog::map_catalog_error(BackupCatalogError::StorageUnavailable), ListBackupCatalogError::CatalogUnavailable);
    assert_eq!(backup_catalog::map_catalog_error(BackupCatalogError::CorruptedCatalog), ListBackupCatalogError::CorruptedCatalog);
}

#[test]
fn backup_package_failures_are_reported_as_mapped() {
    assert_eq!(BackupPackageUsecaseError::from_store(BackupPackageStoreError::StorageUnavailable), BackupPackageUsecaseError::StorageUnavailable);
    assert_eq!(BackupPackageUsecaseError::from_store(BackupPackageStoreError::PackageNotFound), BackupPackageUsecaseError::PackageNotFound);
    assert_eq!(BackupPackageUsecaseError::from_store(BackupPackageStoreError::CorruptedPackage), BackupPackageUsecaseError::CorruptedPackage);
    assert_eq!(BackupPackageUsecaseError::from_store(BackupPackageStoreError::Conflict), BackupPackageUsecaseError::Conflict);
}

#[test]
fn backup_package_operation_failures_are_reported_as_mapped() {
    assert_eq!(backup_package_operation::map_job_error(BackupStoreError::Conflict), BackupPackageOperationUsecaseError::Conflict);
    assert_eq!(backup_package_operation::map_job_error(BackupStoreError::StorageUnavailable), BackupPackageOperationUsecaseError::StorageUnavailable);
    assert_eq!(backup_package_operation::map_job_error(BackupStoreError::CorruptedArtifact), BackupPackageOperationUsecaseError::StorageUnavailable);
    assert_eq!(backup_package_operation::map_job_error(BackupStoreError::MissingJob), BackupPackageOperationUsecaseError::StorageUnavailable);
}

#[test]
fn backup_restore_failures_are_reported_as_mapped() {
    assert_eq!(backup_restore::map_package_error(BackupPackageStoreError::PackageNotFound), ConfirmBackupRestoreError::PackageInvalid);
    assert_eq!(backup_restore::map_package_error(BackupPackageStoreError::CorruptedPackage), ConfirmBackupRestoreError::PackageInvalid);
    assert_eq!(backup_restore::map_package_error(BackupPackageStoreError::StorageUnavailable), ConfirmBackupRestoreError::StorageUnavailable);
    assert_eq!(backup_restore::map_package_error(BackupPackageStoreError::Conflict), ConfirmBackupRestoreError::Conflict);
    assert_eq!(backup_restore::map_restore_error(BackupRestoreStoreError::PackageInvalid), ConfirmBackupRestoreError::PackageInvalid);
    assert_eq!(backup_restore::map_restore_error(BackupRestoreStoreError::CorruptedOperation), ConfirmBackupRestoreError::PackageInvalid);
    assert_eq!(backup_restore::map_restore_error(BackupRestoreStoreError::StorageUnavailable), ConfirmBackupRestoreError::StorageUnavailable);
    assert_eq!(backup_restore::map_restore_error(BackupRestoreStoreError::OperationNotFound), ConfirmBackupRestoreError::StorageUnavailable);
    assert_eq!(backup_restore::map_restore_error(BackupRestoreStoreError::Conflict), ConfirmBackupRestoreError::Conflict);
}

#[test]
fn canvas_failures_are_reported_as_mapped() {
    assert_eq!(CanvasUsecaseError::from_canvas(CanvasError::EmptyId), CanvasUsecaseError::InvalidInput);
    assert_eq!(CanvasUsecaseError::from_canvas(CanvasError::InvalidId), CanvasUsecaseError::InvalidInput);
    assert_eq!(CanvasUsecaseError::from_canvas(CanvasError::InvalidExternalLink), CanvasUsecaseError::InvalidInput);
    assert_eq!(CanvasUsecaseError::from_canvas(CanvasError::InvalidTextCard), CanvasUsecaseError::InvalidInput);
    assert_eq!(CanvasUsecaseError::from_canvas(CanvasError::InvalidRevision), CanvasUsecaseError::InvalidInput);
    assert_eq!(CanvasUsecaseError::from_canvas(CanvasError::RevisionOverflow), CanvasUsecaseError::InvalidInput);
    assert_eq!(CanvasUsecaseError::from_canvas(CanvasError::InvalidTitle), CanvasUsecaseError::InvalidInput);
    assert_eq!(CanvasUsecaseError::from_canvas(CanvasError::InvalidGeometry), CanvasUsecaseError::InvalidInput);
    assert_eq!(CanvasUsecaseError::from_canvas(CanvasError::InvalidViewport), CanvasUsecaseError::InvalidInput);
    assert_eq!(CanvasUsecaseError::from_canvas(CanvasError::InvalidGeometryPolicy), CanvasUsecaseError::InvalidInput);
    assert_eq!(CanvasUsecaseError::from_canvas(CanvasError::DuplicateNodeId), CanvasUsecaseError::InvalidCanvasGraph);
    assert_eq!(CanvasUsecaseError::from_canvas(CanvasError::DuplicateEdgeId), CanvasUsecaseError::InvalidCanvasGraph);
    assert_eq!(CanvasUsecaseError::from_canvas(CanvasError::MissingEdgeNode), CanvasUsecaseError::InvalidCanvasGraph);
    assert_eq!(CanvasUsecaseError::from_canvas(CanvasError::SelfReferencingEdge), CanvasUsecaseError::InvalidCanvasGraph);
    assert_eq!(CanvasUsecaseError::from_canvas(CanvasError::InvalidLifecycleTransition), CanvasUsecaseError::InvalidCanvasGraph);
    assert_eq!(CanvasUsecaseError::from_repository(CanvasRepositoryError::InvalidInput), CanvasUsecaseError::InvalidInput);
    assert_eq!(CanvasUsecaseError::from_repository(CanvasRepositoryError::StorageUnavailable), CanvasUsecaseError::StorageUnavailable);
    assert_eq!(CanvasUsecaseError::from_repository(CanvasRepositoryError::CorruptedCanvas), CanvasUsecaseError::RecoveryRequired);
    assert_eq!(CanvasUsecaseError::from_repository(CanvasRepositoryError::UnsupportedSchema), CanvasUsecaseError::RecoveryRequired);
    assert_eq!(CanvasUsecaseError::from_repository(CanvasRepositoryError::AlreadyExists), CanvasUsecaseError::CanvasAlreadyExists);
    assert_eq!(CanvasUsecaseError::from_repository(CanvasRepositoryError::VersionConflict), CanvasUsecaseError::VersionConflict);
    assert_eq!(CanvasUsecaseError::from_permission(PermissionAwareQueryError::InvalidInput), CanvasUsecaseError::InvalidInput);
    assert_eq!(CanvasUsecaseError::from_permission(PermissionAwareQueryError::NotFound), CanvasUsecaseError::StorageUnavailable);
    assert_eq!(CanvasUsecaseError::from_permission(PermissionAwareQueryError::IndexStale), CanvasUsecaseError::StorageUnavailable);
    assert_eq!(CanvasUsecaseError::from_permission(PermissionAwareQueryError::StorageUnavailable), CanvasUsecaseError::StorageUnavailable);
    assert_eq!(CanvasUsecaseError::from_permission(PermissionAwareQueryError::CorruptedProjection), CanvasUsecaseError::StorageUnavailable);
}

#[test]
fn canvas_catalog_failures_are_reported_as_mapped() {
    assert_eq!(canvas_catalog::map_catalog_error(CanvasCatalogError::InvalidLimit), ResolveInitialCanvasError::InvalidInput);
    assert_eq!(canvas_catalog::map_catalog_error(CanvasCatalogError::LimitExceeded), ResolveInitialCanvasError::CatalogLimitExceeded);
    assert_eq!(canvas_catalog::map_catalog_error(CanvasCatalogError::StorageUnavailable), ResolveInitialCanvasError::CatalogUnavailable);
    assert_eq!(canvas_catalog::map_catalog_error(CanvasCatalogError::CorruptedCatalog), ResolveInitialCanvasError::CorruptedCatalog);
    assert_eq!(canvas_catalog::map_selection_error(LastCanvasSelectionError::StorageUnavailable), ResolveInitialCanvasError::SelectionUnavailable);
    assert_eq!(canvas_catalog::map_selection_error(LastCanvasSelectionError::CorruptedSelection), ResolveInitialCanvasError::CorruptedSelection);
    assert_eq!(canvas_catalog::map_select_catalog_error(CanvasCatalogError::InvalidLimit), SelectCanvasError::InvalidInput);
    assert_eq!(canvas_catalog::map_select_catalog_error(CanvasCatalogError::LimitExceeded), SelectCanvasError::CatalogLimitExceeded);
    assert_eq!(canvas_catalog::map_select_catalog_error(CanvasCatalogError::StorageUnavailable), SelectCanvasError::CatalogUnavailable);
    assert_eq!(canvas_catalog::map_select_catalog_error(CanvasCatalogError::CorruptedCatalog), SelectCanvasError::CorruptedCatalog);
    assert_eq!(canvas_catalog::map_select_selection_error(LastCanvasSelectionError::StorageUnavailable), SelectCanvasError::SelectionUnavailable);
    assert_eq!(canvas_catalog::map_select_selection_error(LastCanvasSelectionError::CorruptedSelection), SelectCanvasError::CorruptedSelection);
}

#[test]
fn canvas_lifecycle_failures_are_reported_as_mapped() {
    assert_eq!(canvas_lifecycle::map_repository(CanvasRepositoryError::InvalidInput), CanvasLifecycleUsecaseError::InvalidInput);
    assert_eq!(canvas_lifecycle::map_repository(CanvasRepositoryError::StorageUnavailable), CanvasLifecycleUsecaseError::StorageUnavailable);
    assert_eq!(canvas_lifecycle::map_repository(CanvasRepositoryError::CorruptedCanvas), CanvasLifecycleUsecaseError::RecoveryRequired);
    assert_eq!(canvas_lifecycle::map_repository(CanvasRepositoryError::UnsupportedSchema), CanvasLifecycleUsecaseError::RecoveryRequired);
    assert_eq!(canvas_lifecycle::map_repository(CanvasRepositoryError::AlreadyExists), CanvasLifecycleUsecaseError::AlreadyExists);
    assert_eq!(canvas_lifecycle::map_repository(CanvasRepositoryError::VersionConflict), CanvasLifecycleUsecaseError::VersionConflict);
}

#[test]
fn canvas_mutation_failures_are_reported_as_mapped() {
    assert_eq!(canvas_mutation::map_document_existence(DocumentExistenceError::StorageUnavailable), CanvasMutationError::StorageUnavailable);
    assert_eq!(canvas_mutation::map_document_existence(DocumentExistenceError::CorruptedRecord), CanvasMutationError::RecoveryRequired);
    assert_eq!(canvas_mutation::map_asset_metadata(AssetMetadataCatalogError::StorageUnavailable), CanvasMutationError::StorageUnavailable);
    assert_eq!(canvas_mutation::map_asset_metadata(AssetMetadataCatalogError::CorruptedRecord), CanvasMutationError::RecoveryRequired);
    assert_eq!(canvas_mutation::map_asset_metadata(AssetMetadataCatalogError::UnsupportedSchema), CanvasMutationError::RecoveryRequired);
    assert_eq!(canvas_mutation::map_asset_metadata(AssetMetadataCatalogError::InvalidLimit), CanvasMutationError::InvalidInput);
    assert_eq!(canvas_mutation::map_asset_metadata(AssetMetadataCatalogError::InvalidCursor), CanvasMutationError::InvalidInput);
    assert_eq!(canvas_mutation::map_asset_metadata(AssetMetadataCatalogError::Conflict), CanvasMutationError::InvalidInput);
    assert_eq!(canvas_mutation::map_repo(CanvasRepositoryError::InvalidInput), CanvasMutationError::InvalidInput);
    assert_eq!(canvas_mutation::map_repo(CanvasRepositoryError::StorageUnavailable), CanvasMutationError::StorageUnavailable);
    assert_eq!(canvas_mutation::map_repo(CanvasRepositoryError::CorruptedCanvas), CanvasMutationError::RecoveryRequired);
    assert_eq!(canvas_mutation::map_repo(CanvasRepositoryError::UnsupportedSchema), CanvasMutationError::RecoveryRequired);
    assert_eq!(canvas_mutation::map_repo(CanvasRepositoryError::AlreadyExists), CanvasMutationError::InvalidInput);
    assert_eq!(canvas_mutation::map_repo(CanvasRepositoryError::VersionConflict), CanvasMutationError::VersionConflict);
}

#[test]
fn canvas_recovery_failures_are_reported_as_mapped() {
    assert_eq!(canvas_recovery::map_repository(CanvasRecoveryRepositoryError::InvalidInput), CanvasRecoveryError::InvalidInput);
    assert_eq!(canvas_recovery::map_repository(CanvasRecoveryRepositoryError::StorageUnavailable), CanvasRecoveryError::StorageUnavailable);
    assert_eq!(canvas_recovery::map_repository(CanvasRecoveryRepositoryError::CorruptedCatalog), CanvasRecoveryError::CorruptedCatalog);
    assert_eq!(canvas_recovery::map_repository(CanvasRecoveryRepositoryError::CandidateLimitExceeded), CanvasRecoveryError::CandidateLimitExceeded);
    assert_eq!(canvas_recovery::map_repository(CanvasRecoveryRepositoryError::RevisionNotFound), CanvasRecoveryError::NoValidRevision);
}

#[test]
fn canvas_target_presentation_failures_are_reported_as_mapped() {
    assert_eq!(canvas_target_presentation::map_document(DocumentTitleReaderError::StorageUnavailable), ResolveCanvasTargetPresentationsError::StorageUnavailable);
    assert_eq!(canvas_target_presentation::map_document(DocumentTitleReaderError::CorruptedMetadata), ResolveCanvasTargetPresentationsError::RecoveryRequired);
}

#[test]
fn canvas_viewport_failures_are_reported_as_mapped() {
    assert_eq!(canvas_viewport::map_port(CanvasViewportQueryError::InvalidInput), GetCanvasViewportError::InvalidInput);
    assert_eq!(canvas_viewport::map_port(CanvasViewportQueryError::StorageUnavailable), GetCanvasViewportError::StorageUnavailable);
    assert_eq!(canvas_viewport::map_port(CanvasViewportQueryError::StaleProjection), GetCanvasViewportError::StaleProjection);
    assert_eq!(canvas_viewport::map_port(CanvasViewportQueryError::CorruptedProjection), GetCanvasViewportError::RecoveryRequired);
    assert_eq!(canvas_viewport::map_port(CanvasViewportQueryError::UnsupportedSchema), GetCanvasViewportError::RecoveryRequired);
}

#[test]
fn collaboration_failures_are_reported_as_mapped() {
    assert_eq!(CollaborationUsecaseError::from_session_store(CollaborationSessionStoreError::InvalidInput), CollaborationUsecaseError::InvalidInput);
    assert_eq!(CollaborationUsecaseError::from_session_store(CollaborationSessionStoreError::NotFound), CollaborationUsecaseError::SessionStoreUnavailable);
    assert_eq!(CollaborationUsecaseError::from_session_store(CollaborationSessionStoreError::Conflict), CollaborationUsecaseError::SessionStoreUnavailable);
    assert_eq!(CollaborationUsecaseError::from_session_store(CollaborationSessionStoreError::StorageUnavailable), CollaborationUsecaseError::SessionStoreUnavailable);
    assert_eq!(CollaborationUsecaseError::from_event_log(CollaborationEventLogError::InvalidInput), CollaborationUsecaseError::InvalidInput);
    assert_eq!(CollaborationUsecaseError::from_event_log(CollaborationEventLogError::Conflict), CollaborationUsecaseError::EventLogUnavailable);
    assert_eq!(CollaborationUsecaseError::from_event_log(CollaborationEventLogError::StorageUnavailable), CollaborationUsecaseError::EventLogUnavailable);
    assert_eq!(CollaborationUsecaseError::from_permission_error(PermissionAwareQueryError::InvalidInput), CollaborationUsecaseError::InvalidInput);
    assert_eq!(CollaborationUsecaseError::from_permission_error(PermissionAwareQueryError::NotFound), CollaborationUsecaseError::PermissionUnavailable);
    assert_eq!(CollaborationUsecaseError::from_permission_error(PermissionAwareQueryError::IndexStale), CollaborationUsecaseError::PermissionUnavailable);
    assert_eq!(CollaborationUsecaseError::from_permission_error(PermissionAwareQueryError::StorageUnavailable), CollaborationUsecaseError::PermissionUnavailable);
    assert_eq!(CollaborationUsecaseError::from_permission_error(PermissionAwareQueryError::CorruptedProjection), CollaborationUsecaseError::PermissionUnavailable);
}

#[test]
fn comment_failures_are_reported_as_mapped() {
    assert_eq!(CommentUsecaseError::from_repository_error(CommentRepositoryError::StorageUnavailable), CommentUsecaseError::StorageUnavailable);
    assert_eq!(CommentUsecaseError::from_repository_error(CommentRepositoryError::CorruptedState), CommentUsecaseError::StorageUnavailable);
    assert_eq!(CommentUsecaseError::from_repository_error(CommentRepositoryError::Conflict), CommentUsecaseError::Conflict);
    assert_eq!(CommentUsecaseError::from_permission_error(CommentPermissionCheckError::StorageUnavailable), CommentUsecaseError::StorageUnavailable);
    assert_eq!(CommentUsecaseError::from_anchor_lookup_error(InlineAnchorDocumentLookupError::StorageUnavailable), CommentUsecaseError::StorageUnavailable);
    assert_eq!(CommentUsecaseError::from_anchor_lookup_error(InlineAnchorDocumentLookupError::CorruptedVersion), CommentUsecaseError::StorageUnavailable);
}

#[test]
fn connector_failures_are_reported_as_mapped() {
    assert_eq!(ConnectorUsecaseError::from_registry_error(ConnectorPortError::StoreUnavailable), ConnectorUsecaseError::RegistryUnavailable);
    assert_eq!(ConnectorUsecaseError::from_repository_error(ConnectorPortError::StoreUnavailable), ConnectorUsecaseError::RepositoryUnavailable);
    assert_eq!(ConnectorUsecaseError::from_domain_error(ConnectorError::ScopeDenied), ConnectorUsecaseError::ScopeDenied);
    assert_eq!(ConnectorUsecaseError::from_domain_error(ConnectorError::InvalidTransition), ConnectorUsecaseError::InvalidTransition);
    assert_eq!(ConnectorUsecaseError::from_domain_error(ConnectorError::InvalidId), ConnectorUsecaseError::InvalidInput);
    assert_eq!(ConnectorUsecaseError::from_domain_error(ConnectorError::InvalidName), ConnectorUsecaseError::InvalidInput);
    assert_eq!(ConnectorUsecaseError::from_domain_error(ConnectorError::EmptyScope), ConnectorUsecaseError::InvalidInput);
    assert_eq!(ConnectorUsecaseError::from_domain_error(ConnectorError::InvalidCredentialReference), ConnectorUsecaseError::InvalidInput);
    assert_eq!(ConnectorUsecaseError::from_domain_error(ConnectorError::InvalidExternalObjectReference), ConnectorUsecaseError::InvalidInput);
    assert_eq!(ConnectorUsecaseError::from_domain_error(ConnectorError::InvalidActivity), ConnectorUsecaseError::InvalidInput);
    assert_eq!(ConnectorUsecaseError::from_activity_store_error(ConnectorPortError::StoreUnavailable), ConnectorUsecaseError::ActivityStoreUnavailable);
}

#[test]
fn create_document_revision_failures_are_reported_as_mapped() {
    assert_eq!(create_document_revision::map_journal_error(DocumentOperationJournalError::IdentityConflict), CreateDocumentRevisionError::OperationConflict);
    assert_eq!(create_document_revision::map_journal_error(DocumentOperationJournalError::NotClaimed), CreateDocumentRevisionError::JournalUnavailable);
    assert_eq!(create_document_revision::map_journal_error(DocumentOperationJournalError::AlreadyCompleted), CreateDocumentRevisionError::JournalUnavailable);
    assert_eq!(create_document_revision::map_journal_error(DocumentOperationJournalError::StorageUnavailable), CreateDocumentRevisionError::JournalUnavailable);
    assert_eq!(create_document_revision::map_journal_error(DocumentOperationJournalError::CorruptedJournal), CreateDocumentRevisionError::JournalUnavailable);
    assert_eq!(create_document_revision::map_metadata_error(GenerateDocumentRevisionMetadataError::Conflict), CreateDocumentRevisionError::CommitConflict);
    assert_eq!(create_document_revision::map_metadata_error(GenerateDocumentRevisionMetadataError::InvalidTimestamp), CreateDocumentRevisionError::MetadataUnavailable);
    assert_eq!(create_document_revision::map_metadata_error(GenerateDocumentRevisionMetadataError::GenerationUnavailable), CreateDocumentRevisionError::MetadataUnavailable);
    assert_eq!(create_document_revision::map_metadata_error(GenerateDocumentRevisionMetadataError::StorageUnavailable), CreateDocumentRevisionError::MetadataUnavailable);
    assert_eq!(create_document_revision::map_commit_error(CommitDocumentRevisionError::InvalidRequest), CreateDocumentRevisionError::InvalidInput);
    assert_eq!(create_document_revision::map_commit_error(CommitDocumentRevisionError::OperationConflict), CreateDocumentRevisionError::OperationConflict);
    assert_eq!(create_document_revision::map_commit_error(CommitDocumentRevisionError::JournalUnavailable), CreateDocumentRevisionError::JournalUnavailable);
    assert_eq!(create_document_revision::map_commit_error(CommitDocumentRevisionError::CommitConflict), CreateDocumentRevisionError::CommitConflict);
    assert_eq!(create_document_revision::map_commit_error(CommitDocumentRevisionError::CommitUnavailable), CreateDocumentRevisionError::CommitUnavailable);
    assert_eq!(create_document_revision::map_commit_error(CommitDocumentRevisionError::RecoveryRequired), CreateDocumentRevisionError::RecoveryRequired);
}

#[test]
fn document_failures_are_reported_as_mapped() {
    assert_eq!(GetCurrentDocumentError::from_repository_error(DocumentRepositoryError::StorageUnavailable), GetCurrentDocumentError::StorageUnavailable);
    assert_eq!(GetCurrentDocumentError::from_repository_error(DocumentRepositoryError::CorruptedMetadata), GetCurrentDocumentError::StorageUnavailable);
    assert_eq!(GetCurrentDocumentError::from_repository_error(DocumentRepositoryError::MismatchedDocumentIdentity), GetCurrentDocumentError::StorageUnavailable);
    assert_eq!(GetCurrentDocumentError::from_repository_error(DocumentRepositoryError::Conflict), GetCurrentDocumentError::StorageUnavailable);
    assert_eq!(GetDocumentVersionError::from_version_store_error(VersionStoreError::StorageUnavailable), GetDocumentVersionError::StorageUnavailable);
    assert_eq!(GetDocumentVersionError::from_version_store_error(VersionStoreError::CorruptedHistory), GetDocumentVersionError::StorageUnavailable);
    assert_eq!(GetDocumentVersionError::from_version_store_error(VersionStoreError::InvalidHistoryCursor), GetDocumentVersionError::StorageUnavailable);
    assert_eq!(GetDocumentVersionError::from_version_store_error(VersionStoreError::InvalidHistoryPageLimit), GetDocumentVersionError::StorageUnavailable);
    assert_eq!(GetDocumentVersionError::from_version_store_error(VersionStoreError::MismatchedVersionSnapshot), GetDocumentVersionError::StorageUnavailable);
    assert_eq!(GetDocumentVersionError::from_version_store_error(VersionStoreError::Conflict), GetDocumentVersionError::StorageUnavailable);
    assert_eq!(GetDocumentHistoryError::from_version_store_error(VersionStoreError::InvalidHistoryCursor), GetDocumentHistoryError::InvalidInput);
    assert_eq!(GetDocumentHistoryError::from_version_store_error(VersionStoreError::InvalidHistoryPageLimit), GetDocumentHistoryError::InvalidInput);
    assert_eq!(GetDocumentHistoryError::from_version_store_error(VersionStoreError::StorageUnavailable), GetDocumentHistoryError::StorageUnavailable);
    assert_eq!(GetDocumentHistoryError::from_version_store_error(VersionStoreError::CorruptedHistory), GetDocumentHistoryError::StorageUnavailable);
    assert_eq!(GetDocumentHistoryError::from_version_store_error(VersionStoreError::MismatchedVersionSnapshot), GetDocumentHistoryError::StorageUnavailable);
    assert_eq!(GetDocumentHistoryError::from_version_store_error(VersionStoreError::Conflict), GetDocumentHistoryError::StorageUnavailable);
    assert_eq!(PreviewDocumentRestoreError::from_document_repository_error(DocumentRepositoryError::StorageUnavailable), PreviewDocumentRestoreError::StorageUnavailable);
    assert_eq!(PreviewDocumentRestoreError::from_document_repository_error(DocumentRepositoryError::CorruptedMetadata), PreviewDocumentRestoreError::StorageUnavailable);
    assert_eq!(PreviewDocumentRestoreError::from_document_repository_error(DocumentRepositoryError::MismatchedDocumentIdentity), PreviewDocumentRestoreError::StorageUnavailable);
    assert_eq!(PreviewDocumentRestoreError::from_document_repository_error(DocumentRepositoryError::Conflict), PreviewDocumentRestoreError::StorageUnavailable);
    assert_eq!(PreviewDocumentRestoreError::from_version_store_error(VersionStoreError::StorageUnavailable), PreviewDocumentRestoreError::StorageUnavailable);
    assert_eq!(PreviewDocumentRestoreError::from_version_store_error(VersionStoreError::CorruptedHistory), PreviewDocumentRestoreError::StorageUnavailable);
    assert_eq!(PreviewDocumentRestoreError::from_version_store_error(VersionStoreError::InvalidHistoryCursor), PreviewDocumentRestoreError::StorageUnavailable);
    assert_eq!(PreviewDocumentRestoreError::from_version_store_error(VersionStoreError::InvalidHistoryPageLimit), PreviewDocumentRestoreError::StorageUnavailable);
    assert_eq!(PreviewDocumentRestoreError::from_version_store_error(VersionStoreError::MismatchedVersionSnapshot), PreviewDocumentRestoreError::StorageUnavailable);
    assert_eq!(PreviewDocumentRestoreError::from_version_store_error(VersionStoreError::Conflict), PreviewDocumentRestoreError::StorageUnavailable);
    assert_eq!(UpdateDocumentError::from_document_repository_error(DocumentRepositoryError::StorageUnavailable), UpdateDocumentError::StorageUnavailable);
    assert_eq!(UpdateDocumentError::from_document_repository_error(DocumentRepositoryError::CorruptedMetadata), UpdateDocumentError::StorageUnavailable);
    assert_eq!(UpdateDocumentError::from_document_repository_error(DocumentRepositoryError::MismatchedDocumentIdentity), UpdateDocumentError::StorageUnavailable);
    assert_eq!(UpdateDocumentError::from_document_repository_error(DocumentRepositoryError::Conflict), UpdateDocumentError::StorageUnavailable);
    assert_eq!(UpdateDocumentError::from_version_store_error(VersionStoreError::Conflict), UpdateDocumentError::VersionAlreadyExists);
    assert_eq!(UpdateDocumentError::from_version_store_error(VersionStoreError::StorageUnavailable), UpdateDocumentError::StorageUnavailable);
    assert_eq!(UpdateDocumentError::from_version_store_error(VersionStoreError::CorruptedHistory), UpdateDocumentError::StorageUnavailable);
    assert_eq!(UpdateDocumentError::from_version_store_error(VersionStoreError::InvalidHistoryCursor), UpdateDocumentError::StorageUnavailable);
    assert_eq!(UpdateDocumentError::from_version_store_error(VersionStoreError::InvalidHistoryPageLimit), UpdateDocumentError::StorageUnavailable);
    assert_eq!(UpdateDocumentError::from_version_store_error(VersionStoreError::MismatchedVersionSnapshot), UpdateDocumentError::StorageUnavailable);
    assert_eq!(AttachFileToDocumentError::from_asset_store_error(AssetStoreError::MismatchedAssetObject), AttachFileToDocumentError::InvalidInput);
    assert_eq!(AttachFileToDocumentError::from_asset_store_error(AssetStoreError::InvalidAssetObject), AttachFileToDocumentError::InvalidInput);
    assert_eq!(AttachFileToDocumentError::from_asset_store_error(AssetStoreError::StorageUnavailable), AttachFileToDocumentError::StorageUnavailable);
    assert_eq!(AttachFileToDocumentError::from_asset_store_error(AssetStoreError::CorruptedMetadata), AttachFileToDocumentError::StorageUnavailable);
    assert_eq!(AttachFileToDocumentError::from_asset_store_error(AssetStoreError::MissingObject), AttachFileToDocumentError::StorageUnavailable);
    assert_eq!(AttachFileToDocumentError::from_asset_store_error(AssetStoreError::Conflict), AttachFileToDocumentError::StorageUnavailable);
    assert_eq!(AttachFileToDocumentError::from_document_asset_repository_error(DocumentAssetRepositoryError::MismatchedAssetReference), AttachFileToDocumentError::InvalidInput);
    assert_eq!(AttachFileToDocumentError::from_document_asset_repository_error(DocumentAssetRepositoryError::InvalidAssociation), AttachFileToDocumentError::InvalidInput);
    assert_eq!(AttachFileToDocumentError::from_document_asset_repository_error(DocumentAssetRepositoryError::StorageUnavailable), AttachFileToDocumentError::StorageUnavailable);
    assert_eq!(AttachFileToDocumentError::from_document_asset_repository_error(DocumentAssetRepositoryError::CorruptedMetadata), AttachFileToDocumentError::StorageUnavailable);
    assert_eq!(AttachFileToDocumentError::from_document_asset_repository_error(DocumentAssetRepositoryError::Conflict), AttachFileToDocumentError::StorageUnavailable);
    assert_eq!(CreateDocumentError::from_document_repository_error(DocumentRepositoryError::Conflict), CreateDocumentError::DocumentAlreadyExists);
    assert_eq!(CreateDocumentError::from_document_repository_error(DocumentRepositoryError::StorageUnavailable), CreateDocumentError::StorageUnavailable);
    assert_eq!(CreateDocumentError::from_document_repository_error(DocumentRepositoryError::CorruptedMetadata), CreateDocumentError::StorageUnavailable);
    assert_eq!(CreateDocumentError::from_document_repository_error(DocumentRepositoryError::MismatchedDocumentIdentity), CreateDocumentError::StorageUnavailable);
    assert_eq!(CreateDocumentError::from_version_store_error(VersionStoreError::Conflict), CreateDocumentError::VersionAlreadyExists);
    assert_eq!(CreateDocumentError::from_version_store_error(VersionStoreError::StorageUnavailable), CreateDocumentError::StorageUnavailable);
    assert_eq!(CreateDocumentError::from_version_store_error(VersionStoreError::CorruptedHistory), CreateDocumentError::StorageUnavailable);
    assert_eq!(CreateDocumentError::from_version_store_error(VersionStoreError::InvalidHistoryCursor), CreateDocumentError::StorageUnavailable);
    assert_eq!(CreateDocumentError::from_version_store_error(VersionStoreError::InvalidHistoryPageLimit), CreateDocumentError::StorageUnavailable);
    assert_eq!(CreateDocumentError::from_version_store_error(VersionStoreError::MismatchedVersionSnapshot), CreateDocumentError::StorageUnavailable);
}

#[test]
fn document_link_catalog_projection_failures_are_reported_as_mapped() {
    assert_eq!(document_link_catalog_projection::map_catalog_error(DocumentLinkCatalogError::InvalidRecord), ApplyDocumentLinkCatalogChangeError::InvalidEvent);
    assert_eq!(document_link_catalog_projection::map_catalog_error(DocumentLinkCatalogError::StorageUnavailable), ApplyDocumentLinkCatalogChangeError::RepositoryUnavailable);
    assert_eq!(document_link_catalog_projection::map_catalog_error(DocumentLinkCatalogError::CorruptedCatalog), ApplyDocumentLinkCatalogChangeError::CorruptedCatalog);
}

#[test]
fn document_lock_failures_are_reported_as_mapped() {
    assert_eq!(DocumentLockUsecaseError::from_transition_error(DocumentLockErrorCode::AlreadyLocked), DocumentLockUsecaseError::AlreadyLocked);
    assert_eq!(DocumentLockUsecaseError::from_transition_error(DocumentLockErrorCode::NotOwner), DocumentLockUsecaseError::NotOwner);
    assert_eq!(DocumentLockUsecaseError::from_transition_error(DocumentLockErrorCode::Expired), DocumentLockUsecaseError::LockExpired);
    assert_eq!(DocumentLockUsecaseError::from_transition_error(DocumentLockErrorCode::NotLocked), DocumentLockUsecaseError::LockNotFound);
    assert_eq!(DocumentLockUsecaseError::from_transition_error(DocumentLockErrorCode::NotExpired), DocumentLockUsecaseError::LockNotExpired);
    assert_eq!(DocumentLockUsecaseError::from_repository_error(DocumentLockRepositoryError::StorageUnavailable), DocumentLockUsecaseError::StorageUnavailable);
    assert_eq!(DocumentLockUsecaseError::from_repository_error(DocumentLockRepositoryError::CorruptedState), DocumentLockUsecaseError::StorageUnavailable);
    assert_eq!(DocumentLockUsecaseError::from_repository_error(DocumentLockRepositoryError::Conflict), DocumentLockUsecaseError::Conflict);
    assert_eq!(DocumentLockUsecaseError::from_permission_error(DocumentLockPermissionCheckError::StorageUnavailable), DocumentLockUsecaseError::StorageUnavailable);
    assert_eq!(document_lock::map_domain_error(DocumentLockError::EmptyLockId), DocumentLockUsecaseError::InvalidInput);
    assert_eq!(document_lock::map_domain_error(DocumentLockError::InvalidLockId), DocumentLockUsecaseError::InvalidInput);
    assert_eq!(document_lock::map_domain_error(DocumentLockError::InvalidExpiry), DocumentLockUsecaseError::InvalidInput);
}

#[test]
fn document_revision_commit_failures_are_reported_as_mapped() {
    assert_eq!(document_revision_commit::map_terminal_failure(DocumentOperationTerminalFailure::Conflict), CommitDocumentRevisionError::CommitConflict);
    assert_eq!(document_revision_commit::map_terminal_failure(DocumentOperationTerminalFailure::InvalidRequest), CommitDocumentRevisionError::InvalidRequest);
    assert_eq!(document_revision_commit::map_claim_error(DocumentOperationJournalError::IdentityConflict), CommitDocumentRevisionError::OperationConflict);
    assert_eq!(document_revision_commit::map_claim_error(DocumentOperationJournalError::StorageUnavailable), CommitDocumentRevisionError::JournalUnavailable);
    assert_eq!(document_revision_commit::map_claim_error(DocumentOperationJournalError::CorruptedJournal), CommitDocumentRevisionError::JournalUnavailable);
    assert_eq!(document_revision_commit::map_claim_error(DocumentOperationJournalError::NotClaimed), CommitDocumentRevisionError::JournalUnavailable);
    assert_eq!(document_revision_commit::map_claim_error(DocumentOperationJournalError::AlreadyCompleted), CommitDocumentRevisionError::JournalUnavailable);
    assert_eq!(document_revision_commit::map_commit_error(DocumentRevisionCommitError::IdentityMismatch), CommitDocumentRevisionError::InvalidRequest);
    assert_eq!(document_revision_commit::map_commit_error(DocumentRevisionCommitError::Conflict), CommitDocumentRevisionError::CommitConflict);
    assert_eq!(document_revision_commit::map_commit_error(DocumentRevisionCommitError::StorageUnavailable), CommitDocumentRevisionError::CommitUnavailable);
    assert_eq!(document_revision_commit::map_commit_error(DocumentRevisionCommitError::RecoveryRequired), CommitDocumentRevisionError::RecoveryRequired);
}

#[test]
fn document_revision_metadata_failures_are_reported_as_mapped() {
    assert_eq!(document_revision_metadata::map_port_error(DocumentRevisionMetadataPortError::GenerationUnavailable), GenerateDocumentRevisionMetadataError::GenerationUnavailable);
    assert_eq!(document_revision_metadata::map_port_error(DocumentRevisionMetadataPortError::Conflict), GenerateDocumentRevisionMetadataError::Conflict);
    assert_eq!(document_revision_metadata::map_port_error(DocumentRevisionMetadataPortError::StorageUnavailable), GenerateDocumentRevisionMetadataError::StorageUnavailable);
}

#[test]
fn document_revision_recovery_failures_are_reported_as_mapped() {
    assert_eq!(document_revision_recovery::map_terminal_failure(DocumentOperationTerminalFailure::Conflict), RecoverDocumentRevisionError::TerminalConflict);
    assert_eq!(document_revision_recovery::map_terminal_failure(DocumentOperationTerminalFailure::InvalidRequest), RecoverDocumentRevisionError::TerminalInvalidRequest);
}

#[test]
fn field_debug_failures_are_reported_as_mapped() {
    assert_eq!(FieldDebugSessionOutputStatus::from_state(FieldDebugSessionState::Requested), FieldDebugSessionOutputStatus::Requested);
    assert_eq!(FieldDebugSessionOutputStatus::from_state(FieldDebugSessionState::Approved), FieldDebugSessionOutputStatus::Approved);
    assert_eq!(FieldDebugSessionOutputStatus::from_state(FieldDebugSessionState::Denied), FieldDebugSessionOutputStatus::Denied);
    assert_eq!(FieldDebugSessionOutputStatus::from_state(FieldDebugSessionState::Active), FieldDebugSessionOutputStatus::Active);
    assert_eq!(FieldDebugSessionOutputStatus::from_state(FieldDebugSessionState::Expired), FieldDebugSessionOutputStatus::Expired);
    assert_eq!(FieldDebugSessionOutputStatus::from_state(FieldDebugSessionState::Revoked), FieldDebugSessionOutputStatus::Revoked);
    assert_eq!(FieldDebugUsecaseError::from_repository_error(FieldDebugSessionRepositoryError::StorageUnavailable), FieldDebugUsecaseError::StoreUnavailable);
    assert_eq!(FieldDebugUsecaseError::from_repository_error(FieldDebugSessionRepositoryError::CorruptedState), FieldDebugUsecaseError::StoreUnavailable);
    assert_eq!(FieldDebugUsecaseError::from_repository_error(FieldDebugSessionRepositoryError::Conflict), FieldDebugUsecaseError::Conflict);
    assert_eq!(FieldDebugUsecaseError::from_permission_error(FieldDebugPermissionCheckError::StorageUnavailable), FieldDebugUsecaseError::StoreUnavailable);
    assert_eq!(field_debug::map_domain_error(FieldDebugError::EmptySessionId), FieldDebugUsecaseError::InvalidInput);
    assert_eq!(field_debug::map_domain_error(FieldDebugError::EmptyScope), FieldDebugUsecaseError::InvalidInput);
    assert_eq!(field_debug::map_domain_error(FieldDebugError::SensitiveScope), FieldDebugUsecaseError::SensitiveField);
    assert_eq!(field_debug::map_domain_error(FieldDebugError::MissingScope), FieldDebugUsecaseError::MissingScope);
    assert_eq!(field_debug::map_domain_error(FieldDebugError::MissingTtl), FieldDebugUsecaseError::MissingTtl);
    assert_eq!(field_debug::map_domain_error(FieldDebugError::InvalidTransition), FieldDebugUsecaseError::InactiveSession);
    assert_eq!(field_debug::map_domain_error(FieldDebugError::NotExpired), FieldDebugUsecaseError::NotExpired);
}

#[test]
fn global_graph_failures_are_reported_as_mapped() {
    assert_eq!(global_graph::map_pointer_error(CurrentDocumentVersionPointerError::StorageUnavailable), GetGlobalKnowledgeGraphError::ProjectionUnavailable);
    assert_eq!(global_graph::map_pointer_error(CurrentDocumentVersionPointerError::Conflict), GetGlobalKnowledgeGraphError::CorruptedProjection);
    assert_eq!(global_graph::map_pointer_error(CurrentDocumentVersionPointerError::CorruptedPointer), GetGlobalKnowledgeGraphError::CorruptedProjection);
    assert_eq!(global_graph::map_error(GraphProjectionError::InvalidInput), GetGlobalKnowledgeGraphError::InvalidInput);
    assert_eq!(global_graph::map_error(GraphProjectionError::StorageUnavailable), GetGlobalKnowledgeGraphError::ProjectionUnavailable);
    assert_eq!(global_graph::map_error(GraphProjectionError::CorruptedProjection), GetGlobalKnowledgeGraphError::CorruptedProjection);
}

#[test]
fn graph_failures_are_reported_as_mapped() {
    assert_eq!(GetLocalKnowledgeGraphError::from_projection_error(GraphProjectionError::InvalidInput), GetLocalKnowledgeGraphError::InvalidInput);
    assert_eq!(GetLocalKnowledgeGraphError::from_projection_error(GraphProjectionError::StorageUnavailable), GetLocalKnowledgeGraphError::ProjectionUnavailable);
    assert_eq!(GetLocalKnowledgeGraphError::from_projection_error(GraphProjectionError::CorruptedProjection), GetLocalKnowledgeGraphError::CorruptedProjection);
    assert_eq!(PermissionAwareGraphError::from_graph_projection_error(GraphProjectionError::InvalidInput), PermissionAwareGraphError::InvalidInput);
    assert_eq!(PermissionAwareGraphError::from_graph_projection_error(GraphProjectionError::StorageUnavailable), PermissionAwareGraphError::ProjectionUnavailable);
    assert_eq!(PermissionAwareGraphError::from_graph_projection_error(GraphProjectionError::CorruptedProjection), PermissionAwareGraphError::CorruptedProjection);
    assert_eq!(PermissionAwareGraphError::from_permission_error(PermissionAwareQueryError::InvalidInput), PermissionAwareGraphError::InvalidInput);
    assert_eq!(PermissionAwareGraphError::from_permission_error(PermissionAwareQueryError::NotFound), PermissionAwareGraphError::PermissionUnavailable);
    assert_eq!(PermissionAwareGraphError::from_permission_error(PermissionAwareQueryError::IndexStale), PermissionAwareGraphError::PermissionUnavailable);
    assert_eq!(PermissionAwareGraphError::from_permission_error(PermissionAwareQueryError::StorageUnavailable), PermissionAwareGraphError::PermissionUnavailable);
    assert_eq!(PermissionAwareGraphError::from_permission_error(PermissionAwareQueryError::CorruptedProjection), PermissionAwareGraphError::CorruptedProjection);
}

#[test]
fn group_failures_are_reported_as_mapped() {
    assert_eq!(CreateGroupError::from_group_repository_error(GroupRepositoryError::Conflict), CreateGroupError::GroupAlreadyExists);
    assert_eq!(CreateGroupError::from_group_repository_error(GroupRepositoryError::NotFound), CreateGroupError::StorageUnavailable);
    assert_eq!(CreateGroupError::from_group_repository_error(GroupRepositoryError::StorageUnavailable), CreateGroupError::StorageUnavailable);
    assert_eq!(AddUserToGroupError::from_group_repository_error(GroupRepositoryError::NotFound), AddUserToGroupError::GroupNotFound);
    assert_eq!(AddUserToGroupError::from_group_repository_error(GroupRepositoryError::Conflict), AddUserToGroupError::StorageUnavailable);
    assert_eq!(AddUserToGroupError::from_group_repository_error(GroupRepositoryError::StorageUnavailable), AddUserToGroupError::StorageUnavailable);
    assert_eq!(AddUserToGroupError::from_user_repository_error(UserRepositoryError::NotFound), AddUserToGroupError::UserNotFound);
    assert_eq!(AddUserToGroupError::from_user_repository_error(UserRepositoryError::Conflict), AddUserToGroupError::StorageUnavailable);
    assert_eq!(AddUserToGroupError::from_user_repository_error(UserRepositoryError::StorageUnavailable), AddUserToGroupError::StorageUnavailable);
    assert_eq!(RemoveUserFromGroupError::from_group_repository_error(GroupRepositoryError::NotFound), RemoveUserFromGroupError::MembershipNotFound);
    assert_eq!(RemoveUserFromGroupError::from_group_repository_error(GroupRepositoryError::Conflict), RemoveUserFromGroupError::StorageUnavailable);
    assert_eq!(RemoveUserFromGroupError::from_group_repository_error(GroupRepositoryError::StorageUnavailable), RemoveUserFromGroupError::StorageUnavailable);
}
#[test]
fn comment_rule_refusals_keep_their_meaning() {
    assert_eq!(CommentUsecaseError::from_comment_error(CommentError::BodyTooLarge), CommentUsecaseError::BodyTooLarge);
    assert_eq!(
        CommentUsecaseError::from_comment_error(CommentError::InvalidThreadTransition),
        CommentUsecaseError::InvalidTransition
    );
    assert_eq!(CommentUsecaseError::from_comment_error(CommentError::EmptyBody), CommentUsecaseError::InvalidInput);
}

#[test]
fn presentation_asset_failures_need_recovery_unless_storage_is_down() {
    assert_eq!(
        canvas_target_presentation::map_asset(AssetMetadataCatalogError::StorageUnavailable),
        ResolveCanvasTargetPresentationsError::StorageUnavailable
    );
    assert_eq!(
        canvas_target_presentation::map_asset(AssetMetadataCatalogError::CorruptedRecord),
        ResolveCanvasTargetPresentationsError::RecoveryRequired
    );
}
