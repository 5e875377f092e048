//! Failures reported by the stores and services the usecases call, as plain variants.
use vstd::prelude::*;

verus! {

/// What the ai answer store reports when it fails.
#[derive(Debug, Clone, Copy, PartialEq, Eq, Structural)]
pub enum AiAnswerStoreError {
    StoreUnavailable,
}

/// What the ai provider reports when it fails.
#[derive(Debug, Clone, Copy, PartialEq, Eq, Structural)]
pub enum AiProviderError {
    Timeout,
    ProviderUnavailable,
    InvalidPromptReference,
    SensitivePromptReference,
    MissingCitationContext,
    InvalidPolicy,
}

/// What the asset metadata catalog reports when it fails.
#[derive(Debug, Clone, Copy, PartialEq, Eq, Structural)]
pub enum AssetMetadataCatalogError {
    StorageUnavailable,
    CorruptedRecord,
    UnsupportedSchema,
    InvalidLimit,
    InvalidCursor,
    Conflict,
}

/// What the asset search reports when it fails.
#[derive(Debug, Clone, Copy, PartialEq, Eq, Structural)]
pub enum AssetSearchError {
    InvalidQuery,
    InvalidLimit,
    InvalidAssetMetadata,
    StorageUnavailable,
    CorruptedIndex,
}

/// What the asset store reports when it fails.
#[derive(Debug, Clone, Copy, PartialEq, Eq, Structural)]
pub enum AssetStoreError {
    MismatchedAssetObject,
    InvalidAssetObject,
    StorageUnavailable,
    CorruptedMetadata,
    MissingObject,
    Conflict,
}

/// What the audit log store reports when it fails.
#[derive(Debug, Clone, Copy, PartialEq, Eq, Structural)]
pub enum AuditLogStoreError {
    InvalidLimit,
    InvalidScope,
    InvalidCursor,
    StorageUnavailable,
    CorruptedState,
    Conflict,
}

/// What the audit permission check reports when it fails.
#[derive(Debug, Clone, Copy, PartialEq, Eq, Structural)]
pub enum AuditPermissionCheckError {
    StorageUnavailable,
}

/// What the backup catalog reports when it fails.
#[derive(Debug, Clone, Copy, PartialEq, Eq, Structural)]
pub enum BackupCatalogError {
    InvalidLimit,
    InvalidCursor,
    StorageUnavailable,
    CorruptedCatalog,
}

/// What the backup package store reports when it fails.
#[derive(Debug, Clone, Copy, PartialEq, Eq, Structural)]
pub enum BackupPackageStoreError {
    StorageUnavailable,
    PackageNotFound,
    CorruptedPackage,
    Conflict,
}

/// What the backup restore store reports when it fails.
#[derive(Debug, Clone, Copy, PartialEq, Eq, Structural)]
pub enum BackupRestoreStoreError {
    PackageInvalid,
    CorruptedOperation,
    StorageUnavailable,
    OperationNotFound,
    Conflict,
}

/// What the backup store reports when it fails.
#[derive(Debug, Clone, Copy, PartialEq, Eq, Structural)]
pub enum BackupStoreError {
    StorageUnavailable,
    CorruptedArtifact,
    MissingJob,
    Conflict,
}

/// What the canvas catalog reports when it fails.
#[derive(Debug, Clone, Copy, PartialEq, Eq, Structural)]
pub enum CanvasCatalogError {
    InvalidLimit,
    LimitExceeded,
    StorageUnavailable,
    CorruptedCatalog,
}

/// What the canvas recovery repository reports when it fails.
#[derive(Debug, Clone, Copy, PartialEq, Eq, Structural)]
pub enum CanvasRecoveryRepositoryError {
    InvalidInput,
    StorageUnavailable,
    CorruptedCatalog,
    CandidateLimitExceeded,
    RevisionNotFound,
}

/// What the canvas repository reports when it fails.
#[derive(Debug, Clone, Copy, PartialEq, Eq, Structural)]
pub enum CanvasRepositoryError {
    InvalidInput,
    StorageUnavailable,
    CorruptedCanvas,
    UnsupportedSchema,
    AlreadyExists,
    VersionConflict,
}

/// What the canvas viewport query reports when it fails.
#[derive(Debug, Clone, Copy, PartialEq, Eq, Structural)]
pub enum CanvasViewportQueryError {
    InvalidInput,
    StorageUnavailable,
    StaleProjection,
    CorruptedProjection,
    UnsupportedSchema,
}

/// What the collaboration event log reports when it fails.
#[derive(Debug, Clone, Copy, PartialEq, Eq, Structural)]
pub enum CollaborationEventLogError {
    InvalidInput,
    Conflict,
    StorageUnavailable,
}

/// What the collaboration session store reports when it fails.
#[derive(Debug, Clone, Copy, PartialEq, Eq, Structural)]
pub enum CollaborationSessionStoreError {
    InvalidInput,
    NotFound,
    Conflict,
    StorageUnavailable,
}

/// What the comment permission check reports when it fails.
#[derive(Debug, Clone, Copy, PartialEq, Eq, Structural)]
pub enum CommentPermissionCheckError {
    StorageUnavailable,
}

/// What the comment repository reports when it fails.
#[derive(Debug, Clone, Copy, PartialEq, Eq, Structural)]
pub enum CommentRepositoryError {
    StorageUnavailable,
    CorruptedState,
    Conflict,
}

/// What the committed version record read reports when it fails.
#[derive(Debug, Clone, Copy, PartialEq, Eq, Structural)]
pub enum CommittedVersionRecordReadError {
    StorageUnavailable,
    CorruptedRecord,
}

/// What a connector registry, repository or activity store reports when it fails.
#[derive(Debug, Clone, Copy, PartialEq, Eq, Structural)]
pub enum ConnectorPortError {
    StoreUnavailable,
}

/// What the credential verifier reports when it fails.
#[derive(Debug, Clone, Copy, PartialEq, Eq, Structural)]
pub enum CredentialVerifierError {
    Unavailable,
}

/// What the current document version pointer reports when it fails.
#[derive(Debug, Clone, Copy, PartialEq, Eq, Structural)]
pub enum CurrentDocumentVersionPointerError {
    StorageUnavailable,
    Conflict,
    CorruptedPointer,
}

/// What the document asset repository reports when it fails.
#[derive(Debug, Clone, Copy, PartialEq, Eq, Structural)]
pub enum DocumentAssetRepositoryError {
    MismatchedAssetReference,
    InvalidAssociation,
    StorageUnavailable,
    CorruptedMetadata,
    Conflict,
}

/// What the document existence reports when it fails.
#[derive(Debug, Clone, Copy, PartialEq, Eq, Structural)]
pub enum DocumentExistenceError {
    StorageUnavailable,
    CorruptedRecord,
}

/// What the document link catalog reports when it fails.
#[derive(Debug, Clone, Copy, PartialEq, Eq, Structural)]
pub enum DocumentLinkCatalogError {
    InvalidRecord,
    StorageUnavailable,
    CorruptedCatalog,
}

/// What the document lock permission check reports when it fails.
#[derive(Debug, Clone, Copy, PartialEq, Eq, Structural)]
pub enum DocumentLockPermissionCheckError {
    StorageUnavailable,
}

/// What the document lock repository reports when it fails.
#[derive(Debug, Clone, Copy, PartialEq, Eq, Structural)]
pub enum DocumentLockRepositoryError {
    StorageUnavailable,
    CorruptedState,
    Conflict,
}

/// What the document operation journal reports when it fails.
#[derive(Debug, Clone, Copy, PartialEq, Eq, Structural)]
pub enum DocumentOperationJournalError {
    IdentityConflict,
    NotClaimed,
    AlreadyCompleted,
    StorageUnavailable,
    CorruptedJournal,
}

/// How a document operation that ended without success ended.
#[derive(Debug, Clone, Copy, PartialEq, Eq, Structural)]
pub enum DocumentOperationTerminalFailure {
    Conflict,
    InvalidRequest,
}

/// What the document repository reports when it fails.
#[derive(Debug, Clone, Copy, PartialEq, Eq, Structural)]
pub enum DocumentRepositoryError {
    StorageUnavailable,
    CorruptedMetadata,
    MismatchedDocumentIdentity,
    Conflict,
}

/// What the document revision commit reports when it fails.
#[derive(Debug, Clone, Copy, PartialEq, Eq, Structural)]
pub enum DocumentRevisionCommitError {
    IdentityMismatch,
    Conflict,
    StorageUnavailable,
    RecoveryRequired,
}

/// What the document revision metadata service reports when it fails.
#[derive(Debug, Clone, Copy, PartialEq, Eq, Structural)]
pub enum DocumentRevisionMetadataPortError {
    GenerationUnavailable,
    Conflict,
    StorageUnavailable,
}

/// What the document title reader reports when it fails.
#[derive(Debug, Clone, Copy, PartialEq, Eq, Structural)]
pub enum DocumentTitleReaderError {
    StorageUnavailable,
    CorruptedMetadata,
}

/// What the field debug permission check reports when it fails.
#[derive(Debug, Clone, Copy, PartialEq, Eq, Structural)]
pub enum FieldDebugPermissionCheckError {
    StorageUnavailable,
}

/// What the field debug session repository reports when it fails.
#[derive(Debug, Clone, Copy, PartialEq, Eq, Structural)]
pub enum FieldDebugSessionRepositoryError {
    StorageUnavailable,
    CorruptedState,
    Conflict,
}

/// What the graph projection reports when it fails.
#[derive(Debug, Clone, Copy, PartialEq, Eq, Structural)]
pub enum GraphProjectionError {
    InvalidInput,
    StorageUnavailable,
    CorruptedProjection,
}

/// What the group repository reports when it fails.
#[derive(Debug, Clone, Copy, PartialEq, Eq, Structural)]
pub enum GroupRepositoryError {
    Conflict,
    NotFound,
    StorageUnavailable,
}

/// What the inline anchor document lookup reports when it fails.
#[derive(Debug, Clone, Copy, PartialEq, Eq, Structural)]
pub enum InlineAnchorDocumentLookupError {
    StorageUnavailable,
    CorruptedVersion,
}

/// What the last canvas selection reports when it fails.
#[derive(Debug, Clone, Copy, PartialEq, Eq, Structural)]
pub enum LastCanvasSelectionError {
    StorageUnavailable,
    CorruptedSelection,
}

/// What a permission-aware query reports when it fails.
#[derive(Debug, Clone, Copy, PartialEq, Eq, Structural)]
pub enum PermissionAwareQueryError {
    InvalidInput,
    NotFound,
    IndexStale,
    StorageUnavailable,
    CorruptedProjection,
}

/// What the session store reports when it fails.
#[derive(Debug, Clone, Copy, PartialEq, Eq, Structural)]
pub enum SessionStoreError {
    Conflict,
    NotFound,
    Unavailable,
}

/// What the token issuer reports when it fails.
#[derive(Debug, Clone, Copy, PartialEq, Eq, Structural)]
pub enum TokenIssuerError {
    Unavailable,
    InvalidToken,
}

/// What the user repository reports when it fails.
#[derive(Debug, Clone, Copy, PartialEq, Eq, Structural)]
pub enum UserRepositoryError {
    NotFound,
    Conflict,
    StorageUnavailable,
}

/// What the version store reports when it fails.
#[derive(Debug, Clone, Copy, PartialEq, Eq, Structural)]
pub enum VersionStoreError {
    StorageUnavailable,
    CorruptedHistory,
    InvalidHistoryCursor,
    InvalidHistoryPageLimit,
    MismatchedVersionSnapshot,
    Conflict,
}

} // verus!
