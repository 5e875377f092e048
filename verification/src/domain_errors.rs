//! Refusals by the rules of the domain values the usecases build, as plain variants.
use vstd::prelude::*;

verus! {

/// Why the comment rules refused a value; the details a refusal carries
/// are not kept.
#[derive(Debug, Clone, Copy, PartialEq, Eq, Structural)]
pub enum CommentError {
    BodyTooLarge,
    InvalidThreadTransition,
    InvalidInlineAnchorRange,
    EmptyCommentId,
    InvalidCommentId,
    EmptyCommentThreadId,
    InvalidCommentThreadId,
    EmptyBody,
    InvalidBodyPolicy,
}

/// Why the ai rules refused a value.
#[derive(Debug, Clone, Copy, PartialEq, Eq, Structural)]
pub enum AiError {
    EmptyQuestion,
    InvalidQuestion,
    InvalidAnswerReference,
    CitationRequired,
    InvalidSummaryReference,
    SummaryCitationRequired,
    InvalidRecommendationReason,
    InvalidRefusalReason,
    InvalidAnswerJobId,
    InvalidAnswerJobTransition,
}

/// Why the audit rules refused a value.
#[derive(Debug, Clone, Copy, PartialEq, Eq, Structural)]
pub enum AuditError {
    EmptyMetadataKey,
    InvalidMetadataKey,
    EmptyMetadataValue,
    InvalidMetadataValue,
    SensitiveMetadataKey,
    SensitiveMetadataValue,
    EmptyEventId,
    InvalidEventId,
    EmptyTargetId,
    InvalidTargetId,
}

/// Why the canvas rules refused a value.
#[derive(Debug, Clone, Copy, PartialEq, Eq, Structural)]
pub enum CanvasError {
    EmptyId,
    InvalidId,
    InvalidExternalLink,
    InvalidTextCard,
    InvalidRevision,
    RevisionOverflow,
    InvalidTitle,
    InvalidGeometry,
    InvalidViewport,
    InvalidGeometryPolicy,
    DuplicateNodeId,
    DuplicateEdgeId,
    MissingEdgeNode,
    SelfReferencingEdge,
    InvalidLifecycleTransition,
}

/// Why the connector rules refused a value.
#[derive(Debug, Clone, Copy, PartialEq, Eq, Structural)]
pub enum ConnectorError {
    ScopeDenied,
    InvalidTransition,
    InvalidId,
    InvalidName,
    EmptyScope,
    InvalidCredentialReference,
    InvalidExternalObjectReference,
    InvalidActivity,
}

/// Why the document lock rules refused a value.
#[derive(Debug, Clone, Copy, PartialEq, Eq, Structural)]
pub enum DocumentLockError {
    EmptyLockId,
    InvalidLockId,
    InvalidExpiry,
}

/// The code of a document lock transition that its rules refused.
#[derive(Debug, Clone, Copy, PartialEq, Eq, Structural)]
pub enum DocumentLockErrorCode {
    AlreadyLocked,
    NotOwner,
    Expired,
    NotLocked,
    NotExpired,
}

/// Why the field debug rules refused a value.
#[derive(Debug, Clone, Copy, PartialEq, Eq, Structural)]
pub enum FieldDebugError {
    EmptySessionId,
    EmptyScope,
    SensitiveScope,
    MissingScope,
    MissingTtl,
    InvalidTransition,
    NotExpired,
}

/// The state of a field debug session.
#[derive(Debug, Clone, Copy, PartialEq, Eq, Structural)]
pub enum FieldDebugSessionState {
    Requested,
    Approved,
    Denied,
    Active,
    Expired,
    Revoked,
}

} // verus!
