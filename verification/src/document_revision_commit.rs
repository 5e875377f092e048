use vstd::prelude::*;
use crate::collaborator_errors::{DocumentOperationJournalError, DocumentOperationTerminalFailure, DocumentRevisionCommitError};
use crate::text::{opt_sstr_view, opt_str_view, opt_to_string, opt_ref_view, pairs_view, strings_view};

verus! {
#[derive(Debug, Clone, Copy, PartialEq, Eq, Structural)]
pub enum CommitDocumentRevisionOutcomeKind {
    Fresh,
    Replayed,
}

#[derive(Debug, Clone, Copy, PartialEq, Eq, Structural)]
pub enum CommitDocumentRevisionError {
    InvalidRequest,
    OperationConflict,
    JournalUnavailable,
    CommitConflict,
    CommitUnavailable,
    RecoveryRequired,
}

impl CommitDocumentRevisionError {
    pub fn code(self) -> (result: &'static str)
        ensures
            result@ == match self {
                Self::InvalidRequest => "document_revision.invalid_request"@,
                Self::OperationConflict => "document_revision.operation_conflict"@,
                Self::JournalUnavailable => "document_revision.journal_unavailable"@,
                Self::CommitConflict => "document_revision.commit_conflict"@,
                Self::CommitUnavailable => "document_revision.commit_unavailable"@,
                Self::RecoveryRequired => "document_revision.recovery_required"@,
            },
    {
        match self {
            Self::InvalidRequest => "document_revision.invalid_request",
            Self::OperationConflict => "document_revision.operation_conflict",
            Self::JournalUnavailable => "document_revision.journal_unavailable",
            Self::CommitConflict => "document_revision.commit_conflict",
            Self::CommitUnavailable => "document_revision.commit_unavailable",
            Self::RecoveryRequired => "document_revision.recovery_required",
        }
    }
}

#[derive(Debug, Clone, Copy, PartialEq, Eq, Structural)]
pub struct CommitDocumentRevisionUsecase;

impl CommitDocumentRevisionUsecase {
    pub fn new() -> (result: Self)
        ensures
            result == (CommitDocumentRevisionUsecase),
    {
        CommitDocumentRevisionUsecase
    }
}

impl Default for CommitDocumentRevisionUsecase {
    fn default() -> (result: Self)
        ensures
            result == (CommitDocumentRevisionUsecase),
    {
        Self::new()
    }
}

/// How this usecase reports each document operation terminal failure.
pub fn map_terminal_failure(failure: DocumentOperationTerminalFailure) -> (result: CommitDocumentRevisionError)
    ensures
        result == match failure {
            DocumentOperationTerminalFailure::Conflict => CommitDocumentRevisionError::CommitConflict,
            DocumentOperationTerminalFailure::InvalidRequest => CommitDocumentRevisionError::InvalidRequest,
        },
{
    match failure {
        DocumentOperationTerminalFailure::Conflict => CommitDocumentRevisionError::CommitConflict,
        DocumentOperationTerminalFailure::InvalidRequest => CommitDocumentRevisionError::InvalidRequest,
    }
}

/// How this usecase reports each document operation journal failure.
pub fn map_claim_error(error: DocumentOperationJournalError) -> (result: CommitDocumentRevisionError)
    ensures
        result == match error {
            DocumentOperationJournalError::IdentityConflict => CommitDocumentRevisionError::OperationConflict,
            DocumentOperationJournalError::StorageUnavailable | DocumentOperationJournalError::CorruptedJournal | DocumentOperationJournalError::NotClaimed | DocumentOperationJournalError::AlreadyCompleted => CommitDocumentRevisionError::JournalUnavailable,
        },
{
    match error {
        DocumentOperationJournalError::IdentityConflict => CommitDocumentRevisionError::OperationConflict,
        DocumentOperationJournalError::StorageUnavailable | DocumentOperationJournalError::CorruptedJournal | DocumentOperationJournalError::NotClaimed | DocumentOperationJournalError::AlreadyCompleted => CommitDocumentRevisionError::JournalUnavailable,
    }
}

/// How this usecase reports each document revision commit failure.
pub fn map_commit_error(error: DocumentRevisionCommitError) -> (result: CommitDocumentRevisionError)
    ensures
        result == match error {
            DocumentRevisionCommitError::IdentityMismatch => CommitDocumentRevisionError::InvalidRequest,
            DocumentRevisionCommitError::Conflict => CommitDocumentRevisionError::CommitConflict,
            DocumentRevisionCommitError::StorageUnavailable => CommitDocumentRevisionError::CommitUnavailable,
            DocumentRevisionCommitError::RecoveryRequired => CommitDocumentRevisionError::RecoveryRequired,
        },
{
    match error {
        DocumentRevisionCommitError::IdentityMismatch => CommitDocumentRevisionError::InvalidRequest,
        DocumentRevisionCommitError::Conflict => CommitDocumentRevisionError::CommitConflict,
        DocumentRevisionCommitError::StorageUnavailable => CommitDocumentRevisionError::CommitUnavailable,
        DocumentRevisionCommitError::RecoveryRequired => CommitDocumentRevisionError::RecoveryRequired,
    }
}

} // verus!
