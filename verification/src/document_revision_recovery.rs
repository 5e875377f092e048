use vstd::prelude::*;
use crate::collaborator_errors::DocumentOperationTerminalFailure;
use crate::text::{opt_sstr_view, opt_str_view, opt_to_string, opt_ref_view, pairs_view, strings_view};

verus! {
#[derive(Debug, Clone, Copy, PartialEq, Eq, Structural)]
pub enum RecoverDocumentRevisionOutcomeKind {
    Recovered,
    AlreadyCommitted,
}

#[derive(Debug, Clone, Copy, PartialEq, Eq, Structural)]
pub enum RecoverDocumentRevisionError {
    NotFound,
    TerminalConflict,
    TerminalInvalidRequest,
    JournalUnavailable,
    RecoveryRequired,
}

impl RecoverDocumentRevisionError {
    pub fn code(self) -> (result: &'static str)
        ensures
            result@ == match self {
                Self::NotFound => "document_revision_recovery.not_found"@,
                Self::TerminalConflict => "document_revision_recovery.terminal_conflict"@,
                Self::TerminalInvalidRequest => "document_revision_recovery.terminal_invalid_request"@,
                Self::JournalUnavailable => "document_revision_recovery.journal_unavailable"@,
                Self::RecoveryRequired => "document_revision_recovery.required"@,
            },
    {
        match self {
            Self::NotFound => "document_revision_recovery.not_found",
            Self::TerminalConflict => "document_revision_recovery.terminal_conflict",
            Self::TerminalInvalidRequest => "document_revision_recovery.terminal_invalid_request",
            Self::JournalUnavailable => "document_revision_recovery.journal_unavailable",
            Self::RecoveryRequired => "document_revision_recovery.required",
        }
    }
}

#[derive(Debug, Clone, Copy, PartialEq, Eq, Structural)]
pub struct RecoverDocumentRevisionOperationUsecase;

impl RecoverDocumentRevisionOperationUsecase {
    pub fn new() -> (result: Self)
        ensures
            result == (RecoverDocumentRevisionOperationUsecase),
    {
        RecoverDocumentRevisionOperationUsecase
    }
}

impl Default for RecoverDocumentRevisionOperationUsecase {
    fn default() -> (result: Self)
        ensures
            result == (RecoverDocumentRevisionOperationUsecase),
    {
        Self::new()
    }
}

/// How this usecase reports each document operation terminal failure.
pub fn map_terminal_failure(failure: DocumentOperationTerminalFailure) -> (result: RecoverDocumentRevisionError)
    ensures
        result == match failure {
            DocumentOperationTerminalFailure::Conflict => RecoverDocumentRevisionError::TerminalConflict,
            DocumentOperationTerminalFailure::InvalidRequest => RecoverDocumentRevisionError::TerminalInvalidRequest,
        },
{
    match failure {
        DocumentOperationTerminalFailure::Conflict => RecoverDocumentRevisionError::TerminalConflict,
        DocumentOperationTerminalFailure::InvalidRequest => RecoverDocumentRevisionError::TerminalInvalidRequest,
    }
}

} // verus!
