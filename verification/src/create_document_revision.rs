use vstd::prelude::*;
use crate::collaborator_errors::DocumentOperationJournalError;
use crate::document_revision_commit::CommitDocumentRevisionError;
use crate::document_revision_metadata::GenerateDocumentRevisionMetadataError;
use crate::text::{opt_sstr_view, opt_str_view, opt_to_string, opt_ref_view, pairs_view, strings_view};

verus! {
#[derive(Debug, Clone, PartialEq, Eq)]
pub struct CreateDocumentRevisionInput {
    operation_id: String,
    workspace_id: String,
    document_id: String,
    body: String,
    author: String,
    summary: String,
}

impl View for CreateDocumentRevisionInput {
    type V = (Seq<char>, Seq<char>, Seq<char>, Seq<char>, Seq<char>, Seq<char>);

    closed spec fn view(&self) -> (Seq<char>, Seq<char>, Seq<char>, Seq<char>, Seq<char>, Seq<char>) {
        (self.operation_id@, self.workspace_id@, self.document_id@, self.body@, self.author@, self.summary@)
    }
}

impl CreateDocumentRevisionInput {
    pub fn new(operation_id: &str, workspace_id: &str, document_id: &str, body: &str, author: &str, summary: &str) -> (result: Self)
        ensures
            result@ == (operation_id@, workspace_id@, document_id@, body@, author@, summary@),
    {
        Self {
            operation_id: operation_id.to_string(),
            workspace_id: workspace_id.to_string(),
            document_id: document_id.to_string(),
            body: body.to_string(),
            author: author.to_string(),
            summary: summary.to_string(),
        }
    }

    pub fn workspace_id(&self) -> (result: &str)
        ensures
            result@ == self@.1,
    {
        self.workspace_id.as_str()
    }

    pub fn document_id(&self) -> (result: &str)
        ensures
            result@ == self@.2,
    {
        self.document_id.as_str()
    }

}

#[derive(Debug, Clone, Copy, PartialEq, Eq, Structural)]
pub enum CreateDocumentRevisionError {
    InvalidInput,
    FingerprintUnavailable,
    MetadataUnavailable,
    OperationConflict,
    CommitConflict,
    JournalUnavailable,
    CommitUnavailable,
    RecoveryRequired,
}

impl CreateDocumentRevisionError {
    pub fn code(self) -> (result: &'static str)
        ensures
            result@ == match self {
                Self::InvalidInput => "create_document_revision.invalid_input"@,
                Self::FingerprintUnavailable => "create_document_revision.fingerprint_unavailable"@,
                Self::MetadataUnavailable => "create_document_revision.metadata_unavailable"@,
                Self::OperationConflict => "create_document_revision.operation_conflict"@,
                Self::CommitConflict => "create_document_revision.commit_conflict"@,
                Self::JournalUnavailable => "create_document_revision.journal_unavailable"@,
                Self::CommitUnavailable => "create_document_revision.commit_unavailable"@,
                Self::RecoveryRequired => "create_document_revision.recovery_required"@,
            },
    {
        match self {
            Self::InvalidInput => "create_document_revision.invalid_input",
            Self::FingerprintUnavailable => "create_document_revision.fingerprint_unavailable",
            Self::MetadataUnavailable => "create_document_revision.metadata_unavailable",
            Self::OperationConflict => "create_document_revision.operation_conflict",
            Self::CommitConflict => "create_document_revision.commit_conflict",
            Self::JournalUnavailable => "create_document_revision.journal_unavailable",
            Self::CommitUnavailable => "create_document_revision.commit_unavailable",
            Self::RecoveryRequired => "create_document_revision.recovery_required",
        }
    }
}

/// How this usecase reports each document operation journal failure.
pub fn map_journal_error(error: DocumentOperationJournalError) -> (result: CreateDocumentRevisionError)
    ensures
        result == match error {
            DocumentOperationJournalError::IdentityConflict => CreateDocumentRevisionError::OperationConflict,
            DocumentOperationJournalError::NotClaimed | DocumentOperationJournalError::AlreadyCompleted | DocumentOperationJournalError::StorageUnavailable | DocumentOperationJournalError::CorruptedJournal => CreateDocumentRevisionError::JournalUnavailable,
        },
{
    match error {
        DocumentOperationJournalError::IdentityConflict => CreateDocumentRevisionError::OperationConflict,
        DocumentOperationJournalError::NotClaimed | DocumentOperationJournalError::AlreadyCompleted | DocumentOperationJournalError::StorageUnavailable | DocumentOperationJournalError::CorruptedJournal => CreateDocumentRevisionError::JournalUnavailable,
    }
}

/// How this usecase reports each generate document revision metadata failure.
pub fn map_metadata_error(error: GenerateDocumentRevisionMetadataError) -> (result: CreateDocumentRevisionError)
    ensures
        result == match error {
            GenerateDocumentRevisionMetadataError::Conflict => CreateDocumentRevisionError::CommitConflict,
            GenerateDocumentRevisionMetadataError::InvalidTimestamp | GenerateDocumentRevisionMetadataError::GenerationUnavailable | GenerateDocumentRevisionMetadataError::StorageUnavailable => CreateDocumentRevisionError::MetadataUnavailable,
        },
{
    match error {
        GenerateDocumentRevisionMetadataError::Conflict => CreateDocumentRevisionError::CommitConflict,
        GenerateDocumentRevisionMetadataError::InvalidTimestamp | GenerateDocumentRevisionMetadataError::GenerationUnavailable | GenerateDocumentRevisionMetadataError::StorageUnavailable => CreateDocumentRevisionError::MetadataUnavailable,
    }
}

/// How this usecase reports each commit document revision failure.
pub fn map_commit_error(error: CommitDocumentRevisionError) -> (result: CreateDocumentRevisionError)
    ensures
        result == match error {
            CommitDocumentRevisionError::InvalidRequest => CreateDocumentRevisionError::InvalidInput,
            CommitDocumentRevisionError::OperationConflict => CreateDocumentRevisionError::OperationConflict,
            CommitDocumentRevisionError::JournalUnavailable => CreateDocumentRevisionError::JournalUnavailable,
            CommitDocumentRevisionError::CommitConflict => CreateDocumentRevisionError::CommitConflict,
            CommitDocumentRevisionError::CommitUnavailable => CreateDocumentRevisionError::CommitUnavailable,
            CommitDocumentRevisionError::RecoveryRequired => CreateDocumentRevisionError::RecoveryRequired,
        },
{
    match error {
        CommitDocumentRevisionError::InvalidRequest => CreateDocumentRevisionError::InvalidInput,
        CommitDocumentRevisionError::OperationConflict => CreateDocumentRevisionError::OperationConflict,
        CommitDocumentRevisionError::JournalUnavailable => CreateDocumentRevisionError::JournalUnavailable,
        CommitDocumentRevisionError::CommitConflict => CreateDocumentRevisionError::CommitConflict,
        CommitDocumentRevisionError::CommitUnavailable => CreateDocumentRevisionError::CommitUnavailable,
        CommitDocumentRevisionError::RecoveryRequired => CreateDocumentRevisionError::RecoveryRequired,
    }
}

} // verus!
