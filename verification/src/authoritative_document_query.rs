use vstd::prelude::*;
use crate::collaborator_errors::{CommittedVersionRecordReadError, CurrentDocumentVersionPointerError};
use crate::text::{opt_sstr_view, opt_str_view, opt_to_string, opt_ref_view, pairs_view, strings_view};

verus! {
#[derive(Debug, Clone, PartialEq, Eq)]
pub enum GetAuthoritativeDocumentRevisionInput {
    Current { workspace_id: String, document_id: String },
    Version { workspace_id: String, document_id: String, version_id: String },
}

/// [`GetAuthoritativeDocumentRevisionInput`] with its texts as character sequences.
pub enum GetAuthoritativeDocumentRevisionInputView {
    Current { workspace_id: Seq<char>, document_id: Seq<char> },
    Version { workspace_id: Seq<char>, document_id: Seq<char>, version_id: Seq<char> },
}

impl View for GetAuthoritativeDocumentRevisionInput {
    type V = GetAuthoritativeDocumentRevisionInputView;

    open spec fn view(&self) -> GetAuthoritativeDocumentRevisionInputView {
        match self {
            GetAuthoritativeDocumentRevisionInput::Current { workspace_id, document_id } => GetAuthoritativeDocumentRevisionInputView::Current { workspace_id: workspace_id@, document_id: document_id@ },
            GetAuthoritativeDocumentRevisionInput::Version { workspace_id, document_id, version_id } => GetAuthoritativeDocumentRevisionInputView::Version { workspace_id: workspace_id@, document_id: document_id@, version_id: version_id@ },
        }
    }
}

impl GetAuthoritativeDocumentRevisionInput {
    pub fn current(workspace_id: &str, document_id: &str) -> (result: Self)
        ensures
            result@ == (GetAuthoritativeDocumentRevisionInputView::Current { workspace_id: workspace_id@, document_id: document_id@ }),
    {
        GetAuthoritativeDocumentRevisionInput::Current { workspace_id: workspace_id.to_string(), document_id: document_id.to_string() }
    }

    pub fn version(workspace_id: &str, document_id: &str, version_id: &str) -> (result: Self)
        ensures
            result@ == (GetAuthoritativeDocumentRevisionInputView::Version { workspace_id: workspace_id@, document_id: document_id@, version_id: version_id@ }),
    {
        GetAuthoritativeDocumentRevisionInput::Version { workspace_id: workspace_id.to_string(), document_id: document_id.to_string(), version_id: version_id.to_string() }
    }

}

#[derive(Debug, Clone, Copy, PartialEq, Eq, Structural)]
pub enum GetAuthoritativeDocumentRevisionError {
    InvalidInput,
    NotFound,
    StorageUnavailable,
    CorruptedData,
}

impl GetAuthoritativeDocumentRevisionError {
    pub fn code(self) -> (result: &'static str)
        ensures
            result@ == match self {
                Self::InvalidInput => "authoritative_document_query.invalid_input"@,
                Self::NotFound => "authoritative_document_query.not_found"@,
                Self::StorageUnavailable => "authoritative_document_query.storage_unavailable"@,
                Self::CorruptedData => "authoritative_document_query.corrupted_data"@,
            },
    {
        match self {
            Self::InvalidInput => "authoritative_document_query.invalid_input",
            Self::NotFound => "authoritative_document_query.not_found",
            Self::StorageUnavailable => "authoritative_document_query.storage_unavailable",
            Self::CorruptedData => "authoritative_document_query.corrupted_data",
        }
    }
}

#[derive(Debug, Clone, Copy, PartialEq, Eq, Structural)]
pub struct GetAuthoritativeDocumentRevisionUsecase;

impl GetAuthoritativeDocumentRevisionUsecase {
    pub fn new() -> (result: Self)
        ensures
            result == (GetAuthoritativeDocumentRevisionUsecase),
    {
        GetAuthoritativeDocumentRevisionUsecase
    }
}

impl Default for GetAuthoritativeDocumentRevisionUsecase {
    fn default() -> (result: Self)
        ensures
            result == (GetAuthoritativeDocumentRevisionUsecase),
    {
        Self::new()
    }
}


/// How this usecase reports each current document version pointer failure.
pub fn map_pointer_error(error: CurrentDocumentVersionPointerError) -> (result: GetAuthoritativeDocumentRevisionError)
    ensures
        result == match error {
            CurrentDocumentVersionPointerError::StorageUnavailable => GetAuthoritativeDocumentRevisionError::StorageUnavailable,
            CurrentDocumentVersionPointerError::Conflict | CurrentDocumentVersionPointerError::CorruptedPointer => GetAuthoritativeDocumentRevisionError::CorruptedData,
        },
{
    match error {
        CurrentDocumentVersionPointerError::StorageUnavailable => GetAuthoritativeDocumentRevisionError::StorageUnavailable,
        CurrentDocumentVersionPointerError::Conflict | CurrentDocumentVersionPointerError::CorruptedPointer => GetAuthoritativeDocumentRevisionError::CorruptedData,
    }
}

/// How this usecase reports each committed version record read failure.
pub fn map_version_error(error: CommittedVersionRecordReadError) -> (result: GetAuthoritativeDocumentRevisionError)
    ensures
        result == match error {
            CommittedVersionRecordReadError::StorageUnavailable => GetAuthoritativeDocumentRevisionError::StorageUnavailable,
            CommittedVersionRecordReadError::CorruptedRecord => GetAuthoritativeDocumentRevisionError::CorruptedData,
        },
{
    match error {
        CommittedVersionRecordReadError::StorageUnavailable => GetAuthoritativeDocumentRevisionError::StorageUnavailable,
        CommittedVersionRecordReadError::CorruptedRecord => GetAuthoritativeDocumentRevisionError::CorruptedData,
    }
}

} // verus!
