use vstd::prelude::*;
use crate::authoritative_document_diff::CompareAuthoritativeDocumentRevisionsError;
use crate::text::{opt_sstr_view, opt_str_view, opt_to_string, opt_ref_view, pairs_view, strings_view};
use crate::authoritative_document_diff::CompareAuthoritativeDocumentRevisionsUsecase;
use crate::document_diff::{DiffPolicy, DiffPolicyView, DocumentLineDiffService};

verus! {
#[derive(Debug, Clone, PartialEq, Eq)]
pub struct PreviewAuthoritativeDocumentRestoreInput {
    workspace_id: String,
    document_id: String,
    target_version_id: String,
}

impl View for PreviewAuthoritativeDocumentRestoreInput {
    type V = (Seq<char>, Seq<char>, Seq<char>);

    closed spec fn view(&self) -> (Seq<char>, Seq<char>, Seq<char>) {
        (self.workspace_id@, self.document_id@, self.target_version_id@)
    }
}

impl PreviewAuthoritativeDocumentRestoreInput {
    pub fn new(workspace_id: &str, document_id: &str, target_version_id: &str) -> (result: Self)
        ensures
            result@ == (workspace_id@, document_id@, target_version_id@),
    {
        Self {
            workspace_id: workspace_id.to_string(),
            document_id: document_id.to_string(),
            target_version_id: target_version_id.to_string(),
        }
    }

}

#[derive(Debug, Clone, Copy, PartialEq, Eq, Structural)]
pub enum PreviewAuthoritativeDocumentRestoreError {
    InvalidInput,
    NotFound,
    StorageUnavailable,
    CorruptedData,
}

impl PreviewAuthoritativeDocumentRestoreError {
    pub fn code(self) -> (result: &'static str)
        ensures
            result@ == match self {
                Self::InvalidInput => "document.restore_preview.invalid_input"@,
                Self::NotFound => "document.restore_preview.not_found"@,
                Self::StorageUnavailable => "document.restore_preview.storage_unavailable"@,
                Self::CorruptedData => "document.restore_preview.corrupted_data"@,
            },
    {
        match self {
            Self::InvalidInput => "document.restore_preview.invalid_input",
            Self::NotFound => "document.restore_preview.not_found",
            Self::StorageUnavailable => "document.restore_preview.storage_unavailable",
            Self::CorruptedData => "document.restore_preview.corrupted_data",
        }
    }

    pub fn retryable(self) -> (result: bool)
        ensures
            result == match self {
                Self::InvalidInput => false,
                Self::NotFound => false,
                Self::StorageUnavailable => true,
                Self::CorruptedData => false,
            },
    {
        match self {
            Self::InvalidInput => false,
            Self::NotFound => false,
            Self::StorageUnavailable => true,
            Self::CorruptedData => false,
        }
    }

}

#[derive(Debug, Clone, Copy, PartialEq, Eq, Structural)]
pub struct PreviewAuthoritativeDocumentRestoreUsecase {
    compare: CompareAuthoritativeDocumentRevisionsUsecase,
}

impl View for PreviewAuthoritativeDocumentRestoreUsecase {
    type V = DiffPolicyView;

    closed spec fn view(&self) -> DiffPolicyView {
        self.compare@
    }
}

impl PreviewAuthoritativeDocumentRestoreUsecase {
    pub fn new() -> (result: Self)
        ensures
            result@ == (DiffPolicyView { context_lines: 3, sync_max_bytes: 2097152, sync_max_lines: 100_000, max_hunks: 10_000 }),
    {
        Self::with_policy(DiffPolicy::default())
    }

    pub fn with_policy(policy: DiffPolicy) -> (result: Self)
        ensures
            result@ == policy@,
    {
        Self { compare: CompareAuthoritativeDocumentRevisionsUsecase::with_policy(policy) }
    }
}

impl Default for PreviewAuthoritativeDocumentRestoreUsecase {
    fn default() -> (result: Self)
        ensures
            result@ == (DiffPolicyView { context_lines: 3, sync_max_bytes: 2097152, sync_max_lines: 100_000, max_hunks: 10_000 }),
    {
        Self::new()
    }
}


/// How this usecase reports each compare authoritative document revisions failure.
pub fn map_compare_error(error: CompareAuthoritativeDocumentRevisionsError) -> (result: PreviewAuthoritativeDocumentRestoreError)
    ensures
        result == match error {
            CompareAuthoritativeDocumentRevisionsError::InvalidInput => PreviewAuthoritativeDocumentRestoreError::InvalidInput,
            CompareAuthoritativeDocumentRevisionsError::NotFound => PreviewAuthoritativeDocumentRestoreError::NotFound,
            CompareAuthoritativeDocumentRevisionsError::StorageUnavailable => PreviewAuthoritativeDocumentRestoreError::StorageUnavailable,
            CompareAuthoritativeDocumentRevisionsError::CorruptedData => PreviewAuthoritativeDocumentRestoreError::CorruptedData,
        },
{
    match error {
        CompareAuthoritativeDocumentRevisionsError::InvalidInput => PreviewAuthoritativeDocumentRestoreError::InvalidInput,
        CompareAuthoritativeDocumentRevisionsError::NotFound => PreviewAuthoritativeDocumentRestoreError::NotFound,
        CompareAuthoritativeDocumentRevisionsError::StorageUnavailable => PreviewAuthoritativeDocumentRestoreError::StorageUnavailable,
        CompareAuthoritativeDocumentRevisionsError::CorruptedData => PreviewAuthoritativeDocumentRestoreError::CorruptedData,
    }
}

} // verus!
