use vstd::prelude::*;
use crate::document_diff::{DiffPolicy, DiffPolicyView, DocumentLineDiffService};
use crate::text::{opt_sstr_view, opt_str_view, opt_to_string, opt_ref_view, pairs_view, strings_view};

verus! {
#[derive(Debug, Clone, Copy, PartialEq, Eq, Structural)]
pub struct ExecuteDocumentDiffQueryUsecase {
    diff_service: DocumentLineDiffService,
}

impl View for ExecuteDocumentDiffQueryUsecase {
    type V = DiffPolicyView;

    closed spec fn view(&self) -> DiffPolicyView {
        self.diff_service@
    }
}

impl ExecuteDocumentDiffQueryUsecase {
    pub fn new() -> (result: Self)
        ensures
            result@ == (DiffPolicyView { context_lines: 3, sync_max_bytes: 2097152, sync_max_lines: 100_000, max_hunks: 10_000 }),
    {
        Self::with_diff_service(DocumentLineDiffService::default())
    }

    pub fn with_diff_service(diff_service: DocumentLineDiffService) -> (result: Self)
        ensures
            result@ == diff_service@,
    {
        Self { diff_service: diff_service }
    }
}

impl Default for ExecuteDocumentDiffQueryUsecase {
    fn default() -> (result: Self)
        ensures
            result@ == (DiffPolicyView { context_lines: 3, sync_max_bytes: 2097152, sync_max_lines: 100_000, max_hunks: 10_000 }),
    {
        Self::new()
    }
}

#[derive(Debug, Clone, Copy, PartialEq, Eq, Structural)]
pub enum ExecuteDocumentDiffQueryError {
    NotFound,
    StorageUnavailable,
}

impl ExecuteDocumentDiffQueryError {
    pub fn code(self) -> (result: &'static str)
        ensures
            result@ == match self {
                Self::NotFound => "document.diff_target_not_found"@,
                Self::StorageUnavailable => "document.storage_unavailable"@,
            },
    {
        match self {
            Self::NotFound => "document.diff_target_not_found",
            Self::StorageUnavailable => "document.storage_unavailable",
        }
    }
}
} // verus!
