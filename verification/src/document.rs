use vstd::prelude::*;
use crate::collaborator_errors::{AssetStoreError, DocumentAssetRepositoryError, DocumentRepositoryError, VersionStoreError};
pub use crate::document_diff::{DiffHunk, DocumentDiffResult, DocumentTitleDelta, LineDiff, LineDiffKind};
use crate::document_diff::{hunks_view, lines_view, DiffComputation, DiffPolicy, DiffPolicyView, DocumentDiffResultView, DocumentLineDiffService};
use crate::document_diff_query::{ExecuteDocumentDiffQueryError, ExecuteDocumentDiffQueryUsecase};
use crate::text::{opt_sstr_view, opt_str_view, opt_to_string, opt_ref_view, pairs_view, strings_view};

verus! {
#[derive(Debug, Clone, PartialEq, Eq)]
pub struct CreateDocumentInput {
    workspace_id: String,
    document_id: String,
    path: String,
    body: String,
    version_id: String,
    snapshot_ref: String,
    author: String,
    summary: String,
}

impl View for CreateDocumentInput {
    type V = (Seq<char>, Seq<char>, Seq<char>, Seq<char>, Seq<char>, Seq<char>, Seq<char>, Seq<char>);

    closed spec fn view(&self) -> (Seq<char>, Seq<char>, Seq<char>, Seq<char>, Seq<char>, Seq<char>, Seq<char>, Seq<char>) {
        (self.workspace_id@, self.document_id@, self.path@, self.body@, self.version_id@, self.snapshot_ref@, self.author@, self.summary@)
    }
}

impl CreateDocumentInput {
    pub fn new(workspace_id: &str, document_id: &str, path: &str, body: &str, version_id: &str, snapshot_ref: &str, author: &str, summary: &str) -> (result: Self)
        ensures
            result@ == (workspace_id@, document_id@, path@, body@, version_id@, snapshot_ref@, author@, summary@),
    {
        Self {
            workspace_id: workspace_id.to_string(),
            document_id: document_id.to_string(),
            path: path.to_string(),
            body: body.to_string(),
            version_id: version_id.to_string(),
            snapshot_ref: snapshot_ref.to_string(),
            author: author.to_string(),
            summary: summary.to_string(),
        }
    }

}

#[derive(Debug, Clone, PartialEq, Eq)]
pub enum DocumentChangeEvent {
    DocumentCreated { workspace_id: String, document_id: String, version_id: String, title: String, path: String },
    DocumentRestored { workspace_id: String, document_id: String, target_version_id: String, restored_version_id: String },
    DocumentUpdated { workspace_id: String, document_id: String, version_id: String, title: String, path: String },
    DocumentRenamed { workspace_id: String, document_id: String, version_id: String, title: String, old_path: String, new_path: String },
    DocumentDeleted { workspace_id: String, document_id: String, version_id: String },
    DocumentAssetAttached { workspace_id: String, document_id: String, version_id: String, asset_id: String },
}

/// [`DocumentChangeEvent`] with its texts as character sequences.
pub enum DocumentChangeEventView {
    DocumentCreated { workspace_id: Seq<char>, document_id: Seq<char>, version_id: Seq<char>, title: Seq<char>, path: Seq<char> },
    DocumentRestored { workspace_id: Seq<char>, document_id: Seq<char>, target_version_id: Seq<char>, restored_version_id: Seq<char> },
    DocumentUpdated { workspace_id: Seq<char>, document_id: Seq<char>, version_id: Seq<char>, title: Seq<char>, path: Seq<char> },
    DocumentRenamed { workspace_id: Seq<char>, document_id: Seq<char>, version_id: Seq<char>, title: Seq<char>, old_path: Seq<char>, new_path: Seq<char> },
    DocumentDeleted { workspace_id: Seq<char>, document_id: Seq<char>, version_id: Seq<char> },
    DocumentAssetAttached { workspace_id: Seq<char>, document_id: Seq<char>, version_id: Seq<char>, asset_id: Seq<char> },
}

impl View for DocumentChangeEvent {
    type V = DocumentChangeEventView;

    open spec fn view(&self) -> DocumentChangeEventView {
        match self {
            DocumentChangeEvent::DocumentCreated { workspace_id, document_id, version_id, title, path } => DocumentChangeEventView::DocumentCreated { workspace_id: workspace_id@, document_id: document_id@, version_id: version_id@, title: title@, path: path@ },
            DocumentChangeEvent::DocumentRestored { workspace_id, document_id, target_version_id, restored_version_id } => DocumentChangeEventView::DocumentRestored { workspace_id: workspace_id@, document_id: document_id@, target_version_id: target_version_id@, restored_version_id: restored_version_id@ },
            DocumentChangeEvent::DocumentUpdated { workspace_id, document_id, version_id, title, path } => DocumentChangeEventView::DocumentUpdated { workspace_id: workspace_id@, document_id: document_id@, version_id: version_id@, title: title@, path: path@ },
            DocumentChangeEvent::DocumentRenamed { workspace_id, document_id, version_id, title, old_path, new_path } => DocumentChangeEventView::DocumentRenamed { workspace_id: workspace_id@, document_id: document_id@, version_id: version_id@, title: title@, old_path: old_path@, new_path: new_path@ },
            DocumentChangeEvent::DocumentDeleted { workspace_id, document_id, version_id } => DocumentChangeEventView::DocumentDeleted { workspace_id: workspace_id@, document_id: document_id@, version_id: version_id@ },
            DocumentChangeEvent::DocumentAssetAttached { workspace_id, document_id, version_id, asset_id } => DocumentChangeEventView::DocumentAssetAttached { workspace_id: workspace_id@, document_id: document_id@, version_id: version_id@, asset_id: asset_id@ },
        }
    }
}

pub trait DocumentChangeEventPublisher {
    fn publish(&mut self, event: DocumentChangeEvent);
}

#[derive(Debug, Clone, PartialEq, Eq)]
pub enum CreateDocumentProductEvent {
    DocumentCreated { document_id: String },
    DocumentRestored { document_id: String, restored_version_id: String },
    DocumentUpdated { document_id: String, version_id: String },
    DocumentRenamed { document_id: String },
    DocumentDeleted { document_id: String },
    DocumentAssetAttached { document_id: String, asset_id: String },
    UsecaseFailed { error_code: &'static str },
}

/// [`CreateDocumentProductEvent`] with its texts as character sequences.
pub enum CreateDocumentProductEventView {
    DocumentCreated { document_id: Seq<char> },
    DocumentRestored { document_id: Seq<char>, restored_version_id: Seq<char> },
    DocumentUpdated { document_id: Seq<char>, version_id: Seq<char> },
    DocumentRenamed { document_id: Seq<char> },
    DocumentDeleted { document_id: Seq<char> },
    DocumentAssetAttached { document_id: Seq<char>, asset_id: Seq<char> },
    UsecaseFailed { error_code: Seq<char> },
}

impl View for CreateDocumentProductEvent {
    type V = CreateDocumentProductEventView;

    open spec fn view(&self) -> CreateDocumentProductEventView {
        match self {
            CreateDocumentProductEvent::DocumentCreated { document_id } => CreateDocumentProductEventView::DocumentCreated { document_id: document_id@ },
            CreateDocumentProductEvent::DocumentRestored { document_id, restored_version_id } => CreateDocumentProductEventView::DocumentRestored { document_id: document_id@, restored_version_id: restored_version_id@ },
            CreateDocumentProductEvent::DocumentUpdated { document_id, version_id } => CreateDocumentProductEventView::DocumentUpdated { document_id: document_id@, version_id: version_id@ },
            CreateDocumentProductEvent::DocumentRenamed { document_id } => CreateDocumentProductEventView::DocumentRenamed { document_id: document_id@ },
            CreateDocumentProductEvent::DocumentDeleted { document_id } => CreateDocumentProductEventView::DocumentDeleted { document_id: document_id@ },
            CreateDocumentProductEvent::DocumentAssetAttached { document_id, asset_id } => CreateDocumentProductEventView::DocumentAssetAttached { document_id: document_id@, asset_id: asset_id@ },
            CreateDocumentProductEvent::UsecaseFailed { error_code } => CreateDocumentProductEventView::UsecaseFailed { error_code: error_code@ },
        }
    }
}

impl CreateDocumentProductEvent {
    pub fn usecase_failed(error_code: &'static str) -> (result: Self)
        ensures
            result@ == (CreateDocumentProductEventView::UsecaseFailed { error_code: error_code@ }),
    {
        CreateDocumentProductEvent::UsecaseFailed { error_code: error_code }
    }

}

pub trait DocumentProductLogger {
    fn write_product(&mut self, event: CreateDocumentProductEvent);
}

#[derive(Debug, Clone, PartialEq, Eq)]
pub enum GetCurrentDocumentInput {
    ById { workspace_id: String, document_id: String },
    ByPath { workspace_id: String, path: String },
}

/// [`GetCurrentDocumentInput`] with its texts as character sequences.
pub enum GetCurrentDocumentInputView {
    ById { workspace_id: Seq<char>, document_id: Seq<char> },
    ByPath { workspace_id: Seq<char>, path: Seq<char> },
}

impl View for GetCurrentDocumentInput {
    type V = GetCurrentDocumentInputView;

    open spec fn view(&self) -> GetCurrentDocumentInputView {
        match self {
            GetCurrentDocumentInput::ById { workspace_id, document_id } => GetCurrentDocumentInputView::ById { workspace_id: workspace_id@, document_id: document_id@ },
            GetCurrentDocumentInput::ByPath { workspace_id, path } => GetCurrentDocumentInputView::ByPath { workspace_id: workspace_id@, path: path@ },
        }
    }
}

impl GetCurrentDocumentInput {
    pub fn by_id(workspace_id: &str, document_id: &str) -> (result: Self)
        ensures
            result@ == (GetCurrentDocumentInputView::ById { workspace_id: workspace_id@, document_id: document_id@ }),
    {
        GetCurrentDocumentInput::ById { workspace_id: workspace_id.to_string(), document_id: document_id.to_string() }
    }

    pub fn by_path(workspace_id: &str, path: &str) -> (result: Self)
        ensures
            result@ == (GetCurrentDocumentInputView::ByPath { workspace_id: workspace_id@, path: path@ }),
    {
        GetCurrentDocumentInput::ByPath { workspace_id: workspace_id.to_string(), path: path.to_string() }
    }

}

#[derive(Debug, Clone, Copy, PartialEq, Eq, Structural)]
pub struct GetCurrentDocumentUsecase;

impl GetCurrentDocumentUsecase {
    pub fn new() -> (result: Self)
        ensures
            result == (GetCurrentDocumentUsecase),
    {
        GetCurrentDocumentUsecase
    }
}

impl Default for GetCurrentDocumentUsecase {
    fn default() -> (result: Self)
        ensures
            result == (GetCurrentDocumentUsecase),
    {
        Self::new()
    }
}

#[derive(Debug, Clone, Copy, PartialEq, Eq, Structural)]
pub enum GetCurrentDocumentError {
    InvalidInput,
    NotFound,
    StorageUnavailable,
}

impl GetCurrentDocumentError {
    pub fn code(self) -> (result: &'static str)
        ensures
            result@ == match self {
                Self::InvalidInput => "document.invalid_input"@,
                Self::NotFound => "document.not_found"@,
                Self::StorageUnavailable => "document.storage_unavailable"@,
            },
    {
        match self {
            Self::InvalidInput => "document.invalid_input",
            Self::NotFound => "document.not_found",
            Self::StorageUnavailable => "document.storage_unavailable",
        }
    }
}

#[derive(Debug, Clone, PartialEq, Eq)]
pub struct GetDocumentVersionInput {
    workspace_id: String,
    document_id: String,
    version_id: String,
}

impl View for GetDocumentVersionInput {
    type V = (Seq<char>, Seq<char>, Seq<char>);

    closed spec fn view(&self) -> (Seq<char>, Seq<char>, Seq<char>) {
        (self.workspace_id@, self.document_id@, self.version_id@)
    }
}

impl GetDocumentVersionInput {
    pub fn new(workspace_id: &str, document_id: &str, version_id: &str) -> (result: Self)
        ensures
            result@ == (workspace_id@, document_id@, version_id@),
    {
        Self {
            workspace_id: workspace_id.to_string(),
            document_id: document_id.to_string(),
            version_id: version_id.to_string(),
        }
    }

}

#[derive(Debug, Clone, Copy, PartialEq, Eq, Structural)]
pub struct GetDocumentVersionUsecase;

impl GetDocumentVersionUsecase {
    pub fn new() -> (result: Self)
        ensures
            result == (GetDocumentVersionUsecase),
    {
        GetDocumentVersionUsecase
    }
}

impl Default for GetDocumentVersionUsecase {
    fn default() -> (result: Self)
        ensures
            result == (GetDocumentVersionUsecase),
    {
        Self::new()
    }
}

#[derive(Debug, Clone, Copy, PartialEq, Eq, Structural)]
pub enum GetDocumentVersionError {
    InvalidInput,
    NotFound,
    StorageUnavailable,
}

impl GetDocumentVersionError {
    pub fn code(self) -> (result: &'static str)
        ensures
            result@ == match self {
                Self::InvalidInput => "document.invalid_input"@,
                Self::NotFound => "document.version_not_found"@,
                Self::StorageUnavailable => "document.storage_unavailable"@,
            },
    {
        match self {
            Self::InvalidInput => "document.invalid_input",
            Self::NotFound => "document.version_not_found",
            Self::StorageUnavailable => "document.storage_unavailable",
        }
    }
}

#[derive(Debug, Clone, PartialEq, Eq)]
pub struct GetDocumentHistoryInput {
    workspace_id: String,
    document_id: String,
    cursor: Option<String>,
    limit: usize,
}

impl View for GetDocumentHistoryInput {
    type V = (Seq<char>, Seq<char>, Option<Seq<char>>, usize);

    closed spec fn view(&self) -> (Seq<char>, Seq<char>, Option<Seq<char>>, usize) {
        (self.workspace_id@, self.document_id@, opt_str_view(self.cursor), self.limit)
    }
}

impl GetDocumentHistoryInput {
    pub fn new(workspace_id: &str, document_id: &str, cursor: Option<&str>, limit: usize) -> (result: Self)
        ensures
            result@ == (workspace_id@, document_id@, opt_ref_view(cursor), limit),
    {
        Self {
            workspace_id: workspace_id.to_string(),
            document_id: document_id.to_string(),
            cursor: opt_to_string(cursor),
            limit: limit,
        }
    }

}

#[derive(Debug, Clone, Copy, PartialEq, Eq, Structural)]
pub struct GetDocumentHistoryUsecase;

impl GetDocumentHistoryUsecase {
    pub fn new() -> (result: Self)
        ensures
            result == (GetDocumentHistoryUsecase),
    {
        GetDocumentHistoryUsecase
    }
}

impl Default for GetDocumentHistoryUsecase {
    fn default() -> (result: Self)
        ensures
            result == (GetDocumentHistoryUsecase),
    {
        Self::new()
    }
}

#[derive(Debug, Clone, Copy, PartialEq, Eq, Structural)]
pub enum GetDocumentHistoryError {
    InvalidInput,
    StorageUnavailable,
}

impl GetDocumentHistoryError {
    pub fn code(self) -> (result: &'static str)
        ensures
            result@ == match self {
                Self::InvalidInput => "document.invalid_input"@,
                Self::StorageUnavailable => "document.storage_unavailable"@,
            },
    {
        match self {
            Self::InvalidInput => "document.invalid_input",
            Self::StorageUnavailable => "document.storage_unavailable",
        }
    }
}

#[derive(Debug, Clone, PartialEq, Eq)]
pub enum CompareDocumentVersionsInput {
    CurrentToVersion { workspace_id: String, document_id: String, version_id: String },
    Versions { workspace_id: String, document_id: String, left_version_id: String, right_version_id: String },
}

/// [`CompareDocumentVersionsInput`] with its texts as character sequences.
pub enum CompareDocumentVersionsInputView {
    CurrentToVersion { workspace_id: Seq<char>, document_id: Seq<char>, version_id: Seq<char> },
    Versions { workspace_id: Seq<char>, document_id: Seq<char>, left_version_id: Seq<char>, right_version_id: Seq<char> },
}

impl View for CompareDocumentVersionsInput {
    type V = CompareDocumentVersionsInputView;

    open spec fn view(&self) -> CompareDocumentVersionsInputView {
        match self {
            CompareDocumentVersionsInput::CurrentToVersion { workspace_id, document_id, version_id } => CompareDocumentVersionsInputView::CurrentToVersion { workspace_id: workspace_id@, document_id: document_id@, version_id: version_id@ },
            CompareDocumentVersionsInput::Versions { workspace_id, document_id, left_version_id, right_version_id } => CompareDocumentVersionsInputView::Versions { workspace_id: workspace_id@, document_id: document_id@, left_version_id: left_version_id@, right_version_id: right_version_id@ },
        }
    }
}

impl CompareDocumentVersionsInput {
    pub fn current_to_version(workspace_id: &str, document_id: &str, version_id: &str) -> (result: Self)
        ensures
            result@ == (CompareDocumentVersionsInputView::CurrentToVersion { workspace_id: workspace_id@, document_id: document_id@, version_id: version_id@ }),
    {
        CompareDocumentVersionsInput::CurrentToVersion { workspace_id: workspace_id.to_string(), document_id: document_id.to_string(), version_id: version_id.to_string() }
    }

    pub fn versions(workspace_id: &str, document_id: &str, left_version_id: &str, right_version_id: &str) -> (result: Self)
        ensures
            result@ == (CompareDocumentVersionsInputView::Versions { workspace_id: workspace_id@, document_id: document_id@, left_version_id: left_version_id@, right_version_id: right_version_id@ }),
    {
        CompareDocumentVersionsInput::Versions { workspace_id: workspace_id.to_string(), document_id: document_id.to_string(), left_version_id: left_version_id.to_string(), right_version_id: right_version_id.to_string() }
    }

}

#[derive(Debug, Clone, PartialEq, Eq)]
pub struct CompareDocumentVersionsOutput {
    diff: DocumentDiffResult,
}

impl View for CompareDocumentVersionsOutput {
    type V = DocumentDiffResultView;

    closed spec fn view(&self) -> DocumentDiffResultView {
        self.diff@
    }
}

impl CompareDocumentVersionsOutput {
    pub fn lines(&self) -> (result: &[LineDiff])
        ensures
            lines_view(result@) == self@.lines,
    {
        self.diff.lines()
    }

    pub fn hunks(&self) -> (result: &[DiffHunk])
        ensures
            hunks_view(result@) == self@.hunks,
    {
        self.diff.hunks()
    }

    pub fn diff(&self) -> (result: &DocumentDiffResult)
        ensures
            result@ == self@,
    {
        &self.diff
    }

    pub fn title_delta(&self) -> (result: &DocumentTitleDelta)
        ensures
            result@ == self@.title_delta,
    {
        self.diff.title_delta()
    }
}

/// What a version comparison answers once the diff has been computed: the
/// diff when it is complete, else that it is too large.
pub fn compare_versions_outcome(computation: DiffComputation) -> (result: Result<CompareDocumentVersionsOutput, CompareDocumentVersionsError>)
    ensures
        match computation {
            DiffComputation::Complete(diff) => result is Ok && result->Ok_0@ == diff@,
            DiffComputation::TooLarge(_) => result == Err::<CompareDocumentVersionsOutput, CompareDocumentVersionsError>(CompareDocumentVersionsError::TooLarge),
        },
{
    match computation {
        DiffComputation::Complete(diff) => Ok(CompareDocumentVersionsOutput { diff }),
        DiffComputation::TooLarge(_) => Err(CompareDocumentVersionsError::TooLarge),
    }
}

/// What a restore preview answers once the diff has been computed: the diff,
/// which can be restored, when it is complete, else that it is too large.
pub fn restore_preview_outcome(computation: DiffComputation) -> (result: Result<(bool, DocumentDiffResult), PreviewDocumentRestoreError>)
    ensures
        match computation {
            DiffComputation::Complete(diff) => result is Ok && result->Ok_0.0 && result->Ok_0.1@ == diff@,
            DiffComputation::TooLarge(_) => result == Err::<(bool, DocumentDiffResult), PreviewDocumentRestoreError>(PreviewDocumentRestoreError::TooLarge),
        },
{
    match computation {
        DiffComputation::Complete(diff) => Ok((true, diff)),
        DiffComputation::TooLarge(_) => Err(PreviewDocumentRestoreError::TooLarge),
    }
}

impl CompareDocumentVersionsError {
    /// How a failed diff query reads to a version comparison.
    pub fn from_executor_error(error: ExecuteDocumentDiffQueryError) -> (result: Self)
        ensures
            result == match error {
                ExecuteDocumentDiffQueryError::NotFound => CompareDocumentVersionsError::NotFound,
                ExecuteDocumentDiffQueryError::StorageUnavailable => CompareDocumentVersionsError::StorageUnavailable,
            },
    {
        match error {
            ExecuteDocumentDiffQueryError::NotFound => Self::NotFound,
            ExecuteDocumentDiffQueryError::StorageUnavailable => Self::StorageUnavailable,
        }
    }
}

#[derive(Debug, Clone, Copy, PartialEq, Eq, Structural)]
pub struct CompareDocumentVersionsUsecase {
    executor: ExecuteDocumentDiffQueryUsecase,
}

impl View for CompareDocumentVersionsUsecase {
    type V = DiffPolicyView;

    closed spec fn view(&self) -> DiffPolicyView {
        self.executor@
    }
}

impl CompareDocumentVersionsUsecase {
    pub fn new() -> (result: Self)
        ensures
            result@ == (DiffPolicyView { context_lines: 3, sync_max_bytes: 2097152, sync_max_lines: 100_000, max_hunks: 10_000 }),
    {
        Self::with_diff_service(DocumentLineDiffService::default())
    }

    pub fn with_diff_service(diff_service: DocumentLineDiffService) -> (result: Self)
        ensures
            result@ == diff_service@,
    {
        Self { executor: ExecuteDocumentDiffQueryUsecase::with_diff_service(diff_service) }
    }
}

impl Default for CompareDocumentVersionsUsecase {
    fn default() -> (result: Self)
        ensures
            result@ == (DiffPolicyView { context_lines: 3, sync_max_bytes: 2097152, sync_max_lines: 100_000, max_hunks: 10_000 }),
    {
        Self::new()
    }
}

#[derive(Debug, Clone, Copy, PartialEq, Eq, Structural)]
pub enum CompareDocumentVersionsError {
    InvalidInput,
    NotFound,
    TooLarge,
    StorageUnavailable,
}

impl CompareDocumentVersionsError {
    pub fn code(self) -> (result: &'static str)
        ensures
            result@ == match self {
                Self::InvalidInput => "document.invalid_input"@,
                Self::NotFound => "document.diff_target_not_found"@,
                Self::TooLarge => "document.diff_too_large"@,
                Self::StorageUnavailable => "document.storage_unavailable"@,
            },
    {
        match self {
            Self::InvalidInput => "document.invalid_input",
            Self::NotFound => "document.diff_target_not_found",
            Self::TooLarge => "document.diff_too_large",
            Self::StorageUnavailable => "document.storage_unavailable",
        }
    }

    pub fn retryable(self) -> (result: bool)
        ensures
            result == match self {
                Self::InvalidInput => false,
                Self::NotFound => false,
                Self::TooLarge => true,
                Self::StorageUnavailable => true,
            },
    {
        match self {
            Self::InvalidInput => false,
            Self::NotFound => false,
            Self::TooLarge => true,
            Self::StorageUnavailable => true,
        }
    }

}

#[derive(Debug, Clone, PartialEq, Eq)]
pub struct PreviewDocumentRestoreInput {
    workspace_id: String,
    document_id: String,
    target_version_id: String,
}

impl View for PreviewDocumentRestoreInput {
    type V = (Seq<char>, Seq<char>, Seq<char>);

    closed spec fn view(&self) -> (Seq<char>, Seq<char>, Seq<char>) {
        (self.workspace_id@, self.document_id@, self.target_version_id@)
    }
}

impl PreviewDocumentRestoreInput {
    pub fn new(workspace_id: &str, document_id: &str, target_version_id: &str) -> (result: Self)
        ensures
            result@ == (workspace_id@, document_id@, target_version_id@),
    {
        Self {
            workspace_id: workspace_id.to_string(),
            document_id: document_id.to_string(),
            target_version_id: target_version_id.to_string(),
        }
    }

}

#[derive(Debug, Clone, Copy, PartialEq, Eq, Structural)]
pub struct PreviewDocumentRestoreUsecase {
    diff_service: DocumentLineDiffService,
}

impl View for PreviewDocumentRestoreUsecase {
    type V = DiffPolicyView;

    closed spec fn view(&self) -> DiffPolicyView {
        self.diff_service@
    }
}

impl PreviewDocumentRestoreUsecase {
    pub fn new() -> (result: Self)
        ensures
            result@ == (DiffPolicyView { context_lines: 3, sync_max_bytes: 2097152, sync_max_lines: 100_000, max_hunks: 10_000 }),
    {
        Self::with_diff_service(DocumentLineDiffService::default())
    }

    pub fn with_diff_service(diff_service: DocumentLineDiffService) -> (result: Self)
        ensures
            result@ == diff_service@,
    {
        Self { diff_service: diff_service }
    }
}

impl Default for PreviewDocumentRestoreUsecase {
    fn default() -> (result: Self)
        ensures
            result@ == (DiffPolicyView { context_lines: 3, sync_max_bytes: 2097152, sync_max_lines: 100_000, max_hunks: 10_000 }),
    {
        Self::new()
    }
}

#[derive(Debug, Clone, Copy, PartialEq, Eq, Structural)]
pub enum PreviewDocumentRestoreError {
    InvalidInput,
    NotFound,
    TooLarge,
    StorageUnavailable,
}

impl PreviewDocumentRestoreError {
    pub fn code(self) -> (result: &'static str)
        ensures
            result@ == match self {
                Self::InvalidInput => "document.invalid_input"@,
                Self::NotFound => "document.restore_target_not_found"@,
                Self::TooLarge => "document.diff_too_large"@,
                Self::StorageUnavailable => "document.storage_unavailable"@,
            },
    {
        match self {
            Self::InvalidInput => "document.invalid_input",
            Self::NotFound => "document.restore_target_not_found",
            Self::TooLarge => "document.diff_too_large",
            Self::StorageUnavailable => "document.storage_unavailable",
        }
    }

    pub fn retryable(self) -> (result: bool)
        ensures
            result == match self {
                Self::InvalidInput => false,
                Self::NotFound => false,
                Self::TooLarge => true,
                Self::StorageUnavailable => true,
            },
    {
        match self {
            Self::InvalidInput => false,
            Self::NotFound => false,
            Self::TooLarge => true,
            Self::StorageUnavailable => true,
        }
    }

}

#[derive(Debug, Clone, PartialEq, Eq)]
pub struct RestoreDocumentVersionInput {
    workspace_id: String,
    document_id: String,
    target_version_id: String,
    restored_version_id: String,
    restored_snapshot_ref: String,
    author: String,
    summary: String,
}

impl View for RestoreDocumentVersionInput {
    type V = (Seq<char>, Seq<char>, Seq<char>, Seq<char>, Seq<char>, Seq<char>, Seq<char>);

    closed spec fn view(&self) -> (Seq<char>, Seq<char>, Seq<char>, Seq<char>, Seq<char>, Seq<char>, Seq<char>) {
        (self.workspace_id@, self.document_id@, self.target_version_id@, self.restored_version_id@, self.restored_snapshot_ref@, self.author@, self.summary@)
    }
}

impl RestoreDocumentVersionInput {
    pub fn new(workspace_id: &str, document_id: &str, target_version_id: &str, restored_version_id: &str, restored_snapshot_ref: &str, author: &str, summary: &str) -> (result: Self)
        ensures
            result@ == (workspace_id@, document_id@, target_version_id@, restored_version_id@, restored_snapshot_ref@, author@, summary@),
    {
        Self {
            workspace_id: workspace_id.to_string(),
            document_id: document_id.to_string(),
            target_version_id: target_version_id.to_string(),
            restored_version_id: restored_version_id.to_string(),
            restored_snapshot_ref: restored_snapshot_ref.to_string(),
            author: author.to_string(),
            summary: summary.to_string(),
        }
    }

}

#[derive(Debug, Clone, Copy, PartialEq, Eq, Structural)]
pub enum RestoreDocumentVersionState {
    Requested,
    LoadingCurrent,
    LoadingTarget,
    WritingRestoreVersion,
    UpdatingCurrent,
    Completed,
    Failed,
}

#[derive(Debug, Clone, Copy, PartialEq, Eq, Structural)]
pub struct RestoreDocumentVersionUsecase;

impl RestoreDocumentVersionUsecase {
    pub fn new() -> (result: Self)
        ensures
            result == (RestoreDocumentVersionUsecase),
    {
        RestoreDocumentVersionUsecase
    }
}

impl Default for RestoreDocumentVersionUsecase {
    fn default() -> (result: Self)
        ensures
            result == (RestoreDocumentVersionUsecase),
    {
        Self::new()
    }
}

#[derive(Debug, Clone, Copy, PartialEq, Eq, Structural)]
pub enum RestoreDocumentVersionError {
    InvalidInput { final_state: RestoreDocumentVersionState },
    NotFound { final_state: RestoreDocumentVersionState },
    StorageUnavailable { final_state: RestoreDocumentVersionState },
}

impl RestoreDocumentVersionError {
    pub fn code(self) -> (result: &'static str)
        ensures
            result@ == match self {
                Self::InvalidInput { .. } => "document.invalid_input"@,
                Self::NotFound { .. } => "document.restore_target_not_found"@,
                Self::StorageUnavailable { .. } => "document.storage_unavailable"@,
            },
    {
        match self {
            Self::InvalidInput { .. } => "document.invalid_input",
            Self::NotFound { .. } => "document.restore_target_not_found",
            Self::StorageUnavailable { .. } => "document.storage_unavailable",
        }
    }

    pub fn final_state(self) -> (result: RestoreDocumentVersionState)
        ensures
            result == match self {
                Self::InvalidInput { final_state } => final_state,
                Self::NotFound { final_state } => final_state,
                Self::StorageUnavailable { final_state } => final_state,
            },
    {
        match self {
            Self::InvalidInput { final_state } | Self::NotFound { final_state } | Self::StorageUnavailable { final_state } => final_state,
        }
    }

    pub fn invalid_input(final_state: RestoreDocumentVersionState) -> (result: Self)
        ensures
            result == (Self::InvalidInput { final_state }),
    {
        Self::InvalidInput { final_state }
    }

    pub fn not_found(final_state: RestoreDocumentVersionState) -> (result: Self)
        ensures
            result == (Self::NotFound { final_state }),
    {
        Self::NotFound { final_state }
    }

    pub fn storage_unavailable(final_state: RestoreDocumentVersionState) -> (result: Self)
        ensures
            result == (Self::StorageUnavailable { final_state }),
    {
        Self::StorageUnavailable { final_state }
    }
}

#[derive(Debug, Clone, PartialEq, Eq)]
pub struct UpdateDocumentInput {
    workspace_id: String,
    document_id: String,
    body: String,
    version_id: String,
    snapshot_ref: String,
    author: String,
    summary: String,
}

impl View for UpdateDocumentInput {
    type V = (Seq<char>, Seq<char>, Seq<char>, Seq<char>, Seq<char>, Seq<char>, Seq<char>);

    closed spec fn view(&self) -> (Seq<char>, Seq<char>, Seq<char>, Seq<char>, Seq<char>, Seq<char>, Seq<char>) {
        (self.workspace_id@, self.document_id@, self.body@, self.version_id@, self.snapshot_ref@, self.author@, self.summary@)
    }
}

impl UpdateDocumentInput {
    pub fn new(workspace_id: &str, document_id: &str, body: &str, version_id: &str, snapshot_ref: &str, author: &str, summary: &str) -> (result: Self)
        ensures
            result@ == (workspace_id@, document_id@, body@, version_id@, snapshot_ref@, author@, summary@),
    {
        Self {
            workspace_id: workspace_id.to_string(),
            document_id: document_id.to_string(),
            body: body.to_string(),
            version_id: version_id.to_string(),
            snapshot_ref: snapshot_ref.to_string(),
            author: author.to_string(),
            summary: summary.to_string(),
        }
    }

}

#[derive(Debug, Clone, Copy, PartialEq, Eq, Structural)]
pub enum UpdateDocumentError {
    InvalidDocumentInput,
    NotFound,
    VersionAlreadyExists,
    StorageUnavailable,
}

impl UpdateDocumentError {
    pub fn code(self) -> (result: &'static str)
        ensures
            result@ == match self {
                Self::InvalidDocumentInput => "document.invalid_input"@,
                Self::NotFound => "document.not_found"@,
                Self::VersionAlreadyExists => "document.version_already_exists"@,
                Self::StorageUnavailable => "document.storage_unavailable"@,
            },
    {
        match self {
            Self::InvalidDocumentInput => "document.invalid_input",
            Self::NotFound => "document.not_found",
            Self::VersionAlreadyExists => "document.version_already_exists",
            Self::StorageUnavailable => "document.storage_unavailable",
        }
    }
}

#[derive(Debug, Clone, PartialEq, Eq)]
pub struct RenameDocumentInput {
    workspace_id: String,
    document_id: String,
    version_id: String,
    title: String,
    path: String,
}

impl View for RenameDocumentInput {
    type V = (Seq<char>, Seq<char>, Seq<char>, Seq<char>, Seq<char>);

    closed spec fn view(&self) -> (Seq<char>, Seq<char>, Seq<char>, Seq<char>, Seq<char>) {
        (self.workspace_id@, self.document_id@, self.version_id@, self.title@, self.path@)
    }
}

impl RenameDocumentInput {
    pub fn new(workspace_id: &str, document_id: &str, version_id: &str, title: &str, path: &str) -> (result: Self)
        ensures
            result@ == (workspace_id@, document_id@, version_id@, title@, path@),
    {
        Self {
            workspace_id: workspace_id.to_string(),
            document_id: document_id.to_string(),
            version_id: version_id.to_string(),
            title: title.to_string(),
            path: path.to_string(),
        }
    }

}

#[derive(Debug, Clone, Copy, PartialEq, Eq, Structural)]
pub struct RenameDocumentUsecase;

impl RenameDocumentUsecase {
    pub fn new() -> (result: Self)
        ensures
            result == (RenameDocumentUsecase),
    {
        RenameDocumentUsecase
    }
}

impl Default for RenameDocumentUsecase {
    fn default() -> (result: Self)
        ensures
            result == (RenameDocumentUsecase),
    {
        Self::new()
    }
}

#[derive(Debug, Clone, Copy, PartialEq, Eq, Structural)]
pub enum RenameDocumentError {
    InvalidDocumentInput,
    NotFound,
    StorageUnavailable,
}

impl RenameDocumentError {
    pub fn code(self) -> (result: &'static str)
        ensures
            result@ == match self {
                Self::InvalidDocumentInput => "document.invalid_input"@,
                Self::NotFound => "document.not_found"@,
                Self::StorageUnavailable => "document.storage_unavailable"@,
            },
    {
        match self {
            Self::InvalidDocumentInput => "document.invalid_input",
            Self::NotFound => "document.not_found",
            Self::StorageUnavailable => "document.storage_unavailable",
        }
    }
}

#[derive(Debug, Clone, PartialEq, Eq)]
pub struct DeleteDocumentInput {
    workspace_id: String,
    document_id: String,
    version_id: String,
}

impl View for DeleteDocumentInput {
    type V = (Seq<char>, Seq<char>, Seq<char>);

    closed spec fn view(&self) -> (Seq<char>, Seq<char>, Seq<char>) {
        (self.workspace_id@, self.document_id@, self.version_id@)
    }
}

impl DeleteDocumentInput {
    pub fn new(workspace_id: &str, document_id: &str, version_id: &str) -> (result: Self)
        ensures
            result@ == (workspace_id@, document_id@, version_id@),
    {
        Self {
            workspace_id: workspace_id.to_string(),
            document_id: document_id.to_string(),
            version_id: version_id.to_string(),
        }
    }

}

#[derive(Debug, Clone, Copy, PartialEq, Eq, Structural)]
pub struct DeleteDocumentUsecase;

impl DeleteDocumentUsecase {
    pub fn new() -> (result: Self)
        ensures
            result == (DeleteDocumentUsecase),
    {
        DeleteDocumentUsecase
    }
}

impl Default for DeleteDocumentUsecase {
    fn default() -> (result: Self)
        ensures
            result == (DeleteDocumentUsecase),
    {
        Self::new()
    }
}

#[derive(Debug, Clone, Copy, PartialEq, Eq, Structural)]
pub enum DeleteDocumentError {
    InvalidDocumentInput,
    NotFound,
    StorageUnavailable,
}

impl DeleteDocumentError {
    pub fn code(self) -> (result: &'static str)
        ensures
            result@ == match self {
                Self::InvalidDocumentInput => "document.invalid_input"@,
                Self::NotFound => "document.not_found"@,
                Self::StorageUnavailable => "document.storage_unavailable"@,
            },
    {
        match self {
            Self::InvalidDocumentInput => "document.invalid_input",
            Self::NotFound => "document.not_found",
            Self::StorageUnavailable => "document.storage_unavailable",
        }
    }
}

#[derive(Debug, Clone, PartialEq, Eq)]
pub struct AttachFileToDocumentInput {
    workspace_id: String,
    document_id: String,
    version_id: String,
    asset_id: String,
    file_name: String,
    media_type: String,
    bytes: Vec<u8>,
    label: String,
}

impl View for AttachFileToDocumentInput {
    type V = (Seq<char>, Seq<char>, Seq<char>, Seq<char>, Seq<char>, Seq<char>, <Vec<u8> as View>::V, Seq<char>);

    closed spec fn view(&self) -> (Seq<char>, Seq<char>, Seq<char>, Seq<char>, Seq<char>, Seq<char>, <Vec<u8> as View>::V, Seq<char>) {
        (self.workspace_id@, self.document_id@, self.version_id@, self.asset_id@, self.file_name@, self.media_type@, self.bytes@, self.label@)
    }
}

impl AttachFileToDocumentInput {
    pub fn new(workspace_id: &str, document_id: &str, version_id: &str, asset_id: &str, file_name: &str, media_type: &str, bytes: Vec<u8>, label: &str) -> (result: Self)
        ensures
            result@ == (workspace_id@, document_id@, version_id@, asset_id@, file_name@, media_type@, bytes@, label@),
    {
        Self {
            workspace_id: workspace_id.to_string(),
            document_id: document_id.to_string(),
            version_id: version_id.to_string(),
            asset_id: asset_id.to_string(),
            file_name: file_name.to_string(),
            media_type: media_type.to_string(),
            bytes: bytes,
            label: label.to_string(),
        }
    }

}

#[derive(Debug, Clone, Copy, PartialEq, Eq, Structural)]
pub struct AttachFileToDocumentUsecase;

impl AttachFileToDocumentUsecase {
    pub fn new() -> (result: Self)
        ensures
            result == (AttachFileToDocumentUsecase),
    {
        AttachFileToDocumentUsecase
    }
}

impl Default for AttachFileToDocumentUsecase {
    fn default() -> (result: Self)
        ensures
            result == (AttachFileToDocumentUsecase),
    {
        Self::new()
    }
}

#[derive(Debug, Clone, Copy, PartialEq, Eq, Structural)]
pub enum AttachFileToDocumentError {
    InvalidInput,
    DocumentNotFound,
    StorageUnavailable,
}

impl AttachFileToDocumentError {
    pub fn code(self) -> (result: &'static str)
        ensures
            result@ == match self {
                Self::InvalidInput => "document_asset.invalid_input"@,
                Self::DocumentNotFound => "document_asset.document_not_found"@,
                Self::StorageUnavailable => "document_asset.storage_unavailable"@,
            },
    {
        match self {
            Self::InvalidInput => "document_asset.invalid_input",
            Self::DocumentNotFound => "document_asset.document_not_found",
            Self::StorageUnavailable => "document_asset.storage_unavailable",
        }
    }
}

#[derive(Debug, Clone, PartialEq, Eq)]
pub struct ListDocumentAssetsInput {
    workspace_id: String,
    document_id: String,
}

impl View for ListDocumentAssetsInput {
    type V = (Seq<char>, Seq<char>);

    closed spec fn view(&self) -> (Seq<char>, Seq<char>) {
        (self.workspace_id@, self.document_id@)
    }
}

impl ListDocumentAssetsInput {
    pub fn new(workspace_id: &str, document_id: &str) -> (result: Self)
        ensures
            result@ == (workspace_id@, document_id@),
    {
        Self {
            workspace_id: workspace_id.to_string(),
            document_id: document_id.to_string(),
        }
    }

}

#[derive(Debug, Clone, Copy, PartialEq, Eq, Structural)]
pub struct ListDocumentAssetsUsecase;

impl ListDocumentAssetsUsecase {
    pub fn new() -> (result: Self)
        ensures
            result == (ListDocumentAssetsUsecase),
    {
        ListDocumentAssetsUsecase
    }
}

impl Default for ListDocumentAssetsUsecase {
    fn default() -> (result: Self)
        ensures
            result == (ListDocumentAssetsUsecase),
    {
        Self::new()
    }
}

#[derive(Debug, Clone, Copy, PartialEq, Eq, Structural)]
pub enum ListDocumentAssetsError {
    InvalidInput,
    NotFound,
    StorageUnavailable,
}

impl ListDocumentAssetsError {
    pub fn code(self) -> (result: &'static str)
        ensures
            result@ == match self {
                Self::InvalidInput => "document_asset.invalid_input"@,
                Self::NotFound => "document_asset.document_not_found"@,
                Self::StorageUnavailable => "document_asset.storage_unavailable"@,
            },
    {
        match self {
            Self::InvalidInput => "document_asset.invalid_input",
            Self::NotFound => "document_asset.document_not_found",
            Self::StorageUnavailable => "document_asset.storage_unavailable",
        }
    }
}

#[derive(Debug, Clone, Copy, PartialEq, Eq, Structural)]
pub enum CreateDocumentError {
    InvalidDocumentInput,
    DocumentAlreadyExists,
    VersionAlreadyExists,
    StorageUnavailable,
}

impl CreateDocumentError {
    pub fn code(self) -> (result: &'static str)
        ensures
            result@ == match self {
                Self::InvalidDocumentInput => "document.invalid_input"@,
                Self::DocumentAlreadyExists => "document.already_exists"@,
                Self::VersionAlreadyExists => "document.version_already_exists"@,
                Self::StorageUnavailable => "document.storage_unavailable"@,
            },
    {
        match self {
            Self::InvalidDocumentInput => "document.invalid_input",
            Self::DocumentAlreadyExists => "document.already_exists",
            Self::VersionAlreadyExists => "document.version_already_exists",
            Self::StorageUnavailable => "document.storage_unavailable",
        }
    }
}

impl GetCurrentDocumentError {
    /// How this usecase reports each document repository failure.
    pub fn from_repository_error(error: DocumentRepositoryError) -> (result: Self)
        ensures
            result == match error {
                DocumentRepositoryError::StorageUnavailable | DocumentRepositoryError::CorruptedMetadata | DocumentRepositoryError::MismatchedDocumentIdentity | DocumentRepositoryError::Conflict => Self::StorageUnavailable,
            },
    {
        match error {
            DocumentRepositoryError::StorageUnavailable | DocumentRepositoryError::CorruptedMetadata | DocumentRepositoryError::MismatchedDocumentIdentity | DocumentRepositoryError::Conflict => Self::StorageUnavailable,
        }
    }
}

impl GetDocumentVersionError {
    /// How this usecase reports each version store failure.
    pub fn from_version_store_error(error: VersionStoreError) -> (result: Self)
        ensures
            result == match error {
                VersionStoreError::StorageUnavailable | VersionStoreError::CorruptedHistory | VersionStoreError::InvalidHistoryCursor | VersionStoreError::InvalidHistoryPageLimit | VersionStoreError::MismatchedVersionSnapshot | VersionStoreError::Conflict => Self::StorageUnavailable,
            },
    {
        match error {
            VersionStoreError::StorageUnavailable | VersionStoreError::CorruptedHistory | VersionStoreError::InvalidHistoryCursor | VersionStoreError::InvalidHistoryPageLimit | VersionStoreError::MismatchedVersionSnapshot | VersionStoreError::Conflict => Self::StorageUnavailable,
        }
    }
}

impl GetDocumentHistoryError {
    /// How this usecase reports each version store failure.
    pub fn from_version_store_error(error: VersionStoreError) -> (result: Self)
        ensures
            result == match error {
                VersionStoreError::InvalidHistoryCursor | VersionStoreError::InvalidHistoryPageLimit => Self::InvalidInput,
                VersionStoreError::StorageUnavailable | VersionStoreError::CorruptedHistory | VersionStoreError::MismatchedVersionSnapshot | VersionStoreError::Conflict => Self::StorageUnavailable,
            },
    {
        match error {
            VersionStoreError::InvalidHistoryCursor | VersionStoreError::InvalidHistoryPageLimit => Self::InvalidInput,
            VersionStoreError::StorageUnavailable | VersionStoreError::CorruptedHistory | VersionStoreError::MismatchedVersionSnapshot | VersionStoreError::Conflict => Self::StorageUnavailable,
        }
    }
}

impl PreviewDocumentRestoreError {
    /// How this usecase reports each document repository failure.
    pub fn from_document_repository_error(error: DocumentRepositoryError) -> (result: Self)
        ensures
            result == match error {
                DocumentRepositoryError::StorageUnavailable | DocumentRepositoryError::CorruptedMetadata | DocumentRepositoryError::MismatchedDocumentIdentity | DocumentRepositoryError::Conflict => Self::StorageUnavailable,
            },
    {
        match error {
            DocumentRepositoryError::StorageUnavailable | DocumentRepositoryError::CorruptedMetadata | DocumentRepositoryError::MismatchedDocumentIdentity | DocumentRepositoryError::Conflict => Self::StorageUnavailable,
        }
    }
}

impl PreviewDocumentRestoreError {
    /// How this usecase reports each version store failure.
    pub fn from_version_store_error(error: VersionStoreError) -> (result: Self)
        ensures
            result == match error {
                VersionStoreError::StorageUnavailable | VersionStoreError::CorruptedHistory | VersionStoreError::InvalidHistoryCursor | VersionStoreError::InvalidHistoryPageLimit | VersionStoreError::MismatchedVersionSnapshot | VersionStoreError::Conflict => Self::StorageUnavailable,
            },
    {
        match error {
            VersionStoreError::StorageUnavailable | VersionStoreError::CorruptedHistory | VersionStoreError::InvalidHistoryCursor | VersionStoreError::InvalidHistoryPageLimit | VersionStoreError::MismatchedVersionSnapshot | VersionStoreError::Conflict => Self::StorageUnavailable,
        }
    }
}

impl UpdateDocumentError {
    /// How this usecase reports each document repository failure.
    pub fn from_document_repository_error(error: DocumentRepositoryError) -> (result: Self)
        ensures
            result == match error {
                DocumentRepositoryError::StorageUnavailable | DocumentRepositoryError::CorruptedMetadata | DocumentRepositoryError::MismatchedDocumentIdentity | DocumentRepositoryError::Conflict => Self::StorageUnavailable,
            },
    {
        match error {
            DocumentRepositoryError::StorageUnavailable | DocumentRepositoryError::CorruptedMetadata | DocumentRepositoryError::MismatchedDocumentIdentity | DocumentRepositoryError::Conflict => Self::StorageUnavailable,
        }
    }
}

impl UpdateDocumentError {
    /// How this usecase reports each version store failure.
    pub fn from_version_store_error(error: VersionStoreError) -> (result: Self)
        ensures
            result == match error {
                VersionStoreError::Conflict => Self::VersionAlreadyExists,
                VersionStoreError::StorageUnavailable | VersionStoreError::CorruptedHistory | VersionStoreError::InvalidHistoryCursor | VersionStoreError::InvalidHistoryPageLimit | VersionStoreError::MismatchedVersionSnapshot => Self::StorageUnavailable,
            },
    {
        match error {
            VersionStoreError::Conflict => Self::VersionAlreadyExists,
            VersionStoreError::StorageUnavailable | VersionStoreError::CorruptedHistory | VersionStoreError::InvalidHistoryCursor | VersionStoreError::InvalidHistoryPageLimit | VersionStoreError::MismatchedVersionSnapshot => Self::StorageUnavailable,
        }
    }
}

impl AttachFileToDocumentError {
    /// How this usecase reports each asset store failure.
    pub fn from_asset_store_error(error: AssetStoreError) -> (result: Self)
        ensures
            result == match error {
                AssetStoreError::MismatchedAssetObject | AssetStoreError::InvalidAssetObject => Self::InvalidInput,
                AssetStoreError::StorageUnavailable | AssetStoreError::CorruptedMetadata | AssetStoreError::MissingObject | AssetStoreError::Conflict => Self::StorageUnavailable,
            },
    {
        match error {
            AssetStoreError::MismatchedAssetObject | AssetStoreError::InvalidAssetObject => Self::InvalidInput,
            AssetStoreError::StorageUnavailable | AssetStoreError::CorruptedMetadata | AssetStoreError::MissingObject | AssetStoreError::Conflict => Self::StorageUnavailable,
        }
    }
}

impl AttachFileToDocumentError {
    /// How this usecase reports each document asset repository failure.
    pub fn from_document_asset_repository_error(error: DocumentAssetRepositoryError) -> (result: Self)
        ensures
            result == match error {
                DocumentAssetRepositoryError::MismatchedAssetReference | DocumentAssetRepositoryError::InvalidAssociation => Self::InvalidInput,
                DocumentAssetRepositoryError::StorageUnavailable | DocumentAssetRepositoryError::CorruptedMetadata | DocumentAssetRepositoryError::Conflict => Self::StorageUnavailable,
            },
    {
        match error {
            DocumentAssetRepositoryError::MismatchedAssetReference | DocumentAssetRepositoryError::InvalidAssociation => Self::InvalidInput,
            DocumentAssetRepositoryError::StorageUnavailable | DocumentAssetRepositoryError::CorruptedMetadata | DocumentAssetRepositoryError::Conflict => Self::StorageUnavailable,
        }
    }
}

impl CreateDocumentError {
    /// How this usecase reports each document repository failure.
    pub fn from_document_repository_error(error: DocumentRepositoryError) -> (result: Self)
        ensures
            result == match error {
                DocumentRepositoryError::Conflict => Self::DocumentAlreadyExists,
                DocumentRepositoryError::StorageUnavailable | DocumentRepositoryError::CorruptedMetadata | DocumentRepositoryError::MismatchedDocumentIdentity => Self::StorageUnavailable,
            },
    {
        match error {
            DocumentRepositoryError::Conflict => Self::DocumentAlreadyExists,
            DocumentRepositoryError::StorageUnavailable | DocumentRepositoryError::CorruptedMetadata | DocumentRepositoryError::MismatchedDocumentIdentity => Self::StorageUnavailable,
        }
    }
}

impl CreateDocumentError {
    /// How this usecase reports each version store failure.
    pub fn from_version_store_error(error: VersionStoreError) -> (result: Self)
        ensures
            result == match error {
                VersionStoreError::Conflict => Self::VersionAlreadyExists,
                VersionStoreError::StorageUnavailable | VersionStoreError::CorruptedHistory | VersionStoreError::InvalidHistoryCursor | VersionStoreError::InvalidHistoryPageLimit | VersionStoreError::MismatchedVersionSnapshot => Self::StorageUnavailable,
            },
    {
        match error {
            VersionStoreError::Conflict => Self::VersionAlreadyExists,
            VersionStoreError::StorageUnavailable | VersionStoreError::CorruptedHistory | VersionStoreError::InvalidHistoryCursor | VersionStoreError::InvalidHistoryPageLimit | VersionStoreError::MismatchedVersionSnapshot => Self::StorageUnavailable,
        }
    }
}

} // verus!
