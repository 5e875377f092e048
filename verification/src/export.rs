use vstd::prelude::*;
use crate::text::{opt_sstr_view, opt_str_view, opt_to_string, opt_ref_view, pairs_view, strings_view};

verus! {
#[derive(Debug, Clone, PartialEq, Eq)]
pub struct ExportMarkdownInput {
    workspace_id: String,
    document_ids: Vec<String>,
}

impl View for ExportMarkdownInput {
    type V = (Seq<char>, Seq<Seq<char>>);

    closed spec fn view(&self) -> (Seq<char>, Seq<Seq<char>>) {
        (self.workspace_id@, strings_view(self.document_ids@))
    }
}

impl ExportMarkdownInput {
    pub fn workspace_id(&self) -> (result: &str)
        ensures
            result@ == self@.0,
    {
        self.workspace_id.as_str()
    }

    pub fn document_ids(&self) -> (result: &[String])
        ensures
            strings_view(result@) == self@.1,
    {
        self.document_ids.as_slice()
    }

}

impl ExportMarkdownInput {
    pub fn new(workspace_id: &str, document_ids: Vec<&str>) -> (result: Self)
        ensures
            result@ == (workspace_id@, document_ids@.map_values(|s: &str| s@)),
    {
        let mut ids: Vec<String> = Vec::new();
        let mut i: usize = 0;
        while i < document_ids.len()
            invariant
                i <= document_ids.len(),
                strings_view(ids@) =~= document_ids@.subrange(0, i as int).map_values(|s: &str| s@),
            decreases document_ids.len() - i,
        {
            let ghost before = ids@;
            ids.push(document_ids[i].to_string());
            assert(strings_view(ids@) =~= strings_view(before).push(document_ids@[i as int]@));
            assert(document_ids@.subrange(0, i + 1) =~= document_ids@.subrange(0, i as int).push(document_ids@[i as int]));
            i = i + 1;
        }
        assert(document_ids@.subrange(0, document_ids.len() as int) =~= document_ids@);
        Self { workspace_id: workspace_id.to_string(), document_ids: ids }
    }
}

#[derive(Debug, Clone, PartialEq, Eq)]
pub struct ExportMarkdownOutput {
    final_state: ExportMarkdownState,
    files: Vec<ExportedMarkdownFile>,
    failed_items: Vec<ExportFailedItem>,
}

impl View for ExportMarkdownOutput {
    type V = (ExportMarkdownState, Seq<<ExportedMarkdownFile as View>::V>, Seq<<ExportFailedItem as View>::V>);

    closed spec fn view(&self) -> (ExportMarkdownState, Seq<<ExportedMarkdownFile as View>::V>, Seq<<ExportFailedItem as View>::V>) {
        (self.final_state, self.files@.map_values(|x: ExportedMarkdownFile| x@), self.failed_items@.map_values(|x: ExportFailedItem| x@))
    }
}

impl ExportMarkdownOutput {
    pub fn final_state(&self) -> (result: ExportMarkdownState)
        ensures
            result == self@.0,
    {
        self.final_state
    }

    pub fn files(&self) -> (result: &[ExportedMarkdownFile])
        ensures
            result@.map_values(|x: ExportedMarkdownFile| x@) == self@.1,
    {
        self.files.as_slice()
    }

    pub fn failed_items(&self) -> (result: &[ExportFailedItem])
        ensures
            result@.map_values(|x: ExportFailedItem| x@) == self@.2,
    {
        self.failed_items.as_slice()
    }

}

#[derive(Debug, Clone, PartialEq, Eq)]
pub struct ExportedMarkdownFile {
    path: String,
    content: String,
}

impl View for ExportedMarkdownFile {
    type V = (Seq<char>, Seq<char>);

    closed spec fn view(&self) -> (Seq<char>, Seq<char>) {
        (self.path@, self.content@)
    }
}

impl ExportedMarkdownFile {
    pub fn new(path: &str, content: &str) -> (result: Self)
        ensures
            result@ == (path@, content@),
    {
        Self {
            path: path.to_string(),
            content: content.to_string(),
        }
    }

    pub fn path(&self) -> (result: &str)
        ensures
            result@ == self@.0,
    {
        self.path.as_str()
    }

    pub fn content(&self) -> (result: &str)
        ensures
            result@ == self@.1,
    {
        self.content.as_str()
    }

}

#[derive(Debug, Clone, PartialEq, Eq)]
pub struct ExportFailedItem {
    document_id: String,
    error_code: &'static str,
}

impl View for ExportFailedItem {
    type V = (Seq<char>, Seq<char>);

    closed spec fn view(&self) -> (Seq<char>, Seq<char>) {
        (self.document_id@, self.error_code@)
    }
}

impl ExportFailedItem {
    pub fn document_id(&self) -> (result: &str)
        ensures
            result@ == self@.0,
    {
        self.document_id.as_str()
    }

    pub fn error_code(&self) -> (result: &'static str)
        ensures
            result@ == self@.1,
    {
        self.error_code
    }

}

#[derive(Debug, Clone, Copy, PartialEq, Eq, Structural)]
pub enum ExportMarkdownState {
    Requested,
    ReadingCurrent,
    Completed,
    PartiallyFailed,
    Failed,
}

#[derive(Debug, Clone, Copy, PartialEq, Eq, Structural)]
pub struct ExportMarkdownUsecase;

impl ExportMarkdownUsecase {
    pub fn new() -> (result: Self)
        ensures
            result == (ExportMarkdownUsecase),
    {
        ExportMarkdownUsecase
    }
}

impl Default for ExportMarkdownUsecase {
    fn default() -> (result: Self)
        ensures
            result == (ExportMarkdownUsecase),
    {
        Self::new()
    }
}

#[derive(Debug, Clone, Copy, PartialEq, Eq, Structural)]
pub enum ExportMarkdownError {
    InvalidInput,
}

impl ExportMarkdownError {
    pub fn code(self) -> (result: &'static str)
        ensures
            result@ == match self {
                Self::InvalidInput => "markdown_export.invalid_input"@,
            },
    {
        match self {
            Self::InvalidInput => "markdown_export.invalid_input",
        }
    }
}

#[derive(Debug, Clone, Copy, PartialEq, Eq, Structural)]
pub enum ExportItemError {
    InvalidInput,
    NotFound,
    StorageUnavailable,
}

impl ExportItemError {
    pub fn code(self) -> (result: &'static str)
        ensures
            result@ == match self {
                Self::InvalidInput => "markdown_export.invalid_item"@,
                Self::NotFound => "markdown_export.not_found"@,
                Self::StorageUnavailable => "markdown_export.storage_unavailable"@,
            },
    {
        match self {
            Self::InvalidInput => "markdown_export.invalid_item",
            Self::NotFound => "markdown_export.not_found",
            Self::StorageUnavailable => "markdown_export.storage_unavailable",
        }
    }
}

#[derive(Debug, Clone, Copy, PartialEq, Eq, Structural)]
pub enum ExportPdfOutput {
    Unsupported,
}

#[derive(Debug, Clone, Copy, PartialEq, Eq, Structural)]
pub struct ExportPdfUsecase;

impl ExportPdfUsecase {
    pub fn new() -> (result: Self)
        ensures
            result == (ExportPdfUsecase),
    {
        ExportPdfUsecase
    }
}

impl Default for ExportPdfUsecase {
    fn default() -> (result: Self)
        ensures
            result == (ExportPdfUsecase),
    {
        Self::new()
    }
}

impl ExportPdfUsecase {
    /// Exporting to PDF is not supported.
    pub fn execute(&self) -> (result: ExportPdfOutput)
        ensures
            result == ExportPdfOutput::Unsupported,
    {
        ExportPdfOutput::Unsupported
    }
}

/// The code of a failed export item.
pub open spec fn export_item_code(error: ExportItemError) -> Seq<char> {
    match error {
        ExportItemError::InvalidInput => "markdown_export.invalid_item"@,
        ExportItemError::NotFound => "markdown_export.not_found"@,
        ExportItemError::StorageUnavailable => "markdown_export.storage_unavailable"@,
    }
}

/// The outcome of exporting each document: its path and content, or why it
/// failed.
pub open spec fn outcomes_view(outcomes: Seq<Result<(String, String), ExportItemError>>) -> Seq<Result<(Seq<char>, Seq<char>), ExportItemError>> {
    outcomes.map_values(|o: Result<(String, String), ExportItemError>| match o {
        Ok(file) => Ok((file.0@, file.1@)),
        Err(error) => Err(error),
    })
}

/// The files exported among the first `n` documents, in order.
pub open spec fn exported_files(outcomes: Seq<Result<(Seq<char>, Seq<char>), ExportItemError>>, n: int) -> Seq<(Seq<char>, Seq<char>)>
    decreases n,
{
    if n <= 0 {
        Seq::empty()
    } else {
        let files = exported_files(outcomes, n - 1);
        match outcomes[n - 1] {
            Ok(file) => files.push(file),
            Err(_) => files,
        }
    }
}

/// The documents that failed among the first `n`, each with its code, in order.
pub open spec fn failed_exports(ids: Seq<Seq<char>>, outcomes: Seq<Result<(Seq<char>, Seq<char>), ExportItemError>>, n: int) -> Seq<(Seq<char>, Seq<char>)>
    decreases n,
{
    if n <= 0 {
        Seq::empty()
    } else {
        let failed = failed_exports(ids, outcomes, n - 1);
        match outcomes[n - 1] {
            Ok(_) => failed,
            Err(error) => failed.push((ids[n - 1], export_item_code(error))),
        }
    }
}

/// How an export ends: failed when nothing was exported, completed when
/// nothing failed, else partially failed.
pub open spec fn export_state(exported: nat, failed: nat) -> ExportMarkdownState {
    if exported == 0 {
        ExportMarkdownState::Failed
    } else if failed == 0 {
        ExportMarkdownState::Completed
    } else {
        ExportMarkdownState::PartiallyFailed
    }
}

/// Gathers the outcome of exporting each requested document, in the order
/// of the request.
pub fn assemble_export(document_ids: Vec<String>, outcomes: Vec<Result<(String, String), ExportItemError>>) -> (result: ExportMarkdownOutput)
    requires
        document_ids@.len() == outcomes@.len(),
    ensures
        result@.1 == exported_files(outcomes_view(outcomes@), outcomes@.len() as int),
        result@.2 == failed_exports(strings_view(document_ids@), outcomes_view(outcomes@), outcomes@.len() as int),
        result@.0 == export_state(result@.1.len(), result@.2.len()),
        (result@.0 == ExportMarkdownState::Failed) <==> (forall|i: int| 0 <= i < outcomes@.len() ==> #[trigger] outcomes@[i] is Err),
        (result@.0 == ExportMarkdownState::PartiallyFailed) <==> ((exists|i: int| 0 <= i < outcomes@.len() && #[trigger] outcomes@[i] is Ok)
            && (exists|j: int| 0 <= j < outcomes@.len() && #[trigger] outcomes@[j] is Err)),
{
    let ghost ov = outcomes_view(outcomes@);
    let ghost iv = strings_view(document_ids@);
    let mut files: Vec<ExportedMarkdownFile> = Vec::new();
    let mut failed_items: Vec<ExportFailedItem> = Vec::new();
    let mut i: usize = 0;
    while i < outcomes.len()
        invariant
            i <= outcomes.len(),
            document_ids@.len() == outcomes@.len(),
            ov == outcomes_view(outcomes@),
            iv == strings_view(document_ids@),
            files@.map_values(|x: ExportedMarkdownFile| x@) == exported_files(ov, i as int),
            failed_items@.map_values(|x: ExportFailedItem| x@) == failed_exports(iv, ov, i as int),
        decreases outcomes.len() - i,
    {
        match &outcomes[i] {
            Ok(file) => {
                let ghost before = files@;
                files.push(ExportedMarkdownFile { path: file.0.clone(), content: file.1.clone() });
                assert(files@.map_values(|x: ExportedMarkdownFile| x@) =~= before.map_values(|x: ExportedMarkdownFile| x@).push((file.0@, file.1@)));
            },
            Err(error) => {
                let ghost before = failed_items@;
                failed_items.push(ExportFailedItem { document_id: document_ids[i].clone(), error_code: error.code() });
                assert(failed_items@.map_values(|x: ExportFailedItem| x@) =~= before.map_values(|x: ExportFailedItem| x@).push((iv[i as int], export_item_code(*error))));
            },
        }
        i = i + 1;
    }
    let final_state = if files.len() == 0 {
        ExportMarkdownState::Failed
    } else if failed_items.len() == 0 {
        ExportMarkdownState::Completed
    } else {
        ExportMarkdownState::PartiallyFailed
    };
    proof {
        lemma_export_state_follows_outcomes(iv, ov);
        assert forall|i: int| 0 <= i < outcomes@.len() implies (#[trigger] outcomes@[i] is Ok <==> ov[i] is Ok) by {}
    }
    ExportMarkdownOutput { final_state, files, failed_items }
}


/// Every requested document is accounted for exactly once: it is either
/// among the exported files or among the failed items; the export is
/// complete exactly when nothing failed and something was exported.
pub proof fn lemma_export_accounts_for_every_document(ids: Seq<Seq<char>>, outcomes: Seq<Result<(Seq<char>, Seq<char>), ExportItemError>>, n: int)
    requires
        0 <= n <= outcomes.len(),
        ids.len() == outcomes.len(),
    ensures
        exported_files(outcomes, n).len() + failed_exports(ids, outcomes, n).len() == n,
        (export_state(exported_files(outcomes, n).len(), failed_exports(ids, outcomes, n).len()) == ExportMarkdownState::Completed)
            <==> (n > 0 && forall|i: int| 0 <= i < n ==> #[trigger] outcomes[i] is Ok),
    decreases n,
{
    if n > 0 {
        lemma_export_accounts_for_every_document(ids, outcomes, n - 1);
        if exported_files(outcomes, n).len() > 0 && failed_exports(ids, outcomes, n).len() == 0 {
            assert forall|i: int| 0 <= i < n implies #[trigger] outcomes[i] is Ok by {
                if i < n - 1 {
                    assert(failed_exports(ids, outcomes, n - 1).len() == 0);
                }
            }
        }
        if forall|i: int| 0 <= i < n ==> #[trigger] outcomes[i] is Ok {
            assert(outcomes[n - 1] is Ok);
            if n - 1 > 0 {
                assert forall|i: int| 0 <= i < n - 1 implies #[trigger] outcomes[i] is Ok by {
                    assert(outcomes[i] is Ok);
                }
            }
        }
    }
}

/// Nothing is exported exactly when every one of the first `n` documents
/// failed, and nothing fails exactly when every one of them was exported.
proof fn lemma_export_counts_empty(ids: Seq<Seq<char>>, outcomes: Seq<Result<(Seq<char>, Seq<char>), ExportItemError>>, n: int)
    requires
        0 <= n <= outcomes.len(),
    ensures
        exported_files(outcomes, n).len() == 0 <==> forall|i: int| 0 <= i < n ==> #[trigger] outcomes[i] is Err,
        failed_exports(ids, outcomes, n).len() == 0 <==> forall|i: int| 0 <= i < n ==> #[trigger] outcomes[i] is Ok,
    decreases n,
{
    if n > 0 {
        lemma_export_counts_empty(ids, outcomes, n - 1);
        if forall|i: int| 0 <= i < n ==> #[trigger] outcomes[i] is Err {
            assert forall|i: int| 0 <= i < n - 1 implies #[trigger] outcomes[i] is Err by {
                assert(outcomes[i] is Err);
            }
            assert(outcomes[n - 1] is Err);
        }
        if forall|i: int| 0 <= i < n ==> #[trigger] outcomes[i] is Ok {
            assert forall|i: int| 0 <= i < n - 1 implies #[trigger] outcomes[i] is Ok by {
                assert(outcomes[i] is Ok);
            }
            assert(outcomes[n - 1] is Ok);
        }
    }
}

/// How an export ends, from what happened to each requested document: it
/// failed exactly when no document was exported, it completed exactly when
/// there were documents and all of them were exported, and it partially
/// failed exactly when some document was exported and some other failed.
pub proof fn lemma_export_state_follows_outcomes(ids: Seq<Seq<char>>, outcomes: Seq<Result<(Seq<char>, Seq<char>), ExportItemError>>)
    ensures
        ({
            let n = outcomes.len() as int;
            let state = export_state(exported_files(outcomes, n).len(), failed_exports(ids, outcomes, n).len());
            &&& (state == ExportMarkdownState::Failed) <==> (forall|i: int| 0 <= i < n ==> #[trigger] outcomes[i] is Err)
            &&& (state == ExportMarkdownState::Completed) <==> (n > 0 && forall|i: int| 0 <= i < n ==> #[trigger] outcomes[i] is Ok)
            &&& (state == ExportMarkdownState::PartiallyFailed) <==> ((exists|i: int| 0 <= i < n && #[trigger] outcomes[i] is Ok)
                && (exists|j: int| 0 <= j < n && #[trigger] outcomes[j] is Err))
        }),
{
    let n = outcomes.len() as int;
    lemma_export_counts_empty(ids, outcomes, n);
    if n > 0 && forall|i: int| 0 <= i < n ==> #[trigger] outcomes[i] is Ok {
        assert(!(outcomes[0] is Err));
    }
    if forall|i: int| 0 <= i < n ==> #[trigger] outcomes[i] is Err {
        if n > 0 {
            assert(!(outcomes[0] is Ok));
        }
    }
}
} // verus!
