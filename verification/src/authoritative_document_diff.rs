use vstd::prelude::*;
use crate::collaborator_errors::{CommittedVersionRecordReadError, CurrentDocumentVersionPointerError};
use crate::text::{opt_sstr_view, opt_str_view, opt_to_string, opt_ref_view, pairs_view, strings_view};
use crate::document_diff::{compare_outcome, DiffComputation, DiffPolicy, DiffPolicyView, DocumentLineDiffService, DocumentTitleDelta};
use crate::attachment_diff::{compare_attachment_snapshots, AttachmentDiff, AttachmentDiffView, added_of, removed_of, relabeled_of, unchanged_of, refs_view};

verus! {
#[derive(Debug, Clone, PartialEq, Eq)]
pub enum CompareAuthoritativeDocumentRevisionsInput {
    CurrentToVersion { workspace_id: String, document_id: String, version_id: String },
    Versions { workspace_id: String, document_id: String, left_version_id: String, right_version_id: String },
}

/// [`CompareAuthoritativeDocumentRevisionsInput`] with its texts as character sequences.
pub enum CompareAuthoritativeDocumentRevisionsInputView {
    CurrentToVersion { workspace_id: Seq<char>, document_id: Seq<char>, version_id: Seq<char> },
    Versions { workspace_id: Seq<char>, document_id: Seq<char>, left_version_id: Seq<char>, right_version_id: Seq<char> },
}

impl View for CompareAuthoritativeDocumentRevisionsInput {
    type V = CompareAuthoritativeDocumentRevisionsInputView;

    open spec fn view(&self) -> CompareAuthoritativeDocumentRevisionsInputView {
        match self {
            CompareAuthoritativeDocumentRevisionsInput::CurrentToVersion { workspace_id, document_id, version_id } => CompareAuthoritativeDocumentRevisionsInputView::CurrentToVersion { workspace_id: workspace_id@, document_id: document_id@, version_id: version_id@ },
            CompareAuthoritativeDocumentRevisionsInput::Versions { workspace_id, document_id, left_version_id, right_version_id } => CompareAuthoritativeDocumentRevisionsInputView::Versions { workspace_id: workspace_id@, document_id: document_id@, left_version_id: left_version_id@, right_version_id: right_version_id@ },
        }
    }
}

impl CompareAuthoritativeDocumentRevisionsInput {
    pub fn current_to_version(workspace_id: &str, document_id: &str, version_id: &str) -> (result: Self)
        ensures
            result@ == (CompareAuthoritativeDocumentRevisionsInputView::CurrentToVersion { workspace_id: workspace_id@, document_id: document_id@, version_id: version_id@ }),
    {
        CompareAuthoritativeDocumentRevisionsInput::CurrentToVersion { workspace_id: workspace_id.to_string(), document_id: document_id.to_string(), version_id: version_id.to_string() }
    }

    pub fn versions(workspace_id: &str, document_id: &str, left_version_id: &str, right_version_id: &str) -> (result: Self)
        ensures
            result@ == (CompareAuthoritativeDocumentRevisionsInputView::Versions { workspace_id: workspace_id@, document_id: document_id@, left_version_id: left_version_id@, right_version_id: right_version_id@ }),
    {
        CompareAuthoritativeDocumentRevisionsInput::Versions { workspace_id: workspace_id.to_string(), document_id: document_id.to_string(), left_version_id: left_version_id.to_string(), right_version_id: right_version_id.to_string() }
    }

}

#[derive(Debug, Clone, Copy, PartialEq, Eq, Structural)]
pub enum CompareAuthoritativeDocumentRevisionsError {
    InvalidInput,
    NotFound,
    StorageUnavailable,
    CorruptedData,
}

impl CompareAuthoritativeDocumentRevisionsError {
    pub fn code(self) -> (result: &'static str)
        ensures
            result@ == match self {
                Self::InvalidInput => "authoritative_document_diff.invalid_input"@,
                Self::NotFound => "authoritative_document_diff.not_found"@,
                Self::StorageUnavailable => "authoritative_document_diff.storage_unavailable"@,
                Self::CorruptedData => "authoritative_document_diff.corrupted_data"@,
            },
    {
        match self {
            Self::InvalidInput => "authoritative_document_diff.invalid_input",
            Self::NotFound => "authoritative_document_diff.not_found",
            Self::StorageUnavailable => "authoritative_document_diff.storage_unavailable",
            Self::CorruptedData => "authoritative_document_diff.corrupted_data",
        }
    }
}

#[derive(Debug, Clone, Copy, PartialEq, Eq, Structural)]
pub struct CompareAuthoritativeDocumentRevisionsUsecase {
    diff: DocumentLineDiffService,
}

impl View for CompareAuthoritativeDocumentRevisionsUsecase {
    type V = DiffPolicyView;

    closed spec fn view(&self) -> DiffPolicyView {
        self.diff@
    }
}

impl CompareAuthoritativeDocumentRevisionsUsecase {
    pub fn new() -> (result: Self)
        ensures
            result@ == (DiffPolicyView { context_lines: 3, sync_max_bytes: 2097152, sync_max_lines: 100_000, max_hunks: 10_000 }),
    {
        Self::with_policy(DiffPolicy::default())
    }

    pub fn with_policy(policy: DiffPolicy) -> (result: Self)
        ensures
            result@ == policy@,
    {
        Self { diff: DocumentLineDiffService::with_policy(policy) }
    }
}

impl Default for CompareAuthoritativeDocumentRevisionsUsecase {
    fn default() -> (result: Self)
        ensures
            result@ == (DiffPolicyView { context_lines: 3, sync_max_bytes: 2097152, sync_max_lines: 100_000, max_hunks: 10_000 }),
    {
        Self::new()
    }
}


/// What `map_pointer_error` gives for each value.
pub open spec fn map_pointer_error_spec(error: CurrentDocumentVersionPointerError) -> CompareAuthoritativeDocumentRevisionsError {
    match error {
        CurrentDocumentVersionPointerError::StorageUnavailable => CompareAuthoritativeDocumentRevisionsError::StorageUnavailable,
        CurrentDocumentVersionPointerError::Conflict | CurrentDocumentVersionPointerError::CorruptedPointer => CompareAuthoritativeDocumentRevisionsError::CorruptedData,
    }
}

/// How this usecase reports each current document version pointer failure.
#[verifier::when_used_as_spec(map_pointer_error_spec)]
pub fn map_pointer_error(error: CurrentDocumentVersionPointerError) -> (result: CompareAuthoritativeDocumentRevisionsError)
    ensures
        result == map_pointer_error_spec(error),
{
    match error {
        CurrentDocumentVersionPointerError::StorageUnavailable => CompareAuthoritativeDocumentRevisionsError::StorageUnavailable,
        CurrentDocumentVersionPointerError::Conflict | CurrentDocumentVersionPointerError::CorruptedPointer => CompareAuthoritativeDocumentRevisionsError::CorruptedData,
    }
}

/// What `map_record_error` gives for each value.
pub open spec fn map_record_error_spec(error: CommittedVersionRecordReadError) -> CompareAuthoritativeDocumentRevisionsError {
    match error {
        CommittedVersionRecordReadError::StorageUnavailable => CompareAuthoritativeDocumentRevisionsError::StorageUnavailable,
        CommittedVersionRecordReadError::CorruptedRecord => CompareAuthoritativeDocumentRevisionsError::CorruptedData,
    }
}

/// How this usecase reports each committed version record read failure.
#[verifier::when_used_as_spec(map_record_error_spec)]
pub fn map_record_error(error: CommittedVersionRecordReadError) -> (result: CompareAuthoritativeDocumentRevisionsError)
    ensures
        result == map_record_error_spec(error),
{
    match error {
        CommittedVersionRecordReadError::StorageUnavailable => CompareAuthoritativeDocumentRevisionsError::StorageUnavailable,
        CommittedVersionRecordReadError::CorruptedRecord => CompareAuthoritativeDocumentRevisionsError::CorruptedData,
    }
}


/// A committed version record as the version reader returned it: the
/// document and version it names, its body and its attachment references
/// (`None` for a snapshot that does not record them).
#[derive(Debug, Clone, PartialEq, Eq)]
pub struct CommittedRevision {
    pub document_id: String,
    pub version_id: String,
    pub body: String,
    pub attachments: Option<Vec<(String, String)>>,
}

/// Two committed revisions compared: their versions, the line diff of their
/// bodies and the diff of their attachments.
#[derive(Debug, Clone, PartialEq, Eq)]
pub struct CompareAuthoritativeDocumentRevisionsOutput {
    pub left_version_id: String,
    pub right_version_id: String,
    pub computation: DiffComputation,
    pub attachment_diff: AttachmentDiff,
}

impl CompareAuthoritativeDocumentRevisionsOutput {
    pub fn left_version_id(&self) -> (result: &str)
        ensures
            result@ == self.left_version_id@,
    {
        self.left_version_id.as_str()
    }

    pub fn right_version_id(&self) -> (result: &str)
        ensures
            result@ == self.right_version_id@,
    {
        self.right_version_id.as_str()
    }

    pub fn computation(&self) -> (result: &DiffComputation)
        ensures
            *result == self.computation,
    {
        &self.computation
    }

    pub fn attachment_diff(&self) -> (result: &AttachmentDiff)
        ensures
            *result == self.attachment_diff,
    {
        &self.attachment_diff
    }
}

/// What reading the current version of a document gives: the version, not
/// found when the document has none, or the mapped pointer failure.
pub open spec fn current_version_read(read: Result<Option<Seq<char>>, CurrentDocumentVersionPointerError>) -> Result<Seq<char>, CompareAuthoritativeDocumentRevisionsError> {
    match read {
        Err(error) => Err(map_pointer_error(error)),
        Ok(None) => Err(CompareAuthoritativeDocumentRevisionsError::NotFound),
        Ok(Some(version)) => Ok(version),
    }
}

/// The version a comparison with the current version starts from, given
/// what the version pointer returned.
pub fn resolve_current_version(read: Result<Option<String>, CurrentDocumentVersionPointerError>) -> (result: Result<String, CompareAuthoritativeDocumentRevisionsError>)
    ensures
        match read {
            Err(error) => result == Err::<String, CompareAuthoritativeDocumentRevisionsError>(map_pointer_error(error)),
            Ok(None) => result == Err::<String, CompareAuthoritativeDocumentRevisionsError>(CompareAuthoritativeDocumentRevisionsError::NotFound),
            Ok(Some(version)) => result matches Ok(v) && v@ == version@,
        },
{
    match read {
        Err(error) => Err(map_pointer_error(error)),
        Ok(None) => Err(CompareAuthoritativeDocumentRevisionsError::NotFound),
        Ok(Some(version)) => Ok(version),
    }
}

/// What reading a committed version gives: the mapped read failure, not
/// found when there is no record, corrupted data when the record names
/// another document or version, else the record.
pub open spec fn record_check(document_id: Seq<char>, version_id: Seq<char>, read: Result<Option<CommittedRevision>, CommittedVersionRecordReadError>) -> Result<(), CompareAuthoritativeDocumentRevisionsError> {
    match read {
        Err(error) => Err(map_record_error(error)),
        Ok(None) => Err(CompareAuthoritativeDocumentRevisionsError::NotFound),
        Ok(Some(record)) => if record.document_id@ != document_id || record.version_id@ != version_id {
            Err(CompareAuthoritativeDocumentRevisionsError::CorruptedData)
        } else {
            Ok(())
        },
    }
}

fn check_record(document_id: &str, version_id: &str, read: &Result<Option<CommittedRevision>, CommittedVersionRecordReadError>) -> (result: Result<(), CompareAuthoritativeDocumentRevisionsError>)
    ensures
        result == record_check(document_id@, version_id@, *read),
{
    match read {
        Err(error) => Err(map_record_error(*error)),
        Ok(None) => Err(CompareAuthoritativeDocumentRevisionsError::NotFound),
        Ok(Some(record)) => {
            if !crate::text::str_equal(record.document_id.as_str(), document_id)
                || !crate::text::str_equal(record.version_id.as_str(), version_id) {
                Err(CompareAuthoritativeDocumentRevisionsError::CorruptedData)
            } else {
                Ok(())
            }
        },
    }
}

impl CompareAuthoritativeDocumentRevisionsUsecase {
    /// Compares two committed revisions of a document once they are read:
    /// the left read is checked first, then the right (a failed read is
    /// mapped by `map_record_error`, a missing record is not found, a
    /// record of another document or version is corrupted data); then the
    /// bodies are diffed line by line, with the given title delta, and the
    /// attachment references compared.
    pub fn compare_loaded_revisions(
        &self,
        document_id: &str,
        left_version_id: &str,
        right_version_id: &str,
        left: Result<Option<CommittedRevision>, CommittedVersionRecordReadError>,
        right: Result<Option<CommittedRevision>, CommittedVersionRecordReadError>,
        title_delta: DocumentTitleDelta,
    ) -> (result: Result<CompareAuthoritativeDocumentRevisionsOutput, CompareAuthoritativeDocumentRevisionsError>)
        ensures
            record_check(document_id@, left_version_id@, left) is Err ==> result == Err::<CompareAuthoritativeDocumentRevisionsOutput, CompareAuthoritativeDocumentRevisionsError>(
                record_check(document_id@, left_version_id@, left)->Err_0,
            ),
            record_check(document_id@, left_version_id@, left) is Ok && record_check(document_id@, right_version_id@, right) is Err
                ==> result == Err::<CompareAuthoritativeDocumentRevisionsOutput, CompareAuthoritativeDocumentRevisionsError>(
                record_check(document_id@, right_version_id@, right)->Err_0,
            ),
            record_check(document_id@, left_version_id@, left) is Ok && record_check(document_id@, right_version_id@, right) is Ok
                ==> (result matches Ok(output) && {
                let l = left->Ok_0->Some_0;
                let r = right->Ok_0->Some_0;
                &&& output.left_version_id@ == left_version_id@
                &&& output.right_version_id@ == right_version_id@
                &&& compare_outcome(self@, vstd::utf8::encode_utf8(l.body@).len() as usize, vstd::utf8::encode_utf8(r.body@).len() as usize, l.body@, r.body@, title_delta@, output.computation)
                &&& match (l.attachments, r.attachments) {
                    (Some(la), Some(ra)) => output.attachment_diff@ == AttachmentDiffView::Known((
                        added_of(refs_view(la@), refs_view(ra@)),
                        removed_of(refs_view(la@), refs_view(ra@)),
                        relabeled_of(refs_view(la@), refs_view(ra@)),
                        unchanged_of(refs_view(la@), refs_view(ra@)) as usize,
                    )),
                    _ => output.attachment_diff@ == AttachmentDiffView::LegacyUnknown,
                }
            }),
    {
        match check_record(document_id, left_version_id, &left) {
            Err(error) => {
                return Err(error);
            },
            Ok(()) => {},
        }
        match check_record(document_id, right_version_id, &right) {
            Err(error) => {
                return Err(error);
            },
            Ok(()) => {},
        }
        let l = match left {
            Ok(Some(record)) => record,
            _ => {
                return Err(CompareAuthoritativeDocumentRevisionsError::NotFound);
            },
        };
        let r = match right {
            Ok(Some(record)) => record,
            _ => {
                return Err(CompareAuthoritativeDocumentRevisionsError::NotFound);
            },
        };
        let computation = self.diff.compare(l.body.as_str(), r.body.as_str(), title_delta);
        let attachment_diff = match (&l.attachments, &r.attachments) {
            (Some(la), Some(ra)) => compare_attachment_snapshots(Some(la.as_slice()), Some(ra.as_slice())),
            _ => compare_attachment_snapshots(None, None),
        };
        Ok(CompareAuthoritativeDocumentRevisionsOutput {
            left_version_id: left_version_id.to_string(),
            right_version_id: right_version_id.to_string(),
            computation,
            attachment_diff,
        })
    }
}

} // verus!
