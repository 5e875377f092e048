use vstd::prelude::*;
use crate::text::{trim_text, trimmed};
use crate::text::{sort_texts, text_order};
use crate::text::{opt_sstr_view, opt_str_view, opt_to_string, opt_ref_view, pairs_view, strings_view};

verus! {
#[derive(Debug, Clone, Copy, PartialEq, Eq, Structural)]
pub struct StageAssetImportUsecase;

impl StageAssetImportUsecase {
    pub fn new() -> (result: Self)
        ensures
            result == (StageAssetImportUsecase),
    {
        StageAssetImportUsecase
    }
}

#[derive(Debug, Clone, PartialEq, Eq)]
pub enum ImportAssetProductEvent {
    Completed { operation_id: String, document_id: String },
    Failed { operation_id: String, error_code: &'static str },
}

pub trait ImportAssetProductLogger {
    fn write_product(&mut self, event: ImportAssetProductEvent);
}

#[derive(Debug, Clone, Copy, PartialEq, Eq, Structural)]
pub struct ImportAssetUsecase;

impl ImportAssetUsecase {
    pub fn new() -> (result: Self)
        ensures
            result == (ImportAssetUsecase),
    {
        ImportAssetUsecase
    }
}

#[derive(Debug, Clone, Copy, PartialEq, Eq, Structural)]
pub struct ListCatalogDocumentAssetsUsecase;

impl ListCatalogDocumentAssetsUsecase {
    pub fn new() -> (result: Self)
        ensures
            result == (ListCatalogDocumentAssetsUsecase),
    {
        ListCatalogDocumentAssetsUsecase
    }
}

#[derive(Debug, Clone, Copy, PartialEq, Eq, Structural)]
pub struct RecoverAssetImportsOutput {
    cancelled: usize,
    cleanup_required: usize,
}

impl View for RecoverAssetImportsOutput {
    type V = (usize, usize);

    closed spec fn view(&self) -> (usize, usize) {
        (self.cancelled, self.cleanup_required)
    }
}

impl RecoverAssetImportsOutput {
    pub fn cancelled(self) -> (result: usize)
        ensures
            result == self@.0,
    {
        self.cancelled
    }

    pub fn cleanup_required(self) -> (result: usize)
        ensures
            result == self@.1,
    {
        self.cleanup_required
    }

}

#[derive(Debug, Clone, Copy, PartialEq, Eq, Structural)]
pub struct RecoverAssetImportsUsecase;

impl RecoverAssetImportsUsecase {
    pub fn new() -> (result: Self)
        ensures
            result == (RecoverAssetImportsUsecase),
    {
        RecoverAssetImportsUsecase
    }
}

#[derive(Debug, Clone, Copy, PartialEq, Eq, Structural)]
pub struct CancelAssetImportUsecase;

impl CancelAssetImportUsecase {
    pub fn new() -> (result: Self)
        ensures
            result == (CancelAssetImportUsecase),
    {
        CancelAssetImportUsecase
    }
}

/// The events an import records on its operation, in the order it records
/// them.
#[derive(Debug, Clone, Copy, PartialEq, Eq, Structural)]
pub enum ImportOperationEvent {
    Begin,
    ValidationSucceeded,
    StagingSucceeded,
    HashingSucceeded,
    StagingFailed,
    ObjectPublished,
    ObjectPublishFailed,
    MetadataPersisted,
    MetadataPersistFailed,
    LinkSucceeded,
    LinkFailed,
    CancelRequested,
    CleanupSucceeded,
    CleanupFailed,
}

/// The stages of an import after its operation is created, in order.
#[derive(Debug, Clone, Copy, PartialEq, Eq, Structural)]
pub enum ImportStage {
    Staging,
    Publishing,
    PersistingMetadata,
    Linking,
}

/// The position of a stage in an import.
pub open spec fn stage_rank(stage: ImportStage) -> int {
    match stage {
        ImportStage::Staging => 0,
        ImportStage::Publishing => 1,
        ImportStage::PersistingMetadata => 2,
        ImportStage::Linking => 3,
    }
}

/// The events a stage records when it succeeds.
pub open spec fn stage_success_events(stage: ImportStage) -> Seq<ImportOperationEvent> {
    match stage {
        ImportStage::Staging => seq![ImportOperationEvent::StagingSucceeded, ImportOperationEvent::HashingSucceeded],
        ImportStage::Publishing => seq![ImportOperationEvent::ObjectPublished],
        ImportStage::PersistingMetadata => seq![ImportOperationEvent::MetadataPersisted],
        ImportStage::Linking => seq![ImportOperationEvent::LinkSucceeded],
    }
}

/// The event a stage records when it fails.
pub open spec fn stage_failure_event(stage: ImportStage) -> ImportOperationEvent {
    match stage {
        ImportStage::Staging => ImportOperationEvent::StagingFailed,
        ImportStage::Publishing => ImportOperationEvent::ObjectPublishFailed,
        ImportStage::PersistingMetadata => ImportOperationEvent::MetadataPersistFailed,
        ImportStage::Linking => ImportOperationEvent::LinkFailed,
    }
}

/// The stage of the given rank.
pub open spec fn stage_of_rank(rank: int) -> ImportStage {
    if rank <= 0 {
        ImportStage::Staging
    } else if rank == 1 {
        ImportStage::Publishing
    } else if rank == 2 {
        ImportStage::PersistingMetadata
    } else {
        ImportStage::Linking
    }
}

/// The success events of the first `n` stages, in order.
pub open spec fn successes_before(n: int) -> Seq<ImportOperationEvent>
    decreases n,
{
    if n <= 0 {
        Seq::empty()
    } else {
        successes_before(n - 1) + stage_success_events(stage_of_rank(n - 1))
    }
}

/// The events an import records once its operation exists: it begins and
/// passes validation, then each stage records its success, until a stage
/// fails (`failed_at`), which records its failure and ends the import.
pub open spec fn import_event_log(failed_at: Option<ImportStage>) -> Seq<ImportOperationEvent> {
    let start = seq![ImportOperationEvent::Begin, ImportOperationEvent::ValidationSucceeded];
    match failed_at {
        None => start + successes_before(4),
        Some(stage) => start + successes_before(stage_rank(stage)) + seq![stage_failure_event(stage)],
    }
}

fn stage_success_vec(stage: ImportStage) -> (result: Vec<ImportOperationEvent>)
    ensures
        result@ == stage_success_events(stage),
{
    match stage {
        ImportStage::Staging => vec![ImportOperationEvent::StagingSucceeded, ImportOperationEvent::HashingSucceeded],
        ImportStage::Publishing => vec![ImportOperationEvent::ObjectPublished],
        ImportStage::PersistingMetadata => vec![ImportOperationEvent::MetadataPersisted],
        ImportStage::Linking => vec![ImportOperationEvent::LinkSucceeded],
    }
}

/// The event a failed stage records.
pub fn failure_event(stage: ImportStage) -> (result: ImportOperationEvent)
    ensures
        result == stage_failure_event(stage),
{
    match stage {
        ImportStage::Staging => ImportOperationEvent::StagingFailed,
        ImportStage::Publishing => ImportOperationEvent::ObjectPublishFailed,
        ImportStage::PersistingMetadata => ImportOperationEvent::MetadataPersistFailed,
        ImportStage::Linking => ImportOperationEvent::LinkFailed,
    }
}

/// The events an import records, as [`import_event_log`] says.
pub fn import_events(failed_at: Option<ImportStage>) -> (result: Vec<ImportOperationEvent>)
    ensures
        result@ == import_event_log(failed_at),
{
    let mut events = vec![ImportOperationEvent::Begin, ImportOperationEvent::ValidationSucceeded];
    let last: usize = match failed_at {
        None => 4,
        Some(ImportStage::Staging) => 0,
        Some(ImportStage::Publishing) => 1,
        Some(ImportStage::PersistingMetadata) => 2,
        Some(ImportStage::Linking) => 3,
    };
    let ghost start = events@;
    assert(start =~= seq![ImportOperationEvent::Begin, ImportOperationEvent::ValidationSucceeded]);
    let mut rank: usize = 0;
    assert(events@ =~= start + successes_before(0));
    while rank < last
        invariant
            rank <= last <= 4,
            events@ == start + successes_before(rank as int),
        decreases last - rank,
    {
        let stage = if rank == 0 {
            ImportStage::Staging
        } else if rank == 1 {
            ImportStage::Publishing
        } else if rank == 2 {
            ImportStage::PersistingMetadata
        } else {
            ImportStage::Linking
        };
        assert(stage == stage_of_rank(rank as int));
        let more = stage_success_vec(stage);
        let mut k: usize = 0;
        let ghost before = events@;
        while k < more.len()
            invariant
                k <= more.len(),
                events@ == before + more@.subrange(0, k as int),
            decreases more.len() - k,
        {
            events.push(more[k]);
            assert(more@.subrange(0, k + 1) =~= more@.subrange(0, k as int).push(more@[k as int]));
            k = k + 1;
        }
        assert(more@.subrange(0, more.len() as int) =~= more@);
        assert(successes_before(rank + 1) == successes_before(rank as int) + stage_success_events(stage_of_rank(rank as int)));
        assert(events@ =~= start + successes_before(rank + 1));
        rank = rank + 1;
    }
    match failed_at {
        None => {},
        Some(stage) => {
            events.push(failure_event(stage));
        },
    }
    events
}

/// Whether an event records a failure.
pub open spec fn is_failure_event(event: ImportOperationEvent) -> bool {
    event == ImportOperationEvent::StagingFailed || event == ImportOperationEvent::ObjectPublishFailed
        || event == ImportOperationEvent::MetadataPersistFailed || event == ImportOperationEvent::LinkFailed
}

proof fn lemma_successes_have_no_failure(n: int)
    ensures
        forall|i: int| 0 <= i < successes_before(n).len() ==> !is_failure_event(#[trigger] successes_before(n)[i]),
        0 <= n <= 4 ==> successes_before(n).len() == (if n == 0 { 0 } else { n + 1 }),
    decreases n,
{
    if n > 0 {
        lemma_successes_have_no_failure(n - 1);
        let before = successes_before(n - 1);
        let added = stage_success_events(stage_of_rank(n - 1));
        assert forall|i: int| 0 <= i < successes_before(n).len() implies !is_failure_event(#[trigger] successes_before(n)[i]) by {
            if i < before.len() {
                assert(successes_before(n)[i] == before[i]);
            } else {
                assert(successes_before(n)[i] == added[i - before.len()]);
            }
        }
    }
}

/// An import records a failure exactly when it fails, and then only once,
/// as its last event; a completed import ends with the link to its document.
pub proof fn lemma_import_log_ends_once(failed_at: Option<ImportStage>)
    ensures
        import_event_log(failed_at).len() > 0,
        is_failure_event(import_event_log(failed_at).last()) <==> failed_at is Some,
        forall|i: int| 0 <= i < import_event_log(failed_at).len() - 1 ==> !is_failure_event(#[trigger] import_event_log(failed_at)[i]),
        failed_at is None ==> import_event_log(failed_at).last() == ImportOperationEvent::LinkSucceeded
            && import_event_log(failed_at).len() == 7,
{
    let start = seq![ImportOperationEvent::Begin, ImportOperationEvent::ValidationSucceeded];
    let log = import_event_log(failed_at);
    match failed_at {
        None => {
            lemma_successes_have_no_failure(4);
            reveal_with_fuel(successes_before, 5);
            assert(log == start + successes_before(4));
            assert forall|i: int| 0 <= i < log.len() - 1 implies !is_failure_event(#[trigger] log[i]) by {
                if i >= 2 {
                    assert(log[i] == successes_before(4)[i - 2]);
                }
            }
        },
        Some(stage) => {
            let n = stage_rank(stage);
            lemma_successes_have_no_failure(n);
            assert forall|i: int| 0 <= i < log.len() - 1 implies !is_failure_event(#[trigger] log[i]) by {
                if i >= 2 {
                    assert(log[i] == successes_before(n)[i - 2]);
                }
            }
        },
    }
}

/// The label of an import request, trimmed; `None` when the label is blank
/// or the chunk size is zero, which refuses the request.
pub fn import_label(label: &str, chunk_bytes: usize) -> (result: Option<String>)
    ensures
        (trimmed(label@).len() == 0 || chunk_bytes == 0) ==> result is None,
        !(trimmed(label@).len() == 0 || chunk_bytes == 0) ==> result is Some && result->Some_0@ == trimmed(label@),
{
    let label = trim_text(label);
    if label.is_empty() || chunk_bytes == 0 {
        return None;
    }
    Some(label.to_string())
}

/// Staging after a chunk is read at `offset` of a source of `expected`
/// bytes: the chunk must start at the offset and hold bytes, and a chunk
/// that ends the source must end exactly at `expected`. `None` is a size
/// mismatch; otherwise the next offset and whether the source has ended.
pub fn accept_chunk(offset: u64, expected: u64, chunk_offset: u64, chunk_len: usize, is_eof: bool) -> (result: Option<(u64, bool)>)
    ensures
        (chunk_offset != offset || chunk_len == 0 || offset + chunk_len > u64::MAX
            || (is_eof && offset + chunk_len != expected)) ==> result is None,
        !(chunk_offset != offset || chunk_len == 0 || offset + chunk_len > u64::MAX
            || (is_eof && offset + chunk_len != expected)) ==> result == Some(((offset + chunk_len) as u64, is_eof)),
{
    if chunk_offset != offset || chunk_len == 0 {
        return None;
    }
    let len = chunk_len as u64;
    if len > u64::MAX - offset {
        return None;
    }
    let next = offset + len;
    if is_eof && next != expected {
        return None;
    }
    Some((next, is_eof))
}

/// Staging is complete when the source has said it ended exactly at the
/// expected size.
pub fn staging_complete(offset: u64, expected: u64, saw_eof: bool) -> (result: bool)
    ensures
        result == (saw_eof && offset == expected),
{
    saw_eof && offset == expected
}

/// The code a cancelled or recovered import is logged with: cancelled when
/// its staging was cleaned up, else cleanup still required.
pub fn cleanup_outcome_code(cleaned_up: bool) -> (result: &'static str)
    ensures
        result@ == (if cleaned_up { "asset.import.cancelled"@ } else { "asset.import.cleanup_required"@ }),
{
    if cleaned_up {
        "asset.import.cancelled"
    } else {
        "asset.import.cleanup_required"
    }
}

/// The event a cancelled or recovered import records after its cleanup.
pub fn cleanup_event(cleaned_up: bool) -> (result: ImportOperationEvent)
    ensures
        result == (if cleaned_up { ImportOperationEvent::CleanupSucceeded } else { ImportOperationEvent::CleanupFailed }),
{
    if cleaned_up {
        ImportOperationEvent::CleanupSucceeded
    } else {
        ImportOperationEvent::CleanupFailed
    }
}

/// How many of the first `n` cleanups succeeded.
pub open spec fn cleaned_count(cleanups: Seq<bool>, n: int) -> nat
    decreases n,
{
    if n <= 0 {
        0
    } else {
        cleaned_count(cleanups, n - 1) + if cleanups[n - 1] { 1nat } else { 0nat }
    }
}

/// The tally of a recovery run, given whether each active import's staging
/// was cleaned up: how many were cancelled and how many still need cleanup.
pub fn recovery_tally(cleanups: &[bool]) -> (result: RecoverAssetImportsOutput)
    ensures
        result@.0 == cleaned_count(cleanups@, cleanups@.len() as int),
        result@.0 + result@.1 == cleanups@.len(),
{
    let mut cancelled: usize = 0;
    let mut cleanup_required: usize = 0;
    let mut i: usize = 0;
    while i < cleanups.len()
        invariant
            i <= cleanups.len(),
            cancelled == cleaned_count(cleanups@, i as int),
            cancelled + cleanup_required == i,
        decreases cleanups.len() - i,
    {
        if cleanups[i] {
            cancelled = cancelled.saturating_add(1);
        } else {
            cleanup_required = cleanup_required.saturating_add(1);
        }
        i = i + 1;
    }
    RecoverAssetImportsOutput { cancelled, cleanup_required }
}

/// A listing or recovery request reads between 1 and 500 entries.
pub fn asset_page_limit_is_valid(limit: usize) -> (result: bool)
    ensures
        result == (1 <= limit && limit <= 500),
{
    limit != 0 && limit <= 500
}


/// Why staging an imported file failed.
#[derive(Debug, Clone, Copy, PartialEq, Eq)]
pub enum StageAssetImportError {
    InvalidInput,
    SizeMismatch,
    /// Carries the code that the failing import source reported.
    Source(&'static str),
    /// Carries the code that the failing staging writer reported.
    Staging(&'static str),
}

impl StageAssetImportError {
    /// The stable code reported for this error.
    /// The code of this error, as the literal `code` returns.
    pub open spec fn code_str(self) -> &'static str {
        match self {
            Self::InvalidInput => "asset_import.invalid_input",
            Self::SizeMismatch => "asset_import.size_mismatch",
            Self::Source(code) => code,
            Self::Staging(code) => code,
        }
    }

    pub fn code(self) -> (result: &'static str)
        ensures
            result == self.code_str(),
            result@ == self.code_view(),
    {
        match self {
            Self::InvalidInput => "asset_import.invalid_input",
            Self::SizeMismatch => "asset_import.size_mismatch",
            Self::Source(code) => code,
            Self::Staging(code) => code,
        }
    }

    /// The code of this error as a character sequence.
    pub open spec fn code_view(self) -> Seq<char> {
        match self {
            Self::InvalidInput => "asset_import.invalid_input"@,
            Self::SizeMismatch => "asset_import.size_mismatch"@,
            Self::Source(code) => code@,
            Self::Staging(code) => code@,
        }
    }
}

/// Why importing a file as an asset failed.
#[derive(Debug, Clone, Copy, PartialEq, Eq)]
pub enum ImportAssetError {
    InvalidInput,
    InvalidState,
    DocumentNotFound,
    /// Carries the code that the failing document lookup reported.
    Document(&'static str),
    /// Carries the code that the failing import source reported.
    Source(&'static str),
    Staging(StageAssetImportError),
    /// Carries the code that the failing object publisher reported.
    Publish(&'static str),
    /// Carries the code that the failing metadata catalog reported.
    Metadata(&'static str),
    /// Carries the code that the failing association catalog reported.
    Association(&'static str),
    /// Carries the code that the failing operation repository reported.
    Repository(&'static str),
}

impl ImportAssetError {
    /// The stable code reported for this error.
    /// The code of this error, as the literal `code` returns.
    pub open spec fn code_str(self) -> &'static str {
        match self {
            Self::InvalidInput => "asset_import.invalid_input",
            Self::InvalidState => "asset_import.invalid_state",
            Self::DocumentNotFound => "asset_import.document_not_found",
            Self::Document(code) => code,
            Self::Source(code) => code,
            Self::Staging(error) => error.code_str(),
            Self::Publish(code) => code,
            Self::Metadata(code) => code,
            Self::Association(code) => code,
            Self::Repository(code) => code,
        }
    }

    pub fn code(self) -> (result: &'static str)
        ensures
            result == self.code_str(),
            result@ == self.code_view(),
    {
        match self {
            Self::InvalidInput => "asset_import.invalid_input",
            Self::InvalidState => "asset_import.invalid_state",
            Self::DocumentNotFound => "asset_import.document_not_found",
            Self::Document(code) => code,
            Self::Source(code) => code,
            Self::Staging(error) => error.code(),
            Self::Publish(code) => code,
            Self::Metadata(code) => code,
            Self::Association(code) => code,
            Self::Repository(code) => code,
        }
    }

    /// The code of this error as a character sequence.
    pub open spec fn code_view(self) -> Seq<char> {
        match self {
            Self::InvalidInput => "asset_import.invalid_input"@,
            Self::InvalidState => "asset_import.invalid_state"@,
            Self::DocumentNotFound => "asset_import.document_not_found"@,
            Self::Document(code) => code@,
            Self::Source(code) => code@,
            Self::Staging(error) => error.code_view(),
            Self::Publish(code) => code@,
            Self::Metadata(code) => code@,
            Self::Association(code) => code@,
            Self::Repository(code) => code@,
        }
    }
}

/// Why listing the assets of a document failed.
#[derive(Debug, Clone, Copy, PartialEq, Eq)]
pub enum ListCatalogDocumentAssetsError {
    InvalidInput,
    DocumentNotFound,
    DanglingMetadata,
    /// Carries the code that the failing document lookup reported.
    Document(&'static str),
    /// Carries the code that the failing association catalog reported.
    Association(&'static str),
    /// Carries the code that the failing metadata catalog reported.
    Metadata(&'static str),
}

impl ListCatalogDocumentAssetsError {
    /// The stable code reported for this error.
    pub fn code(self) -> (result: &'static str)
        ensures
            result@ == self.code_view(),
    {
        match self {
            Self::InvalidInput => "asset_query.invalid_input",
            Self::DocumentNotFound => "asset_query.document_not_found",
            Self::DanglingMetadata => "asset_query.dangling_metadata",
            Self::Document(code) => code,
            Self::Association(code) => code,
            Self::Metadata(code) => code,
        }
    }

    /// The code of this error as a character sequence.
    pub open spec fn code_view(self) -> Seq<char> {
        match self {
            Self::InvalidInput => "asset_query.invalid_input"@,
            Self::DocumentNotFound => "asset_query.document_not_found"@,
            Self::DanglingMetadata => "asset_query.dangling_metadata"@,
            Self::Document(code) => code@,
            Self::Association(code) => code@,
            Self::Metadata(code) => code@,
        }
    }
}

/// Why recovering interrupted imports failed.
#[derive(Debug, Clone, Copy, PartialEq, Eq)]
pub enum RecoverAssetImportsError {
    InvalidInput,
    InvalidState,
    /// Carries the code that the failing operation repository reported.
    Repository(&'static str),
}

impl RecoverAssetImportsError {
    /// The stable code reported for this error.
    pub fn code(self) -> (result: &'static str)
        ensures
            result@ == self.code_view(),
    {
        match self {
            Self::InvalidInput => "asset_recovery.invalid_input",
            Self::InvalidState => "asset_recovery.invalid_state",
            Self::Repository(code) => code,
        }
    }

    /// The code of this error as a character sequence.
    pub open spec fn code_view(self) -> Seq<char> {
        match self {
            Self::InvalidInput => "asset_recovery.invalid_input"@,
            Self::InvalidState => "asset_recovery.invalid_state"@,
            Self::Repository(code) => code@,
        }
    }
}

/// Why cancelling an import failed.
#[derive(Debug, Clone, Copy, PartialEq, Eq)]
pub enum CancelAssetImportError {
    InvalidInput,
    InvalidState,
    NotFound,
    /// Carries the code that the failing operation repository reported.
    Repository(&'static str),
}

impl CancelAssetImportError {
    /// The stable code reported for this error.
    pub fn code(self) -> (result: &'static str)
        ensures
            result@ == self.code_view(),
    {
        match self {
            Self::InvalidInput => "asset_cancel.invalid_input",
            Self::InvalidState => "asset_cancel.invalid_state",
            Self::NotFound => "asset_cancel.not_found",
            Self::Repository(code) => code,
        }
    }

    /// The code of this error as a character sequence.
    pub open spec fn code_view(self) -> Seq<char> {
        match self {
            Self::InvalidInput => "asset_cancel.invalid_input"@,
            Self::InvalidState => "asset_cancel.invalid_state"@,
            Self::NotFound => "asset_cancel.not_found"@,
            Self::Repository(code) => code@,
        }
    }
}

/// What an import run works on: the operation it records and the document
/// the asset is linked to.
#[derive(Debug, Clone, PartialEq, Eq)]
pub struct ImportRun {
    pub operation_id: String,
    pub document_id: String,
}

/// A call the import runner makes to the outside world.
#[derive(Debug, Clone, Copy, PartialEq, Eq, Structural)]
pub enum ImportCall {
    /// Ask whether the document exists.
    CheckDocument,
    /// Describe the source file (its size, name and media type).
    DescribeSource,
    /// Build the import operation for the described size and create it.
    CreateOperation,
    /// Apply `event` to the operation and replace it in the repository,
    /// expecting the stored operation to be in the state that `after`
    /// left it in (`None`: the state it was created in).
    Advance { event: ImportOperationEvent, after: Option<ImportOperationEvent> },
    /// Stage the source file chunk by chunk.
    Stage,
    /// Publish the staged object.
    Publish,
    /// Build the catalog record of the published asset, with the extraction
    /// status `import_extraction_status` gives for its preview support, and
    /// store it.
    PutMetadata,
    /// Build the association of the asset with the document and link it.
    Link,
}

/// What came back from the last call of an import run.
#[derive(Debug, Clone, Copy, PartialEq, Eq)]
pub enum ImportReply {
    /// The call succeeded.
    Done,
    /// The document that was asked for does not exist.
    DocumentMissing,
    /// The call failed with this error.
    Failed(ImportAssetError),
}

/// Where an import run stands: the call whose reply is awaited.
#[derive(Debug, Clone, Copy, PartialEq, Eq)]
pub enum ImportStep {
    CheckingDocument,
    DescribingSource,
    CreatingOperation,
    Advancing(ImportOperationEvent),
    Staging,
    Publishing,
    PersistingMetadata,
    Linking,
    /// The failure event of the stage is being recorded before the run
    /// fails with this error.
    RecordingFailure(ImportAssetError),
}

/// What the import runner does next.
#[derive(Debug, PartialEq, Eq)]
pub enum ImportAction {
    Call(ImportCall),
    /// The run ends: the product event, if any, is written and the result
    /// is returned.
    Finish(Option<ImportAssetProductEvent>, Result<(), ImportAssetError>),
}

/// Whether the error is the failure of the outside step of a stage, as
/// opposed to a value that could not be built before calling it.
pub open spec fn is_stage_failure(stage: ImportStage, error: ImportAssetError) -> bool {
    match stage {
        ImportStage::Staging => error is Staging,
        ImportStage::Publishing => error is Publish,
        ImportStage::PersistingMetadata => error is Metadata,
        ImportStage::Linking => error is Association,
    }
}

/// The event recorded when a stage succeeds.
pub open spec fn stage_success_event(stage: ImportStage) -> ImportOperationEvent {
    match stage {
        ImportStage::Staging => ImportOperationEvent::StagingSucceeded,
        ImportStage::Publishing => ImportOperationEvent::ObjectPublished,
        ImportStage::PersistingMetadata => ImportOperationEvent::MetadataPersisted,
        ImportStage::Linking => ImportOperationEvent::LinkSucceeded,
    }
}

/// The last event recorded before a stage runs.
pub open spec fn stage_previous_event(stage: ImportStage) -> ImportOperationEvent {
    match stage {
        ImportStage::Staging => ImportOperationEvent::ValidationSucceeded,
        ImportStage::Publishing => ImportOperationEvent::HashingSucceeded,
        ImportStage::PersistingMetadata => ImportOperationEvent::ObjectPublished,
        ImportStage::Linking => ImportOperationEvent::MetadataPersisted,
    }
}

/// The stage a step runs, if it runs one.
pub open spec fn step_stage(step: ImportStep) -> Option<ImportStage> {
    match step {
        ImportStep::Staging => Some(ImportStage::Staging),
        ImportStep::Publishing => Some(ImportStage::Publishing),
        ImportStep::PersistingMetadata => Some(ImportStage::PersistingMetadata),
        ImportStep::Linking => Some(ImportStage::Linking),
        _ => None,
    }
}

/// The step that follows a successfully recorded event, or `None` when the
/// import is complete.
pub open spec fn after_event(event: ImportOperationEvent) -> Option<ImportStep> {
    match event {
        ImportOperationEvent::Begin => Some(ImportStep::Advancing(ImportOperationEvent::ValidationSucceeded)),
        ImportOperationEvent::ValidationSucceeded => Some(ImportStep::Staging),
        ImportOperationEvent::StagingSucceeded => Some(ImportStep::Advancing(ImportOperationEvent::HashingSucceeded)),
        ImportOperationEvent::HashingSucceeded => Some(ImportStep::Publishing),
        ImportOperationEvent::ObjectPublished => Some(ImportStep::PersistingMetadata),
        ImportOperationEvent::MetadataPersisted => Some(ImportStep::Linking),
        _ => None,
    }
}

/// The event recorded just before the given one on the way to a completed
/// import (`None` before `Begin`).
pub open spec fn event_before(event: ImportOperationEvent) -> Option<ImportOperationEvent> {
    match event {
        ImportOperationEvent::ValidationSucceeded => Some(ImportOperationEvent::Begin),
        ImportOperationEvent::StagingSucceeded => Some(ImportOperationEvent::ValidationSucceeded),
        ImportOperationEvent::HashingSucceeded => Some(ImportOperationEvent::StagingSucceeded),
        ImportOperationEvent::ObjectPublished => Some(ImportOperationEvent::HashingSucceeded),
        ImportOperationEvent::MetadataPersisted => Some(ImportOperationEvent::ObjectPublished),
        ImportOperationEvent::LinkSucceeded => Some(ImportOperationEvent::MetadataPersisted),
        _ => None,
    }
}

/// The call a step makes.
pub open spec fn import_step_call(step: ImportStep) -> ImportCall {
    match step {
        ImportStep::CheckingDocument => ImportCall::CheckDocument,
        ImportStep::DescribingSource => ImportCall::DescribeSource,
        ImportStep::CreatingOperation => ImportCall::CreateOperation,
        ImportStep::Advancing(event) => ImportCall::Advance { event, after: event_before(event) },
        ImportStep::Staging => ImportCall::Stage,
        ImportStep::Publishing => ImportCall::Publish,
        ImportStep::PersistingMetadata => ImportCall::PutMetadata,
        ImportStep::Linking => ImportCall::Link,
        ImportStep::RecordingFailure(_) => ImportCall::CheckDocument,
    }
}

/// The product event of a failed import of the run.
pub open spec fn import_failed_event(run: ImportRun, error: ImportAssetError) -> ImportAssetProductEvent {
    ImportAssetProductEvent::Failed { operation_id: run.operation_id, error_code: error.code_str() }
}

/// The first step of an import run and its call.
pub open spec fn import_start() -> (ImportStep, ImportAction) {
    (ImportStep::CheckingDocument, ImportAction::Call(ImportCall::CheckDocument))
}

/// One step of an import: a missing document or a failure to read it or
/// the source is logged as a failed import of the operation and ends the
/// run; a failure to create or advance the operation ends it unlogged; a
/// failed stage first records its failure event (replacing the operation
/// that the stage's previous event left), then logs the failure and fails
/// with it (or, if recording fails, fails with that error unlogged); after
/// the link is recorded the completion of the operation for the document is
/// logged.
pub open spec fn import_transition(run: ImportRun, step: ImportStep, reply: ImportReply) -> (ImportStep, ImportAction) {
    match reply {
        ImportReply::DocumentMissing => (step, ImportAction::Finish(
            Some(import_failed_event(run, ImportAssetError::DocumentNotFound)),
            Err(ImportAssetError::DocumentNotFound),
        )),
        ImportReply::Failed(error) => match step {
            ImportStep::CheckingDocument | ImportStep::DescribingSource => (step, ImportAction::Finish(
                Some(import_failed_event(run, error)),
                Err(error),
            )),
            ImportStep::RecordingFailure(_) | ImportStep::CreatingOperation | ImportStep::Advancing(_) => (
                step,
                ImportAction::Finish(None, Err(error)),
            ),
            _ => {
                let stage = step_stage(step)->Some_0;
                if is_stage_failure(stage, error) {
                    (ImportStep::RecordingFailure(error), ImportAction::Call(
                        ImportCall::Advance { event: stage_failure_event(stage), after: Some(stage_previous_event(stage)) },
                    ))
                } else {
                    (step, ImportAction::Finish(None, Err(error)))
                }
            },
        },
        ImportReply::Done => match step {
            ImportStep::CheckingDocument => (ImportStep::DescribingSource, ImportAction::Call(ImportCall::DescribeSource)),
            ImportStep::DescribingSource => (ImportStep::CreatingOperation, ImportAction::Call(ImportCall::CreateOperation)),
            ImportStep::CreatingOperation => (
                ImportStep::Advancing(ImportOperationEvent::Begin),
                ImportAction::Call(import_step_call(ImportStep::Advancing(ImportOperationEvent::Begin))),
            ),
            ImportStep::RecordingFailure(error) => (step, ImportAction::Finish(Some(import_failed_event(run, error)), Err(error))),
            ImportStep::Advancing(event) => match after_event(event) {
                Some(next) => (next, ImportAction::Call(import_step_call(next))),
                None => (step, ImportAction::Finish(
                    Some(ImportAssetProductEvent::Completed { operation_id: run.operation_id, document_id: run.document_id }),
                    Ok(()),
                )),
            },
            _ => {
                let next = ImportStep::Advancing(stage_success_event(step_stage(step)->Some_0));
                (next, ImportAction::Call(import_step_call(next)))
            },
        },
    }
}

/// Starts an import run: the document is checked first.
pub fn import_begin() -> (result: (ImportStep, ImportAction))
    ensures
        result == import_start(),
{
    (ImportStep::CheckingDocument, ImportAction::Call(ImportCall::CheckDocument))
}

fn import_failed(run: &ImportRun, error: ImportAssetError) -> (result: ImportAssetProductEvent)
    ensures
        result == import_failed_event(*run, error),
{
    ImportAssetProductEvent::Failed { operation_id: run.operation_id.clone(), error_code: error.code() }
}

fn advance_call(event: ImportOperationEvent) -> (result: ImportCall)
    requires
        !(event is Begin) ==> event_before(event) is Some,
    ensures
        result == import_step_call(ImportStep::Advancing(event)),
{
    let after = match event {
        ImportOperationEvent::ValidationSucceeded => Some(ImportOperationEvent::Begin),
        ImportOperationEvent::StagingSucceeded => Some(ImportOperationEvent::ValidationSucceeded),
        ImportOperationEvent::HashingSucceeded => Some(ImportOperationEvent::StagingSucceeded),
        ImportOperationEvent::ObjectPublished => Some(ImportOperationEvent::HashingSucceeded),
        ImportOperationEvent::MetadataPersisted => Some(ImportOperationEvent::ObjectPublished),
        ImportOperationEvent::LinkSucceeded => Some(ImportOperationEvent::MetadataPersisted),
        _ => None,
    };
    ImportCall::Advance { event, after }
}

/// Takes the reply to the last call of an import run and says what comes
/// next, as `import_transition` describes.
pub fn import_next(run: &ImportRun, step: ImportStep, reply: ImportReply) -> (result: (ImportStep, ImportAction))
    ensures
        result == import_transition(*run, step, reply),
{
    match reply {
        ImportReply::DocumentMissing => (step, ImportAction::Finish(
            Some(import_failed(run, ImportAssetError::DocumentNotFound)),
            Err(ImportAssetError::DocumentNotFound),
        )),
        ImportReply::Failed(error) => match step {
            ImportStep::CheckingDocument | ImportStep::DescribingSource => (step, ImportAction::Finish(
                Some(import_failed(run, error)),
                Err(error),
            )),
            ImportStep::RecordingFailure(_) | ImportStep::CreatingOperation | ImportStep::Advancing(_) => (
                step,
                ImportAction::Finish(None, Err(error)),
            ),
            ImportStep::Staging => match error {
                ImportAssetError::Staging(_) => (ImportStep::RecordingFailure(error), ImportAction::Call(
                    ImportCall::Advance { event: ImportOperationEvent::StagingFailed, after: Some(ImportOperationEvent::ValidationSucceeded) },
                )),
                _ => (step, ImportAction::Finish(None, Err(error))),
            },
            ImportStep::Publishing => match error {
                ImportAssetError::Publish(_) => (ImportStep::RecordingFailure(error), ImportAction::Call(
                    ImportCall::Advance { event: ImportOperationEvent::ObjectPublishFailed, after: Some(ImportOperationEvent::HashingSucceeded) },
                )),
                _ => (step, ImportAction::Finish(None, Err(error))),
            },
            ImportStep::PersistingMetadata => match error {
                ImportAssetError::Metadata(_) => (ImportStep::RecordingFailure(error), ImportAction::Call(
                    ImportCall::Advance { event: ImportOperationEvent::MetadataPersistFailed, after: Some(ImportOperationEvent::ObjectPublished) },
                )),
                _ => (step, ImportAction::Finish(None, Err(error))),
            },
            ImportStep::Linking => match error {
                ImportAssetError::Association(_) => (ImportStep::RecordingFailure(error), ImportAction::Call(
                    ImportCall::Advance { event: ImportOperationEvent::LinkFailed, after: Some(ImportOperationEvent::MetadataPersisted) },
                )),
                _ => (step, ImportAction::Finish(None, Err(error))),
            },
        },
        ImportReply::Done => match step {
            ImportStep::CheckingDocument => (ImportStep::DescribingSource, ImportAction::Call(ImportCall::DescribeSource)),
            ImportStep::DescribingSource => (ImportStep::CreatingOperation, ImportAction::Call(ImportCall::CreateOperation)),
            ImportStep::CreatingOperation => (
                ImportStep::Advancing(ImportOperationEvent::Begin),
                ImportAction::Call(advance_call(ImportOperationEvent::Begin)),
            ),
            ImportStep::RecordingFailure(error) => (step, ImportAction::Finish(Some(import_failed(run, error)), Err(error))),
            ImportStep::Advancing(event) => {
                let next = match event {
                    ImportOperationEvent::Begin => Some(ImportStep::Advancing(ImportOperationEvent::ValidationSucceeded)),
                    ImportOperationEvent::ValidationSucceeded => Some(ImportStep::Staging),
                    ImportOperationEvent::StagingSucceeded => Some(ImportStep::Advancing(ImportOperationEvent::HashingSucceeded)),
                    ImportOperationEvent::HashingSucceeded => Some(ImportStep::Publishing),
                    ImportOperationEvent::ObjectPublished => Some(ImportStep::PersistingMetadata),
                    ImportOperationEvent::MetadataPersisted => Some(ImportStep::Linking),
                    _ => None,
                };
                match next {
                    Some(ImportStep::Advancing(e)) => (ImportStep::Advancing(e), ImportAction::Call(advance_call(e))),
                    Some(ImportStep::Staging) => (ImportStep::Staging, ImportAction::Call(ImportCall::Stage)),
                    Some(ImportStep::Publishing) => (ImportStep::Publishing, ImportAction::Call(ImportCall::Publish)),
                    Some(ImportStep::PersistingMetadata) => (ImportStep::PersistingMetadata, ImportAction::Call(ImportCall::PutMetadata)),
                    Some(ImportStep::Linking) => (ImportStep::Linking, ImportAction::Call(ImportCall::Link)),
                    _ => (step, ImportAction::Finish(
                        Some(ImportAssetProductEvent::Completed {
                            operation_id: run.operation_id.clone(),
                            document_id: run.document_id.clone(),
                        }),
                        Ok(()),
                    )),
                }
            },
            ImportStep::Staging => (
                ImportStep::Advancing(ImportOperationEvent::StagingSucceeded),
                ImportAction::Call(advance_call(ImportOperationEvent::StagingSucceeded)),
            ),
            ImportStep::Publishing => (
                ImportStep::Advancing(ImportOperationEvent::ObjectPublished),
                ImportAction::Call(advance_call(ImportOperationEvent::ObjectPublished)),
            ),
            ImportStep::PersistingMetadata => (
                ImportStep::Advancing(ImportOperationEvent::MetadataPersisted),
                ImportAction::Call(advance_call(ImportOperationEvent::MetadataPersisted)),
            ),
            ImportStep::Linking => (
                ImportStep::Advancing(ImportOperationEvent::LinkSucceeded),
                ImportAction::Call(advance_call(ImportOperationEvent::LinkSucceeded)),
            ),
        },
    }
}

/// How far a recovery of interrupted imports has come: the import in hand
/// among the active ones, and the tallies so far.
#[derive(Debug, Clone, Copy, PartialEq, Eq, Structural)]
pub struct RecoverProgress {
    pub index: usize,
    pub total: usize,
    pub cancelled: usize,
    pub cleanup_required: usize,
}

/// A call a recovery of interrupted imports makes to the outside world.
#[derive(Debug, Clone, Copy, PartialEq, Eq, Structural)]
pub enum RecoverCall {
    /// List the active imports of the workspace, up to the limit.
    ListActive,
    /// Apply `event` to the active import at `index` and replace it in the
    /// repository, expecting the stored import to be in the state that
    /// `after` left it in (`None`: the state it was listed in).
    Advance { index: usize, event: ImportOperationEvent, after: Option<ImportOperationEvent> },
    /// Clean up the staging of the active import at the index.
    Cleanup(usize),
}

/// What came back from the last call of a recovery.
#[derive(Debug, Clone, Copy, PartialEq, Eq)]
pub enum RecoverReply {
    Done,
    /// This many imports are active.
    Listed(usize),
    /// The cleanup succeeded or not.
    Cleaned(bool),
    /// The import refused the event.
    Refused,
    /// The operation repository failed with this code.
    RepositoryFailed(&'static str),
}

/// A product event of a recovery: `Failed` for the import at the index,
/// with `cleanup_outcome_code` of whether its staging was cleaned up.
#[derive(Debug, Clone, Copy, PartialEq, Eq, Structural)]
pub struct RecoverLog {
    pub index: usize,
    pub cleaned_up: bool,
}

/// Where a recovery stands: the call whose reply is awaited.
#[derive(Debug, Clone, Copy, PartialEq, Eq, Structural)]
pub enum RecoverStep {
    Listing,
    Cancelling(RecoverProgress),
    CleaningUp(RecoverProgress),
    Recording(RecoverProgress, bool),
}

/// What a recovery does next: log an event (if any) and make a call, or log
/// an event (if any) and end with the tallies of cancelled imports and of
/// imports that still need cleanup.
#[derive(Debug, Clone, Copy, PartialEq, Eq)]
pub enum RecoverAction {
    Call(Option<RecoverLog>, RecoverCall),
    Finish(Option<RecoverLog>, Result<(usize, usize), RecoverAssetImportsError>),
}

/// One more, unless the count is already at its largest value.
pub open spec fn saturating_inc(count: usize) -> usize {
    if count < usize::MAX {
        (count + 1) as usize
    } else {
        count
    }
}

/// The progress is about an import among the active ones.
pub open spec fn recover_step_valid(step: RecoverStep) -> bool {
    match step {
        RecoverStep::Listing => true,
        RecoverStep::Cancelling(p) | RecoverStep::CleaningUp(p) | RecoverStep::Recording(p, _) => p.index < p.total,
    }
}

/// A recovery starts by listing the active imports.
pub open spec fn recover_start() -> (RecoverStep, RecoverAction) {
    (RecoverStep::Listing, RecoverAction::Call(None, RecoverCall::ListActive))
}

/// One step of a recovery: each active import in turn is cancelled, its
/// staging cleaned up, the cleanup's outcome recorded on it and logged as a
/// failed import; a cleaned up import counts as cancelled, any other as
/// still needing cleanup (each tally saturating); after the last import the
/// tallies are returned. A refused event is an invalid state, a repository
/// failure ends the recovery with its code.
pub open spec fn recover_transition(step: RecoverStep, reply: RecoverReply) -> (RecoverStep, RecoverAction) {
    match reply {
        RecoverReply::RepositoryFailed(code) => (step, RecoverAction::Finish(None, Err(RecoverAssetImportsError::Repository(code)))),
        RecoverReply::Refused => (step, RecoverAction::Finish(None, Err(RecoverAssetImportsError::InvalidState))),
        RecoverReply::Listed(total) => if total == 0 {
            (step, RecoverAction::Finish(None, Ok((0usize, 0usize))))
        } else {
            let p = RecoverProgress { index: 0, total, cancelled: 0, cleanup_required: 0 };
            (RecoverStep::Cancelling(p), RecoverAction::Call(None, RecoverCall::Advance { index: 0, event: ImportOperationEvent::CancelRequested, after: None }))
        },
        RecoverReply::Cleaned(ok) => match step {
            RecoverStep::CleaningUp(p) => {
                let next = if ok {
                    RecoverProgress { cancelled: saturating_inc(p.cancelled), ..p }
                } else {
                    RecoverProgress { cleanup_required: saturating_inc(p.cleanup_required), ..p }
                };
                let event = if ok { ImportOperationEvent::CleanupSucceeded } else { ImportOperationEvent::CleanupFailed };
                (RecoverStep::Recording(next, ok), RecoverAction::Call(None, RecoverCall::Advance {
                    index: p.index,
                    event,
                    after: Some(ImportOperationEvent::CancelRequested),
                }))
            },
            _ => (step, RecoverAction::Finish(None, Err(RecoverAssetImportsError::InvalidState))),
        },
        RecoverReply::Done => match step {
            RecoverStep::Cancelling(p) => (RecoverStep::CleaningUp(p), RecoverAction::Call(None, RecoverCall::Cleanup(p.index))),
            RecoverStep::Recording(p, ok) => {
                let log = RecoverLog { index: p.index, cleaned_up: ok };
                if p.index + 1 == p.total {
                    (step, RecoverAction::Finish(Some(log), Ok((p.cancelled, p.cleanup_required))))
                } else {
                    let next = RecoverProgress { index: (p.index + 1) as usize, ..p };
                    (RecoverStep::Cancelling(next), RecoverAction::Call(
                        Some(log),
                        RecoverCall::Advance { index: next.index, event: ImportOperationEvent::CancelRequested, after: None },
                    ))
                }
            },
            _ => (step, RecoverAction::Finish(None, Err(RecoverAssetImportsError::InvalidState))),
        },
    }
}

/// Which replies answer the call a recovery awaits at a step.
pub open spec fn recover_reply_fits(step: RecoverStep, reply: RecoverReply) -> bool {
    &&& reply is Listed ==> step == RecoverStep::Listing
    &&& reply is Cleaned ==> step is CleaningUp
    &&& reply is Done ==> step is Cancelling || step is Recording
}

/// Whether the reply can answer the call of the step, as
/// `recover_reply_fits` says; a runner checks this before it hands the
/// reply on.
pub fn check_recover_reply(step: RecoverStep, reply: RecoverReply) -> (result: bool)
    ensures
        result == recover_reply_fits(step, reply),
{
    match reply {
        RecoverReply::Listed(_) => step == RecoverStep::Listing,
        RecoverReply::Cleaned(_) => match step {
            RecoverStep::CleaningUp(_) => true,
            _ => false,
        },
        RecoverReply::Done => match step {
            RecoverStep::Cancelling(_) | RecoverStep::Recording(_, _) => true,
            _ => false,
        },
        _ => true,
    }
}

/// Starts a recovery, as `recover_start` describes.
pub fn recover_begin() -> (result: (RecoverStep, RecoverAction))
    ensures
        result == recover_start(),
{
    (RecoverStep::Listing, RecoverAction::Call(None, RecoverCall::ListActive))
}

/// Takes the reply to the last call of a recovery and says what comes next,
/// as `recover_transition` describes.
pub fn recover_next(step: RecoverStep, reply: RecoverReply) -> (result: (RecoverStep, RecoverAction))
    requires
        recover_step_valid(step),
        recover_reply_fits(step, reply),
    ensures
        result == recover_transition(step, reply),
        recover_step_valid(result.0),
{
    match reply {
        RecoverReply::RepositoryFailed(code) => (step, RecoverAction::Finish(None, Err(RecoverAssetImportsError::Repository(code)))),
        RecoverReply::Refused => (step, RecoverAction::Finish(None, Err(RecoverAssetImportsError::InvalidState))),
        RecoverReply::Listed(total) => if total == 0 {
            (step, RecoverAction::Finish(None, Ok((0usize, 0usize))))
        } else {
            let p = RecoverProgress { index: 0, total, cancelled: 0, cleanup_required: 0 };
            (RecoverStep::Cancelling(p), RecoverAction::Call(None, RecoverCall::Advance { index: 0, event: ImportOperationEvent::CancelRequested, after: None }))
        },
        RecoverReply::Cleaned(ok) => match step {
            RecoverStep::CleaningUp(p) => {
                let next = if ok {
                    RecoverProgress { cancelled: p.cancelled.saturating_add(1), ..p }
                } else {
                    RecoverProgress { cleanup_required: p.cleanup_required.saturating_add(1), ..p }
                };
                (RecoverStep::Recording(next, ok), RecoverAction::Call(None, RecoverCall::Advance {
                    index: p.index,
                    event: cleanup_event(ok),
                    after: Some(ImportOperationEvent::CancelRequested),
                }))
            },
            _ => (step, RecoverAction::Finish(None, Err(RecoverAssetImportsError::InvalidState))),
        },
        RecoverReply::Done => match step {
            RecoverStep::Cancelling(p) => (RecoverStep::CleaningUp(p), RecoverAction::Call(None, RecoverCall::Cleanup(p.index))),
            RecoverStep::Recording(p, ok) => {
                let log = RecoverLog { index: p.index, cleaned_up: ok };
                if p.index + 1 == p.total {
                    (step, RecoverAction::Finish(Some(log), Ok((p.cancelled, p.cleanup_required))))
                } else {
                    let next = RecoverProgress { index: p.index + 1, ..p };
                    (RecoverStep::Cancelling(next), RecoverAction::Call(
                        Some(log),
                        RecoverCall::Advance { index: next.index, event: ImportOperationEvent::CancelRequested, after: None },
                    ))
                }
            },
            _ => (step, RecoverAction::Finish(None, Err(RecoverAssetImportsError::InvalidState))),
        },
    }
}


/// A call a cancellation of an import makes to the outside world.
#[derive(Debug, Clone, Copy, PartialEq, Eq, Structural)]
pub enum CancelImportCall {
    /// Read the import operation.
    GetOperation,
    /// Apply `event` to the operation in hand and replace it in the
    /// repository, expecting the stored operation to be in the state that
    /// `after` left it in (`None`: the state it was read in).
    Advance { event: ImportOperationEvent, after: Option<ImportOperationEvent> },
    /// Clean up the staging of the operation in hand.
    Cleanup,
}

/// What came back from the last call of a cancellation; `O` is an import
/// operation as the repository and the import rules give it.
#[derive(Debug, Clone, Copy, PartialEq, Eq)]
pub enum CancelImportReply<O> {
    /// The operation was read: whether it belongs to the workspace asked
    /// for, whether it has ended, and the operation itself.
    Found(bool, bool, O),
    Missing,
    /// The operation as the event left it, now stored.
    Operation(O),
    /// The cleanup succeeded or not.
    Cleaned(bool),
    /// The operation refused the event.
    Refused,
    /// The operation repository failed with this code.
    RepositoryFailed(&'static str),
}

/// Where a cancellation stands: the call whose reply is awaited, and the
/// operation in hand once there is one.
#[derive(Debug, Clone, Copy, PartialEq, Eq)]
pub enum CancelImportStep<O> {
    Reading,
    /// Cancelling the operation read.
    Cancelling(O),
    /// Cleaning up the staging of the cancelled operation.
    CleaningUp(O),
    /// Recording on the cancelled operation whether the cleanup succeeded.
    Recording(O, bool),
}

/// What a cancellation does next: make a call, or end with the operation or
/// an error; a `Some(cleaned_up)` log writes `Failed` for the operation
/// returned with `cleanup_outcome_code(cleaned_up)`.
#[derive(Debug, PartialEq, Eq)]
pub enum CancelImportAction<O> {
    Call(CancelImportCall),
    Finish(Option<bool>, Result<O, CancelAssetImportError>),
}

/// A cancellation starts by reading the operation.
pub open spec fn cancel_import_start<O>() -> (CancelImportStep<O>, CancelImportAction<O>) {
    (CancelImportStep::Reading, CancelImportAction::Call(CancelImportCall::GetOperation))
}

/// One step of a cancellation: an operation that is missing or belongs to
/// another workspace is not found; one that has ended is returned as it was
/// read; any other is cancelled (expecting the state it was read in), its
/// staging cleaned up, the cleanup's outcome recorded (expecting the
/// cancelled state) and logged, and the operation as that left it is
/// returned. A refused event is an invalid state, a repository failure ends
/// it with its code.
pub open spec fn cancel_import_transition<O>(step: CancelImportStep<O>, reply: CancelImportReply<O>) -> (CancelImportStep<O>, CancelImportAction<O>) {
    match reply {
        CancelImportReply::RepositoryFailed(code) => (CancelImportStep::Reading, CancelImportAction::Finish(None, Err(CancelAssetImportError::Repository(code)))),
        CancelImportReply::Refused => (CancelImportStep::Reading, CancelImportAction::Finish(None, Err(CancelAssetImportError::InvalidState))),
        CancelImportReply::Missing => (CancelImportStep::Reading, CancelImportAction::Finish(None, Err(CancelAssetImportError::NotFound))),
        CancelImportReply::Found(same_workspace, terminal, operation) => if !same_workspace {
            (CancelImportStep::Reading, CancelImportAction::Finish(None, Err(CancelAssetImportError::NotFound)))
        } else if terminal {
            (CancelImportStep::Reading, CancelImportAction::Finish(None, Ok(operation)))
        } else {
            (CancelImportStep::Cancelling(operation), CancelImportAction::Call(CancelImportCall::Advance {
                event: ImportOperationEvent::CancelRequested,
                after: None,
            }))
        },
        CancelImportReply::Cleaned(ok) => match step {
            CancelImportStep::CleaningUp(operation) => (CancelImportStep::Recording(operation, ok), CancelImportAction::Call(CancelImportCall::Advance {
                event: if ok { ImportOperationEvent::CleanupSucceeded } else { ImportOperationEvent::CleanupFailed },
                after: Some(ImportOperationEvent::CancelRequested),
            })),
            _ => (CancelImportStep::Reading, CancelImportAction::Finish(None, Err(CancelAssetImportError::InvalidState))),
        },
        CancelImportReply::Operation(operation) => match step {
            CancelImportStep::Cancelling(_) => (CancelImportStep::CleaningUp(operation), CancelImportAction::Call(CancelImportCall::Cleanup)),
            CancelImportStep::Recording(_, ok) => (CancelImportStep::Reading, CancelImportAction::Finish(Some(ok), Ok(operation))),
            _ => (CancelImportStep::Reading, CancelImportAction::Finish(None, Err(CancelAssetImportError::InvalidState))),
        },
    }
}

/// Which replies answer the call a cancellation awaits at a step.
pub open spec fn cancel_import_reply_fits<O>(step: CancelImportStep<O>, reply: CancelImportReply<O>) -> bool {
    match reply {
        CancelImportReply::Found(_, _, _) | CancelImportReply::Missing => step is Reading,
        CancelImportReply::Cleaned(_) => step is CleaningUp,
        CancelImportReply::Operation(_) => step is Cancelling || step is Recording,
        _ => true,
    }
}

/// Whether the reply can answer the call of the step, as
/// `cancel_import_reply_fits` says; a runner checks this before it hands
/// the reply on.
pub fn check_cancel_import_reply<O>(step: &CancelImportStep<O>, reply: &CancelImportReply<O>) -> (result: bool)
    ensures
        result == cancel_import_reply_fits(*step, *reply),
{
    match reply {
        CancelImportReply::Found(_, _, _) | CancelImportReply::Missing => match step {
            CancelImportStep::Reading => true,
            _ => false,
        },
        CancelImportReply::Cleaned(_) => match step {
            CancelImportStep::CleaningUp(_) => true,
            _ => false,
        },
        CancelImportReply::Operation(_) => match step {
            CancelImportStep::Cancelling(_) | CancelImportStep::Recording(_, _) => true,
            _ => false,
        },
        _ => true,
    }
}

/// Starts a cancellation, as `cancel_import_start` describes.
pub fn cancel_import_begin<O>() -> (result: (CancelImportStep<O>, CancelImportAction<O>))
    ensures
        result == cancel_import_start::<O>(),
{
    (CancelImportStep::Reading, CancelImportAction::Call(CancelImportCall::GetOperation))
}

/// Takes the reply to the last call of a cancellation and says what comes
/// next, as `cancel_import_transition` describes.
pub fn cancel_import_next<O>(step: CancelImportStep<O>, reply: CancelImportReply<O>) -> (result: (CancelImportStep<O>, CancelImportAction<O>))
    requires
        cancel_import_reply_fits(step, reply),
    ensures
        result == cancel_import_transition(step, reply),
{
    match reply {
        CancelImportReply::RepositoryFailed(code) => (CancelImportStep::Reading, CancelImportAction::Finish(None, Err(CancelAssetImportError::Repository(code)))),
        CancelImportReply::Refused => (CancelImportStep::Reading, CancelImportAction::Finish(None, Err(CancelAssetImportError::InvalidState))),
        CancelImportReply::Missing => (CancelImportStep::Reading, CancelImportAction::Finish(None, Err(CancelAssetImportError::NotFound))),
        CancelImportReply::Found(same_workspace, terminal, operation) => if !same_workspace {
            (CancelImportStep::Reading, CancelImportAction::Finish(None, Err(CancelAssetImportError::NotFound)))
        } else if terminal {
            (CancelImportStep::Reading, CancelImportAction::Finish(None, Ok(operation)))
        } else {
            (CancelImportStep::Cancelling(operation), CancelImportAction::Call(CancelImportCall::Advance {
                event: ImportOperationEvent::CancelRequested,
                after: None,
            }))
        },
        CancelImportReply::Cleaned(ok) => match step {
            CancelImportStep::CleaningUp(operation) => (CancelImportStep::Recording(operation, ok), CancelImportAction::Call(CancelImportCall::Advance {
                event: cleanup_event(ok),
                after: Some(ImportOperationEvent::CancelRequested),
            })),
            _ => (CancelImportStep::Reading, CancelImportAction::Finish(None, Err(CancelAssetImportError::InvalidState))),
        },
        CancelImportReply::Operation(operation) => match step {
            CancelImportStep::Cancelling(_) => (CancelImportStep::CleaningUp(operation), CancelImportAction::Call(CancelImportCall::Cleanup)),
            CancelImportStep::Recording(_, ok) => (CancelImportStep::Reading, CancelImportAction::Finish(Some(ok), Ok(operation))),
            _ => (CancelImportStep::Reading, CancelImportAction::Finish(None, Err(CancelAssetImportError::InvalidState))),
        },
    }
}


/// Whatever an import step answers, an ending writes at most the one
/// product event of its result: a failed import of the run's operation
/// with the code of the error it fails with, or, for a completed import,
/// the completion of the operation for the document.
pub proof fn lemma_import_ending_logs_its_result(run: ImportRun, step: ImportStep, reply: ImportReply)
    ensures
        import_transition(run, step, reply).1 matches ImportAction::Finish(log, result) ==> {
            &&& result matches Err(error) ==> (log is None || log == Some(import_failed_event(run, error)))
            &&& result is Ok ==> log == Some(ImportAssetProductEvent::Completed {
                operation_id: run.operation_id,
                document_id: run.document_id,
            })
        },
{
}


/// Drives an import run from `step`, answering its calls with the replies
/// from index `at` on, in turn: the operation events its `Advance` calls
/// record, in order, the product events it logs, and how it ended (`None`:
/// the replies ran out first).
pub open spec fn import_replay(run: ImportRun, step: ImportStep, replies: Seq<ImportReply>, at: int) -> (
    Seq<ImportOperationEvent>,
    Seq<ImportAssetProductEvent>,
    Option<Result<(), ImportAssetError>>,
)
    decreases replies.len() - at,
{
    if at < 0 || at >= replies.len() {
        (Seq::empty(), Seq::empty(), None)
    } else {
        let (next, action) = import_transition(run, step, replies[at]);
        match action {
            ImportAction::Finish(log, result) => (
                Seq::empty(),
                match log {
                    Some(event) => seq![event],
                    None => Seq::empty(),
                },
                Some(result),
            ),
            ImportAction::Call(call) => {
                let rest = import_replay(run, next, replies, at + 1);
                let recorded = match call {
                    ImportCall::Advance { event, after } => seq![event] + rest.0,
                    _ => rest.0,
                };
                (recorded, rest.1, rest.2)
            },
        }
    }
}

/// Whatever the replies, an import run writes at most one product event,
/// and only when it ends.
pub proof fn lemma_import_run_logs_at_most_once(run: ImportRun, step: ImportStep, replies: Seq<ImportReply>, at: int)
    ensures
        import_replay(run, step, replies, at).1.len() <= 1,
        import_replay(run, step, replies, at).1.len() == 1 ==> import_replay(run, step, replies, at).2 is Some,
    decreases replies.len() - at,
{
    if 0 <= at < replies.len() {
        let (next, action) = import_transition(run, step, replies[at]);
        if action is Call {
            lemma_import_run_logs_at_most_once(run, next, replies, at + 1);
        }
    }
}

/// A run whose every call goes through records the events of a completed
/// import, `import_event_log(None)`, and logs the completion of the
/// operation for the document.
#[verifier::spinoff_prover]
#[verifier::rlimit(50)]
pub proof fn lemma_import_run_completes(run: ImportRun)
    ensures
        import_replay(run, import_start().0, Seq::new(14, |i: int| ImportReply::Done), 0) == (
            import_event_log(None),
            seq![ImportAssetProductEvent::Completed { operation_id: run.operation_id, document_id: run.document_id }],
            Some(Ok::<(), ImportAssetError>(())),
        ),
{
    reveal_with_fuel(import_replay, 15);
    reveal_with_fuel(successes_before, 5);
    assert(import_event_log(None) =~= seq![
        ImportOperationEvent::Begin,
        ImportOperationEvent::ValidationSucceeded,
        ImportOperationEvent::StagingSucceeded,
        ImportOperationEvent::HashingSucceeded,
        ImportOperationEvent::ObjectPublished,
        ImportOperationEvent::MetadataPersisted,
        ImportOperationEvent::LinkSucceeded,
    ]);
}

/// How many calls go through before a stage runs.
pub open spec fn calls_before_stage(stage: ImportStage) -> int {
    match stage {
        ImportStage::Staging => 5,
        ImportStage::Publishing => 8,
        ImportStage::PersistingMetadata => 10,
        ImportStage::Linking => 12,
    }
}

/// The replies of a run whose calls go through until the stage fails with
/// the error, and whose recording of that failure goes through.
pub open spec fn replies_failing_at(stage: ImportStage, error: ImportAssetError) -> Seq<ImportReply> {
    Seq::new(
        (calls_before_stage(stage) + 2) as nat,
        |i: int| if i == calls_before_stage(stage) { ImportReply::Failed(error) } else { ImportReply::Done },
    )
}

/// A run whose stage fails with a failure of that stage records the events
/// of an import that failed there, `import_event_log(Some(stage))`, logs
/// the failure of the operation with the error's code, and fails with the
/// error.
#[verifier::spinoff_prover]
pub proof fn lemma_import_run_fails_at_stage(run: ImportRun, stage: ImportStage, error: ImportAssetError)
    requires
        is_stage_failure(stage, error),
    ensures
        import_replay(run, import_start().0, replies_failing_at(stage, error), 0) == (
            import_event_log(Some(stage)),
            seq![import_failed_event(run, error)],
            Some(Err::<(), ImportAssetError>(error)),
        ),
{
    reveal_with_fuel(import_replay, 15);
    reveal_with_fuel(successes_before, 5);
}


/// A call the staging of an import source makes to the outside world.
#[derive(Debug, Clone, Copy, PartialEq, Eq, Structural)]
pub enum StageCall {
    /// Describe the source (its size).
    Describe,
    /// Begin the staging of the operation.
    Begin,
    /// Read a chunk of at most `max_bytes` bytes of the source at `offset`.
    ReadChunk { offset: u64, max_bytes: usize },
    /// Append the chunk in hand to the staging at `offset`.
    Append { offset: u64 },
    /// Finalize the staging at the expected size.
    Finalize { expected: u64 },
    /// Clean up the staging; whatever it answers, the staging then fails.
    Cleanup,
}

/// What came back from the last call of a staging; `A` is a staged asset as
/// the staging writer gives it.
#[derive(Debug, Clone, Copy, PartialEq, Eq)]
pub enum StageReply<A> {
    Done,
    /// The source holds this many bytes.
    Described(u64),
    /// The chunk read: where it starts, how many bytes it holds, and
    /// whether it ends the source.
    Chunk { offset: u64, len: usize, eof: bool },
    /// The staging was finalized into this asset.
    Finalized(A),
    /// The import source failed with this code.
    SourceFailed(&'static str),
    /// The staging writer failed with this code.
    StagingFailed(&'static str),
}

/// Where a staging stands: the call whose reply is awaited, with the bytes
/// staged so far and the size expected.
#[derive(Debug, Clone, Copy, PartialEq, Eq)]
pub enum StageStep {
    Describing,
    Beginning(u64),
    /// Reading the chunk at the offset.
    Reading(u64, u64),
    /// Appending a chunk of the given length (and end flag) at the offset.
    Appending(u64, u64, usize, bool),
    Finalizing,
    /// Cleaning up after the staging failed with the error.
    CleaningUp(StageAssetImportError),
}

/// What a staging does next: make a call, or end with the staged asset or
/// an error.
#[derive(Debug, PartialEq, Eq)]
pub enum StageAction<A> {
    Call(StageCall),
    Finish(Result<A, StageAssetImportError>),
}

/// A failed staging: its staging is cleaned up before it fails.
pub open spec fn stage_failure<A>(error: StageAssetImportError) -> (StageStep, StageAction<A>) {
    (StageStep::CleaningUp(error), StageAction::Call(StageCall::Cleanup))
}

/// A staging starts by describing the source.
pub open spec fn stage_start<A>() -> (StageStep, StageAction<A>) {
    (StageStep::Describing, StageAction::Call(StageCall::Describe))
}

/// One step of staging an import source read in chunks of at most
/// `chunk_bytes` bytes: a source that cannot be described, or a staging that
/// cannot begin, fails at once; then chunks are read from offset 0 on, each
/// of which must start at the offset and hold bytes, and is appended; the
/// offset then moves past it (an overflow is a size mismatch), a chunk that
/// ends the source must end exactly at the expected size, and reading stops
/// once the expected size is reached, which must be at the end of the
/// source; the staging is then finalized. Every failure after the staging
/// began (a size mismatch, or the source's or the writer's code) cleans up
/// the staging before the staging fails with it.
pub open spec fn stage_transition<A>(chunk_bytes: usize, step: StageStep, reply: StageReply<A>) -> (StageStep, StageAction<A>) {
    match step {
        StageStep::CleaningUp(error) => (step, StageAction::Finish(Err(error))),
        StageStep::Describing => match reply {
            StageReply::Described(expected) => (StageStep::Beginning(expected), StageAction::Call(StageCall::Begin)),
            StageReply::SourceFailed(code) => (step, StageAction::Finish(Err(StageAssetImportError::Source(code)))),
            _ => (step, StageAction::Finish(Err(StageAssetImportError::InvalidInput))),
        },
        StageStep::Beginning(expected) => match reply {
            StageReply::Done => if 0 < expected {
                (StageStep::Reading(0, expected), StageAction::Call(StageCall::ReadChunk { offset: 0, max_bytes: chunk_bytes }))
            } else {
                stage_failure(StageAssetImportError::SizeMismatch)
            },
            StageReply::StagingFailed(code) => (step, StageAction::Finish(Err(StageAssetImportError::Staging(code)))),
            _ => (step, StageAction::Finish(Err(StageAssetImportError::InvalidInput))),
        },
        StageStep::Reading(offset, expected) => match reply {
            StageReply::Chunk { offset: at, len, eof } => if at != offset || len == 0 {
                stage_failure(StageAssetImportError::SizeMismatch)
            } else {
                (StageStep::Appending(offset, expected, len, eof), StageAction::Call(StageCall::Append { offset }))
            },
            StageReply::SourceFailed(code) => stage_failure(StageAssetImportError::Source(code)),
            _ => stage_failure(StageAssetImportError::InvalidInput),
        },
        StageStep::Appending(offset, expected, len, eof) => match reply {
            StageReply::Done => if offset + len > u64::MAX || (eof && offset + len != expected) {
                stage_failure(StageAssetImportError::SizeMismatch)
            } else if eof {
                (StageStep::Finalizing, StageAction::Call(StageCall::Finalize { expected }))
            } else if offset + len < expected {
                let next = (offset + len) as u64;
                (StageStep::Reading(next, expected), StageAction::Call(StageCall::ReadChunk { offset: next, max_bytes: chunk_bytes }))
            } else {
                stage_failure(StageAssetImportError::SizeMismatch)
            },
            StageReply::StagingFailed(code) => stage_failure(StageAssetImportError::Staging(code)),
            _ => stage_failure(StageAssetImportError::InvalidInput),
        },
        StageStep::Finalizing => match reply {
            StageReply::Finalized(asset) => (step, StageAction::Finish(Ok(asset))),
            StageReply::StagingFailed(code) => stage_failure(StageAssetImportError::Staging(code)),
            _ => stage_failure(StageAssetImportError::InvalidInput),
        },
    }
}

/// Which replies answer the call a staging awaits at a step.
pub open spec fn stage_reply_fits<A>(step: StageStep, reply: StageReply<A>) -> bool {
    match step {
        StageStep::Describing => reply is Described || reply is SourceFailed,
        StageStep::Beginning(_) | StageStep::Appending(_, _, _, _) => reply is Done || reply is StagingFailed,
        StageStep::Reading(_, _) => reply is Chunk || reply is SourceFailed,
        StageStep::Finalizing => reply is Finalized || reply is StagingFailed,
        StageStep::CleaningUp(_) => reply is Done || reply is StagingFailed,
    }
}

/// Starts a staging, as `stage_start` describes.
pub fn stage_begin<A>() -> (result: (StageStep, StageAction<A>))
    ensures
        result == stage_start::<A>(),
{
    (StageStep::Describing, StageAction::Call(StageCall::Describe))
}

fn fail_stage<A>(error: StageAssetImportError) -> (result: (StageStep, StageAction<A>))
    ensures
        result == stage_failure::<A>(error),
{
    (StageStep::CleaningUp(error), StageAction::Call(StageCall::Cleanup))
}

/// Takes the reply to the last call of a staging and says what comes next,
/// as `stage_transition` describes.
pub fn stage_next<A>(chunk_bytes: usize, step: StageStep, reply: StageReply<A>) -> (result: (StageStep, StageAction<A>))
    requires
        stage_reply_fits(step, reply),
    ensures
        result == stage_transition(chunk_bytes, step, reply),
{
    match step {
        StageStep::CleaningUp(error) => (step, StageAction::Finish(Err(error))),
        StageStep::Describing => match reply {
            StageReply::Described(expected) => (StageStep::Beginning(expected), StageAction::Call(StageCall::Begin)),
            StageReply::SourceFailed(code) => (step, StageAction::Finish(Err(StageAssetImportError::Source(code)))),
            _ => (step, StageAction::Finish(Err(StageAssetImportError::InvalidInput))),
        },
        StageStep::Beginning(expected) => match reply {
            StageReply::Done => if 0 < expected {
                (StageStep::Reading(0, expected), StageAction::Call(StageCall::ReadChunk { offset: 0, max_bytes: chunk_bytes }))
            } else {
                fail_stage(StageAssetImportError::SizeMismatch)
            },
            StageReply::StagingFailed(code) => (step, StageAction::Finish(Err(StageAssetImportError::Staging(code)))),
            _ => (step, StageAction::Finish(Err(StageAssetImportError::InvalidInput))),
        },
        StageStep::Reading(offset, expected) => match reply {
            StageReply::Chunk { offset: at, len, eof } => if at != offset || len == 0 {
                fail_stage(StageAssetImportError::SizeMismatch)
            } else {
                (StageStep::Appending(offset, expected, len, eof), StageAction::Call(StageCall::Append { offset }))
            },
            StageReply::SourceFailed(code) => fail_stage(StageAssetImportError::Source(code)),
            _ => fail_stage(StageAssetImportError::InvalidInput),
        },
        StageStep::Appending(offset, expected, len, eof) => match reply {
            StageReply::Done => match offset.checked_add(len as u64) {
                None => fail_stage(StageAssetImportError::SizeMismatch),
                Some(next) => if eof {
                    if next == expected {
                        (StageStep::Finalizing, StageAction::Call(StageCall::Finalize { expected }))
                    } else {
                        fail_stage(StageAssetImportError::SizeMismatch)
                    }
                } else if next < expected {
                    (StageStep::Reading(next, expected), StageAction::Call(StageCall::ReadChunk { offset: next, max_bytes: chunk_bytes }))
                } else {
                    fail_stage(StageAssetImportError::SizeMismatch)
                },
            },
            StageReply::StagingFailed(code) => fail_stage(StageAssetImportError::Staging(code)),
            _ => fail_stage(StageAssetImportError::InvalidInput),
        },
        StageStep::Finalizing => match reply {
            StageReply::Finalized(asset) => (step, StageAction::Finish(Ok(asset))),
            StageReply::StagingFailed(code) => fail_stage(StageAssetImportError::Staging(code)),
            _ => fail_stage(StageAssetImportError::InvalidInput),
        },
    }
}

/// Whether the reply can answer the call of the step, as
/// `stage_reply_fits` says; a runner checks this before it hands the reply
/// on.
pub fn check_stage_reply<A>(step: StageStep, reply: &StageReply<A>) -> (result: bool)
    ensures
        result == stage_reply_fits(step, *reply),
{
    match step {
        StageStep::Describing => match reply {
            StageReply::Described(_) | StageReply::SourceFailed(_) => true,
            _ => false,
        },
        StageStep::Reading(_, _) => match reply {
            StageReply::Chunk { .. } | StageReply::SourceFailed(_) => true,
            _ => false,
        },
        StageStep::Finalizing => match reply {
            StageReply::Finalized(_) | StageReply::StagingFailed(_) => true,
            _ => false,
        },
        _ => match reply {
            StageReply::Done | StageReply::StagingFailed(_) => true,
            _ => false,
        },
    }
}


/// Whether the catalog can preview an asset's media type, as the media
/// rules decide it.
#[derive(Debug, Clone, Copy, PartialEq, Eq, Structural)]
pub enum AssetPreviewSupport {
    Supported,
    Unsupported,
}

/// The extraction status an imported asset's catalog record starts with.
#[derive(Debug, Clone, Copy, PartialEq, Eq, Structural)]
pub enum AssetExtractionStatus {
    /// Nothing can be extracted from the asset.
    Unsupported,
    /// Extraction can be asked for later.
    NotRequested,
}

/// The extraction status of a newly imported asset: unsupported when its
/// media type cannot be previewed, else not yet requested.
pub fn import_extraction_status(preview: AssetPreviewSupport) -> (result: AssetExtractionStatus)
    ensures
        result == (if preview == AssetPreviewSupport::Unsupported {
            AssetExtractionStatus::Unsupported
        } else {
            AssetExtractionStatus::NotRequested
        }),
{
    match preview {
        AssetPreviewSupport::Unsupported => AssetExtractionStatus::Unsupported,
        AssetPreviewSupport::Supported => AssetExtractionStatus::NotRequested,
    }
}


/// Drives a recovery from `step`, answering its calls with the replies from
/// index `at` on: the product events it logs, in order, and how it ended
/// (`None`: the replies ran out first).
pub open spec fn recover_replay(step: RecoverStep, replies: Seq<RecoverReply>, at: int) -> (
    Seq<RecoverLog>,
    Option<Result<(usize, usize), RecoverAssetImportsError>>,
)
    decreases replies.len() - at,
{
    if at < 0 || at >= replies.len() {
        (Seq::empty(), None)
    } else {
        let (next, action) = recover_transition(step, replies[at]);
        let logged = |log: Option<RecoverLog>| match log {
            Some(entry) => seq![entry],
            None => Seq::<RecoverLog>::empty(),
        };
        match action {
            RecoverAction::Finish(log, result) => (logged(log), Some(result)),
            RecoverAction::Call(log, _) => {
                let rest = recover_replay(next, replies, at + 1);
                (logged(log) + rest.0, rest.1)
            },
        }
    }
}

/// The replies of a recovery of imports whose cleanups go as `cleanups`
/// says: the listing of as many imports, then for each import the
/// cancellation, the cleanup's outcome and the recording of it.
pub open spec fn recovery_replies(cleanups: Seq<bool>) -> Seq<RecoverReply> {
    Seq::new(
        (3 * cleanups.len() + 1) as nat,
        |i: int| if i == 0 {
            RecoverReply::Listed(cleanups.len() as usize)
        } else if (i - 1) % 3 == 1 {
            RecoverReply::Cleaned(cleanups[(i - 1) / 3])
        } else {
            RecoverReply::Done
        },
    )
}

/// The logs of the imports from `from` on.
pub open spec fn recovery_logs(cleanups: Seq<bool>, from: int) -> Seq<RecoverLog>
    decreases cleanups.len() - from,
{
    if from < 0 || from >= cleanups.len() {
        Seq::empty()
    } else {
        seq![RecoverLog { index: from as usize, cleaned_up: cleanups[from] }] + recovery_logs(cleanups, from + 1)
    }
}

proof fn lemma_recovery_from(cleanups: Seq<bool>, i: int)
    requires
        0 <= i < cleanups.len() <= usize::MAX,
    ensures
        recover_replay(
            RecoverStep::Cancelling(RecoverProgress {
                index: i as usize,
                total: cleanups.len() as usize,
                cancelled: cleaned_count(cleanups, i) as usize,
                cleanup_required: (i - cleaned_count(cleanups, i)) as usize,
            }),
            recovery_replies(cleanups),
            3 * i + 1,
        ) == (
            recovery_logs(cleanups, i),
            Some(Ok::<(usize, usize), RecoverAssetImportsError>((
                cleaned_count(cleanups, cleanups.len() as int) as usize,
                (cleanups.len() - cleaned_count(cleanups, cleanups.len() as int)) as usize,
            ))),
        ),
    decreases cleanups.len() - i,
{
    let replies = recovery_replies(cleanups);
    let n = cleanups.len() as int;
    lemma_cleaned_count_bounded(cleanups, i);
    lemma_cleaned_count_bounded(cleanups, i + 1);
    assert((3 * i + 1 - 1) % 3 == 0) by (nonlinear_arith);
    assert((3 * i + 2 - 1) % 3 == 1) by (nonlinear_arith);
    assert((3 * i + 3 - 1) % 3 == 2) by (nonlinear_arith);
    assert((3 * i + 2 - 1) / 3 == i) by (nonlinear_arith);
    assert(replies[3 * i + 1] == RecoverReply::Done);
    assert(replies[3 * i + 2] == RecoverReply::Cleaned(cleanups[i]));
    assert(replies[3 * i + 3] == RecoverReply::Done);
    if i + 1 < n {
        lemma_recovery_from(cleanups, i + 1);
        assert(3 * (i + 1) + 1 == 3 * i + 4);
    }
    reveal_with_fuel(recover_replay, 4);
    reveal_with_fuel(recovery_logs, 2);
}

proof fn lemma_cleaned_count_bounded(cleanups: Seq<bool>, n: int)
    requires
        0 <= n <= cleanups.len(),
    ensures
        cleaned_count(cleanups, n) <= n,
    decreases n,
{
    if n > 0 {
        lemma_cleaned_count_bounded(cleanups, n - 1);
    }
}

/// A recovery of imports whose cleanups go as `cleanups` says logs each
/// import in turn with whether its staging was cleaned up, and ends with as
/// many cancelled imports as cleanups succeeded and the others still
/// needing cleanup, as `recovery_tally` counts them.
pub proof fn lemma_recovery_tallies_cleanups(cleanups: Seq<bool>)
    requires
        cleanups.len() <= usize::MAX,
    ensures
        recover_replay(recover_start().0, recovery_replies(cleanups), 0) == (
            recovery_logs(cleanups, 0),
            Some(Ok::<(usize, usize), RecoverAssetImportsError>((
                cleaned_count(cleanups, cleanups.len() as int) as usize,
                (cleanups.len() - cleaned_count(cleanups, cleanups.len() as int)) as usize,
            ))),
        ),
{
    let replies = recovery_replies(cleanups);
    assert(replies[0] == RecoverReply::Listed(cleanups.len() as usize));
    if cleanups.len() > 0 {
        lemma_recovery_from(cleanups, 0);
    }
    reveal_with_fuel(recover_replay, 2);
    reveal_with_fuel(recovery_logs, 1);
    reveal_with_fuel(cleaned_count, 1);
}


/// A call a listing of a document's catalog assets makes to the outside
/// world.
#[derive(Debug, Clone, PartialEq, Eq)]
pub enum DocumentAssetsCall {
    /// Ask whether the document exists.
    CheckDocument,
    /// List the associations of the document's assets, up to the limit.
    ListAssets,
    /// Read the catalog record of this asset.
    GetMetadata { asset_id: String },
}

/// What came back from the last call of a listing; `R` is a catalog record
/// as the metadata catalog gives it.
#[derive(Debug, Clone, PartialEq, Eq)]
pub enum DocumentAssetsReply<R> {
    /// The document exists or not.
    Exists(bool),
    /// The ids of the assets linked to the document, in the catalog's order.
    Listed(Vec<String>),
    /// The catalog record of the asset asked for, if the catalog holds one.
    Record(Option<R>),
    /// The document lookup failed with this code.
    DocumentFailed(&'static str),
    /// The association catalog failed with this code.
    AssociationFailed(&'static str),
    /// The metadata catalog failed with this code.
    MetadataFailed(&'static str),
}

/// Where a listing stands: the call whose reply is awaited; while records
/// are read, the linked asset ids in order, the position of the one asked
/// for, and the assets with their records read so far.
#[derive(Debug, PartialEq, Eq)]
pub enum DocumentAssetsStep<R> {
    CheckingDocument,
    Listing,
    Reading(Vec<String>, usize, Vec<(String, R)>),
}

/// What a listing does next: make a call, or end with the document's
/// assets, each with its catalog record, in order of asset id.
#[derive(Debug, PartialEq, Eq)]
pub enum DocumentAssetsAction<R> {
    Call(DocumentAssetsCall),
    Finish(Result<Vec<(String, R)>, ListCatalogDocumentAssetsError>),
}

/// The asset ids with their records, as character sequences.
pub open spec fn asset_records_view<R>(found: Seq<(String, R)>) -> Seq<(Seq<char>, R)> {
    found.map_values(|entry: (String, R)| (entry.0@, entry.1))
}

/// Starts a listing: the document is checked first.
pub fn document_assets_begin<R>() -> (result: (DocumentAssetsStep<R>, DocumentAssetsAction<R>))
    ensures
        result.0 is CheckingDocument,
        result.1 == DocumentAssetsAction::<R>::Call(DocumentAssetsCall::CheckDocument),
{
    (DocumentAssetsStep::CheckingDocument, DocumentAssetsAction::Call(DocumentAssetsCall::CheckDocument))
}

/// Which replies answer the call a listing awaits at a step, and the step
/// is one a listing reaches.
pub open spec fn document_assets_reply_fits<R>(step: DocumentAssetsStep<R>, reply: DocumentAssetsReply<R>) -> bool {
    match step {
        DocumentAssetsStep::CheckingDocument => reply is Exists || reply is DocumentFailed,
        DocumentAssetsStep::Listing => reply is Listed || reply is AssociationFailed,
        DocumentAssetsStep::Reading(ids, at, found) => (reply is Record || reply is MetadataFailed)
            && at < ids@.len() && found@.len() == at,
    }
}

/// The id of the asset at the position, as a character sequence.
pub open spec fn asset_id_at(ids: Seq<String>, at: int) -> Seq<char> {
    ids[at]@
}

/// What one step of listing a document's catalog assets does: a missing
/// document is not found; the linked asset ids are put in text order and the
/// record of each is read in that order; an asset the catalog does not hold
/// is a dangling association; once every record is read the assets are
/// returned with their records, in that order. A failing collaborator ends
/// the listing with its code.
pub open spec fn document_assets_outcome<R>(
    step: DocumentAssetsStep<R>,
    reply: DocumentAssetsReply<R>,
    result: (DocumentAssetsStep<R>, DocumentAssetsAction<R>),
) -> bool {
    match reply {
        DocumentAssetsReply::Exists(found) => if found {
            result.0 is Listing && result.1 == DocumentAssetsAction::<R>::Call(DocumentAssetsCall::ListAssets)
        } else {
            result.1 == DocumentAssetsAction::<R>::Finish(Err(ListCatalogDocumentAssetsError::DocumentNotFound))
        },
        DocumentAssetsReply::DocumentFailed(code) => result.1 == DocumentAssetsAction::<R>::Finish(
            Err(ListCatalogDocumentAssetsError::Document(code)),
        ),
        DocumentAssetsReply::AssociationFailed(code) => result.1 == DocumentAssetsAction::<R>::Finish(
            Err(ListCatalogDocumentAssetsError::Association(code)),
        ),
        DocumentAssetsReply::MetadataFailed(code) => result.1 == DocumentAssetsAction::<R>::Finish(
            Err(ListCatalogDocumentAssetsError::Metadata(code)),
        ),
        DocumentAssetsReply::Record(None) => result.1 == DocumentAssetsAction::<R>::Finish(
            Err(ListCatalogDocumentAssetsError::DanglingMetadata),
        ),
        DocumentAssetsReply::Listed(ids) => {
            let sorted = strings_view(ids@).sort_by(text_order());
            if sorted.len() == 0 {
                result.1 matches DocumentAssetsAction::Finish(Ok(found)) && found@.len() == 0
            } else {
                &&& result.0 matches DocumentAssetsStep::Reading(order, at, found)
                &&& strings_view(order@) == sorted && at == 0 && found@.len() == 0
                &&& result.1 matches DocumentAssetsAction::Call(DocumentAssetsCall::GetMetadata { asset_id })
                &&& asset_id@ == sorted[0]
            }
        },
        DocumentAssetsReply::Record(Some(record)) => match step {
            DocumentAssetsStep::Reading(ids, at, found) => {
                let found_now = asset_records_view(found@).push((asset_id_at(ids@, at as int), record));
                if at + 1 == ids@.len() {
                    result.1 matches DocumentAssetsAction::Finish(Ok(all)) && asset_records_view(all@) == found_now
                } else {
                    &&& result.0 matches DocumentAssetsStep::Reading(order, next, found_next)
                    &&& order@ == ids@ && next == at + 1 && asset_records_view(found_next@) == found_now
                    &&& found_next@.len() == next
                    &&& result.1 matches DocumentAssetsAction::Call(DocumentAssetsCall::GetMetadata { asset_id })
                    &&& asset_id@ == asset_id_at(ids@, at + 1)
                }
            },
            _ => true,
        },
    }
}

/// Takes the reply to the last call of a listing of a document's catalog
/// assets and says what comes next, as `document_assets_outcome` says.
pub fn document_assets_next<R>(step: DocumentAssetsStep<R>, reply: DocumentAssetsReply<R>) -> (result: (DocumentAssetsStep<R>, DocumentAssetsAction<R>))
    requires
        document_assets_reply_fits(step, reply),
    ensures
        document_assets_outcome(step, reply, result),
{
    match reply {
        DocumentAssetsReply::Exists(found) => if found {
            (DocumentAssetsStep::Listing, DocumentAssetsAction::Call(DocumentAssetsCall::ListAssets))
        } else {
            (step, DocumentAssetsAction::Finish(Err(ListCatalogDocumentAssetsError::DocumentNotFound)))
        },
        DocumentAssetsReply::DocumentFailed(code) => (step, DocumentAssetsAction::Finish(Err(ListCatalogDocumentAssetsError::Document(code)))),
        DocumentAssetsReply::AssociationFailed(code) => (step, DocumentAssetsAction::Finish(Err(ListCatalogDocumentAssetsError::Association(code)))),
        DocumentAssetsReply::MetadataFailed(code) => (step, DocumentAssetsAction::Finish(Err(ListCatalogDocumentAssetsError::Metadata(code)))),
        DocumentAssetsReply::Listed(ids) => {
            let order = sort_texts(ids);
            if order.len() == 0 {
                (DocumentAssetsStep::Listing, DocumentAssetsAction::Finish(Ok(Vec::new())))
            } else {
                let first = order[0].clone();
                (DocumentAssetsStep::Reading(order, 0, Vec::new()), DocumentAssetsAction::Call(DocumentAssetsCall::GetMetadata { asset_id: first }))
            }
        },
        DocumentAssetsReply::Record(None) => (step, DocumentAssetsAction::Finish(Err(ListCatalogDocumentAssetsError::DanglingMetadata))),
        DocumentAssetsReply::Record(Some(record)) => match step {
            DocumentAssetsStep::Reading(ids, at, found) => {
                let count = ids.len();
                let mut found = found;
                let ghost before = asset_records_view(found@);
                let asset_id = ids[at].clone();
                found.push((asset_id, record));
                assert(asset_records_view(found@) =~= before.push((asset_id_at(ids@, at as int), record)));
                if at + 1 == count {
                    (DocumentAssetsStep::Listing, DocumentAssetsAction::Finish(Ok(found)))
                } else {
                    let next_id = ids[at + 1].clone();
                    (DocumentAssetsStep::Reading(ids, at + 1, found), DocumentAssetsAction::Call(DocumentAssetsCall::GetMetadata { asset_id: next_id }))
                }
            },
            _ => (step, DocumentAssetsAction::Finish(Err(ListCatalogDocumentAssetsError::InvalidInput))),
        },
    }
}


/// Whether the reply can answer the call of the step, as
/// `document_assets_reply_fits` says; a runner checks this before it hands
/// the reply on.
pub fn check_document_assets_reply<R>(step: &DocumentAssetsStep<R>, reply: &DocumentAssetsReply<R>) -> (result: bool)
    ensures
        result == document_assets_reply_fits(*step, *reply),
{
    match step {
        DocumentAssetsStep::CheckingDocument => match reply {
            DocumentAssetsReply::Exists(_) | DocumentAssetsReply::DocumentFailed(_) => true,
            _ => false,
        },
        DocumentAssetsStep::Listing => match reply {
            DocumentAssetsReply::Listed(_) | DocumentAssetsReply::AssociationFailed(_) => true,
            _ => false,
        },
        DocumentAssetsStep::Reading(ids, at, found) => {
            let answers = match reply {
                DocumentAssetsReply::Record(_) | DocumentAssetsReply::MetadataFailed(_) => true,
                _ => false,
            };
            answers && *at < ids.len() && found.len() == *at
        },
    }
}


/// Once the staging has begun, a staging never fails without cleaning up
/// first: any failure leads to the cleanup call, and only the cleanup's
/// answer ends the staging with the failure.
pub proof fn lemma_staging_cleans_up_before_failing<A>(chunk_bytes: usize, step: StageStep, reply: StageReply<A>)
    requires
        step is Reading || step is Appending || step is Finalizing,
    ensures
        stage_transition(chunk_bytes, step, reply).1 matches StageAction::Finish(result) ==> result is Ok,
        stage_transition(chunk_bytes, step, reply).0 is CleaningUp
            ==> stage_transition(chunk_bytes, step, reply).1 == StageAction::<A>::Call(StageCall::Cleanup),
{
}

/// A staging is finalized only after a chunk that ends the source has
/// brought the staged bytes to exactly the expected size, and reads on only
/// while fewer bytes than expected are staged.
pub proof fn lemma_staging_finalizes_only_when_complete<A>(chunk_bytes: usize, step: StageStep, reply: StageReply<A>)
    ensures
        stage_transition(chunk_bytes, step, reply).1 matches StageAction::Call(StageCall::Finalize { expected }) ==> (
            step matches StageStep::Appending(offset, e, len, eof) && eof && offset + len == expected && e == expected
        ),
        stage_transition(chunk_bytes, step, reply).0 matches StageStep::Reading(offset, expected) ==> offset < expected,
{
}

} // verus!
