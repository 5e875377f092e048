use vstd::prelude::*;
use crate::collaborator_errors::{CommentPermissionCheckError, CommentRepositoryError, InlineAnchorDocumentLookupError};
use crate::text::{opt_sstr_view, opt_str_view, opt_to_string, opt_ref_view, pairs_view, strings_view};
use crate::text::string_of;
use crate::domain_errors::CommentError;
use vstd::string::StringSliceAdditionalSpecFns;
use vstd::utf8::{decode_utf8, is_char_boundary};

verus! {
#[derive(Debug, Clone, PartialEq, Eq)]
pub struct AddCommentInput {
    actor_user_id: String,
    workspace_id: String,
    document_id: String,
    thread_id: String,
    comment_id: String,
    body: String,
}

impl View for AddCommentInput {
    type V = (Seq<char>, Seq<char>, Seq<char>, Seq<char>, Seq<char>, Seq<char>);

    closed spec fn view(&self) -> (Seq<char>, Seq<char>, Seq<char>, Seq<char>, Seq<char>, Seq<char>) {
        (self.actor_user_id@, self.workspace_id@, self.document_id@, self.thread_id@, self.comment_id@, self.body@)
    }
}

impl AddCommentInput {
    pub fn new(actor_user_id: &str, workspace_id: &str, document_id: &str, thread_id: &str, comment_id: &str, body: &str) -> (result: Self)
        ensures
            result@ == (actor_user_id@, workspace_id@, document_id@, thread_id@, comment_id@, body@),
    {
        Self {
            actor_user_id: actor_user_id.to_string(),
            workspace_id: workspace_id.to_string(),
            document_id: document_id.to_string(),
            thread_id: thread_id.to_string(),
            comment_id: comment_id.to_string(),
            body: body.to_string(),
        }
    }

}

#[derive(Debug, Clone, PartialEq, Eq)]
pub struct AddInlineCommentInput {
    actor_user_id: String,
    workspace_id: String,
    document_id: String,
    version_id: String,
    start_offset: usize,
    end_offset: usize,
    thread_id: String,
    comment_id: String,
    body: String,
}

impl View for AddInlineCommentInput {
    type V = (Seq<char>, Seq<char>, Seq<char>, Seq<char>, usize, usize, Seq<char>, Seq<char>, Seq<char>);

    closed spec fn view(&self) -> (Seq<char>, Seq<char>, Seq<char>, Seq<char>, usize, usize, Seq<char>, Seq<char>, Seq<char>) {
        (self.actor_user_id@, self.workspace_id@, self.document_id@, self.version_id@, self.start_offset, self.end_offset, self.thread_id@, self.comment_id@, self.body@)
    }
}

impl AddInlineCommentInput {
    pub fn new(actor_user_id: &str, workspace_id: &str, document_id: &str, version_id: &str, start_offset: usize, end_offset: usize, thread_id: &str, comment_id: &str, body: &str) -> (result: Self)
        ensures
            result@ == (actor_user_id@, workspace_id@, document_id@, version_id@, start_offset, end_offset, thread_id@, comment_id@, body@),
    {
        Self {
            actor_user_id: actor_user_id.to_string(),
            workspace_id: workspace_id.to_string(),
            document_id: document_id.to_string(),
            version_id: version_id.to_string(),
            start_offset: start_offset,
            end_offset: end_offset,
            thread_id: thread_id.to_string(),
            comment_id: comment_id.to_string(),
            body: body.to_string(),
        }
    }

}

#[derive(Debug, Clone, PartialEq, Eq)]
pub struct ResolveCommentInput {
    actor_user_id: String,
    workspace_id: String,
    document_id: String,
    thread_id: String,
}

impl View for ResolveCommentInput {
    type V = (Seq<char>, Seq<char>, Seq<char>, Seq<char>);

    closed spec fn view(&self) -> (Seq<char>, Seq<char>, Seq<char>, Seq<char>) {
        (self.actor_user_id@, self.workspace_id@, self.document_id@, self.thread_id@)
    }
}

impl ResolveCommentInput {
    pub fn new(actor_user_id: &str, workspace_id: &str, document_id: &str, thread_id: &str) -> (result: Self)
        ensures
            result@ == (actor_user_id@, workspace_id@, document_id@, thread_id@),
    {
        Self {
            actor_user_id: actor_user_id.to_string(),
            workspace_id: workspace_id.to_string(),
            document_id: document_id.to_string(),
            thread_id: thread_id.to_string(),
        }
    }

}

#[derive(Debug, Clone, PartialEq, Eq)]
pub struct ReopenCommentInput {
    actor_user_id: String,
    workspace_id: String,
    document_id: String,
    thread_id: String,
}

impl View for ReopenCommentInput {
    type V = (Seq<char>, Seq<char>, Seq<char>, Seq<char>);

    closed spec fn view(&self) -> (Seq<char>, Seq<char>, Seq<char>, Seq<char>) {
        (self.actor_user_id@, self.workspace_id@, self.document_id@, self.thread_id@)
    }
}

impl ReopenCommentInput {
    pub fn new(actor_user_id: &str, workspace_id: &str, document_id: &str, thread_id: &str) -> (result: Self)
        ensures
            result@ == (actor_user_id@, workspace_id@, document_id@, thread_id@),
    {
        Self {
            actor_user_id: actor_user_id.to_string(),
            workspace_id: workspace_id.to_string(),
            document_id: document_id.to_string(),
            thread_id: thread_id.to_string(),
        }
    }

}

#[derive(Debug, Clone, PartialEq, Eq)]
pub struct ListDocumentCommentsInput {
    actor_user_id: String,
    workspace_id: String,
    document_id: String,
}

impl View for ListDocumentCommentsInput {
    type V = (Seq<char>, Seq<char>, Seq<char>);

    closed spec fn view(&self) -> (Seq<char>, Seq<char>, Seq<char>) {
        (self.actor_user_id@, self.workspace_id@, self.document_id@)
    }
}

impl ListDocumentCommentsInput {
    pub fn new(actor_user_id: &str, workspace_id: &str, document_id: &str) -> (result: Self)
        ensures
            result@ == (actor_user_id@, workspace_id@, document_id@),
    {
        Self {
            actor_user_id: actor_user_id.to_string(),
            workspace_id: workspace_id.to_string(),
            document_id: document_id.to_string(),
        }
    }

}

#[derive(Debug, Clone, PartialEq, Eq)]
pub enum CommentProductEvent {
    CommentAdded { masked_actor_id: String, document_id: String, thread_id: String, comment_count: usize },
    CommentResolved { masked_actor_id: String, document_id: String, thread_id: String, comment_count: usize },
    CommentReopened { masked_actor_id: String, document_id: String, thread_id: String, comment_count: usize },
    InlineCommentAdded {
        masked_actor_id: String,
        document_id: String,
        thread_id: String,
        version_id_hash: String,
        anchor_status: &'static str,
        comment_count: usize,
    },
    InlineCommentAnchorStale {
        masked_actor_id: String,
        document_id: String,
        version_id_hash: String,
        anchor_status: &'static str,
    },
    UsecaseFailed { error_code: &'static str },
}

impl CommentProductEvent {
    pub fn event_name(&self) -> (result: &'static str)
        ensures
            result@ == match self {
                CommentProductEvent::CommentAdded { .. } => "comment.added"@,
                CommentProductEvent::CommentResolved { .. } => "comment.resolved"@,
                CommentProductEvent::CommentReopened { .. } => "comment.reopened"@,
                CommentProductEvent::InlineCommentAdded { .. } => "inline_comment.added"@,
                CommentProductEvent::InlineCommentAnchorStale { .. } => "inline_comment.anchor_stale"@,
                CommentProductEvent::UsecaseFailed { .. } => "comment.usecase.failed"@,
            },
    {
        match self {
            CommentProductEvent::CommentAdded { .. } => "comment.added",
            CommentProductEvent::CommentResolved { .. } => "comment.resolved",
            CommentProductEvent::CommentReopened { .. } => "comment.reopened",
            CommentProductEvent::InlineCommentAdded { .. } => "inline_comment.added",
            CommentProductEvent::InlineCommentAnchorStale { .. } => "inline_comment.anchor_stale",
            CommentProductEvent::UsecaseFailed { .. } => "comment.usecase.failed",
        }
    }
}

#[derive(Debug, Clone, PartialEq, Eq)]
pub struct CommentFieldDebugEvent {
    thread_state: &'static str,
    transition_event: &'static str,
    permission_summary: &'static str,
    has_anchor: bool,
    anchor_status: Option<&'static str>,
    range_length: Option<usize>,
    version_relation: Option<&'static str>,
    version_id_hash: Option<String>,
}

impl View for CommentFieldDebugEvent {
    type V = (Seq<char>, Seq<char>, Seq<char>, bool, Option<Seq<char>>, Option<usize>, Option<Seq<char>>, Option<Seq<char>>);

    closed spec fn view(&self) -> (Seq<char>, Seq<char>, Seq<char>, bool, Option<Seq<char>>, Option<usize>, Option<Seq<char>>, Option<Seq<char>>) {
        (self.thread_state@, self.transition_event@, self.permission_summary@, self.has_anchor, opt_sstr_view(self.anchor_status), self.range_length, opt_sstr_view(self.version_relation), opt_str_view(self.version_id_hash))
    }
}

impl CommentFieldDebugEvent {
    pub fn thread_state(&self) -> (result: &'static str)
        ensures
            result@ == self@.0,
    {
        self.thread_state
    }

    pub fn transition_event(&self) -> (result: &'static str)
        ensures
            result@ == self@.1,
    {
        self.transition_event
    }

    pub fn permission_summary(&self) -> (result: &'static str)
        ensures
            result@ == self@.2,
    {
        self.permission_summary
    }

    pub fn has_anchor(&self) -> (result: bool)
        ensures
            result == self@.3,
    {
        self.has_anchor
    }

    pub fn range_length(&self) -> (result: Option<usize>)
        ensures
            result == self@.5,
    {
        self.range_length
    }

    pub fn version_relation(&self) -> (result: Option<&'static str>)
        ensures
            opt_sstr_view(result) == self@.6,
    {
        self.version_relation
    }

    pub fn version_id_hash(&self) -> (result: Option<&str>)
        ensures
            match result { Some(s) => Some(s@), None => None::<Seq<char>> } == self@.7,
    {
        match &self.version_id_hash {
            Some(s) => Some(s.as_str()),
            None => None,
        }
    }


    /// The anchor status, or "none" when the event has no anchor.
    pub fn anchor_status(&self) -> (result: &'static str)
        ensures
            result@ == match self@.4 {
                Some(status) => status,
                None => "none"@,
            },
    {
        match self.anchor_status {
            Some(value) => value,
            None => "none",
        }
    }
}

pub trait CommentUsecaseLogger {
    fn write_product(&mut self, event: CommentProductEvent);
    fn write_field_debug(&mut self, event: CommentFieldDebugEvent);
}

#[derive(Debug, Clone, Copy, PartialEq, Eq, Structural)]
pub struct ResolveCommentUsecase;

impl ResolveCommentUsecase {
    pub fn new() -> (result: Self)
        ensures
            result == (ResolveCommentUsecase),
    {
        ResolveCommentUsecase
    }
}

impl Default for ResolveCommentUsecase {
    fn default() -> (result: Self)
        ensures
            result == (ResolveCommentUsecase),
    {
        Self::new()
    }
}

#[derive(Debug, Clone, Copy, PartialEq, Eq, Structural)]
pub struct ReopenCommentUsecase;

impl ReopenCommentUsecase {
    pub fn new() -> (result: Self)
        ensures
            result == (ReopenCommentUsecase),
    {
        ReopenCommentUsecase
    }
}

impl Default for ReopenCommentUsecase {
    fn default() -> (result: Self)
        ensures
            result == (ReopenCommentUsecase),
    {
        Self::new()
    }
}

#[derive(Debug, Clone, Copy, PartialEq, Eq, Structural)]
pub struct ListDocumentCommentsUsecase;

impl ListDocumentCommentsUsecase {
    pub fn new() -> (result: Self)
        ensures
            result == (ListDocumentCommentsUsecase),
    {
        ListDocumentCommentsUsecase
    }
}

impl Default for ListDocumentCommentsUsecase {
    fn default() -> (result: Self)
        ensures
            result == (ListDocumentCommentsUsecase),
    {
        Self::new()
    }
}

#[derive(Debug, Clone, Copy, PartialEq, Eq, Structural)]
pub enum CommentUsecaseError {
    InvalidInput,
    Unauthorized,
    ThreadNotFound,
    InvalidTransition,
    BodyTooLarge,
    InvalidAnchorRange,
    StaleAnchor,
    DocumentVersionMissing,
    StorageUnavailable,
    Conflict,
}

impl CommentUsecaseError {
    pub fn code(self) -> (result: &'static str)
        ensures
            result@ == match self {
                Self::InvalidInput => "COMMENT_INVALID_INPUT"@,
                Self::Unauthorized => "COMMENT_UNAUTHORIZED"@,
                Self::ThreadNotFound => "COMMENT_THREAD_NOT_FOUND"@,
                Self::InvalidTransition => "COMMENT_INVALID_TRANSITION"@,
                Self::BodyTooLarge => "COMMENT_BODY_TOO_LARGE"@,
                Self::InvalidAnchorRange => "COMMENT_INVALID_ANCHOR_RANGE"@,
                Self::StaleAnchor => "COMMENT_STALE_ANCHOR"@,
                Self::DocumentVersionMissing => "COMMENT_DOCUMENT_VERSION_MISSING"@,
                Self::StorageUnavailable => "COMMENT_STORAGE_UNAVAILABLE"@,
                Self::Conflict => "COMMENT_CONFLICT"@,
            },
    {
        match self {
            Self::InvalidInput => "COMMENT_INVALID_INPUT",
            Self::Unauthorized => "COMMENT_UNAUTHORIZED",
            Self::ThreadNotFound => "COMMENT_THREAD_NOT_FOUND",
            Self::InvalidTransition => "COMMENT_INVALID_TRANSITION",
            Self::BodyTooLarge => "COMMENT_BODY_TOO_LARGE",
            Self::InvalidAnchorRange => "COMMENT_INVALID_ANCHOR_RANGE",
            Self::StaleAnchor => "COMMENT_STALE_ANCHOR",
            Self::DocumentVersionMissing => "COMMENT_DOCUMENT_VERSION_MISSING",
            Self::StorageUnavailable => "COMMENT_STORAGE_UNAVAILABLE",
            Self::Conflict => "COMMENT_CONFLICT",
        }
    }
}

/// The 64-bit FNV-1a hash of the bytes: starting from the offset basis,
/// each byte is xor-ed in and the result multiplied by the FNV prime,
/// modulo 2^64.
pub open spec fn fnv1a_64(bytes: Seq<u8>) -> u64
    decreases bytes.len(),
{
    if bytes.len() == 0 {
        0xcbf29ce484222325u64
    } else {
        let mixed = fnv1a_64(bytes.drop_last()) ^ (bytes.last() as u64);
        ((mixed as nat * 0x100000001b3nat) % 0x10000000000000000nat) as u64
    }
}

/// The lower-case hexadecimal digit for a value below 16.
pub open spec fn hex_digit(value: nat) -> char {
    if value < 10 {
        ((value + 48) as u8) as char
    } else {
        ((value - 10 + 97) as u8) as char
    }
}

/// The last `count` hexadecimal digits of the value, most significant first,
/// padded with zeros.
pub open spec fn hex_digits(value: nat, count: nat) -> Seq<char>
    decreases count,
{
    if count == 0 {
        Seq::empty()
    } else {
        hex_digits(value / 16, (count - 1) as nat).push(hex_digit(value % 16))
    }
}

fn hex_digit_char(value: u64) -> (result: char)
    requires
        value < 16,
    ensures
        result == hex_digit(value as nat),
{
    if value < 10 {
        ((value + 48) as u8) as char
    } else {
        ((value - 10 + 97) as u8) as char
    }
}

/// A short hash of a version id for logs: "vhash:" followed by the 64-bit
/// FNV-1a hash of its bytes as 16 lower-case hexadecimal digits.
pub fn version_id_hash(version_id: &str) -> (result: String)
    ensures
        result@ == "vhash:"@ + hex_digits(fnv1a_64(version_id.spec_bytes()) as nat, 16),
{
    let bytes = version_id.as_bytes();
    let mut hash: u64 = 0xcbf29ce484222325;
    let mut i: usize = 0;
    assert(bytes@.take(0) =~= Seq::<u8>::empty());
    while i < bytes.len()
        invariant
            i <= bytes@.len(),
            hash == fnv1a_64(bytes@.take(i as int)),
        decreases bytes@.len() - i,
    {
        assert(bytes@.take(i + 1).drop_last() =~= bytes@.take(i as int));
        hash = hash ^ (bytes[i] as u64);
        hash = hash.wrapping_mul(0x100000001b3);
        i = i + 1;
    }
    assert(bytes@.take(bytes@.len() as int) =~= bytes@);
    let mut digits: Vec<char> = Vec::new();
    let mut rest: u64 = hash;
    let mut k: usize = 0;
    while k < 16
        invariant
            k <= 16,
            hex_digits(hash as nat, 16) == hex_digits(rest as nat, (16 - k) as nat) + digits@,
        decreases 16 - k,
    {
        let digit = hex_digit_char(rest % 16);
        let ghost before = digits@;
        digits.insert(0, digit);
        assert(digits@ =~= seq![digit] + before);
        assert(hex_digits(rest as nat, (16 - k) as nat) == hex_digits((rest / 16) as nat, (16 - k - 1) as nat).push(
            hex_digit((rest % 16) as nat),
        ));
        assert(hex_digits((rest / 16) as nat, (16 - k - 1) as nat).push(hex_digit((rest % 16) as nat)) + before
            =~= hex_digits((rest / 16) as nat, (16 - k - 1) as nat) + digits@);
        rest = rest / 16;
        k = k + 1;
    }
    assert(hex_digits(rest as nat, 0) =~= Seq::<char>::empty());
    assert(hex_digits(hash as nat, 16) =~= digits@);
    "vhash:".to_string().concat(string_of(digits.as_slice()).as_str())
}

/// A masked form of a raw identifier for logs: "masked:" and its last four
/// bytes, or the whole identifier when it is shorter.
pub open spec fn masked_raw_id(value: &str) -> Seq<char> {
    let bytes = value.spec_bytes();
    let start = if value.len() >= 4 { value.len() - 4 } else { 0 };
    "masked:"@ + decode_utf8(bytes.subrange(start, bytes.len() as int))
}

pub fn mask_raw_id(value: &str) -> (result: String)
    requires
        is_char_boundary(value.spec_bytes(), (if value.len() >= 4 { value.len() - 4 } else { 0 }) as int),
    ensures
        result@ == masked_raw_id(value),
{
    let suffix_start = value.len().saturating_sub(4);
    let (_, tail) = value.split_at(suffix_start);
    proof {
        vstd::utf8::encode_utf8_decode_utf8(tail@);
    }
    "masked:".to_string().concat(tail)
}

impl CommentUsecaseError {
    /// How this usecase reports each comment repository failure.
    pub fn from_repository_error(error: CommentRepositoryError) -> (result: Self)
        ensures
            result == match error {
                CommentRepositoryError::StorageUnavailable | CommentRepositoryError::CorruptedState => Self::StorageUnavailable,
                CommentRepositoryError::Conflict => Self::Conflict,
            },
    {
        match error {
            CommentRepositoryError::StorageUnavailable | CommentRepositoryError::CorruptedState => Self::StorageUnavailable,
            CommentRepositoryError::Conflict => Self::Conflict,
        }
    }
}

impl CommentUsecaseError {
    /// How this usecase reports each comment permission check failure.
    pub fn from_permission_error(error: CommentPermissionCheckError) -> (result: Self)
        ensures
            result == match error {
                CommentPermissionCheckError::StorageUnavailable => Self::StorageUnavailable,
            },
    {
        match error {
            CommentPermissionCheckError::StorageUnavailable => Self::StorageUnavailable,
        }
    }
}

impl CommentUsecaseError {
    /// How this usecase reports each inline anchor document lookup failure.
    pub fn from_anchor_lookup_error(error: InlineAnchorDocumentLookupError) -> (result: Self)
        ensures
            result == match error {
                InlineAnchorDocumentLookupError::StorageUnavailable | InlineAnchorDocumentLookupError::CorruptedVersion => Self::StorageUnavailable,
            },
    {
        match error {
            InlineAnchorDocumentLookupError::StorageUnavailable | InlineAnchorDocumentLookupError::CorruptedVersion => Self::StorageUnavailable,
        }
    }
}


impl CommentUsecaseError {
    /// How the comment usecases report each refusal by the comment rules: a
    /// too large body, a refused thread transition and a bad anchor range
    /// keep their meaning, every other refusal is invalid input.
    pub fn from_comment_error(error: CommentError) -> (result: Self)
        ensures
            result == match error {
                CommentError::BodyTooLarge => Self::BodyTooLarge,
                CommentError::InvalidThreadTransition => Self::InvalidTransition,
                CommentError::InvalidInlineAnchorRange => Self::InvalidAnchorRange,
                _ => Self::InvalidInput,
            },
    {
        match error {
            CommentError::BodyTooLarge => Self::BodyTooLarge,
            CommentError::InvalidThreadTransition => Self::InvalidTransition,
            CommentError::InvalidInlineAnchorRange => Self::InvalidAnchorRange,
            CommentError::EmptyCommentId
            | CommentError::InvalidCommentId
            | CommentError::EmptyCommentThreadId
            | CommentError::InvalidCommentThreadId
            | CommentError::EmptyBody
            | CommentError::InvalidBodyPolicy => Self::InvalidInput,
        }
    }
}

} // verus!
