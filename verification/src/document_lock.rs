use vstd::prelude::*;
use crate::domain_errors::{DocumentLockError, DocumentLockErrorCode};
use crate::collaborator_errors::{DocumentLockPermissionCheckError, DocumentLockRepositoryError};
use vstd::string::StringSliceAdditionalSpecFns;
use crate::text::{mask_id, masked_id};
use crate::text::{opt_sstr_view, opt_str_view, opt_to_string, opt_ref_view, pairs_view, strings_view};

verus! {
#[derive(Debug, Clone, PartialEq, Eq)]
pub struct LockDocumentInput {
    actor_user_id: String,
    workspace_id: String,
    document_id: String,
    lock_id: String,
}

impl View for LockDocumentInput {
    type V = (Seq<char>, Seq<char>, Seq<char>, Seq<char>);

    closed spec fn view(&self) -> (Seq<char>, Seq<char>, Seq<char>, Seq<char>) {
        (self.actor_user_id@, self.workspace_id@, self.document_id@, self.lock_id@)
    }
}

impl LockDocumentInput {
    pub fn new(actor_user_id: &str, workspace_id: &str, document_id: &str, lock_id: &str) -> (result: Self)
        ensures
            result@ == (actor_user_id@, workspace_id@, document_id@, lock_id@),
    {
        Self {
            actor_user_id: actor_user_id.to_string(),
            workspace_id: workspace_id.to_string(),
            document_id: document_id.to_string(),
            lock_id: lock_id.to_string(),
        }
    }

}

#[derive(Debug, Clone, PartialEq, Eq)]
pub struct UnlockDocumentInput {
    actor_user_id: String,
    workspace_id: String,
    document_id: String,
}

impl View for UnlockDocumentInput {
    type V = (Seq<char>, Seq<char>, Seq<char>);

    closed spec fn view(&self) -> (Seq<char>, Seq<char>, Seq<char>) {
        (self.actor_user_id@, self.workspace_id@, self.document_id@)
    }
}

impl UnlockDocumentInput {
    pub fn new(actor_user_id: &str, workspace_id: &str, document_id: &str) -> (result: Self)
        ensures
            result@ == (actor_user_id@, workspace_id@, document_id@),
    {
        Self {
            actor_user_id: actor_user_id.to_string(),
            workspace_id: workspace_id.to_string(),
            document_id: document_id.to_string(),
        }
    }

}

#[derive(Debug, Clone, PartialEq, Eq)]
pub struct ExpireDocumentLockInput {
    actor_user_id: String,
    workspace_id: String,
    document_id: String,
}

impl View for ExpireDocumentLockInput {
    type V = (Seq<char>, Seq<char>, Seq<char>);

    closed spec fn view(&self) -> (Seq<char>, Seq<char>, Seq<char>) {
        (self.actor_user_id@, self.workspace_id@, self.document_id@)
    }
}

impl ExpireDocumentLockInput {
    pub fn new(actor_user_id: &str, workspace_id: &str, document_id: &str) -> (result: Self)
        ensures
            result@ == (actor_user_id@, workspace_id@, document_id@),
    {
        Self {
            actor_user_id: actor_user_id.to_string(),
            workspace_id: workspace_id.to_string(),
            document_id: document_id.to_string(),
        }
    }

}

#[derive(Debug, Clone, PartialEq, Eq)]
pub struct GetDocumentLockInput {
    actor_user_id: String,
    workspace_id: String,
    document_id: String,
}

impl View for GetDocumentLockInput {
    type V = (Seq<char>, Seq<char>, Seq<char>);

    closed spec fn view(&self) -> (Seq<char>, Seq<char>, Seq<char>) {
        (self.actor_user_id@, self.workspace_id@, self.document_id@)
    }
}

impl GetDocumentLockInput {
    pub fn new(actor_user_id: &str, workspace_id: &str, document_id: &str) -> (result: Self)
        ensures
            result@ == (actor_user_id@, workspace_id@, document_id@),
    {
        Self {
            actor_user_id: actor_user_id.to_string(),
            workspace_id: workspace_id.to_string(),
            document_id: document_id.to_string(),
        }
    }

}

#[derive(Debug, Clone, Copy, PartialEq, Eq, Structural)]
pub enum DocumentLockViewStatus {
    Unlocked,
    Locked,
    Expired,
}

impl DocumentLockViewStatus {
    pub fn as_str(self) -> (result: &'static str)
        ensures
            result@ == match self {
                Self::Unlocked => "unlocked"@,
                Self::Locked => "locked"@,
                Self::Expired => "expired"@,
            },
    {
        match self {
            Self::Unlocked => "unlocked",
            Self::Locked => "locked",
            Self::Expired => "expired",
        }
    }
}

#[derive(Debug, Clone, Copy, PartialEq, Eq, Structural)]
pub enum DocumentLockUsecaseError {
    InvalidInput,
    Unauthorized,
    AlreadyLocked,
    NotOwner,
    LockNotFound,
    LockExpired,
    LockNotExpired,
    StorageUnavailable,
    Conflict,
}

impl DocumentLockUsecaseError {
    pub fn code(self) -> (result: &'static str)
        ensures
            result@ == match self {
                Self::InvalidInput => "DOCUMENT_LOCK_INVALID_INPUT"@,
                Self::Unauthorized => "DOCUMENT_LOCK_UNAUTHORIZED"@,
                Self::AlreadyLocked => "DOCUMENT_LOCK_ALREADY_LOCKED"@,
                Self::NotOwner => "DOCUMENT_LOCK_NOT_OWNER"@,
                Self::LockNotFound => "DOCUMENT_LOCK_NOT_FOUND"@,
                Self::LockExpired => "DOCUMENT_LOCK_EXPIRED"@,
                Self::LockNotExpired => "DOCUMENT_LOCK_NOT_EXPIRED"@,
                Self::StorageUnavailable => "DOCUMENT_LOCK_STORAGE_UNAVAILABLE"@,
                Self::Conflict => "DOCUMENT_LOCK_CONFLICT"@,
            },
    {
        match self {
            Self::InvalidInput => "DOCUMENT_LOCK_INVALID_INPUT",
            Self::Unauthorized => "DOCUMENT_LOCK_UNAUTHORIZED",
            Self::AlreadyLocked => "DOCUMENT_LOCK_ALREADY_LOCKED",
            Self::NotOwner => "DOCUMENT_LOCK_NOT_OWNER",
            Self::LockNotFound => "DOCUMENT_LOCK_NOT_FOUND",
            Self::LockExpired => "DOCUMENT_LOCK_EXPIRED",
            Self::LockNotExpired => "DOCUMENT_LOCK_NOT_EXPIRED",
            Self::StorageUnavailable => "DOCUMENT_LOCK_STORAGE_UNAVAILABLE",
            Self::Conflict => "DOCUMENT_LOCK_CONFLICT",
        }
    }
}

#[derive(Debug, Clone, PartialEq, Eq)]
pub enum DocumentLockProductEvent {
    LockAcquired { masked_actor_id: String, document_id: String, lock_id: String, state: &'static str },
    LockReleased { masked_actor_id: String, document_id: String, lock_id: String, state: &'static str },
    LockExpired { masked_actor_id: String, document_id: String, lock_id: String, state: &'static str },
    LockConflict { masked_actor_id: String, document_id: String, error_code: &'static str, state: &'static str },
}

/// [`DocumentLockProductEvent`] with its texts as character sequences.
pub enum DocumentLockProductEventView {
    LockAcquired { masked_actor_id: Seq<char>, document_id: Seq<char>, lock_id: Seq<char>, state: Seq<char> },
    LockReleased { masked_actor_id: Seq<char>, document_id: Seq<char>, lock_id: Seq<char>, state: Seq<char> },
    LockExpired { masked_actor_id: Seq<char>, document_id: Seq<char>, lock_id: Seq<char>, state: Seq<char> },
    LockConflict { masked_actor_id: Seq<char>, document_id: Seq<char>, error_code: Seq<char>, state: Seq<char> },
}

impl View for DocumentLockProductEvent {
    type V = DocumentLockProductEventView;

    open spec fn view(&self) -> DocumentLockProductEventView {
        match self {
            DocumentLockProductEvent::LockAcquired { masked_actor_id, document_id, lock_id, state } => DocumentLockProductEventView::LockAcquired { masked_actor_id: masked_actor_id@, document_id: document_id@, lock_id: lock_id@, state: state@ },
            DocumentLockProductEvent::LockReleased { masked_actor_id, document_id, lock_id, state } => DocumentLockProductEventView::LockReleased { masked_actor_id: masked_actor_id@, document_id: document_id@, lock_id: lock_id@, state: state@ },
            DocumentLockProductEvent::LockExpired { masked_actor_id, document_id, lock_id, state } => DocumentLockProductEventView::LockExpired { masked_actor_id: masked_actor_id@, document_id: document_id@, lock_id: lock_id@, state: state@ },
            DocumentLockProductEvent::LockConflict { masked_actor_id, document_id, error_code, state } => DocumentLockProductEventView::LockConflict { masked_actor_id: masked_actor_id@, document_id: document_id@, error_code: error_code@, state: state@ },
        }
    }
}

impl DocumentLockProductEvent {
    pub fn event_name(&self) -> (result: &'static str)
        ensures
            result@ == match self@ {
                DocumentLockProductEventView::LockAcquired { .. } => "document.lock.acquired"@,
                DocumentLockProductEventView::LockReleased { .. } => "document.lock.released"@,
                DocumentLockProductEventView::LockExpired { .. } => "document.lock.expired"@,
                DocumentLockProductEventView::LockConflict { .. } => "document.lock.conflict"@,
            },
    {
        match self {
            Self::LockAcquired { .. } => "document.lock.acquired",
            Self::LockReleased { .. } => "document.lock.released",
            Self::LockExpired { .. } => "document.lock.expired",
            Self::LockConflict { .. } => "document.lock.conflict",
        }
    }
}

#[derive(Debug, Clone, PartialEq, Eq)]
pub struct DocumentLockFieldDebugEvent {
    current_state: &'static str,
    requested_event: &'static str,
    permission_decision: &'static str,
    lock_expiry_status: &'static str,
}

impl View for DocumentLockFieldDebugEvent {
    type V = (Seq<char>, Seq<char>, Seq<char>, Seq<char>);

    closed spec fn view(&self) -> (Seq<char>, Seq<char>, Seq<char>, Seq<char>) {
        (self.current_state@, self.requested_event@, self.permission_decision@, self.lock_expiry_status@)
    }
}

impl DocumentLockFieldDebugEvent {
    pub fn current_state(&self) -> (result: &'static str)
        ensures
            result@ == self@.0,
    {
        self.current_state
    }

    pub fn requested_event(&self) -> (result: &'static str)
        ensures
            result@ == self@.1,
    {
        self.requested_event
    }

    pub fn permission_decision(&self) -> (result: &'static str)
        ensures
            result@ == self@.2,
    {
        self.permission_decision
    }

    pub fn lock_expiry_status(&self) -> (result: &'static str)
        ensures
            result@ == self@.3,
    {
        self.lock_expiry_status
    }

}

pub trait DocumentLockUsecaseLogger {
    fn write_product(&mut self, event: DocumentLockProductEvent);
    fn write_field_debug(&mut self, event: DocumentLockFieldDebugEvent);
}

#[derive(Debug, Clone, Copy, PartialEq, Eq, Structural)]
pub struct UnlockDocumentUsecase;

impl UnlockDocumentUsecase {
    pub fn new() -> (result: Self)
        ensures
            result == (UnlockDocumentUsecase),
    {
        UnlockDocumentUsecase
    }
}

#[derive(Debug, Clone, Copy, PartialEq, Eq, Structural)]
pub struct ExpireDocumentLockUsecase;

impl ExpireDocumentLockUsecase {
    pub fn new() -> (result: Self)
        ensures
            result == (ExpireDocumentLockUsecase),
    {
        ExpireDocumentLockUsecase
    }
}

#[derive(Debug, Clone, Copy, PartialEq, Eq, Structural)]
pub struct GetDocumentLockUsecase;

impl GetDocumentLockUsecase {
    pub fn new() -> (result: Self)
        ensures
            result == (GetDocumentLockUsecase),
    {
        GetDocumentLockUsecase
    }
}

/// The code of a document-lock error.
pub open spec fn document_lock_error_code(error: DocumentLockUsecaseError) -> Seq<char> {
    match error {
        DocumentLockUsecaseError::InvalidInput => "DOCUMENT_LOCK_INVALID_INPUT"@,
        DocumentLockUsecaseError::Unauthorized => "DOCUMENT_LOCK_UNAUTHORIZED"@,
        DocumentLockUsecaseError::AlreadyLocked => "DOCUMENT_LOCK_ALREADY_LOCKED"@,
        DocumentLockUsecaseError::NotOwner => "DOCUMENT_LOCK_NOT_OWNER"@,
        DocumentLockUsecaseError::LockNotFound => "DOCUMENT_LOCK_NOT_FOUND"@,
        DocumentLockUsecaseError::LockExpired => "DOCUMENT_LOCK_EXPIRED"@,
        DocumentLockUsecaseError::LockNotExpired => "DOCUMENT_LOCK_NOT_EXPIRED"@,
        DocumentLockUsecaseError::StorageUnavailable => "DOCUMENT_LOCK_STORAGE_UNAVAILABLE"@,
        DocumentLockUsecaseError::Conflict => "DOCUMENT_LOCK_CONFLICT"@,
    }
}

/// The label of a lock slot: whether it holds a lock.
pub open spec fn lock_state_text(has_lock: bool) -> Seq<char> {
    if has_lock {
        "locked"@
    } else {
        "unlocked"@
    }
}

/// The expiry label of a lock slot at the time of a request: `None` when it
/// holds no lock, else whether the lock it holds has expired.
pub open spec fn lock_expiry_text(lock_expired: Option<bool>) -> Seq<char> {
    match lock_expired {
        None => "none"@,
        Some(true) => "expired"@,
        Some(false) => "active"@,
    }
}

pub fn lock_state_label(has_lock: bool) -> (result: &'static str)
    ensures
        result@ == lock_state_text(has_lock),
{
    if has_lock {
        "locked"
    } else {
        "unlocked"
    }
}

pub fn lock_expiry_label(lock_expired: Option<bool>) -> (result: &'static str)
    ensures
        result@ == lock_expiry_text(lock_expired),
{
    match lock_expired {
        None => "none",
        Some(true) => "expired",
        Some(false) => "active",
    }
}

/// What a lock read answers: no lock is unlocked, an expired lock is
/// reported expired (and removed), a live lock is locked.
pub fn lock_view_status(lock_expired: Option<bool>) -> (result: DocumentLockViewStatus)
    ensures
        result == match lock_expired {
            None => DocumentLockViewStatus::Unlocked,
            Some(true) => DocumentLockViewStatus::Expired,
            Some(false) => DocumentLockViewStatus::Locked,
        },
{
    match lock_expired {
        None => DocumentLockViewStatus::Unlocked,
        Some(true) => DocumentLockViewStatus::Expired,
        Some(false) => DocumentLockViewStatus::Locked,
    }
}

/// The field-debug event written once the actor's permission has been
/// checked for `requested_event`.
pub fn permission_checked_event(requested_event: &'static str, allowed: bool) -> (result: DocumentLockFieldDebugEvent)
    ensures
        result@ == (
            "permission_checked"@,
            requested_event@,
            if allowed { "allowed"@ } else { "denied"@ },
            "unknown"@,
        ),
{
    let permission_decision = if allowed {
        "allowed"
    } else {
        "denied"
    };
    DocumentLockFieldDebugEvent {
        current_state: "permission_checked",
        requested_event,
        permission_decision,
        lock_expiry_status: "unknown",
    }
}

/// The field-debug event written when a permitted request is refused by the
/// lock's state; `lock_expired` is as in [`lock_expiry_label`].
pub fn conflict_field_debug_event(requested_event: &'static str, lock_expired: Option<bool>) -> (result: DocumentLockFieldDebugEvent)
    ensures
        result@ == (
            lock_state_text(lock_expired is Some),
            requested_event@,
            "allowed"@,
            lock_expiry_text(lock_expired),
        ),
{
    DocumentLockFieldDebugEvent {
        current_state: lock_state_label(lock_expired.is_some()),
        requested_event,
        permission_decision: "allowed",
        lock_expiry_status: lock_expiry_label(lock_expired),
    }
}

/// The field-debug event written when a request succeeds and leaves the
/// slot in `current_state`.
pub fn settled_field_debug_event(current_state: &'static str, requested_event: &'static str, lock_expiry_status: &'static str) -> (result: DocumentLockFieldDebugEvent)
    ensures
        result@ == (current_state@, requested_event@, "allowed"@, lock_expiry_status@),
{
    DocumentLockFieldDebugEvent { current_state, requested_event, permission_decision: "allowed", lock_expiry_status }
}

/// The product event for a refused request, with the actor masked.
pub fn conflict_product_event(actor_user_id: &str, document_id: &str, error: DocumentLockUsecaseError, state: &'static str) -> (result: DocumentLockProductEvent)
    requires
        actor_user_id.len() > 4 ==> vstd::utf8::is_char_boundary(actor_user_id.spec_bytes(), actor_user_id.len() - 4),
    ensures
        result@ == (DocumentLockProductEventView::LockConflict {
            masked_actor_id: masked_id(actor_user_id),
            document_id: document_id@,
            error_code: document_lock_error_code(error),
            state: state@,
        }),
{
    DocumentLockProductEvent::LockConflict {
        masked_actor_id: mask_id(actor_user_id),
        document_id: document_id.to_string(),
        error_code: error.code(),
        state,
    }
}

/// The product event for a lock taken by the actor.
pub fn lock_acquired_event(actor_user_id: &str, document_id: &str, lock_id: &str) -> (result: DocumentLockProductEvent)
    requires
        actor_user_id.len() > 4 ==> vstd::utf8::is_char_boundary(actor_user_id.spec_bytes(), actor_user_id.len() - 4),
    ensures
        result@ == (DocumentLockProductEventView::LockAcquired {
            masked_actor_id: masked_id(actor_user_id),
            document_id: document_id@,
            lock_id: lock_id@,
            state: "locked"@,
        }),
{
    DocumentLockProductEvent::LockAcquired {
        masked_actor_id: mask_id(actor_user_id),
        document_id: document_id.to_string(),
        lock_id: lock_id.to_string(),
        state: "locked",
    }
}

/// The product event for a lock released by the actor.
pub fn lock_released_event(actor_user_id: &str, document_id: &str, lock_id: &str) -> (result: DocumentLockProductEvent)
    requires
        actor_user_id.len() > 4 ==> vstd::utf8::is_char_boundary(actor_user_id.spec_bytes(), actor_user_id.len() - 4),
    ensures
        result@ == (DocumentLockProductEventView::LockReleased {
            masked_actor_id: masked_id(actor_user_id),
            document_id: document_id@,
            lock_id: lock_id@,
            state: "unlocked"@,
        }),
{
    DocumentLockProductEvent::LockReleased {
        masked_actor_id: mask_id(actor_user_id),
        document_id: document_id.to_string(),
        lock_id: lock_id.to_string(),
        state: "unlocked",
    }
}

/// The product event for an expired lock removed on the actor's request.
pub fn lock_expired_event(actor_user_id: &str, document_id: &str, lock_id: &str) -> (result: DocumentLockProductEvent)
    requires
        actor_user_id.len() > 4 ==> vstd::utf8::is_char_boundary(actor_user_id.spec_bytes(), actor_user_id.len() - 4),
    ensures
        result@ == (DocumentLockProductEventView::LockExpired {
            masked_actor_id: masked_id(actor_user_id),
            document_id: document_id@,
            lock_id: lock_id@,
            state: "expired"@,
        }),
{
    DocumentLockProductEvent::LockExpired {
        masked_actor_id: mask_id(actor_user_id),
        document_id: document_id.to_string(),
        lock_id: lock_id.to_string(),
        state: "expired",
    }
}

impl DocumentLockUsecaseError {
    /// How this usecase reports each document lock error code.
    pub fn from_transition_error(error: DocumentLockErrorCode) -> (result: Self)
        ensures
            result == match error {
                DocumentLockErrorCode::AlreadyLocked => Self::AlreadyLocked,
                DocumentLockErrorCode::NotOwner => Self::NotOwner,
                DocumentLockErrorCode::Expired => Self::LockExpired,
                DocumentLockErrorCode::NotLocked => Self::LockNotFound,
                DocumentLockErrorCode::NotExpired => Self::LockNotExpired,
            },
    {
        match error {
            DocumentLockErrorCode::AlreadyLocked => Self::AlreadyLocked,
            DocumentLockErrorCode::NotOwner => Self::NotOwner,
            DocumentLockErrorCode::Expired => Self::LockExpired,
            DocumentLockErrorCode::NotLocked => Self::LockNotFound,
            DocumentLockErrorCode::NotExpired => Self::LockNotExpired,
        }
    }
}

impl DocumentLockUsecaseError {
    /// How this usecase reports each document lock repository failure.
    pub fn from_repository_error(error: DocumentLockRepositoryError) -> (result: Self)
        ensures
            result == match error {
                DocumentLockRepositoryError::StorageUnavailable | DocumentLockRepositoryError::CorruptedState => Self::StorageUnavailable,
                DocumentLockRepositoryError::Conflict => Self::Conflict,
            },
    {
        match error {
            DocumentLockRepositoryError::StorageUnavailable | DocumentLockRepositoryError::CorruptedState => Self::StorageUnavailable,
            DocumentLockRepositoryError::Conflict => Self::Conflict,
        }
    }
}

impl DocumentLockUsecaseError {
    /// How this usecase reports each document lock permission check failure.
    pub fn from_permission_error(error: DocumentLockPermissionCheckError) -> (result: Self)
        ensures
            result == match error {
                DocumentLockPermissionCheckError::StorageUnavailable => Self::StorageUnavailable,
            },
    {
        match error {
            DocumentLockPermissionCheckError::StorageUnavailable => Self::StorageUnavailable,
        }
    }
}

/// How this usecase reports each document lock failure.
pub fn map_domain_error(error: DocumentLockError) -> (result: DocumentLockUsecaseError)
    ensures
        result == match error {
            DocumentLockError::EmptyLockId | DocumentLockError::InvalidLockId | DocumentLockError::InvalidExpiry => DocumentLockUsecaseError::InvalidInput,
        },
{
    match error {
        DocumentLockError::EmptyLockId | DocumentLockError::InvalidLockId | DocumentLockError::InvalidExpiry => DocumentLockUsecaseError::InvalidInput,
    }
}

} // verus!
