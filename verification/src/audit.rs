use vstd::prelude::*;
use crate::domain_errors::AuditError;
use crate::collaborator_errors::{AuditLogStoreError, AuditPermissionCheckError};
use crate::text::{mask_id, masked_id};
use vstd::string::StringSliceAdditionalSpecFns;
use crate::text::{opt_sstr_view, opt_str_view, opt_to_string, opt_ref_view, pairs_view, strings_view};

verus! {
#[derive(Debug, Clone, Copy, PartialEq, Eq, Structural)]
pub struct AuditRetentionPolicy {
    retention_days: u32,
}

impl View for AuditRetentionPolicy {
    type V = u32;

    closed spec fn view(&self) -> u32 {
        self.retention_days
    }
}

impl AuditRetentionPolicy {
    pub fn new(retention_days: u32) -> (result: Result<Self, AuditUsecaseError>)
        ensures
            retention_days == 0 ==> result == Err::<Self, AuditUsecaseError>(AuditUsecaseError::InvalidInput),
            retention_days != 0 ==> result is Ok && result->Ok_0@ == retention_days,
    {
        if retention_days == 0 {
            return Err(AuditUsecaseError::InvalidInput);
        }
        Ok(Self { retention_days })
    }

    pub fn retention_days(self) -> (result: u32)
        ensures
            result == self@,
    {
        self.retention_days
    }
}

impl Default for AuditRetentionPolicy {
    fn default() -> (result: Self)
        ensures
            result@ == 365,
    {
        Self { retention_days: 365 }
    }
}

#[derive(Debug, Clone, PartialEq, Eq)]
pub enum AuditTargetInput {
    Workspace,
    Document { document_id: String },
    ReviewRequest { document_id: String, review_request_id: String },
    DocumentLock { document_id: String, lock_id: String },
    BackupJob { job_id: String },
}

/// [`AuditTargetInput`] with its texts as character sequences.
pub enum AuditTargetInputView {
    Workspace,
    Document { document_id: Seq<char> },
    ReviewRequest { document_id: Seq<char>, review_request_id: Seq<char> },
    DocumentLock { document_id: Seq<char>, lock_id: Seq<char> },
    BackupJob { job_id: Seq<char> },
}

impl View for AuditTargetInput {
    type V = AuditTargetInputView;

    open spec fn view(&self) -> AuditTargetInputView {
        match self {
            AuditTargetInput::Workspace => AuditTargetInputView::Workspace,
            AuditTargetInput::Document { document_id } => AuditTargetInputView::Document { document_id: document_id@ },
            AuditTargetInput::ReviewRequest { document_id, review_request_id } => AuditTargetInputView::ReviewRequest { document_id: document_id@, review_request_id: review_request_id@ },
            AuditTargetInput::DocumentLock { document_id, lock_id } => AuditTargetInputView::DocumentLock { document_id: document_id@, lock_id: lock_id@ },
            AuditTargetInput::BackupJob { job_id } => AuditTargetInputView::BackupJob { job_id: job_id@ },
        }
    }
}

impl AuditTargetInput {
    pub fn workspace() -> (result: Self)
        ensures
            result@ == AuditTargetInputView::Workspace,
    {
        AuditTargetInput::Workspace
    }

    pub fn document(document_id: &str) -> (result: Self)
        ensures
            result@ == (AuditTargetInputView::Document { document_id: document_id@ }),
    {
        AuditTargetInput::Document { document_id: document_id.to_string() }
    }

    pub fn review_request(document_id: &str, review_request_id: &str) -> (result: Self)
        ensures
            result@ == (AuditTargetInputView::ReviewRequest { document_id: document_id@, review_request_id: review_request_id@ }),
    {
        AuditTargetInput::ReviewRequest { document_id: document_id.to_string(), review_request_id: review_request_id.to_string() }
    }

    pub fn document_lock(document_id: &str, lock_id: &str) -> (result: Self)
        ensures
            result@ == (AuditTargetInputView::DocumentLock { document_id: document_id@, lock_id: lock_id@ }),
    {
        AuditTargetInput::DocumentLock { document_id: document_id.to_string(), lock_id: lock_id.to_string() }
    }

    pub fn backup_job(job_id: &str) -> (result: Self)
        ensures
            result@ == (AuditTargetInputView::BackupJob { job_id: job_id@ }),
    {
        AuditTargetInput::BackupJob { job_id: job_id.to_string() }
    }

}

#[derive(Debug, Clone, Copy, PartialEq, Eq, Structural)]
pub enum RecordAuditEventStatus {
    Recorded,
}

#[derive(Debug, Clone, PartialEq, Eq)]
pub struct RecordAuditEventOutput {
    status: RecordAuditEventStatus,
    event_id: String,
    retention_days: u32,
}

impl View for RecordAuditEventOutput {
    type V = (RecordAuditEventStatus, Seq<char>, u32);

    closed spec fn view(&self) -> (RecordAuditEventStatus, Seq<char>, u32) {
        (self.status, self.event_id@, self.retention_days)
    }
}

impl RecordAuditEventOutput {
    /// The answer of recording an audit event.
    pub fn new(status: RecordAuditEventStatus, event_id: &str, retention_days: u32) -> (result: Self)
        ensures
            result@ == (status, event_id@, retention_days),
    {
        RecordAuditEventOutput { status, event_id: event_id.to_string(), retention_days }
    }

    pub fn status(&self) -> (result: RecordAuditEventStatus)
        ensures
            result == self@.0,
    {
        self.status
    }

    pub fn event_id(&self) -> (result: &str)
        ensures
            result@ == self@.1,
    {
        self.event_id.as_str()
    }

    pub fn retention_days(&self) -> (result: u32)
        ensures
            result == self@.2,
    {
        self.retention_days
    }

}

#[derive(Debug, Clone, PartialEq, Eq)]
pub struct ListAuditEventsInput {
    actor_user_id: String,
    workspace_id: String,
    scope: ListAuditEventsScopeInput,
    limit: usize,
    cursor: Option<String>,
}

impl View for ListAuditEventsInput {
    type V = (Seq<char>, Seq<char>, <ListAuditEventsScopeInput as View>::V, usize, Option<Seq<char>>);

    closed spec fn view(&self) -> (Seq<char>, Seq<char>, <ListAuditEventsScopeInput as View>::V, usize, Option<Seq<char>>) {
        (self.actor_user_id@, self.workspace_id@, self.scope@, self.limit, opt_str_view(self.cursor))
    }
}

impl ListAuditEventsInput {
    pub fn new(actor_user_id: &str, workspace_id: &str, scope: ListAuditEventsScopeInput, limit: usize, cursor: Option<&str>) -> (result: Self)
        ensures
            result@ == (actor_user_id@, workspace_id@, scope@, limit, opt_ref_view(cursor)),
    {
        Self {
            actor_user_id: actor_user_id.to_string(),
            workspace_id: workspace_id.to_string(),
            scope: scope,
            limit: limit,
            cursor: opt_to_string(cursor),
        }
    }

}

#[derive(Debug, Clone, PartialEq, Eq)]
pub enum ListAuditEventsScopeInput {
    Workspace,
    Actor { actor_user_id: String },
    Target { target_type: String, target_id: String },
}

/// [`ListAuditEventsScopeInput`] with its texts as character sequences.
pub enum ListAuditEventsScopeInputView {
    Workspace,
    Actor { actor_user_id: Seq<char> },
    Target { target_type: Seq<char>, target_id: Seq<char> },
}

impl View for ListAuditEventsScopeInput {
    type V = ListAuditEventsScopeInputView;

    open spec fn view(&self) -> ListAuditEventsScopeInputView {
        match self {
            ListAuditEventsScopeInput::Workspace => ListAuditEventsScopeInputView::Workspace,
            ListAuditEventsScopeInput::Actor { actor_user_id } => ListAuditEventsScopeInputView::Actor { actor_user_id: actor_user_id@ },
            ListAuditEventsScopeInput::Target { target_type, target_id } => ListAuditEventsScopeInputView::Target { target_type: target_type@, target_id: target_id@ },
        }
    }
}

impl ListAuditEventsScopeInput {
    pub fn workspace() -> (result: Self)
        ensures
            result@ == ListAuditEventsScopeInputView::Workspace,
    {
        ListAuditEventsScopeInput::Workspace
    }

    pub fn actor(actor_user_id: &str) -> (result: Self)
        ensures
            result@ == (ListAuditEventsScopeInputView::Actor { actor_user_id: actor_user_id@ }),
    {
        ListAuditEventsScopeInput::Actor { actor_user_id: actor_user_id.to_string() }
    }

    pub fn target(target_type: &str, target_id: &str) -> (result: Self)
        ensures
            result@ == (ListAuditEventsScopeInputView::Target { target_type: target_type@, target_id: target_id@ }),
    {
        ListAuditEventsScopeInput::Target { target_type: target_type.to_string(), target_id: target_id.to_string() }
    }

}

#[derive(Debug, Clone, PartialEq, Eq)]
pub struct ListAuditEventsOutput {
    events: Vec<AuditEventSummary>,
    next_cursor: Option<String>,
    retention_days: u32,
}

impl View for ListAuditEventsOutput {
    type V = (Seq<<AuditEventSummary as View>::V>, Option<Seq<char>>, u32);

    closed spec fn view(&self) -> (Seq<<AuditEventSummary as View>::V>, Option<Seq<char>>, u32) {
        (self.events@.map_values(|x: AuditEventSummary| x@), opt_str_view(self.next_cursor), self.retention_days)
    }
}

impl ListAuditEventsOutput {
    /// The answer that holds these events, this next cursor and this
    /// retention.
    pub closed spec fn listed(events: Vec<AuditEventSummary>, next_cursor: Option<String>, retention_days: u32) -> Self {
        ListAuditEventsOutput { events, next_cursor, retention_days }
    }

    /// What the answer built from these parts reads.
    pub proof fn lemma_listed_view(events: Vec<AuditEventSummary>, next_cursor: Option<String>, retention_days: u32)
        ensures
            Self::listed(events, next_cursor, retention_days)@ == (
                events@.map_values(|x: AuditEventSummary| x@),
                opt_str_view(next_cursor),
                retention_days,
            ),
    {
    }

    /// Builds the answer from its parts.
    pub fn new(events: Vec<AuditEventSummary>, next_cursor: Option<String>, retention_days: u32) -> (result: Self)
        ensures
            result == Self::listed(events, next_cursor, retention_days),
            result@ == (events@.map_values(|x: AuditEventSummary| x@), opt_str_view(next_cursor), retention_days),
    {
        ListAuditEventsOutput { events, next_cursor, retention_days }
    }

    pub fn events(&self) -> (result: &[AuditEventSummary])
        ensures
            result@.map_values(|x: AuditEventSummary| x@) == self@.0,
    {
        self.events.as_slice()
    }

    pub fn next_cursor(&self) -> (result: Option<&str>)
        ensures
            match result { Some(s) => Some(s@), None => None::<Seq<char>> } == self@.1,
    {
        match &self.next_cursor {
            Some(s) => Some(s.as_str()),
            None => None,
        }
    }

    pub fn retention_days(&self) -> (result: u32)
        ensures
            result == self@.2,
    {
        self.retention_days
    }

}

#[derive(Debug, Clone, PartialEq, Eq)]
pub struct AuditEventSummary {
    event_id: String,
    workspace_id: String,
    actor_type: &'static str,
    actor_id: String,
    action: &'static str,
    target_type: &'static str,
    target_id: String,
    document_id: Option<String>,
    occurred_at_millis: u64,
    metadata: Vec<(String, String)>,
}

impl View for AuditEventSummary {
    type V = (Seq<char>, Seq<char>, Seq<char>, Seq<char>, Seq<char>, Seq<char>, Seq<char>, Option<Seq<char>>, u64, Seq<(Seq<char>, Seq<char>)>);

    closed spec fn view(&self) -> (Seq<char>, Seq<char>, Seq<char>, Seq<char>, Seq<char>, Seq<char>, Seq<char>, Option<Seq<char>>, u64, Seq<(Seq<char>, Seq<char>)>) {
        (self.event_id@, self.workspace_id@, self.actor_type@, self.actor_id@, self.action@, self.target_type@, self.target_id@, opt_str_view(self.document_id), self.occurred_at_millis, pairs_view(self.metadata@))
    }
}

impl AuditEventSummary {
    pub fn event_id(&self) -> (result: &str)
        ensures
            result@ == self@.0,
    {
        self.event_id.as_str()
    }

    pub fn workspace_id(&self) -> (result: &str)
        ensures
            result@ == self@.1,
    {
        self.workspace_id.as_str()
    }

    pub fn actor_type(&self) -> (result: &'static str)
        ensures
            result@ == self@.2,
    {
        self.actor_type
    }

    pub fn actor_id(&self) -> (result: &str)
        ensures
            result@ == self@.3,
    {
        self.actor_id.as_str()
    }

    pub fn action(&self) -> (result: &'static str)
        ensures
            result@ == self@.4,
    {
        self.action
    }

    pub fn target_type(&self) -> (result: &'static str)
        ensures
            result@ == self@.5,
    {
        self.target_type
    }

    pub fn target_id(&self) -> (result: &str)
        ensures
            result@ == self@.6,
    {
        self.target_id.as_str()
    }

    pub fn document_id(&self) -> (result: Option<&str>)
        ensures
            match result { Some(s) => Some(s@), None => None::<Seq<char>> } == self@.7,
    {
        match &self.document_id {
            Some(s) => Some(s.as_str()),
            None => None,
        }
    }

    pub fn occurred_at_millis(&self) -> (result: u64)
        ensures
            result == self@.8,
    {
        self.occurred_at_millis
    }

    pub fn metadata(&self) -> (result: &[(String, String)])
        ensures
            pairs_view(result@) == self@.9,
    {
        self.metadata.as_slice()
    }

}

#[derive(Debug, Clone, Copy, PartialEq, Eq, Structural)]
pub enum AuditUsecaseError {
    InvalidInput,
    InvalidMetadata,
    Unauthorized,
    InvalidCursor,
    StoreUnavailable,
    Conflict,
}

impl AuditUsecaseError {
    pub fn code(self) -> (result: &'static str)
        ensures
            result@ == match self {
                Self::InvalidInput => "AUDIT_INVALID_INPUT"@,
                Self::InvalidMetadata => "AUDIT_INVALID_METADATA"@,
                Self::Unauthorized => "AUDIT_UNAUTHORIZED"@,
                Self::InvalidCursor => "AUDIT_INVALID_CURSOR"@,
                Self::StoreUnavailable => "AUDIT_STORE_UNAVAILABLE"@,
                Self::Conflict => "AUDIT_CONFLICT"@,
            },
    {
        match self {
            Self::InvalidInput => "AUDIT_INVALID_INPUT",
            Self::InvalidMetadata => "AUDIT_INVALID_METADATA",
            Self::Unauthorized => "AUDIT_UNAUTHORIZED",
            Self::InvalidCursor => "AUDIT_INVALID_CURSOR",
            Self::StoreUnavailable => "AUDIT_STORE_UNAVAILABLE",
            Self::Conflict => "AUDIT_CONFLICT",
        }
    }
}

#[derive(Debug, Clone, PartialEq, Eq)]
pub enum AuditProductEvent {
    StoreFailed {
        masked_actor_id: String,
        action: &'static str,
        target_type: &'static str,
        error_code: &'static str,
    },
    QueryDenied { masked_actor_id: String, scope: &'static str, error_code: &'static str },
}

impl AuditProductEvent {
    pub fn event_name(&self) -> (result: &'static str)
        ensures
            result@ == match self {
                AuditProductEvent::StoreFailed { .. } => "audit.store.failed"@,
                AuditProductEvent::QueryDenied { .. } => "audit.query.denied"@,
            },
    {
        match self {
            AuditProductEvent::StoreFailed { .. } => "audit.store.failed",
            AuditProductEvent::QueryDenied { .. } => "audit.query.denied",
        }
    }
}

#[derive(Debug, Clone, PartialEq, Eq)]
pub struct AuditFieldDebugEvent {
    query_scope: &'static str,
    cursor_present: bool,
    result_count: usize,
}

impl View for AuditFieldDebugEvent {
    type V = (Seq<char>, bool, usize);

    closed spec fn view(&self) -> (Seq<char>, bool, usize) {
        (self.query_scope@, self.cursor_present, self.result_count)
    }
}

impl AuditFieldDebugEvent {
    pub fn query_scope(&self) -> (result: &'static str)
        ensures
            result@ == self@.0,
    {
        self.query_scope
    }

    pub fn cursor_present(&self) -> (result: bool)
        ensures
            result == self@.1,
    {
        self.cursor_present
    }

    pub fn result_count(&self) -> (result: usize)
        ensures
            result == self@.2,
    {
        self.result_count
    }

}

pub trait AuditUsecaseLogger {
    fn write_product(&mut self, event: AuditProductEvent);
    fn write_field_debug(&mut self, event: AuditFieldDebugEvent);
}

#[derive(Debug, Clone, Copy, PartialEq, Eq, Structural)]
pub struct RecordAuditEventUsecase {
    policy: AuditRetentionPolicy,
}

impl View for RecordAuditEventUsecase {
    type V = AuditRetentionPolicy;

    closed spec fn view(&self) -> AuditRetentionPolicy {
        self.policy
    }
}

impl RecordAuditEventUsecase {
    pub fn new(policy: AuditRetentionPolicy) -> (result: Self)
        ensures
            result@ == policy,
    {
        Self { policy }
    }
}

#[derive(Debug, Clone, Copy, PartialEq, Eq, Structural)]
pub struct ListAuditEventsUsecase {
    policy: AuditRetentionPolicy,
}

impl View for ListAuditEventsUsecase {
    type V = AuditRetentionPolicy;

    closed spec fn view(&self) -> AuditRetentionPolicy {
        self.policy
    }
}

impl ListAuditEventsUsecase {
    pub fn new(policy: AuditRetentionPolicy) -> (result: Self)
        ensures
            result@ == policy,
    {
        Self { policy }
    }
}


/// A query of the audit log needs the manage permission on the workspace;
/// without it the query is refused as unauthorized and a denial naming the
/// masked actor and the scope is logged.
pub fn check_audit_query(allowed: bool, actor_user_id: &str, scope: &'static str) -> (result: Result<
    (),
    (AuditUsecaseError, AuditProductEvent),
>)
    requires
        actor_user_id.len() > 4 ==> vstd::utf8::is_char_boundary(
            actor_user_id.spec_bytes(),
            actor_user_id.len() - 4,
        ),
    ensures
        allowed <==> result is Ok,
        !allowed ==> (result matches Err((error, AuditProductEvent::QueryDenied { masked_actor_id, scope: s, error_code })) && {
            &&& error == AuditUsecaseError::Unauthorized
            &&& masked_actor_id@ == masked_id(actor_user_id)
            &&& s@ == scope@
            &&& error_code@ == "AUDIT_UNAUTHORIZED"@
        }),
{
    if allowed {
        return Ok(());
    }
    let error = AuditUsecaseError::Unauthorized;
    let event = AuditProductEvent::QueryDenied {
        masked_actor_id: mask_id(actor_user_id),
        scope,
        error_code: error.code(),
    };
    Err((error, event))
}

impl AuditUsecaseError {
    /// What `from_store_error` gives for each value.
    pub open spec fn from_store_error_spec(error: AuditLogStoreError) -> Self {
        match error {
            AuditLogStoreError::InvalidLimit | AuditLogStoreError::InvalidScope => Self::InvalidInput,
            AuditLogStoreError::InvalidCursor => Self::InvalidCursor,
            AuditLogStoreError::StorageUnavailable | AuditLogStoreError::CorruptedState => Self::StoreUnavailable,
            AuditLogStoreError::Conflict => Self::Conflict,
        }
    }

    /// How this usecase reports each audit log store failure.
    #[verifier::when_used_as_spec(from_store_error_spec)]
    pub fn from_store_error(error: AuditLogStoreError) -> (result: Self)
        ensures
            result == Self::from_store_error_spec(error),
    {
        match error {
            AuditLogStoreError::InvalidLimit | AuditLogStoreError::InvalidScope => Self::InvalidInput,
            AuditLogStoreError::InvalidCursor => Self::InvalidCursor,
            AuditLogStoreError::StorageUnavailable | AuditLogStoreError::CorruptedState => Self::StoreUnavailable,
            AuditLogStoreError::Conflict => Self::Conflict,
        }
    }
}

impl AuditUsecaseError {
    /// What `from_permission_error` gives for each value.
    pub open spec fn from_permission_error_spec(error: AuditPermissionCheckError) -> Self {
        match error {
            AuditPermissionCheckError::StorageUnavailable => Self::StoreUnavailable,
        }
    }

    /// How this usecase reports each audit permission check failure.
    #[verifier::when_used_as_spec(from_permission_error_spec)]
    pub fn from_permission_error(error: AuditPermissionCheckError) -> (result: Self)
        ensures
            result == Self::from_permission_error_spec(error),
    {
        match error {
            AuditPermissionCheckError::StorageUnavailable => Self::StoreUnavailable,
        }
    }
}

/// How this usecase reports each audit failure.
pub fn map_audit_error(error: AuditError) -> (result: AuditUsecaseError)
    ensures
        result == match error {
            AuditError::EmptyMetadataKey | AuditError::InvalidMetadataKey | AuditError::EmptyMetadataValue | AuditError::InvalidMetadataValue | AuditError::SensitiveMetadataKey | AuditError::SensitiveMetadataValue => AuditUsecaseError::InvalidMetadata,
            AuditError::EmptyEventId | AuditError::InvalidEventId | AuditError::EmptyTargetId | AuditError::InvalidTargetId => AuditUsecaseError::InvalidInput,
        },
{
    match error {
        AuditError::EmptyMetadataKey | AuditError::InvalidMetadataKey | AuditError::EmptyMetadataValue | AuditError::InvalidMetadataValue | AuditError::SensitiveMetadataKey | AuditError::SensitiveMetadataValue => AuditUsecaseError::InvalidMetadata,
        AuditError::EmptyEventId | AuditError::InvalidEventId | AuditError::EmptyTargetId | AuditError::InvalidTargetId => AuditUsecaseError::InvalidInput,
    }
}


impl ListAuditEventsScopeInput {
    /// A copy of the scope.
    pub fn duplicate(&self) -> (result: Self)
        ensures
            result == *self,
    {
        match self {
            ListAuditEventsScopeInput::Workspace => ListAuditEventsScopeInput::Workspace,
            ListAuditEventsScopeInput::Actor { actor_user_id } => ListAuditEventsScopeInput::Actor { actor_user_id: actor_user_id.clone() },
            ListAuditEventsScopeInput::Target { target_type, target_id } => ListAuditEventsScopeInput::Target {
                target_type: target_type.clone(),
                target_id: target_id.clone(),
            },
        }
    }
}

/// A copy of an optional text.
fn duplicate_text(text: &Option<String>) -> (result: Option<String>)
    ensures
        result == *text,
{
    match text {
        Some(t) => Some(t.clone()),
        None => None,
    }
}

/// What a query of the audit log asks for: the request's actor, workspace,
/// scope and page, and the retention the answer reports.
pub struct AuditQueryRun {
    pub actor_user_id: String,
    pub workspace_id: String,
    pub scope: ListAuditEventsScopeInput,
    pub limit: usize,
    pub cursor: Option<String>,
    pub retention_days: u32,
}

impl AuditQueryRun {
    /// The query of a request, answered with this retention.
    pub fn from_input(input: &ListAuditEventsInput, retention_days: u32) -> (result: Self)
        ensures
            (result.actor_user_id@, result.workspace_id@, result.scope@, result.limit, opt_str_view(result.cursor)) == input@,
            result.retention_days == retention_days,
    {
        AuditQueryRun {
            actor_user_id: input.actor_user_id.clone(),
            workspace_id: input.workspace_id.clone(),
            scope: input.scope.duplicate(),
            limit: input.limit,
            cursor: duplicate_text(&input.cursor),
            retention_days,
        }
    }
}

/// A call a query of the audit log makes to the outside world.
#[derive(Debug, Clone, PartialEq, Eq)]
pub enum AuditQueryCall {
    /// Check that the actor may manage the workspace.
    CheckPermission { actor_user_id: String, workspace_id: String },
    /// List the page of audit events of the workspace in the scope, up to
    /// the limit, from the cursor if any.
    ListEvents { workspace_id: String, scope: ListAuditEventsScopeInput, limit: usize, cursor: Option<String> },
}

/// What came back from the last call of an audit query.
#[derive(Debug, Clone, PartialEq, Eq)]
pub enum AuditQueryReply {
    /// The permission was decided: allowed or not.
    Decided(bool),
    PermissionFailed(AuditPermissionCheckError),
    /// The page: the summaries of its events, in order, and the cursor of
    /// the next page if there is one.
    Listed(Vec<AuditEventSummary>, Option<String>),
    StoreFailed(AuditLogStoreError),
}

/// What an audit query writes to the logs when it ends.
#[derive(Debug, Clone, Copy, PartialEq, Eq, Structural)]
pub enum AuditQueryLog {
    /// `audit.query.denied` with the masked actor, the scope and
    /// `AUDIT_UNAUTHORIZED` (see `check_audit_query`).
    Denied,
    /// The field debug event with the scope, whether a cursor was given and
    /// this many results.
    Listed(bool, usize),
}

/// Where an audit query stands: the call whose reply is awaited.
#[derive(Debug, Clone, Copy, PartialEq, Eq, Structural)]
pub enum AuditQueryStep {
    CheckingPermission,
    Listing,
}

/// What an audit query does next.
#[derive(Debug, PartialEq, Eq)]
pub enum AuditQueryAction {
    Call(AuditQueryCall),
    Finish(Option<AuditQueryLog>, Result<ListAuditEventsOutput, AuditUsecaseError>),
}

/// How an audit query starts: a request that could not be parsed ends
/// with its error, else the actor's permission on the workspace is checked.
pub open spec fn audit_query_start(run: AuditQueryRun, parse_error: Option<AuditUsecaseError>) -> (AuditQueryStep, AuditQueryAction) {
    match parse_error {
        Some(error) => (AuditQueryStep::CheckingPermission, AuditQueryAction::Finish(None, Err(error))),
        None => (AuditQueryStep::CheckingPermission, AuditQueryAction::Call(AuditQueryCall::CheckPermission {
            actor_user_id: run.actor_user_id,
            workspace_id: run.workspace_id,
        })),
    }
}

/// One step of an audit query: a failed permission check or listing ends
/// it with the mapped error; a denied permission is logged and refused as
/// unauthorized; an allowed query lists the run's workspace, scope and page,
/// logs whether a cursor was given and how many events came, and returns
/// the events, the next cursor and the run's retention.
pub open spec fn audit_query_transition(run: AuditQueryRun, step: AuditQueryStep, reply: AuditQueryReply) -> (AuditQueryStep, AuditQueryAction) {
    match reply {
        AuditQueryReply::PermissionFailed(error) => (step, AuditQueryAction::Finish(None, Err(AuditUsecaseError::from_permission_error(error)))),
        AuditQueryReply::StoreFailed(error) => (step, AuditQueryAction::Finish(None, Err(AuditUsecaseError::from_store_error(error)))),
        AuditQueryReply::Decided(allowed) => if allowed {
            (AuditQueryStep::Listing, AuditQueryAction::Call(AuditQueryCall::ListEvents {
                workspace_id: run.workspace_id,
                scope: run.scope,
                limit: run.limit,
                cursor: run.cursor,
            }))
        } else {
            (step, AuditQueryAction::Finish(Some(AuditQueryLog::Denied), Err(AuditUsecaseError::Unauthorized)))
        },
        AuditQueryReply::Listed(events, next_cursor) => (step, AuditQueryAction::Finish(
            Some(AuditQueryLog::Listed(run.cursor is Some, events.len())),
            Ok(ListAuditEventsOutput::listed(events, next_cursor, run.retention_days)),
        )),
    }
}

/// Which replies answer the call an audit query awaits at a step.
pub open spec fn audit_query_reply_fits(step: AuditQueryStep, reply: AuditQueryReply) -> bool {
    &&& (reply is Decided || reply is PermissionFailed) ==> step == AuditQueryStep::CheckingPermission
    &&& (reply is Listed || reply is StoreFailed) ==> step == AuditQueryStep::Listing
}

/// Starts an audit query, as `audit_query_start` describes.
pub fn audit_query_begin(run: &AuditQueryRun, parse_error: Option<AuditUsecaseError>) -> (result: (AuditQueryStep, AuditQueryAction))
    ensures
        result == audit_query_start(*run, parse_error),
{
    match parse_error {
        Some(error) => (AuditQueryStep::CheckingPermission, AuditQueryAction::Finish(None, Err(error))),
        None => (AuditQueryStep::CheckingPermission, AuditQueryAction::Call(AuditQueryCall::CheckPermission {
            actor_user_id: run.actor_user_id.clone(),
            workspace_id: run.workspace_id.clone(),
        })),
    }
}

/// Takes the reply to the last call of an audit query and says what comes
/// next, as `audit_query_transition` describes.
pub fn audit_query_next(run: &AuditQueryRun, step: AuditQueryStep, reply: AuditQueryReply) -> (result: (AuditQueryStep, AuditQueryAction))
    requires
        audit_query_reply_fits(step, reply),
    ensures
        result == audit_query_transition(*run, step, reply),
{
    match reply {
        AuditQueryReply::PermissionFailed(error) => (step, AuditQueryAction::Finish(None, Err(AuditUsecaseError::from_permission_error(error)))),
        AuditQueryReply::StoreFailed(error) => (step, AuditQueryAction::Finish(None, Err(AuditUsecaseError::from_store_error(error)))),
        AuditQueryReply::Decided(allowed) => if allowed {
            (AuditQueryStep::Listing, AuditQueryAction::Call(AuditQueryCall::ListEvents {
                workspace_id: run.workspace_id.clone(),
                scope: run.scope.duplicate(),
                limit: run.limit,
                cursor: duplicate_text(&run.cursor),
            }))
        } else {
            (step, AuditQueryAction::Finish(Some(AuditQueryLog::Denied), Err(AuditUsecaseError::Unauthorized)))
        },
        AuditQueryReply::Listed(events, next_cursor) => {
            let count = events.len();
            (step, AuditQueryAction::Finish(
                Some(AuditQueryLog::Listed(run.cursor.is_some(), count)),
                Ok(ListAuditEventsOutput::new(events, next_cursor, run.retention_days)),
            ))
        },
    }
}

/// Whether the reply can answer the call of the step, as
/// `audit_query_reply_fits` says; a runner checks this before it hands the
/// reply on.
pub fn check_audit_query_reply(step: AuditQueryStep, reply: &AuditQueryReply) -> (result: bool)
    ensures
        result == audit_query_reply_fits(step, *reply),
{
    match reply {
        AuditQueryReply::Decided(_) | AuditQueryReply::PermissionFailed(_) => step == AuditQueryStep::CheckingPermission,
        _ => step == AuditQueryStep::Listing,
    }
}


/// What recording an audit event comes to, from whether the store appended
/// it (or failed with an error and the error's code): the output naming the
/// event and the retention, or the mapped error and a logged failure that
/// names the masked actor, the action, the target type and the code.
pub fn record_audit_outcome(
    event_id: &str,
    actor_user_id: &str,
    action: &'static str,
    target_type: &'static str,
    appended: Result<(), (AuditLogStoreError, &'static str)>,
    retention_days: u32,
) -> (result: (Option<AuditProductEvent>, Result<RecordAuditEventOutput, AuditUsecaseError>))
    requires
        actor_user_id.len() > 4 ==> vstd::utf8::is_char_boundary(actor_user_id.spec_bytes(), actor_user_id.len() - 4),
    ensures
        appended is Ok ==> result.0 is None && (result.1 matches Ok(output)
            && output@ == (RecordAuditEventStatus::Recorded, event_id@, retention_days)),
        appended matches Err((error, code)) ==> {
            &&& result.1 == Err::<RecordAuditEventOutput, AuditUsecaseError>(AuditUsecaseError::from_store_error(error))
            &&& result.0 matches Some(AuditProductEvent::StoreFailed { masked_actor_id, action: a, target_type: t, error_code })
            &&& masked_actor_id@ == masked_id(actor_user_id)
            &&& a == action && t == target_type && error_code == code
        },
{
    match appended {
        Ok(()) => (None, Ok(RecordAuditEventOutput::new(RecordAuditEventStatus::Recorded, event_id, retention_days))),
        Err((error, code)) => (
            Some(AuditProductEvent::StoreFailed { masked_actor_id: mask_id(actor_user_id), action, target_type, error_code: code }),
            Err(AuditUsecaseError::from_store_error(error)),
        ),
    }
}

} // verus!
