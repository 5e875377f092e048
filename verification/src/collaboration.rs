use vstd::prelude::*;
use crate::collaborator_errors::{CollaborationEventLogError, CollaborationSessionStoreError, PermissionAwareQueryError};
use crate::text::{opt_sstr_view, opt_str_view, opt_to_string, opt_ref_view, pairs_view, strings_view};

verus! {
pub struct StartEditSessionUsecase;

impl StartEditSessionUsecase {
    pub fn new() -> (result: Self)
        ensures
            result == (StartEditSessionUsecase),
    {
        StartEditSessionUsecase
    }
}

impl Default for StartEditSessionUsecase {
    fn default() -> (result: Self)
        ensures
            result == (StartEditSessionUsecase),
    {
        Self::new()
    }
}

pub struct ApplyCollaborativeEditUsecase;

impl ApplyCollaborativeEditUsecase {
    pub fn new() -> (result: Self)
        ensures
            result == (ApplyCollaborativeEditUsecase),
    {
        ApplyCollaborativeEditUsecase
    }
}

impl Default for ApplyCollaborativeEditUsecase {
    fn default() -> (result: Self)
        ensures
            result == (ApplyCollaborativeEditUsecase),
    {
        Self::new()
    }
}

pub struct UpdatePresenceUsecase;

impl UpdatePresenceUsecase {
    pub fn new() -> (result: Self)
        ensures
            result == (UpdatePresenceUsecase),
    {
        UpdatePresenceUsecase
    }
}

impl Default for UpdatePresenceUsecase {
    fn default() -> (result: Self)
        ensures
            result == (UpdatePresenceUsecase),
    {
        Self::new()
    }
}

#[derive(Debug, Clone, PartialEq, Eq)]
pub struct StartEditSessionInput {
    workspace_id: String,
    document_id: String,
    actor_user_id: String,
    session_id: String,
}

impl View for StartEditSessionInput {
    type V = (Seq<char>, Seq<char>, Seq<char>, Seq<char>);

    closed spec fn view(&self) -> (Seq<char>, Seq<char>, Seq<char>, Seq<char>) {
        (self.workspace_id@, self.document_id@, self.actor_user_id@, self.session_id@)
    }
}

impl StartEditSessionInput {
    pub fn new(workspace_id: &str, document_id: &str, actor_user_id: &str, session_id: &str) -> (result: Self)
        ensures
            result@ == (workspace_id@, document_id@, actor_user_id@, session_id@),
    {
        Self {
            workspace_id: workspace_id.to_string(),
            document_id: document_id.to_string(),
            actor_user_id: actor_user_id.to_string(),
            session_id: session_id.to_string(),
        }
    }

}

#[derive(Debug, Clone, PartialEq, Eq)]
pub struct ApplyCollaborativeEditInput {
    workspace_id: String,
    document_id: String,
    actor_user_id: String,
    operation_id: String,
    base_revision: u64,
    current_revision: u64,
    start_offset: usize,
    end_offset: usize,
    inserted_text: String,
}

impl View for ApplyCollaborativeEditInput {
    type V = (Seq<char>, Seq<char>, Seq<char>, Seq<char>, u64, u64, usize, usize, Seq<char>);

    closed spec fn view(&self) -> (Seq<char>, Seq<char>, Seq<char>, Seq<char>, u64, u64, usize, usize, Seq<char>) {
        (self.workspace_id@, self.document_id@, self.actor_user_id@, self.operation_id@, self.base_revision, self.current_revision, self.start_offset, self.end_offset, self.inserted_text@)
    }
}

impl ApplyCollaborativeEditInput {
    pub fn replace_text(workspace_id: &str, document_id: &str, actor_user_id: &str, operation_id: &str, base_revision: u64, current_revision: u64, start_offset: usize, end_offset: usize, inserted_text: &str) -> (result: Self)
        ensures
            result@ == (workspace_id@, document_id@, actor_user_id@, operation_id@, base_revision, current_revision, start_offset, end_offset, inserted_text@),
    {
        Self {
            workspace_id: workspace_id.to_string(),
            document_id: document_id.to_string(),
            actor_user_id: actor_user_id.to_string(),
            operation_id: operation_id.to_string(),
            base_revision: base_revision,
            current_revision: current_revision,
            start_offset: start_offset,
            end_offset: end_offset,
            inserted_text: inserted_text.to_string(),
        }
    }

}

#[derive(Debug, Clone, PartialEq, Eq)]
pub struct UpdatePresenceInput {
    workspace_id: String,
    document_id: String,
    actor_user_id: String,
    cursor_start: usize,
    cursor_end: usize,
}

impl View for UpdatePresenceInput {
    type V = (Seq<char>, Seq<char>, Seq<char>, usize, usize);

    closed spec fn view(&self) -> (Seq<char>, Seq<char>, Seq<char>, usize, usize) {
        (self.workspace_id@, self.document_id@, self.actor_user_id@, self.cursor_start, self.cursor_end)
    }
}

impl UpdatePresenceInput {
    pub fn new(workspace_id: &str, document_id: &str, actor_user_id: &str, cursor_start: usize, cursor_end: usize) -> (result: Self)
        ensures
            result@ == (workspace_id@, document_id@, actor_user_id@, cursor_start, cursor_end),
    {
        Self {
            workspace_id: workspace_id.to_string(),
            document_id: document_id.to_string(),
            actor_user_id: actor_user_id.to_string(),
            cursor_start: cursor_start,
            cursor_end: cursor_end,
        }
    }

}

#[derive(Debug, Clone, Copy, PartialEq, Eq, Structural)]
pub enum ApplyCollaborativeEditStatus {
    Accepted,
    ConflictDetected,
}

#[derive(Debug, Clone, PartialEq, Eq)]
pub struct UpdatePresenceOutput {
    presence_count: usize,
}

impl View for UpdatePresenceOutput {
    type V = usize;

    closed spec fn view(&self) -> usize {
        self.presence_count
    }
}

impl UpdatePresenceOutput {
    /// The answer that counts the presences after the update.
    pub fn new(presence_count: usize) -> (result: Self)
        ensures
            result@ == presence_count,
    {
        UpdatePresenceOutput { presence_count }
    }

    pub fn presence_count(&self) -> (result: usize)
        ensures
            result == self@,
    {
        self.presence_count
    }

}

#[derive(Debug, Clone, Copy, PartialEq, Eq, Structural)]
pub enum CollaborationUsecaseError {
    InvalidInput,
    PermissionDenied,
    PermissionUnavailable,
    SessionStoreUnavailable,
    EventLogUnavailable,
}

impl CollaborationUsecaseError {
    pub fn code(self) -> (result: &'static str)
        ensures
            result@ == match self {
                Self::InvalidInput => "collaboration.invalid_input"@,
                Self::PermissionDenied => "collaboration.permission_denied"@,
                Self::PermissionUnavailable => "collaboration.permission_unavailable"@,
                Self::SessionStoreUnavailable => "collaboration.session_store_unavailable"@,
                Self::EventLogUnavailable => "collaboration.event_log_unavailable"@,
            },
    {
        match self {
            Self::InvalidInput => "collaboration.invalid_input",
            Self::PermissionDenied => "collaboration.permission_denied",
            Self::PermissionUnavailable => "collaboration.permission_unavailable",
            Self::SessionStoreUnavailable => "collaboration.session_store_unavailable",
            Self::EventLogUnavailable => "collaboration.event_log_unavailable",
        }
    }
}

impl CollaborationUsecaseError {
    /// How this usecase reports each collaboration session store failure.
    pub fn from_session_store(error: CollaborationSessionStoreError) -> (result: Self)
        ensures
            result == match error {
                CollaborationSessionStoreError::InvalidInput => Self::InvalidInput,
                CollaborationSessionStoreError::NotFound | CollaborationSessionStoreError::Conflict | CollaborationSessionStoreError::StorageUnavailable => Self::SessionStoreUnavailable,
            },
    {
        match error {
            CollaborationSessionStoreError::InvalidInput => Self::InvalidInput,
            CollaborationSessionStoreError::NotFound | CollaborationSessionStoreError::Conflict | CollaborationSessionStoreError::StorageUnavailable => Self::SessionStoreUnavailable,
        }
    }
}

impl CollaborationUsecaseError {
    /// How this usecase reports each collaboration event log failure.
    pub fn from_event_log(error: CollaborationEventLogError) -> (result: Self)
        ensures
            result == match error {
                CollaborationEventLogError::InvalidInput => Self::InvalidInput,
                CollaborationEventLogError::Conflict | CollaborationEventLogError::StorageUnavailable => Self::EventLogUnavailable,
            },
    {
        match error {
            CollaborationEventLogError::InvalidInput => Self::InvalidInput,
            CollaborationEventLogError::Conflict | CollaborationEventLogError::StorageUnavailable => Self::EventLogUnavailable,
        }
    }
}

impl CollaborationUsecaseError {
    /// How this usecase reports each permission aware query failure.
    pub fn from_permission_error(error: PermissionAwareQueryError) -> (result: Self)
        ensures
            result == match error {
                PermissionAwareQueryError::InvalidInput => Self::InvalidInput,
                PermissionAwareQueryError::NotFound | PermissionAwareQueryError::IndexStale | PermissionAwareQueryError::StorageUnavailable | PermissionAwareQueryError::CorruptedProjection => Self::PermissionUnavailable,
            },
    {
        match error {
            PermissionAwareQueryError::InvalidInput => Self::InvalidInput,
            PermissionAwareQueryError::NotFound | PermissionAwareQueryError::IndexStale | PermissionAwareQueryError::StorageUnavailable | PermissionAwareQueryError::CorruptedProjection => Self::PermissionUnavailable,
        }
    }
}

} // verus!
