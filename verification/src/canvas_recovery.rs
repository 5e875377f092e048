use vstd::prelude::*;
use crate::collaborator_errors::CanvasRecoveryRepositoryError;
use crate::text::{opt_sstr_view, opt_str_view, opt_to_string, opt_ref_view, pairs_view, strings_view};

verus! {
#[derive(Debug, Clone, PartialEq, Eq)]
pub struct RecoverCanvasInput {
    workspace_id: String,
    canvas_id: String,
}

impl View for RecoverCanvasInput {
    type V = (Seq<char>, Seq<char>);

    closed spec fn view(&self) -> (Seq<char>, Seq<char>) {
        (self.workspace_id@, self.canvas_id@)
    }
}

impl RecoverCanvasInput {
    pub fn new(workspace_id: &str, canvas_id: &str) -> (result: Self)
        ensures
            result@ == (workspace_id@, canvas_id@),
    {
        Self {
            workspace_id: workspace_id.to_string(),
            canvas_id: canvas_id.to_string(),
        }
    }

}

#[derive(Debug, Clone, PartialEq, Eq)]
pub struct CanvasRecoveryEvent {
    event_name: &'static str,
    canvas_id: String,
    revision: Option<u64>,
    error_code: Option<&'static str>,
}

impl View for CanvasRecoveryEvent {
    type V = (Seq<char>, Seq<char>, Option<u64>, Option<Seq<char>>);

    closed spec fn view(&self) -> (Seq<char>, Seq<char>, Option<u64>, Option<Seq<char>>) {
        (self.event_name@, self.canvas_id@, self.revision, opt_sstr_view(self.error_code))
    }
}

impl CanvasRecoveryEvent {
    pub fn event_name(&self) -> (result: &'static str)
        ensures
            result@ == self@.0,
    {
        self.event_name
    }

    pub fn canvas_id(&self) -> (result: &str)
        ensures
            result@ == self@.1,
    {
        self.canvas_id.as_str()
    }

    pub fn revision(&self) -> (result: Option<u64>)
        ensures
            result == self@.2,
    {
        self.revision
    }

    pub fn error_code(&self) -> (result: Option<&'static str>)
        ensures
            opt_sstr_view(result) == self@.3,
    {
        self.error_code
    }

}

pub trait CanvasRecoveryLogger {
    fn write_product(&mut self, event: CanvasRecoveryEvent);
}

#[derive(Debug, Clone, Copy, PartialEq, Eq, Structural)]
pub enum CanvasRecoveryError {
    InvalidInput,
    NoValidRevision,
    StorageUnavailable,
    CorruptedCatalog,
    CandidateLimitExceeded,
}

impl CanvasRecoveryError {
    pub fn code(self) -> (result: &'static str)
        ensures
            result@ == match self {
                Self::InvalidInput => "CANVAS_RECOVERY_INVALID_INPUT"@,
                Self::NoValidRevision => "CANVAS_RECOVERY_NO_VALID_REVISION"@,
                Self::StorageUnavailable => "CANVAS_RECOVERY_STORAGE_UNAVAILABLE"@,
                Self::CorruptedCatalog => "CANVAS_RECOVERY_CATALOG_CORRUPTED"@,
                Self::CandidateLimitExceeded => "CANVAS_RECOVERY_CANDIDATE_LIMIT_EXCEEDED"@,
            },
    {
        match self {
            Self::InvalidInput => "CANVAS_RECOVERY_INVALID_INPUT",
            Self::NoValidRevision => "CANVAS_RECOVERY_NO_VALID_REVISION",
            Self::StorageUnavailable => "CANVAS_RECOVERY_STORAGE_UNAVAILABLE",
            Self::CorruptedCatalog => "CANVAS_RECOVERY_CATALOG_CORRUPTED",
            Self::CandidateLimitExceeded => "CANVAS_RECOVERY_CANDIDATE_LIMIT_EXCEEDED",
        }
    }
}

#[derive(Debug, Clone, Copy)]
pub struct RecoverCanvasUsecase {
    candidate_limit: usize,
}

impl View for RecoverCanvasUsecase {
    type V = usize;

    closed spec fn view(&self) -> usize {
        self.candidate_limit
    }
}

impl RecoverCanvasUsecase {
    pub fn new(candidate_limit: usize) -> (result: Result<Self, CanvasRecoveryError>)
        ensures
            candidate_limit == 0 ==> result == Err::<Self, CanvasRecoveryError>(CanvasRecoveryError::InvalidInput),
            candidate_limit != 0 ==> result is Ok && result->Ok_0@ == candidate_limit,
    {
        if candidate_limit == 0 {
            return Err(CanvasRecoveryError::InvalidInput);
        }
        Ok(Self { candidate_limit })
    }
}

/// How this usecase reports each canvas recovery repository failure.
pub fn map_repository(error: CanvasRecoveryRepositoryError) -> (result: CanvasRecoveryError)
    ensures
        result == match error {
            CanvasRecoveryRepositoryError::InvalidInput => CanvasRecoveryError::InvalidInput,
            CanvasRecoveryRepositoryError::StorageUnavailable => CanvasRecoveryError::StorageUnavailable,
            CanvasRecoveryRepositoryError::CorruptedCatalog => CanvasRecoveryError::CorruptedCatalog,
            CanvasRecoveryRepositoryError::CandidateLimitExceeded => CanvasRecoveryError::CandidateLimitExceeded,
            CanvasRecoveryRepositoryError::RevisionNotFound => CanvasRecoveryError::NoValidRevision,
        },
{
    match error {
        CanvasRecoveryRepositoryError::InvalidInput => CanvasRecoveryError::InvalidInput,
        CanvasRecoveryRepositoryError::StorageUnavailable => CanvasRecoveryError::StorageUnavailable,
        CanvasRecoveryRepositoryError::CorruptedCatalog => CanvasRecoveryError::CorruptedCatalog,
        CanvasRecoveryRepositoryError::CandidateLimitExceeded => CanvasRecoveryError::CandidateLimitExceeded,
        CanvasRecoveryRepositoryError::RevisionNotFound => CanvasRecoveryError::NoValidRevision,
    }
}

} // verus!
