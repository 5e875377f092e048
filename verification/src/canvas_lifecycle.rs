use vstd::prelude::*;
use crate::collaborator_errors::CanvasRepositoryError;
use crate::text::{opt_sstr_view, opt_str_view, opt_to_string, opt_ref_view, pairs_view, strings_view};

verus! {
#[derive(Debug, Clone, PartialEq, Eq)]
pub struct CreateCanvasRecordInput {
    workspace: String,
    canvas: String,
    title: String,
}

impl View for CreateCanvasRecordInput {
    type V = (Seq<char>, Seq<char>, Seq<char>);

    closed spec fn view(&self) -> (Seq<char>, Seq<char>, Seq<char>) {
        (self.workspace@, self.canvas@, self.title@)
    }
}

impl CreateCanvasRecordInput {
    pub fn new(workspace: &str, canvas: &str, title: &str) -> (result: Self)
        ensures
            result@ == (workspace@, canvas@, title@),
    {
        Self {
            workspace: workspace.to_string(),
            canvas: canvas.to_string(),
            title: title.to_string(),
        }
    }

}

#[derive(Debug, Clone, PartialEq, Eq)]
pub struct GetCanvasRecordInput {
    workspace: String,
    canvas: String,
}

impl View for GetCanvasRecordInput {
    type V = (Seq<char>, Seq<char>);

    closed spec fn view(&self) -> (Seq<char>, Seq<char>) {
        (self.workspace@, self.canvas@)
    }
}

impl GetCanvasRecordInput {
    pub fn new(workspace: &str, canvas: &str) -> (result: Self)
        ensures
            result@ == (workspace@, canvas@),
    {
        Self {
            workspace: workspace.to_string(),
            canvas: canvas.to_string(),
        }
    }

}

#[derive(Debug, Clone, PartialEq, Eq)]
pub struct RenameCanvasInput {
    workspace: String,
    canvas: String,
    expected_revision: u64,
    title: String,
}

impl View for RenameCanvasInput {
    type V = (Seq<char>, Seq<char>, u64, Seq<char>);

    closed spec fn view(&self) -> (Seq<char>, Seq<char>, u64, Seq<char>) {
        (self.workspace@, self.canvas@, self.expected_revision, self.title@)
    }
}

impl RenameCanvasInput {
    pub fn new(workspace: &str, canvas: &str, expected_revision: u64, title: &str) -> (result: Self)
        ensures
            result@ == (workspace@, canvas@, expected_revision, title@),
    {
        Self {
            workspace: workspace.to_string(),
            canvas: canvas.to_string(),
            expected_revision: expected_revision,
            title: title.to_string(),
        }
    }

}

#[derive(Debug, Clone, PartialEq, Eq)]
pub struct ArchiveCanvasInput {
    workspace: String,
    canvas: String,
    expected_revision: u64,
}

impl View for ArchiveCanvasInput {
    type V = (Seq<char>, Seq<char>, u64);

    closed spec fn view(&self) -> (Seq<char>, Seq<char>, u64) {
        (self.workspace@, self.canvas@, self.expected_revision)
    }
}

impl ArchiveCanvasInput {
    pub fn new(workspace: &str, canvas: &str, expected_revision: u64) -> (result: Self)
        ensures
            result@ == (workspace@, canvas@, expected_revision),
    {
        Self {
            workspace: workspace.to_string(),
            canvas: canvas.to_string(),
            expected_revision: expected_revision,
        }
    }

}

#[derive(Debug, Clone, PartialEq, Eq)]
pub enum CanvasLifecycleProductEvent {
    Created { canvas_id: String, revision: u64 },
    Renamed { canvas_id: String, revision: u64 },
    Archived { canvas_id: String, revision: u64 },
}

pub trait CanvasLifecycleProductLogger {
    fn write_product(&mut self, event: CanvasLifecycleProductEvent);
}

#[derive(Debug, Clone, Copy, PartialEq, Eq, Structural)]
pub struct CreateCanvasRecordUsecase;

impl CreateCanvasRecordUsecase {
    pub fn new() -> (result: Self)
        ensures
            result == (CreateCanvasRecordUsecase),
    {
        CreateCanvasRecordUsecase
    }
}

#[derive(Debug, Clone, Copy, PartialEq, Eq, Structural)]
pub struct GetCanvasRecordUsecase;

impl GetCanvasRecordUsecase {
    pub fn new() -> (result: Self)
        ensures
            result == (GetCanvasRecordUsecase),
    {
        GetCanvasRecordUsecase
    }
}

#[derive(Debug, Clone, Copy, PartialEq, Eq, Structural)]
pub struct RenameCanvasUsecase;

impl RenameCanvasUsecase {
    pub fn new() -> (result: Self)
        ensures
            result == (RenameCanvasUsecase),
    {
        RenameCanvasUsecase
    }
}

#[derive(Debug, Clone, Copy, PartialEq, Eq, Structural)]
pub struct ArchiveCanvasUsecase;

impl ArchiveCanvasUsecase {
    pub fn new() -> (result: Self)
        ensures
            result == (ArchiveCanvasUsecase),
    {
        ArchiveCanvasUsecase
    }
}

#[derive(Debug, Clone, Copy, PartialEq, Eq, Structural)]
pub enum CanvasLifecycleUsecaseError {
    InvalidInput,
    NotFound,
    AlreadyExists,
    VersionConflict,
    InvalidState,
    StorageUnavailable,
    RecoveryRequired,
}

impl CanvasLifecycleUsecaseError {
    pub fn code(self) -> (result: &'static str)
        ensures
            result@ == match self {
                Self::InvalidInput => "CANVAS_INVALID_INPUT"@,
                Self::NotFound => "CANVAS_NOT_FOUND"@,
                Self::AlreadyExists => "CANVAS_ALREADY_EXISTS"@,
                Self::VersionConflict => "CANVAS_VERSION_CONFLICT"@,
                Self::InvalidState => "CANVAS_INVALID_STATE"@,
                Self::StorageUnavailable => "CANVAS_STORAGE_UNAVAILABLE"@,
                Self::RecoveryRequired => "CANVAS_RECOVERY_REQUIRED"@,
            },
    {
        match self {
            Self::InvalidInput => "CANVAS_INVALID_INPUT",
            Self::NotFound => "CANVAS_NOT_FOUND",
            Self::AlreadyExists => "CANVAS_ALREADY_EXISTS",
            Self::VersionConflict => "CANVAS_VERSION_CONFLICT",
            Self::InvalidState => "CANVAS_INVALID_STATE",
            Self::StorageUnavailable => "CANVAS_STORAGE_UNAVAILABLE",
            Self::RecoveryRequired => "CANVAS_RECOVERY_REQUIRED",
        }
    }
}

/// How this usecase reports each canvas repository failure.
pub fn map_repository(error: CanvasRepositoryError) -> (result: CanvasLifecycleUsecaseError)
    ensures
        result == match error {
            CanvasRepositoryError::InvalidInput => CanvasLifecycleUsecaseError::InvalidInput,
            CanvasRepositoryError::StorageUnavailable => CanvasLifecycleUsecaseError::StorageUnavailable,
            CanvasRepositoryError::CorruptedCanvas | CanvasRepositoryError::UnsupportedSchema => CanvasLifecycleUsecaseError::RecoveryRequired,
            CanvasRepositoryError::AlreadyExists => CanvasLifecycleUsecaseError::AlreadyExists,
            CanvasRepositoryError::VersionConflict => CanvasLifecycleUsecaseError::VersionConflict,
        },
{
    match error {
        CanvasRepositoryError::InvalidInput => CanvasLifecycleUsecaseError::InvalidInput,
        CanvasRepositoryError::StorageUnavailable => CanvasLifecycleUsecaseError::StorageUnavailable,
        CanvasRepositoryError::CorruptedCanvas | CanvasRepositoryError::UnsupportedSchema => CanvasLifecycleUsecaseError::RecoveryRequired,
        CanvasRepositoryError::AlreadyExists => CanvasLifecycleUsecaseError::AlreadyExists,
        CanvasRepositoryError::VersionConflict => CanvasLifecycleUsecaseError::VersionConflict,
    }
}

} // verus!
