use vstd::prelude::*;
use crate::collaborator_errors::{AssetMetadataCatalogError, DocumentTitleReaderError};
use crate::text::{opt_sstr_view, opt_str_view, opt_to_string, opt_ref_view, pairs_view, strings_view};

verus! {
#[derive(Debug, Clone, Copy, PartialEq, Eq, Structural)]
pub enum CanvasTargetStatus {
    Available,
    Missing,
}

impl CanvasTargetStatus {
    pub fn as_str(self) -> (result: &'static str)
        ensures
            result@ == match self {
                Self::Available => "available"@,
                Self::Missing => "missing"@,
            },
    {
        match self {
            Self::Available => "available",
            Self::Missing => "missing",
        }
    }
}

#[derive(Debug, Clone, PartialEq, Eq)]
pub struct CanvasTargetPresentation {
    node_id: String,
    target_id: String,
    display_label: String,
    status: CanvasTargetStatus,
}

impl View for CanvasTargetPresentation {
    type V = (Seq<char>, Seq<char>, Seq<char>, CanvasTargetStatus);

    closed spec fn view(&self) -> (Seq<char>, Seq<char>, Seq<char>, CanvasTargetStatus) {
        (self.node_id@, self.target_id@, self.display_label@, self.status)
    }
}

impl CanvasTargetPresentation {
    pub fn node_id(&self) -> (result: &str)
        ensures
            result@ == self@.0,
    {
        self.node_id.as_str()
    }

    pub fn target_id(&self) -> (result: &str)
        ensures
            result@ == self@.1,
    {
        self.target_id.as_str()
    }

    pub fn display_label(&self) -> (result: &str)
        ensures
            result@ == self@.2,
    {
        self.display_label.as_str()
    }

    pub fn status(&self) -> (result: CanvasTargetStatus)
        ensures
            result == self@.3,
    {
        self.status
    }

}

#[derive(Debug, Clone, PartialEq, Eq)]
pub struct ResolveCanvasTargetPresentationsOutput {
    presentations: Vec<CanvasTargetPresentation>,
}

impl View for ResolveCanvasTargetPresentationsOutput {
    type V = Seq<<CanvasTargetPresentation as View>::V>;

    closed spec fn view(&self) -> Seq<<CanvasTargetPresentation as View>::V> {
        self.presentations@.map_values(|x: CanvasTargetPresentation| x@)
    }
}

impl ResolveCanvasTargetPresentationsOutput {
    /// The answer that holds these presentations, in order.
    pub fn new(presentations: Vec<CanvasTargetPresentation>) -> (result: Self)
        ensures
            result@ == presentations@.map_values(|x: CanvasTargetPresentation| x@),
    {
        ResolveCanvasTargetPresentationsOutput { presentations }
    }

    pub fn presentations(&self) -> (result: &[CanvasTargetPresentation])
        ensures
            result@.map_values(|x: CanvasTargetPresentation| x@) == self@,
    {
        self.presentations.as_slice()
    }

}

#[derive(Debug, Clone, Copy, PartialEq, Eq, Structural)]
pub struct ResolveCanvasTargetPresentationsUsecase;

impl ResolveCanvasTargetPresentationsUsecase {
    pub fn new() -> (result: Self)
        ensures
            result == (ResolveCanvasTargetPresentationsUsecase),
    {
        ResolveCanvasTargetPresentationsUsecase
    }
}

#[derive(Debug, Clone, Copy, PartialEq, Eq, Structural)]
pub enum ResolveCanvasTargetPresentationsError {
    InvalidInput,
    StorageUnavailable,
    RecoveryRequired,
}

impl ResolveCanvasTargetPresentationsError {
    pub fn code(self) -> (result: &'static str)
        ensures
            result@ == match self {
                Self::InvalidInput => "CANVAS_TARGET_INVALID_INPUT"@,
                Self::StorageUnavailable => "CANVAS_TARGET_STORAGE_UNAVAILABLE"@,
                Self::RecoveryRequired => "CANVAS_TARGET_RECOVERY_REQUIRED"@,
            },
    {
        match self {
            Self::InvalidInput => "CANVAS_TARGET_INVALID_INPUT",
            Self::StorageUnavailable => "CANVAS_TARGET_STORAGE_UNAVAILABLE",
            Self::RecoveryRequired => "CANVAS_TARGET_RECOVERY_REQUIRED",
        }
    }
}

/// How this usecase reports each document title reader failure.
pub fn map_document(error: DocumentTitleReaderError) -> (result: ResolveCanvasTargetPresentationsError)
    ensures
        result == match error {
            DocumentTitleReaderError::StorageUnavailable => ResolveCanvasTargetPresentationsError::StorageUnavailable,
            DocumentTitleReaderError::CorruptedMetadata => ResolveCanvasTargetPresentationsError::RecoveryRequired,
        },
{
    match error {
        DocumentTitleReaderError::StorageUnavailable => ResolveCanvasTargetPresentationsError::StorageUnavailable,
        DocumentTitleReaderError::CorruptedMetadata => ResolveCanvasTargetPresentationsError::RecoveryRequired,
    }
}


/// An asset metadata failure while resolving presentations: unavailable
/// storage stays unavailable, any other failure needs recovery.
pub fn map_asset(error: AssetMetadataCatalogError) -> (result: ResolveCanvasTargetPresentationsError)
    ensures
        result == (if error == AssetMetadataCatalogError::StorageUnavailable {
            ResolveCanvasTargetPresentationsError::StorageUnavailable
        } else {
            ResolveCanvasTargetPresentationsError::RecoveryRequired
        }),
{
    match error {
        AssetMetadataCatalogError::StorageUnavailable => ResolveCanvasTargetPresentationsError::StorageUnavailable,
        _ => ResolveCanvasTargetPresentationsError::RecoveryRequired,
    }
}

} // verus!
