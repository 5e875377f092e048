use vstd::prelude::*;
use crate::collaborator_errors::CanvasViewportQueryError;
use crate::text::{opt_sstr_view, opt_str_view, opt_to_string, opt_ref_view, pairs_view, strings_view};

verus! {
#[derive(Debug, Clone, PartialEq, Eq)]
pub struct GetCanvasViewportInput {
    workspace_id: String,
    canvas_id: String,
    center_x: Option<i32>,
    center_y: Option<i32>,
    zoom_percent: Option<u16>,
    surface_width: u32,
    surface_height: u32,
    overscan: u32,
    node_limit: usize,
    edge_limit: usize,
}

impl View for GetCanvasViewportInput {
    type V = (Seq<char>, Seq<char>, Option<i32>, Option<i32>, Option<u16>, u32, u32, u32, usize, usize);

    closed spec fn view(&self) -> (Seq<char>, Seq<char>, Option<i32>, Option<i32>, Option<u16>, u32, u32, u32, usize, usize) {
        (self.workspace_id@, self.canvas_id@, self.center_x, self.center_y, self.zoom_percent, self.surface_width, self.surface_height, self.overscan, self.node_limit, self.edge_limit)
    }
}

impl GetCanvasViewportInput {
    pub fn new(workspace_id: &str, canvas_id: &str, center_x: Option<i32>, center_y: Option<i32>, zoom_percent: Option<u16>, surface_width: u32, surface_height: u32, overscan: u32, node_limit: usize, edge_limit: usize) -> (result: Self)
        ensures
            result@ == (workspace_id@, canvas_id@, center_x, center_y, zoom_percent, surface_width, surface_height, overscan, node_limit, edge_limit),
    {
        Self {
            workspace_id: workspace_id.to_string(),
            canvas_id: canvas_id.to_string(),
            center_x: center_x,
            center_y: center_y,
            zoom_percent: zoom_percent,
            surface_width: surface_width,
            surface_height: surface_height,
            overscan: overscan,
            node_limit: node_limit,
            edge_limit: edge_limit,
        }
    }

}

/// The shape a viewport request must have: a non-empty surface, between 1
/// and 250 nodes and between 1 and 500 edges, and a centre and a zoom that
/// are given together or not at all.
pub open spec fn viewport_request_shape_ok(
    center_x: Option<i32>,
    center_y: Option<i32>,
    zoom_percent: Option<u16>,
    surface_width: u32,
    surface_height: u32,
    node_limit: usize,
    edge_limit: usize,
) -> bool {
    &&& surface_width != 0
    &&& surface_height != 0
    &&& 1 <= node_limit <= 250
    &&& 1 <= edge_limit <= 500
    &&& (center_x is Some) == (center_y is Some)
    &&& (center_x is Some) == (zoom_percent is Some)
}

impl GetCanvasViewportInput {
    /// Whether the request has the shape a viewport query needs; one that
    /// has not is refused as invalid input before anything is read.
    pub fn has_valid_shape(&self) -> (result: bool)
        ensures
            result == viewport_request_shape_ok(
                self@.2,
                self@.3,
                self@.4,
                self@.5,
                self@.6,
                self@.8,
                self@.9,
            ),
    {
        !(self.surface_width == 0 || self.surface_height == 0 || self.node_limit == 0 || self.node_limit > 250
            || self.edge_limit == 0 || self.edge_limit > 500 || self.center_x.is_some() != self.center_y.is_some()
            || self.center_x.is_some() != self.zoom_percent.is_some())
    }
}

#[derive(Debug, Clone, Copy, PartialEq, Eq, Structural)]
pub struct GetCanvasViewportUsecase;

impl GetCanvasViewportUsecase {
    pub fn new() -> (result: Self)
        ensures
            result == (GetCanvasViewportUsecase),
    {
        GetCanvasViewportUsecase
    }
}

#[derive(Debug, Clone, Copy, PartialEq, Eq, Structural)]
pub enum GetCanvasViewportError {
    InvalidInput,
    NotFound,
    StorageUnavailable,
    StaleProjection,
    RecoveryRequired,
}

impl GetCanvasViewportError {
    pub fn code(self) -> (result: &'static str)
        ensures
            result@ == match self {
                Self::InvalidInput => "CANVAS_INVALID_INPUT"@,
                Self::NotFound => "CANVAS_NOT_FOUND"@,
                Self::StorageUnavailable => "CANVAS_STORAGE_UNAVAILABLE"@,
                Self::StaleProjection => "CANVAS_PROJECTION_STALE"@,
                Self::RecoveryRequired => "CANVAS_RECOVERY_REQUIRED"@,
            },
    {
        match self {
            Self::InvalidInput => "CANVAS_INVALID_INPUT",
            Self::NotFound => "CANVAS_NOT_FOUND",
            Self::StorageUnavailable => "CANVAS_STORAGE_UNAVAILABLE",
            Self::StaleProjection => "CANVAS_PROJECTION_STALE",
            Self::RecoveryRequired => "CANVAS_RECOVERY_REQUIRED",
        }
    }
}

/// How this usecase reports each canvas viewport query failure.
pub fn map_port(error: CanvasViewportQueryError) -> (result: GetCanvasViewportError)
    ensures
        result == match error {
            CanvasViewportQueryError::InvalidInput => GetCanvasViewportError::InvalidInput,
            CanvasViewportQueryError::StorageUnavailable => GetCanvasViewportError::StorageUnavailable,
            CanvasViewportQueryError::StaleProjection => GetCanvasViewportError::StaleProjection,
            CanvasViewportQueryError::CorruptedProjection | CanvasViewportQueryError::UnsupportedSchema => GetCanvasViewportError::RecoveryRequired,
        },
{
    match error {
        CanvasViewportQueryError::InvalidInput => GetCanvasViewportError::InvalidInput,
        CanvasViewportQueryError::StorageUnavailable => GetCanvasViewportError::StorageUnavailable,
        CanvasViewportQueryError::StaleProjection => GetCanvasViewportError::StaleProjection,
        CanvasViewportQueryError::CorruptedProjection | CanvasViewportQueryError::UnsupportedSchema => GetCanvasViewportError::RecoveryRequired,
    }
}

} // verus!
