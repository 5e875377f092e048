use vstd::prelude::*;
use crate::collaborator_errors::{AssetMetadataCatalogError, CanvasRepositoryError, DocumentExistenceError};
use crate::text::{opt_sstr_view, opt_str_view, opt_to_string, opt_ref_view, pairs_view, strings_view, sort_texts, text_order};

verus! {
#[derive(Debug, Clone, PartialEq, Eq)]
pub enum CanvasNodeTargetInput {
    Document(String),
    Attachment(String),
    Text(String),
}

/// A node target with its text as a character sequence.
pub enum CanvasNodeTargetInputView {
    Document(Seq<char>),
    Attachment(Seq<char>),
    Text(Seq<char>),
}

impl View for CanvasNodeTargetInput {
    type V = CanvasNodeTargetInputView;

    open spec fn view(&self) -> CanvasNodeTargetInputView {
        match self {
            CanvasNodeTargetInput::Document(s) => CanvasNodeTargetInputView::Document(s@),
            CanvasNodeTargetInput::Attachment(s) => CanvasNodeTargetInputView::Attachment(s@),
            CanvasNodeTargetInput::Text(s) => CanvasNodeTargetInputView::Text(s@),
        }
    }
}

#[derive(Debug, Clone)]
pub struct AddCanvasNodeMutationInput {
    w: String,
    c: String,
    r: u64,
    n: String,
    t: CanvasNodeTargetInput,
    x: i32,
    y: i32,
    width: u32,
    height: u32,
}

impl View for AddCanvasNodeMutationInput {
    type V = (Seq<char>, Seq<char>, u64, Seq<char>, <CanvasNodeTargetInput as View>::V, i32, i32, u32, u32);

    closed spec fn view(&self) -> (Seq<char>, Seq<char>, u64, Seq<char>, <CanvasNodeTargetInput as View>::V, i32, i32, u32, u32) {
        (self.w@, self.c@, self.r, self.n@, self.t@, self.x, self.y, self.width, self.height)
    }
}

impl AddCanvasNodeMutationInput {
    pub fn new(w: &str, c: &str, r: u64, n: &str, t: CanvasNodeTargetInput, x: i32, y: i32, width: u32, height: u32) -> (result: Self)
        ensures
            result@ == (w@, c@, r, n@, t@, x, y, width, height),
    {
        Self {
            w: w.to_string(),
            c: c.to_string(),
            r: r,
            n: n.to_string(),
            t: t,
            x: x,
            y: y,
            width: width,
            height: height,
        }
    }

}

#[derive(Debug, Clone)]
pub struct ConnectCanvasEdgeInput {
    w: String,
    c: String,
    r: u64,
    e: String,
    s: String,
    t: String,
}

impl View for ConnectCanvasEdgeInput {
    type V = (Seq<char>, Seq<char>, u64, Seq<char>, Seq<char>, Seq<char>);

    closed spec fn view(&self) -> (Seq<char>, Seq<char>, u64, Seq<char>, Seq<char>, Seq<char>) {
        (self.w@, self.c@, self.r, self.e@, self.s@, self.t@)
    }
}

impl ConnectCanvasEdgeInput {
    pub fn new(w: &str, c: &str, r: u64, e: &str, s: &str, t: &str) -> (result: Self)
        ensures
            result@ == (w@, c@, r, e@, s@, t@),
    {
        Self {
            w: w.to_string(),
            c: c.to_string(),
            r: r,
            e: e.to_string(),
            s: s.to_string(),
            t: t.to_string(),
        }
    }

}

#[derive(Debug, Clone)]
pub struct RemoveCanvasNodeInput {
    w: String,
    c: String,
    r: u64,
    n: String,
}

impl View for RemoveCanvasNodeInput {
    type V = (Seq<char>, Seq<char>, u64, Seq<char>);

    closed spec fn view(&self) -> (Seq<char>, Seq<char>, u64, Seq<char>) {
        (self.w@, self.c@, self.r, self.n@)
    }
}

impl RemoveCanvasNodeInput {
    pub fn new(w: &str, c: &str, r: u64, n: &str) -> (result: Self)
        ensures
            result@ == (w@, c@, r, n@),
    {
        Self {
            w: w.to_string(),
            c: c.to_string(),
            r: r,
            n: n.to_string(),
        }
    }

}

#[derive(Debug, Clone)]
pub struct RemoveCanvasEdgeInput {
    w: String,
    c: String,
    r: u64,
    e: String,
}

impl View for RemoveCanvasEdgeInput {
    type V = (Seq<char>, Seq<char>, u64, Seq<char>);

    closed spec fn view(&self) -> (Seq<char>, Seq<char>, u64, Seq<char>) {
        (self.w@, self.c@, self.r, self.e@)
    }
}

impl RemoveCanvasEdgeInput {
    pub fn new(w: &str, c: &str, r: u64, e: &str) -> (result: Self)
        ensures
            result@ == (w@, c@, r, e@),
    {
        Self {
            w: w.to_string(),
            c: c.to_string(),
            r: r,
            e: e.to_string(),
        }
    }

}

#[derive(Debug, Clone)]
pub struct UpdateCanvasNodeGeometryInput {
    w: String,
    c: String,
    r: u64,
    n: String,
    x: i32,
    y: i32,
    width: u32,
    height: u32,
}

impl View for UpdateCanvasNodeGeometryInput {
    type V = (Seq<char>, Seq<char>, u64, Seq<char>, i32, i32, u32, u32);

    closed spec fn view(&self) -> (Seq<char>, Seq<char>, u64, Seq<char>, i32, i32, u32, u32) {
        (self.w@, self.c@, self.r, self.n@, self.x, self.y, self.width, self.height)
    }
}

impl UpdateCanvasNodeGeometryInput {
    pub fn new(w: &str, c: &str, r: u64, n: &str, x: i32, y: i32, width: u32, height: u32) -> (result: Self)
        ensures
            result@ == (w@, c@, r, n@, x, y, width, height),
    {
        Self {
            w: w.to_string(),
            c: c.to_string(),
            r: r,
            n: n.to_string(),
            x: x,
            y: y,
            width: width,
            height: height,
        }
    }

}

pub const MAX_CANVAS_TEXT_CARD_CHARS: usize = 20_000;

#[derive(Debug, Clone)]
pub struct UpdateCanvasTextCardInput {
    w: String,
    c: String,
    r: u64,
    n: String,
    text: String,
}

impl View for UpdateCanvasTextCardInput {
    type V = (Seq<char>, Seq<char>, u64, Seq<char>, Seq<char>);

    closed spec fn view(&self) -> (Seq<char>, Seq<char>, u64, Seq<char>, Seq<char>) {
        (self.w@, self.c@, self.r, self.n@, self.text@)
    }
}

impl UpdateCanvasTextCardInput {
    pub fn new(w: &str, c: &str, r: u64, n: &str, text: &str) -> (result: Self)
        ensures
            result@ == (w@, c@, r, n@, text@),
    {
        Self {
            w: w.to_string(),
            c: c.to_string(),
            r: r,
            n: n.to_string(),
            text: text.to_string(),
        }
    }

}

#[derive(Debug, Clone)]
pub struct UpdateCanvasViewportInput {
    w: String,
    c: String,
    r: u64,
    x: i32,
    y: i32,
    zoom: u16,
}

impl View for UpdateCanvasViewportInput {
    type V = (Seq<char>, Seq<char>, u64, i32, i32, u16);

    closed spec fn view(&self) -> (Seq<char>, Seq<char>, u64, i32, i32, u16) {
        (self.w@, self.c@, self.r, self.x, self.y, self.zoom)
    }
}

impl UpdateCanvasViewportInput {
    pub fn new(w: &str, c: &str, r: u64, x: i32, y: i32, zoom: u16) -> (result: Self)
        ensures
            result@ == (w@, c@, r, x, y, zoom),
    {
        Self {
            w: w.to_string(),
            c: c.to_string(),
            r: r,
            x: x,
            y: y,
            zoom: zoom,
        }
    }

}

#[derive(Debug, Clone)]
pub struct AutoArrangeCanvasInput {
    w: String,
    c: String,
    r: u64,
}

impl View for AutoArrangeCanvasInput {
    type V = (Seq<char>, Seq<char>, u64);

    closed spec fn view(&self) -> (Seq<char>, Seq<char>, u64) {
        (self.w@, self.c@, self.r)
    }
}

impl AutoArrangeCanvasInput {
    pub fn new(w: &str, c: &str, r: u64) -> (result: Self)
        ensures
            result@ == (w@, c@, r),
    {
        Self {
            w: w.to_string(),
            c: c.to_string(),
            r: r,
        }
    }

}

#[derive(Debug, Clone, Copy)]
pub struct CanvasAutoArrangePolicy {
    columns: usize,
    origin_x: i32,
    origin_y: i32,
    gap_x: i32,
    gap_y: i32,
}

impl View for CanvasAutoArrangePolicy {
    type V = (usize, i32, i32, i32, i32);

    closed spec fn view(&self) -> (usize, i32, i32, i32, i32) {
        (self.columns, self.origin_x, self.origin_y, self.gap_x, self.gap_y)
    }
}

impl CanvasAutoArrangePolicy {
    /// A grid of `columns` columns from the origin with the given gaps; the
    /// column count and both gaps must be positive.
    pub fn new(columns: usize, origin_x: i32, origin_y: i32, gap_x: i32, gap_y: i32) -> (result: Result<
        Self,
        CanvasMutationError,
    >)
        ensures
            (columns == 0 || gap_x <= 0 || gap_y <= 0) ==> result == Err::<Self, CanvasMutationError>(
                CanvasMutationError::InvalidInput,
            ),
            !(columns == 0 || gap_x <= 0 || gap_y <= 0) ==> result is Ok && result->Ok_0@ == (
                columns,
                origin_x,
                origin_y,
                gap_x,
                gap_y,
            ),
    {
        if columns == 0 || gap_x <= 0 || gap_y <= 0 {
            return Err(CanvasMutationError::InvalidInput);
        }
        Ok(Self { columns, origin_x, origin_y, gap_x, gap_y })
    }
}

#[derive(Debug, Clone, PartialEq, Eq)]
pub enum CanvasMutationProductEvent {
    NodeAdded { canvas_id: String, revision: u64, node_count: usize },
    EdgeConnected { canvas_id: String, revision: u64, edge_count: usize },
    EdgeRemoved { canvas_id: String, revision: u64, edge_count: usize },
    NodeRemoved { canvas_id: String, revision: u64, node_count: usize, edge_count: usize },
    GeometryUpdated { canvas_id: String, revision: u64, changed_node_count: usize },
    TextCardUpdated { canvas_id: String, revision: u64, changed_node_count: usize },
    ViewportUpdated { canvas_id: String, revision: u64 },
    AutoArranged { canvas_id: String, revision: u64, changed_node_count: usize },
}

pub trait CanvasMutationProductLogger {
    fn write_product(&mut self, event: CanvasMutationProductEvent);
}

#[derive(Debug, Clone, Copy, PartialEq, Eq, Structural)]
pub struct AddValidatedCanvasNodeUsecase;

impl AddValidatedCanvasNodeUsecase {
    pub fn new() -> (result: Self)
        ensures
            result == (AddValidatedCanvasNodeUsecase),
    {
        AddValidatedCanvasNodeUsecase
    }
}

#[derive(Debug, Clone, Copy, PartialEq, Eq, Structural)]
pub struct AddCanvasNodeMutationUsecase;

impl AddCanvasNodeMutationUsecase {
    pub fn new() -> (result: Self)
        ensures
            result == (AddCanvasNodeMutationUsecase),
    {
        AddCanvasNodeMutationUsecase
    }
}

#[derive(Debug, Clone, Copy, PartialEq, Eq, Structural)]
pub struct ConnectCanvasEdgeUsecase;

impl ConnectCanvasEdgeUsecase {
    pub fn new() -> (result: Self)
        ensures
            result == (ConnectCanvasEdgeUsecase),
    {
        ConnectCanvasEdgeUsecase
    }
}

#[derive(Debug, Clone, Copy, PartialEq, Eq, Structural)]
pub struct RemoveCanvasNodeUsecase;

impl RemoveCanvasNodeUsecase {
    pub fn new() -> (result: Self)
        ensures
            result == (RemoveCanvasNodeUsecase),
    {
        RemoveCanvasNodeUsecase
    }
}

#[derive(Debug, Clone, Copy, PartialEq, Eq, Structural)]
pub struct RemoveCanvasEdgeUsecase;

impl RemoveCanvasEdgeUsecase {
    pub fn new() -> (result: Self)
        ensures
            result == (RemoveCanvasEdgeUsecase),
    {
        RemoveCanvasEdgeUsecase
    }
}

#[derive(Debug, Clone, Copy, PartialEq, Eq, Structural)]
pub struct UpdateCanvasNodeGeometryUsecase;

impl UpdateCanvasNodeGeometryUsecase {
    pub fn new() -> (result: Self)
        ensures
            result == (UpdateCanvasNodeGeometryUsecase),
    {
        UpdateCanvasNodeGeometryUsecase
    }
}

#[derive(Debug, Clone, Copy, PartialEq, Eq, Structural)]
pub struct UpdateCanvasTextCardUsecase;

impl UpdateCanvasTextCardUsecase {
    pub fn new() -> (result: Self)
        ensures
            result == (UpdateCanvasTextCardUsecase),
    {
        UpdateCanvasTextCardUsecase
    }
}

#[derive(Debug, Clone, Copy, PartialEq, Eq, Structural)]
pub struct UpdateCanvasViewportUsecase;

impl UpdateCanvasViewportUsecase {
    pub fn new() -> (result: Self)
        ensures
            result == (UpdateCanvasViewportUsecase),
    {
        UpdateCanvasViewportUsecase
    }
}

#[derive(Debug, Clone, Copy, PartialEq, Eq, Structural)]
pub struct AutoArrangeCanvasUsecase;

impl AutoArrangeCanvasUsecase {
    pub fn new() -> (result: Self)
        ensures
            result == (AutoArrangeCanvasUsecase),
    {
        AutoArrangeCanvasUsecase
    }
}

#[derive(Debug, Clone, Copy, PartialEq, Eq, Structural)]
pub struct PreviewAutoArrangeCanvasUsecase;

impl PreviewAutoArrangeCanvasUsecase {
    pub fn new() -> (result: Self)
        ensures
            result == (PreviewAutoArrangeCanvasUsecase),
    {
        PreviewAutoArrangeCanvasUsecase
    }
}

#[derive(Debug, Clone, Copy, PartialEq, Eq, Structural)]
pub enum CanvasMutationError {
    InvalidInput,
    NotFound,
    NodeNotFound,
    NodeTargetMismatch,
    EdgeNotFound,
    DocumentTargetNotFound,
    AssetTargetNotFound,
    VersionConflict,
    InvalidState,
    InvalidGraph,
    InvalidGeometry,
    NodeLimitExceeded,
    EdgeLimitExceeded,
    StorageUnavailable,
    RecoveryRequired,
}

impl CanvasMutationError {
    pub fn code(self) -> (result: &'static str)
        ensures
            result@ == match self {
                Self::InvalidInput => "CANVAS_INVALID_INPUT"@,
                Self::NotFound => "CANVAS_NOT_FOUND"@,
                Self::NodeNotFound => "CANVAS_NODE_NOT_FOUND"@,
                Self::NodeTargetMismatch => "CANVAS_NODE_TARGET_MISMATCH"@,
                Self::EdgeNotFound => "CANVAS_EDGE_NOT_FOUND"@,
                Self::DocumentTargetNotFound => "CANVAS_DOCUMENT_TARGET_NOT_FOUND"@,
                Self::AssetTargetNotFound => "CANVAS_ASSET_TARGET_NOT_FOUND"@,
                Self::VersionConflict => "CANVAS_VERSION_CONFLICT"@,
                Self::InvalidState => "CANVAS_INVALID_STATE"@,
                Self::InvalidGraph => "CANVAS_INVALID_GRAPH"@,
                Self::InvalidGeometry => "CANVAS_INVALID_GEOMETRY"@,
                Self::NodeLimitExceeded => "CANVAS_NODE_LIMIT_EXCEEDED"@,
                Self::EdgeLimitExceeded => "CANVAS_EDGE_LIMIT_EXCEEDED"@,
                Self::StorageUnavailable => "CANVAS_STORAGE_UNAVAILABLE"@,
                Self::RecoveryRequired => "CANVAS_RECOVERY_REQUIRED"@,
            },
    {
        match self {
            Self::InvalidInput => "CANVAS_INVALID_INPUT",
            Self::NotFound => "CANVAS_NOT_FOUND",
            Self::NodeNotFound => "CANVAS_NODE_NOT_FOUND",
            Self::NodeTargetMismatch => "CANVAS_NODE_TARGET_MISMATCH",
            Self::EdgeNotFound => "CANVAS_EDGE_NOT_FOUND",
            Self::DocumentTargetNotFound => "CANVAS_DOCUMENT_TARGET_NOT_FOUND",
            Self::AssetTargetNotFound => "CANVAS_ASSET_TARGET_NOT_FOUND",
            Self::VersionConflict => "CANVAS_VERSION_CONFLICT",
            Self::InvalidState => "CANVAS_INVALID_STATE",
            Self::InvalidGraph => "CANVAS_INVALID_GRAPH",
            Self::InvalidGeometry => "CANVAS_INVALID_GEOMETRY",
            Self::NodeLimitExceeded => "CANVAS_NODE_LIMIT_EXCEEDED",
            Self::EdgeLimitExceeded => "CANVAS_EDGE_LIMIT_EXCEEDED",
            Self::StorageUnavailable => "CANVAS_STORAGE_UNAVAILABLE",
            Self::RecoveryRequired => "CANVAS_RECOVERY_REQUIRED",
        }
    }
}

/// A node placed on the grid by an automatic arrangement.
#[derive(Debug, Clone, PartialEq, Eq)]
pub struct ArrangedCanvasNode {
    pub node_id: String,
    pub x: i32,
    pub y: i32,
}

impl CanvasAutoArrangePolicy {
    /// The grid column of the `index`-th node in arrangement order.
    pub open spec fn column_of(self, index: int) -> int {
        index % (self@.0 as int)
    }

    /// The grid row of the `index`-th node in arrangement order.
    pub open spec fn row_of(self, index: int) -> int {
        index / (self@.0 as int)
    }

    /// Horizontal position of the `index`-th node.
    pub open spec fn grid_x(self, index: int) -> int {
        self@.1 + self.column_of(index) * self@.3
    }

    /// Vertical position of the `index`-th node.
    pub open spec fn grid_y(self, index: int) -> int {
        self@.2 + self.row_of(index) * self@.4
    }

    /// Every one of the first `count` grid cells has a column, a row and a
    /// position that fit in `i32`.
    pub open spec fn fits(self, count: int) -> bool {
        forall|index: int|
            0 <= index < count ==> {
                &&& #[trigger] self.column_of(index) <= i32::MAX
                &&& self.row_of(index) <= i32::MAX
                &&& i32::MIN <= self.grid_x(index) <= i32::MAX
                &&& i32::MIN <= self.grid_y(index) <= i32::MAX
            }
    }

    /// Places the nodes on the grid: the identifiers are taken in ascending
    /// text order and the `i`-th one goes to column `i % columns`, row
    /// `i / columns`, at `origin + cell * gap` on each axis.
    pub fn arrange(&self, node_ids: Vec<String>) -> (result: Vec<ArrangedCanvasNode>)
        requires
            self@.0 > 0,
            self.fits(node_ids@.len() as int),
        ensures
            result@.len() == node_ids@.len(),
            forall|i: int|
                0 <= i < result@.len() ==> {
                    &&& #[trigger] result@[i].node_id@ == strings_view(node_ids@).sort_by(
                        text_order(),
                    )[i]
                    &&& result@[i].x == self.grid_x(i)
                    &&& result@[i].y == self.grid_y(i)
                },
    {
        let ordered = sort_texts(node_ids);
        let ghost sorted = strings_view(ordered@);
        proof {
            vstd::seq_lib::to_multiset_len(sorted);
            vstd::seq_lib::to_multiset_len(strings_view(node_ids@));
        }
        assert(sorted.len() == ordered@.len());
        assert(ordered@.len() == node_ids@.len());
        let mut placed: Vec<ArrangedCanvasNode> = Vec::new();
        let mut i: usize = 0;
        let columns = self.columns;
        while i < ordered.len()
            invariant
                columns == self@.0,
                columns > 0,
                self.fits(ordered@.len() as int),
                sorted == strings_view(ordered@),
                sorted.len() == ordered@.len(),
                i <= ordered@.len(),
                placed@.len() == i,
                forall|k: int|
                    0 <= k < i ==> {
                        &&& #[trigger] placed@[k].node_id@ == sorted[k]
                        &&& placed@[k].x == self.grid_x(k)
                        &&& placed@[k].y == self.grid_y(k)
                    },
            decreases ordered@.len() - i,
        {
            let column = i % columns;
            let row = i / columns;
            assert(self.column_of(i as int) <= i32::MAX);
            assert(column as int == self.column_of(i as int));
            assert(row as int == self.row_of(i as int));
            let gap_x = self.gap_x;
            let gap_y = self.gap_y;
            let column64 = column as i64;
            let row64 = row as i64;
            assert(-0x4000_0000_0000_0000 <= column64 * (gap_x as i64) <= 0x4000_0000_0000_0000)
                by (nonlinear_arith)
                requires
                    0 <= column64 <= 0x7fff_ffff,
                    -0x8000_0000 <= gap_x <= 0x7fff_ffff,
            ;
            assert(-0x4000_0000_0000_0000 <= row64 * (gap_y as i64) <= 0x4000_0000_0000_0000)
                by (nonlinear_arith)
                requires
                    0 <= row64 <= 0x7fff_ffff,
                    -0x8000_0000 <= gap_y <= 0x7fff_ffff,
            ;
            let x64 = (self.origin_x as i64) + column64 * (gap_x as i64);
            let y64 = (self.origin_y as i64) + row64 * (gap_y as i64);
            assert(x64 == self.grid_x(i as int));
            assert(y64 == self.grid_y(i as int));
            let node_id = ordered[i].clone();
            placed.push(ArrangedCanvasNode { node_id, x: x64 as i32, y: y64 as i32 });
            i = i + 1;
        }
        placed
    }
}

/// With a positive column count and positive gaps, two different places in
/// the arrangement order never share a position on the canvas.
pub proof fn lemma_arranged_nodes_do_not_overlap(policy: CanvasAutoArrangePolicy, i: int, j: int)
    requires
        policy@.0 > 0,
        policy@.3 > 0,
        policy@.4 > 0,
        0 <= i,
        0 <= j,
        i != j,
    ensures
        policy.grid_x(i) != policy.grid_x(j) || policy.grid_y(i) != policy.grid_y(j),
{
    let c = policy@.0 as int;
    let gx = policy@.3 as int;
    let gy = policy@.4 as int;
    if policy.grid_x(i) == policy.grid_x(j) && policy.grid_y(i) == policy.grid_y(j) {
        assert(i % c == j % c) by (nonlinear_arith)
            requires
                gx > 0,
                (i % c) * gx == (j % c) * gx,
        ;
        assert(i / c == j / c) by (nonlinear_arith)
            requires
                gy > 0,
                (i / c) * gy == (j / c) * gy,
        ;
        assert(i == j) by (nonlinear_arith)
            requires
                c > 0,
                i % c == j % c,
                i / c == j / c,
        ;
    }
}

/// How this usecase reports each document existence failure.
pub fn map_document_existence(error: DocumentExistenceError) -> (result: CanvasMutationError)
    ensures
        result == match error {
            DocumentExistenceError::StorageUnavailable => CanvasMutationError::StorageUnavailable,
            DocumentExistenceError::CorruptedRecord => CanvasMutationError::RecoveryRequired,
        },
{
    match error {
        DocumentExistenceError::StorageUnavailable => CanvasMutationError::StorageUnavailable,
        DocumentExistenceError::CorruptedRecord => CanvasMutationError::RecoveryRequired,
    }
}

/// How this usecase reports each asset metadata catalog failure.
pub fn map_asset_metadata(error: AssetMetadataCatalogError) -> (result: CanvasMutationError)
    ensures
        result == match error {
            AssetMetadataCatalogError::StorageUnavailable => CanvasMutationError::StorageUnavailable,
            AssetMetadataCatalogError::CorruptedRecord | AssetMetadataCatalogError::UnsupportedSchema => CanvasMutationError::RecoveryRequired,
            AssetMetadataCatalogError::InvalidLimit | AssetMetadataCatalogError::InvalidCursor | AssetMetadataCatalogError::Conflict => CanvasMutationError::InvalidInput,
        },
{
    match error {
        AssetMetadataCatalogError::StorageUnavailable => CanvasMutationError::StorageUnavailable,
        AssetMetadataCatalogError::CorruptedRecord | AssetMetadataCatalogError::UnsupportedSchema => CanvasMutationError::RecoveryRequired,
        AssetMetadataCatalogError::InvalidLimit | AssetMetadataCatalogError::InvalidCursor | AssetMetadataCatalogError::Conflict => CanvasMutationError::InvalidInput,
    }
}

/// How this usecase reports each canvas repository failure.
pub fn map_repo(e: CanvasRepositoryError) -> (result: CanvasMutationError)
    ensures
        result == match e {
            CanvasRepositoryError::InvalidInput | CanvasRepositoryError::AlreadyExists => CanvasMutationError::InvalidInput,
            CanvasRepositoryError::StorageUnavailable => CanvasMutationError::StorageUnavailable,
            CanvasRepositoryError::CorruptedCanvas | CanvasRepositoryError::UnsupportedSchema => CanvasMutationError::RecoveryRequired,
            CanvasRepositoryError::VersionConflict => CanvasMutationError::VersionConflict,
        },
{
    match e {
        CanvasRepositoryError::InvalidInput | CanvasRepositoryError::AlreadyExists => CanvasMutationError::InvalidInput,
        CanvasRepositoryError::StorageUnavailable => CanvasMutationError::StorageUnavailable,
        CanvasRepositoryError::CorruptedCanvas | CanvasRepositoryError::UnsupportedSchema => CanvasMutationError::RecoveryRequired,
        CanvasRepositoryError::VersionConflict => CanvasMutationError::VersionConflict,
    }
}

} // verus!
