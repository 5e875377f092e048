use vstd::prelude::*;
use crate::domain_errors::CanvasError;
use crate::collaborator_errors::{CanvasRepositoryError, PermissionAwareQueryError};
use crate::text::{opt_sstr_view, opt_str_view, opt_to_string, opt_ref_view, pairs_view, strings_view};
use crate::text::{contains_control, has_control_char, trim_text, trimmed};

verus! {
#[derive(Debug, Clone, PartialEq, Eq)]
pub struct CreateCanvasInput {
    actor_user_id: String,
    workspace_id: String,
    canvas_id: String,
}

impl View for CreateCanvasInput {
    type V = (Seq<char>, Seq<char>, Seq<char>);

    closed spec fn view(&self) -> (Seq<char>, Seq<char>, Seq<char>) {
        (self.actor_user_id@, self.workspace_id@, self.canvas_id@)
    }
}

impl CreateCanvasInput {
    pub fn new(actor_user_id: &str, workspace_id: &str, canvas_id: &str) -> (result: Self)
        ensures
            result@ == (actor_user_id@, workspace_id@, canvas_id@),
    {
        Self {
            actor_user_id: actor_user_id.to_string(),
            workspace_id: workspace_id.to_string(),
            canvas_id: canvas_id.to_string(),
        }
    }

}

#[derive(Debug, Clone, PartialEq, Eq)]
pub struct AddCanvasNodeInput {
    actor_user_id: String,
    workspace_id: String,
    canvas_id: String,
    node_id: String,
    target: AddCanvasNodeTargetInput,
    x: i32,
    y: i32,
}

impl View for AddCanvasNodeInput {
    type V = (Seq<char>, Seq<char>, Seq<char>, Seq<char>, <AddCanvasNodeTargetInput as View>::V, i32, i32);

    closed spec fn view(&self) -> (Seq<char>, Seq<char>, Seq<char>, Seq<char>, <AddCanvasNodeTargetInput as View>::V, i32, i32) {
        (self.actor_user_id@, self.workspace_id@, self.canvas_id@, self.node_id@, self.target@, self.x, self.y)
    }
}

impl AddCanvasNodeInput {
    pub fn new(actor_user_id: &str, workspace_id: &str, canvas_id: &str, node_id: &str, target: AddCanvasNodeTargetInput, x: i32, y: i32) -> (result: Self)
        ensures
            result@ == (actor_user_id@, workspace_id@, canvas_id@, node_id@, target@, x, y),
    {
        Self {
            actor_user_id: actor_user_id.to_string(),
            workspace_id: workspace_id.to_string(),
            canvas_id: canvas_id.to_string(),
            node_id: node_id.to_string(),
            target: target,
            x: x,
            y: y,
        }
    }

}

#[derive(Debug, Clone, PartialEq, Eq)]
pub enum AddCanvasNodeTargetInput {
    Document { document_id: String },
    Attachment { asset_sha256_hex: String },
    ExternalLink { url: String },
    TextCard { text: String },
}

/// [`AddCanvasNodeTargetInput`] with its texts as character sequences.
pub enum AddCanvasNodeTargetInputView {
    Document { document_id: Seq<char> },
    Attachment { asset_sha256_hex: Seq<char> },
    ExternalLink { url: Seq<char> },
    TextCard { text: Seq<char> },
}

impl View for AddCanvasNodeTargetInput {
    type V = AddCanvasNodeTargetInputView;

    open spec fn view(&self) -> AddCanvasNodeTargetInputView {
        match self {
            AddCanvasNodeTargetInput::Document { document_id } => AddCanvasNodeTargetInputView::Document { document_id: document_id@ },
            AddCanvasNodeTargetInput::Attachment { asset_sha256_hex } => AddCanvasNodeTargetInputView::Attachment { asset_sha256_hex: asset_sha256_hex@ },
            AddCanvasNodeTargetInput::ExternalLink { url } => AddCanvasNodeTargetInputView::ExternalLink { url: url@ },
            AddCanvasNodeTargetInput::TextCard { text } => AddCanvasNodeTargetInputView::TextCard { text: text@ },
        }
    }
}

#[derive(Debug, Clone, PartialEq, Eq)]
pub struct ConnectCanvasNodesInput {
    actor_user_id: String,
    workspace_id: String,
    canvas_id: String,
    edge_id: String,
    source_node_id: String,
    target_node_id: String,
}

impl View for ConnectCanvasNodesInput {
    type V = (Seq<char>, Seq<char>, Seq<char>, Seq<char>, Seq<char>, Seq<char>);

    closed spec fn view(&self) -> (Seq<char>, Seq<char>, Seq<char>, Seq<char>, Seq<char>, Seq<char>) {
        (self.actor_user_id@, self.workspace_id@, self.canvas_id@, self.edge_id@, self.source_node_id@, self.target_node_id@)
    }
}

impl ConnectCanvasNodesInput {
    pub fn new(actor_user_id: &str, workspace_id: &str, canvas_id: &str, edge_id: &str, source_node_id: &str, target_node_id: &str) -> (result: Self)
        ensures
            result@ == (actor_user_id@, workspace_id@, canvas_id@, edge_id@, source_node_id@, target_node_id@),
    {
        Self {
            actor_user_id: actor_user_id.to_string(),
            workspace_id: workspace_id.to_string(),
            canvas_id: canvas_id.to_string(),
            edge_id: edge_id.to_string(),
            source_node_id: source_node_id.to_string(),
            target_node_id: target_node_id.to_string(),
        }
    }

}

#[derive(Debug, Clone, PartialEq, Eq)]
pub struct EmbedCanvasInDocumentInput {
    actor_user_id: String,
    workspace_id: String,
    document_id: String,
    canvas_id: String,
}

impl View for EmbedCanvasInDocumentInput {
    type V = (Seq<char>, Seq<char>, Seq<char>, Seq<char>);

    closed spec fn view(&self) -> (Seq<char>, Seq<char>, Seq<char>, Seq<char>) {
        (self.actor_user_id@, self.workspace_id@, self.document_id@, self.canvas_id@)
    }
}

impl EmbedCanvasInDocumentInput {
    pub fn new(actor_user_id: &str, workspace_id: &str, document_id: &str, canvas_id: &str) -> (result: Self)
        ensures
            result@ == (actor_user_id@, workspace_id@, document_id@, canvas_id@),
    {
        Self {
            actor_user_id: actor_user_id.to_string(),
            workspace_id: workspace_id.to_string(),
            document_id: document_id.to_string(),
            canvas_id: canvas_id.to_string(),
        }
    }

}

#[derive(Debug, Clone, PartialEq, Eq)]
pub struct ConvertDocumentOutlineToCanvasInput {
    headings: Vec<DocumentOutlineHeadingInput>,
}

impl View for ConvertDocumentOutlineToCanvasInput {
    type V = Seq<<DocumentOutlineHeadingInput as View>::V>;

    closed spec fn view(&self) -> Seq<<DocumentOutlineHeadingInput as View>::V> {
        self.headings@.map_values(|x: DocumentOutlineHeadingInput| x@)
    }
}

impl ConvertDocumentOutlineToCanvasInput {
    pub fn new(headings: Vec<DocumentOutlineHeadingInput>) -> (result: Self)
        ensures
            result@ == headings@.map_values(|x: DocumentOutlineHeadingInput| x@),
    {
        Self {
            headings: headings,
        }
    }

}

#[derive(Debug, Clone, PartialEq, Eq)]
pub struct DocumentOutlineHeadingInput {
    heading_id: String,
    title: String,
    level: u8,
}

impl View for DocumentOutlineHeadingInput {
    type V = (Seq<char>, Seq<char>, u8);

    closed spec fn view(&self) -> (Seq<char>, Seq<char>, u8) {
        (self.heading_id@, self.title@, self.level)
    }
}

impl DocumentOutlineHeadingInput {
    pub fn new(heading_id: &str, title: &str, level: u8) -> (result: Self)
        ensures
            result@ == (heading_id@, title@, level),
    {
        Self {
            heading_id: heading_id.to_string(),
            title: title.to_string(),
            level: level,
        }
    }

}

#[derive(Debug, Clone, PartialEq, Eq)]
pub struct CanvasEmbedOutput {
    reference: String,
    product_log_event: &'static str,
}

impl View for CanvasEmbedOutput {
    type V = (Seq<char>, Seq<char>);

    closed spec fn view(&self) -> (Seq<char>, Seq<char>) {
        (self.reference@, self.product_log_event@)
    }
}

impl CanvasEmbedOutput {
    /// The answer that holds the embed reference and the product event
    /// logged for it.
    pub fn new(reference: &str, product_log_event: &'static str) -> (result: Self)
        ensures
            result@ == (reference@, product_log_event@),
    {
        CanvasEmbedOutput { reference: reference.to_string(), product_log_event }
    }

    pub fn reference(&self) -> (result: &str)
        ensures
            result@ == self@.0,
    {
        self.reference.as_str()
    }

    pub fn product_log_event(&self) -> (result: &'static str)
        ensures
            result@ == self@.1,
    {
        self.product_log_event
    }

}

#[derive(Debug, Clone, PartialEq, Eq)]
pub struct ConvertDocumentOutlineToCanvasOutput {
    suggestions: Vec<CanvasLayoutSuggestion>,
}

impl View for ConvertDocumentOutlineToCanvasOutput {
    type V = Seq<<CanvasLayoutSuggestion as View>::V>;

    closed spec fn view(&self) -> Seq<<CanvasLayoutSuggestion as View>::V> {
        self.suggestions@.map_values(|x: CanvasLayoutSuggestion| x@)
    }
}

impl ConvertDocumentOutlineToCanvasOutput {
    pub fn suggestions(&self) -> (result: &[CanvasLayoutSuggestion])
        ensures
            result@.map_values(|x: CanvasLayoutSuggestion| x@) == self@,
    {
        self.suggestions.as_slice()
    }

}

#[derive(Debug, Clone, PartialEq, Eq)]
pub struct CanvasLayoutSuggestion {
    heading_id: String,
    title: String,
    level: u8,
    x: i32,
    y: i32,
}

impl View for CanvasLayoutSuggestion {
    type V = (Seq<char>, Seq<char>, u8, i32, i32);

    closed spec fn view(&self) -> (Seq<char>, Seq<char>, u8, i32, i32) {
        (self.heading_id@, self.title@, self.level, self.x, self.y)
    }
}

impl CanvasLayoutSuggestion {
    pub fn heading_id(&self) -> (result: &str)
        ensures
            result@ == self@.0,
    {
        self.heading_id.as_str()
    }

    pub fn title(&self) -> (result: &str)
        ensures
            result@ == self@.1,
    {
        self.title.as_str()
    }

    pub fn level(&self) -> (result: u8)
        ensures
            result == self@.2,
    {
        self.level
    }

    pub fn x(&self) -> (result: i32)
        ensures
            result == self@.3,
    {
        self.x
    }

    pub fn y(&self) -> (result: i32)
        ensures
            result == self@.4,
    {
        self.y
    }

}

#[derive(Debug, Clone, Copy, PartialEq, Eq, Structural)]
pub struct CreateCanvasUsecase;

impl CreateCanvasUsecase {
    pub fn new() -> (result: Self)
        ensures
            result == (CreateCanvasUsecase),
    {
        CreateCanvasUsecase
    }
}

impl Default for CreateCanvasUsecase {
    fn default() -> (result: Self)
        ensures
            result == (CreateCanvasUsecase),
    {
        Self::new()
    }
}

#[derive(Debug, Clone, Copy, PartialEq, Eq, Structural)]
pub struct AddCanvasNodeUsecase;

impl AddCanvasNodeUsecase {
    pub fn new() -> (result: Self)
        ensures
            result == (AddCanvasNodeUsecase),
    {
        AddCanvasNodeUsecase
    }
}

impl Default for AddCanvasNodeUsecase {
    fn default() -> (result: Self)
        ensures
            result == (AddCanvasNodeUsecase),
    {
        Self::new()
    }
}

#[derive(Debug, Clone, Copy, PartialEq, Eq, Structural)]
pub struct ConnectCanvasNodesUsecase;

impl ConnectCanvasNodesUsecase {
    pub fn new() -> (result: Self)
        ensures
            result == (ConnectCanvasNodesUsecase),
    {
        ConnectCanvasNodesUsecase
    }
}

impl Default for ConnectCanvasNodesUsecase {
    fn default() -> (result: Self)
        ensures
            result == (ConnectCanvasNodesUsecase),
    {
        Self::new()
    }
}

#[derive(Debug, Clone, Copy, PartialEq, Eq, Structural)]
pub struct EmbedCanvasInDocumentUsecase;

impl EmbedCanvasInDocumentUsecase {
    pub fn new() -> (result: Self)
        ensures
            result == (EmbedCanvasInDocumentUsecase),
    {
        EmbedCanvasInDocumentUsecase
    }
}

impl Default for EmbedCanvasInDocumentUsecase {
    fn default() -> (result: Self)
        ensures
            result == (EmbedCanvasInDocumentUsecase),
    {
        Self::new()
    }
}

pub struct ConvertDocumentOutlineToCanvasUsecase;

/// A heading can be laid out when its trimmed id and title are non-empty and
/// free of control characters and its level is at least 1.
pub open spec fn heading_is_valid(heading: (Seq<char>, Seq<char>, u8)) -> bool {
    &&& trimmed(heading.0).len() > 0
    &&& trimmed(heading.1).len() > 0
    &&& heading.2 != 0
    &&& !has_control_char(trimmed(heading.0))
    &&& !has_control_char(trimmed(heading.1))
}

/// The card suggested for the heading at position `index`: its trimmed id
/// and title, its level, 240 units to the right per level below the first,
/// and 140 units down per heading before it.
pub open spec fn layout_suggestion(heading: (Seq<char>, Seq<char>, u8), index: int) -> (Seq<char>, Seq<char>, u8, i32, i32) {
    (
        trimmed(heading.0),
        trimmed(heading.1),
        heading.2,
        ((if heading.2 >= 1 { heading.2 - 1 } else { 0 }) * 240) as i32,
        (index * 140) as i32,
    )
}

/// The most headings an outline may have, so that every vertical offset fits
/// in an `i32`.
pub const MAX_OUTLINE_HEADINGS: usize = 15_339_169;

impl ConvertDocumentOutlineToCanvasUsecase {
    pub fn new() -> (result: Self)
        ensures
            result == (ConvertDocumentOutlineToCanvasUsecase),
    {
        ConvertDocumentOutlineToCanvasUsecase
    }

    /// Lays out one card per heading, or refuses the outline if a heading is
    /// invalid.
    pub fn execute(&self, input: ConvertDocumentOutlineToCanvasInput) -> (result: Result<
        ConvertDocumentOutlineToCanvasOutput,
        CanvasUsecaseError,
    >)
        requires
            input@.len() <= MAX_OUTLINE_HEADINGS,
        ensures
            match result {
                Ok(output) => {
                    &&& forall|i: int| 0 <= i < input@.len() ==> heading_is_valid(#[trigger] input@[i])
                    &&& output@ == Seq::new(input@.len(), |i: int| layout_suggestion(input@[i], i))
                },
                Err(error) => {
                    &&& error == CanvasUsecaseError::InvalidInput
                    &&& exists|i: int| 0 <= i < input@.len() && !heading_is_valid(#[trigger] input@[i])
                },
            },
    {
        let headings = &input.headings;
        let n = headings.len();
        let ghost hv = input@;
        let mut suggestions: Vec<CanvasLayoutSuggestion> = Vec::new();
        let mut index: usize = 0;
        while index < n
            invariant
                n == headings@.len(),
                hv == headings@.map_values(|x: DocumentOutlineHeadingInput| x@),
                hv == input@,
                n <= MAX_OUTLINE_HEADINGS,
                index <= n,
                suggestions@.len() == index,
                forall|i: int| 0 <= i < index ==> heading_is_valid(#[trigger] hv[i]),
                forall|i: int| 0 <= i < index ==> #[trigger] suggestions@[i]@ == layout_suggestion(hv[i], i),
            decreases n - index,
        {
            let heading = &headings[index];
            assert(hv[index as int] == heading@);
            let heading_id = trim_text(heading.heading_id.as_str());
            let title = trim_text(heading.title.as_str());
            if heading_id.is_empty() || title.is_empty() || heading.level == 0 || contains_control(heading_id)
                || contains_control(title) {
                assert(!heading_is_valid(hv[index as int]));
                return Err(CanvasUsecaseError::InvalidInput);
            }
            let level = heading.level;
            let below: u8 = level - 1;
            let x: i32 = (below as i32) * 240;
            let y: i32 = (index as i32) * 140;
            suggestions.push(CanvasLayoutSuggestion {
                heading_id: heading_id.to_string(),
                title: title.to_string(),
                level,
                x,
                y,
            });
            index = index + 1;
        }
        let output = ConvertDocumentOutlineToCanvasOutput { suggestions };
        assert(output@ =~= Seq::new(hv.len(), |i: int| layout_suggestion(hv[i], i)));
        Ok(output)
    }
}

impl Default for ConvertDocumentOutlineToCanvasUsecase {
    fn default() -> (result: Self)
        ensures
            result == (ConvertDocumentOutlineToCanvasUsecase),
    {
        Self::new()
    }
}

#[derive(Debug, Clone, Copy, PartialEq, Eq, Structural)]
pub enum CanvasUsecaseError {
    InvalidInput,
    PermissionDenied,
    CanvasNotFound,
    InvalidCanvasGraph,
    StorageUnavailable,
    CanvasAlreadyExists,
    VersionConflict,
    RecoveryRequired,
}

impl CanvasUsecaseError {
    pub fn code(self) -> (result: &'static str)
        ensures
            result@ == match self {
                Self::InvalidInput => "CANVAS_INVALID_INPUT"@,
                Self::PermissionDenied => "CANVAS_PERMISSION_DENIED"@,
                Self::CanvasNotFound => "CANVAS_NOT_FOUND"@,
                Self::InvalidCanvasGraph => "CANVAS_INVALID_GRAPH"@,
                Self::StorageUnavailable => "CANVAS_STORAGE_UNAVAILABLE"@,
                Self::CanvasAlreadyExists => "CANVAS_ALREADY_EXISTS"@,
                Self::VersionConflict => "CANVAS_VERSION_CONFLICT"@,
                Self::RecoveryRequired => "CANVAS_RECOVERY_REQUIRED"@,
            },
    {
        match self {
            Self::InvalidInput => "CANVAS_INVALID_INPUT",
            Self::PermissionDenied => "CANVAS_PERMISSION_DENIED",
            Self::CanvasNotFound => "CANVAS_NOT_FOUND",
            Self::InvalidCanvasGraph => "CANVAS_INVALID_GRAPH",
            Self::StorageUnavailable => "CANVAS_STORAGE_UNAVAILABLE",
            Self::CanvasAlreadyExists => "CANVAS_ALREADY_EXISTS",
            Self::VersionConflict => "CANVAS_VERSION_CONFLICT",
            Self::RecoveryRequired => "CANVAS_RECOVERY_REQUIRED",
        }
    }
}

impl CanvasUsecaseError {
    /// How this usecase reports each canvas failure.
    pub fn from_canvas(error: CanvasError) -> (result: Self)
        ensures
            result == match error {
                CanvasError::EmptyId | CanvasError::InvalidId | CanvasError::InvalidExternalLink | CanvasError::InvalidTextCard | CanvasError::InvalidRevision | CanvasError::RevisionOverflow | CanvasError::InvalidTitle | CanvasError::InvalidGeometry | CanvasError::InvalidViewport | CanvasError::InvalidGeometryPolicy => Self::InvalidInput,
                CanvasError::DuplicateNodeId | CanvasError::DuplicateEdgeId | CanvasError::MissingEdgeNode | CanvasError::SelfReferencingEdge | CanvasError::InvalidLifecycleTransition => Self::InvalidCanvasGraph,
            },
    {
        match error {
            CanvasError::EmptyId | CanvasError::InvalidId | CanvasError::InvalidExternalLink | CanvasError::InvalidTextCard | CanvasError::InvalidRevision | CanvasError::RevisionOverflow | CanvasError::InvalidTitle | CanvasError::InvalidGeometry | CanvasError::InvalidViewport | CanvasError::InvalidGeometryPolicy => Self::InvalidInput,
            CanvasError::DuplicateNodeId | CanvasError::DuplicateEdgeId | CanvasError::MissingEdgeNode | CanvasError::SelfReferencingEdge | CanvasError::InvalidLifecycleTransition => Self::InvalidCanvasGraph,
        }
    }
}

impl CanvasUsecaseError {
    /// How this usecase reports each canvas repository failure.
    pub fn from_repository(error: CanvasRepositoryError) -> (result: Self)
        ensures
            result == match error {
                CanvasRepositoryError::InvalidInput => Self::InvalidInput,
                CanvasRepositoryError::StorageUnavailable => Self::StorageUnavailable,
                CanvasRepositoryError::CorruptedCanvas | CanvasRepositoryError::UnsupportedSchema => Self::RecoveryRequired,
                CanvasRepositoryError::AlreadyExists => Self::CanvasAlreadyExists,
                CanvasRepositoryError::VersionConflict => Self::VersionConflict,
            },
    {
        match error {
            CanvasRepositoryError::InvalidInput => Self::InvalidInput,
            CanvasRepositoryError::StorageUnavailable => Self::StorageUnavailable,
            CanvasRepositoryError::CorruptedCanvas | CanvasRepositoryError::UnsupportedSchema => Self::RecoveryRequired,
            CanvasRepositoryError::AlreadyExists => Self::CanvasAlreadyExists,
            CanvasRepositoryError::VersionConflict => Self::VersionConflict,
        }
    }
}

impl CanvasUsecaseError {
    /// How this usecase reports each permission aware query failure.
    pub fn from_permission(error: PermissionAwareQueryError) -> (result: Self)
        ensures
            result == match error {
                PermissionAwareQueryError::InvalidInput => Self::InvalidInput,
                PermissionAwareQueryError::NotFound | PermissionAwareQueryError::IndexStale | PermissionAwareQueryError::StorageUnavailable | PermissionAwareQueryError::CorruptedProjection => Self::StorageUnavailable,
            },
    {
        match error {
            PermissionAwareQueryError::InvalidInput => Self::InvalidInput,
            PermissionAwareQueryError::NotFound | PermissionAwareQueryError::IndexStale | PermissionAwareQueryError::StorageUnavailable | PermissionAwareQueryError::CorruptedProjection => Self::StorageUnavailable,
        }
    }
}

} // verus!
