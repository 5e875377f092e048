use vstd::prelude::*;
use crate::collaborator_errors::{GraphProjectionError, PermissionAwareQueryError};
use crate::text::{decimal_text_value, parse_decimal, str_equal};
use crate::text::{opt_sstr_view, opt_str_view, opt_to_string, opt_ref_view, pairs_view, strings_view};

verus! {
#[derive(Debug, Clone, PartialEq, Eq)]
pub struct GetLinkOverviewInput {
    workspace_id: String,
    target_document_id: String,
    cursor: Option<String>,
    limit: usize,
}

impl View for GetLinkOverviewInput {
    type V = (Seq<char>, Seq<char>, Option<Seq<char>>, usize);

    closed spec fn view(&self) -> (Seq<char>, Seq<char>, Option<Seq<char>>, usize) {
        (self.workspace_id@, self.target_document_id@, opt_str_view(self.cursor), self.limit)
    }
}

impl GetLinkOverviewInput {
    pub fn new(workspace_id: &str, target_document_id: &str, cursor: Option<&str>, limit: usize) -> (result: Self)
        ensures
            result@ == (workspace_id@, target_document_id@, opt_ref_view(cursor), limit),
    {
        Self {
            workspace_id: workspace_id.to_string(),
            target_document_id: target_document_id.to_string(),
            cursor: opt_to_string(cursor),
            limit: limit,
        }
    }

}

#[derive(Debug, Clone, Copy, PartialEq, Eq, Structural)]
pub enum GetLinkOverviewError {
    InvalidInput,
    ProjectionUnavailable,
}

impl GetLinkOverviewError {
    pub fn code(self) -> (result: &'static str)
        ensures
            result@ == match self {
                Self::InvalidInput => "link_overview.invalid_input"@,
                Self::ProjectionUnavailable => "link_overview.projection_unavailable"@,
            },
    {
        match self {
            Self::InvalidInput => "link_overview.invalid_input",
            Self::ProjectionUnavailable => "link_overview.projection_unavailable",
        }
    }
}

#[derive(Debug, Clone, Copy, PartialEq, Eq, Structural)]
pub struct GetLinkOverviewUsecase;

impl GetLinkOverviewUsecase {
    pub fn new() -> (result: Self)
        ensures
            result == (GetLinkOverviewUsecase),
    {
        GetLinkOverviewUsecase
    }
}

impl Default for GetLinkOverviewUsecase {
    fn default() -> (result: Self)
        ensures
            result == (GetLinkOverviewUsecase),
    {
        Self::new()
    }
}

#[derive(Debug, Clone, Copy, PartialEq, Eq, Structural)]
pub enum LocalGraphDirection {
    Incoming,
    Outgoing,
    Both,
}

#[derive(Debug, Clone, PartialEq, Eq)]
pub struct GetLocalKnowledgeGraphInput {
    workspace_id: String,
    center_document_id: String,
    depth: u8,
    direction: LocalGraphDirection,
    include_unresolved: bool,
    include_assets: bool,
    node_limit: usize,
    edge_limit: usize,
}

impl View for GetLocalKnowledgeGraphInput {
    type V = (Seq<char>, Seq<char>, u8, LocalGraphDirection, bool, bool, usize, usize);

    closed spec fn view(&self) -> (Seq<char>, Seq<char>, u8, LocalGraphDirection, bool, bool, usize, usize) {
        (self.workspace_id@, self.center_document_id@, self.depth, self.direction, self.include_unresolved, self.include_assets, self.node_limit, self.edge_limit)
    }
}

impl GetLocalKnowledgeGraphInput {
    pub fn new(workspace_id: &str, center_document_id: &str, depth: u8, direction: LocalGraphDirection, include_unresolved: bool, include_assets: bool, node_limit: usize, edge_limit: usize) -> (result: Self)
        ensures
            result@ == (workspace_id@, center_document_id@, depth, direction, include_unresolved, include_assets, node_limit, edge_limit),
    {
        Self {
            workspace_id: workspace_id.to_string(),
            center_document_id: center_document_id.to_string(),
            depth: depth,
            direction: direction,
            include_unresolved: include_unresolved,
            include_assets: include_assets,
            node_limit: node_limit,
            edge_limit: edge_limit,
        }
    }

}

#[derive(Debug, Clone, Copy, PartialEq, Eq, Structural)]
pub enum GetLocalKnowledgeGraphError {
    InvalidInput,
    ProjectionNotFound,
    ProjectionUnavailable,
    CorruptedProjection,
}

impl GetLocalKnowledgeGraphError {
    pub fn code(self) -> (result: &'static str)
        ensures
            result@ == match self {
                Self::InvalidInput => "graph.invalid_input"@,
                Self::ProjectionNotFound => "graph.projection_not_found"@,
                Self::ProjectionUnavailable => "graph.projection_unavailable"@,
                Self::CorruptedProjection => "graph.corrupted_projection"@,
            },
    {
        match self {
            Self::InvalidInput => "graph.invalid_input",
            Self::ProjectionNotFound => "graph.projection_not_found",
            Self::ProjectionUnavailable => "graph.projection_unavailable",
            Self::CorruptedProjection => "graph.corrupted_projection",
        }
    }

    pub fn retryable(self) -> (result: bool)
        ensures
            result == match self {
                Self::InvalidInput => false,
                Self::ProjectionNotFound => false,
                Self::ProjectionUnavailable => true,
                Self::CorruptedProjection => false,
            },
    {
        match self {
            Self::InvalidInput => false,
            Self::ProjectionNotFound => false,
            Self::ProjectionUnavailable => true,
            Self::CorruptedProjection => false,
        }
    }

}

#[derive(Debug, Clone, PartialEq, Eq)]
pub struct GetLocalKnowledgeGraphOutput {
    nodes: Vec<(String, LocalNodeClass)>,
    edges: Vec<(String, String)>,
    candidate_count: usize,
    filtered_count: usize,
    freshness_revision: String,
}

impl View for GetLocalKnowledgeGraphOutput {
    type V = (Seq<(Seq<char>, LocalNodeClass)>, Seq<(Seq<char>, Seq<char>)>, usize, usize, Seq<char>);

    closed spec fn view(&self) -> (Seq<(Seq<char>, LocalNodeClass)>, Seq<(Seq<char>, Seq<char>)>, usize, usize, Seq<char>) {
        (class_nodes_view(self.nodes@), pairs_view(self.edges@), self.candidate_count, self.filtered_count, self.freshness_revision@)
    }
}

impl GetLocalKnowledgeGraphOutput {
    pub fn nodes(&self) -> (result: &[(String, LocalNodeClass)])
        ensures
            class_nodes_view(result@) == self@.0,
    {
        self.nodes.as_slice()
    }

    pub fn edges(&self) -> (result: &[(String, String)])
        ensures
            pairs_view(result@) == self@.1,
    {
        self.edges.as_slice()
    }

    pub fn candidate_count(&self) -> (result: usize)
        ensures
            result == self@.2,
    {
        self.candidate_count
    }

    pub fn filtered_count(&self) -> (result: usize)
        ensures
            result == self@.3,
    {
        self.filtered_count
    }

    pub fn freshness_revision(&self) -> (result: &str)
        ensures
            result@ == self@.4,
    {
        self.freshness_revision.as_str()
    }

}

#[derive(Debug, Clone, Copy, PartialEq, Eq, Structural)]
pub struct GetLocalKnowledgeGraphUsecase;

impl GetLocalKnowledgeGraphUsecase {
    pub fn new() -> (result: Self)
        ensures
            result == (GetLocalKnowledgeGraphUsecase),
    {
        GetLocalKnowledgeGraphUsecase
    }
}

impl Default for GetLocalKnowledgeGraphUsecase {
    fn default() -> (result: Self)
        ensures
            result == (GetLocalKnowledgeGraphUsecase),
    {
        Self::new()
    }
}

#[derive(Debug, Clone, PartialEq, Eq)]
pub struct GraphLiteProjectionInput {
    workspace_id: String,
    center_document_id: String,
    known_document_ids: Vec<String>,
}

impl View for GraphLiteProjectionInput {
    type V = (Seq<char>, Seq<char>, Seq<Seq<char>>);

    closed spec fn view(&self) -> (Seq<char>, Seq<char>, Seq<Seq<char>>) {
        (self.workspace_id@, self.center_document_id@, strings_view(self.known_document_ids@))
    }
}

#[derive(Debug, Clone, PartialEq, Eq)]
pub struct GraphLiteProjectionOutput {
    nodes: Vec<GraphNode>,
    edges: Vec<GraphEdge>,
}

impl View for GraphLiteProjectionOutput {
    type V = (Seq<<GraphNode as View>::V>, Seq<<GraphEdge as View>::V>);

    closed spec fn view(&self) -> (Seq<<GraphNode as View>::V>, Seq<<GraphEdge as View>::V>) {
        (self.nodes@.map_values(|x: GraphNode| x@), self.edges@.map_values(|x: GraphEdge| x@))
    }
}

impl GraphLiteProjectionOutput {
    pub fn nodes(&self) -> (result: &[GraphNode])
        ensures
            result@.map_values(|x: GraphNode| x@) == self@.0,
    {
        self.nodes.as_slice()
    }

    pub fn edges(&self) -> (result: &[GraphEdge])
        ensures
            result@.map_values(|x: GraphEdge| x@) == self@.1,
    {
        self.edges.as_slice()
    }

}

#[derive(Debug, Clone, PartialEq, Eq)]
pub struct GraphNode {
    id: String,
    kind: GraphNodeKind,
}

impl View for GraphNode {
    type V = (Seq<char>, GraphNodeKind);

    closed spec fn view(&self) -> (Seq<char>, GraphNodeKind) {
        (self.id@, self.kind)
    }
}

impl GraphNode {
    pub fn id(&self) -> (result: &str)
        ensures
            result@ == self@.0,
    {
        self.id.as_str()
    }

    pub fn kind(&self) -> (result: GraphNodeKind)
        ensures
            result == self@.1,
    {
        self.kind
    }

}

#[derive(Debug, Clone, Copy, PartialEq, Eq, Structural)]
pub enum GraphNodeKind {
    Document,
    Unresolved,
    Missing,
}

#[derive(Debug, Clone, PartialEq, Eq)]
pub struct GraphEdge {
    source_id: String,
    target_id: String,
    kind: GraphEdgeKind,
}

impl View for GraphEdge {
    type V = (Seq<char>, Seq<char>, GraphEdgeKind);

    closed spec fn view(&self) -> (Seq<char>, Seq<char>, GraphEdgeKind) {
        (self.source_id@, self.target_id@, self.kind)
    }
}

impl GraphEdge {
    pub fn source_id(&self) -> (result: &str)
        ensures
            result@ == self@.0,
    {
        self.source_id.as_str()
    }

    pub fn target_id(&self) -> (result: &str)
        ensures
            result@ == self@.1,
    {
        self.target_id.as_str()
    }

    pub fn kind(&self) -> (result: GraphEdgeKind)
        ensures
            result == self@.2,
    {
        self.kind
    }

}

#[derive(Debug, Clone, Copy, PartialEq, Eq, Structural)]
pub enum GraphEdgeKind {
    Resolved,
    Unresolved,
    MissingTarget,
}

#[derive(Debug, Clone, Copy, PartialEq, Eq, Structural)]
pub struct GraphLiteProjectionUsecase;

impl GraphLiteProjectionUsecase {
    pub fn new() -> (result: Self)
        ensures
            result == (GraphLiteProjectionUsecase),
    {
        GraphLiteProjectionUsecase
    }
}

impl Default for GraphLiteProjectionUsecase {
    fn default() -> (result: Self)
        ensures
            result == (GraphLiteProjectionUsecase),
    {
        Self::new()
    }
}

#[derive(Debug, Clone, Copy, PartialEq, Eq, Structural)]
pub enum GraphLiteProjectionError {
    InvalidInput,
    StorageUnavailable,
}

impl GraphLiteProjectionError {
    pub fn code(self) -> (result: &'static str)
        ensures
            result@ == match self {
                Self::InvalidInput => "graph.invalid_input"@,
                Self::StorageUnavailable => "graph.storage_unavailable"@,
            },
    {
        match self {
            Self::InvalidInput => "graph.invalid_input",
            Self::StorageUnavailable => "graph.storage_unavailable",
        }
    }
}

#[derive(Debug, Clone, PartialEq, Eq)]
pub struct PermissionAwareGraphInput {
    workspace_id: String,
    actor_user_id: String,
    center_document_id: String,
}

impl View for PermissionAwareGraphInput {
    type V = (Seq<char>, Seq<char>, Seq<char>);

    closed spec fn view(&self) -> (Seq<char>, Seq<char>, Seq<char>) {
        (self.workspace_id@, self.actor_user_id@, self.center_document_id@)
    }
}

impl PermissionAwareGraphInput {
    pub fn new(workspace_id: &str, actor_user_id: &str, center_document_id: &str) -> (result: Self)
        ensures
            result@ == (workspace_id@, actor_user_id@, center_document_id@),
    {
        Self {
            workspace_id: workspace_id.to_string(),
            actor_user_id: actor_user_id.to_string(),
            center_document_id: center_document_id.to_string(),
        }
    }

}

#[derive(Debug, Clone, PartialEq, Eq)]
pub struct PermissionAwareGraphOutput {
    nodes: Vec<(String, Option<String>)>,
    edges: Vec<(String, String)>,
    stats: PermissionAwareGraphStats,
}

impl View for PermissionAwareGraphOutput {
    type V = (Seq<(Seq<char>, Option<Seq<char>>)>, Seq<(Seq<char>, Seq<char>)>, <PermissionAwareGraphStats as View>::V);

    closed spec fn view(&self) -> (Seq<(Seq<char>, Option<Seq<char>>)>, Seq<(Seq<char>, Seq<char>)>, <PermissionAwareGraphStats as View>::V) {
        (doc_nodes_view(self.nodes@), pairs_view(self.edges@), self.stats@)
    }
}

impl PermissionAwareGraphOutput {
    pub fn nodes(&self) -> (result: &[(String, Option<String>)])
        ensures
            doc_nodes_view(result@) == self@.0,
    {
        self.nodes.as_slice()
    }

    pub fn edges(&self) -> (result: &[(String, String)])
        ensures
            pairs_view(result@) == self@.1,
    {
        self.edges.as_slice()
    }

}

impl PermissionAwareGraphOutput {
    pub fn stats(&self) -> (result: PermissionAwareGraphStats)
        ensures
            result@ == self@.2,
    {
        self.stats
    }
}

#[derive(Debug, Clone, Copy, PartialEq, Eq)]
pub struct PermissionAwareGraphStats {
    candidate_count: usize,
    filtered_count: usize,
}

impl View for PermissionAwareGraphStats {
    type V = (usize, usize);

    closed spec fn view(&self) -> (usize, usize) {
        (self.candidate_count, self.filtered_count)
    }
}

impl PermissionAwareGraphStats {
    pub fn new(candidate_count: usize, filtered_count: usize) -> (result: Self)
        ensures
            result@ == (candidate_count, filtered_count),
    {
        Self {
            candidate_count: candidate_count,
            filtered_count: filtered_count,
        }
    }

    pub fn candidate_count(self) -> (result: usize)
        ensures
            result == self@.0,
    {
        self.candidate_count
    }

    pub fn filtered_count(self) -> (result: usize)
        ensures
            result == self@.1,
    {
        self.filtered_count
    }

}

#[derive(Debug, Clone, Copy, PartialEq, Eq, Structural)]
pub struct PermissionAwareGraphUsecase;

impl PermissionAwareGraphUsecase {
    pub fn new() -> (result: Self)
        ensures
            result == (PermissionAwareGraphUsecase),
    {
        PermissionAwareGraphUsecase
    }
}

impl Default for PermissionAwareGraphUsecase {
    fn default() -> (result: Self)
        ensures
            result == (PermissionAwareGraphUsecase),
    {
        Self::new()
    }
}

#[derive(Debug, Clone, Copy, PartialEq, Eq, Structural)]
pub enum PermissionAwareGraphError {
    InvalidInput,
    ProjectionNotFound,
    PermissionUnavailable,
    ProjectionUnavailable,
    CorruptedProjection,
    CenterDocumentDenied,
}

impl PermissionAwareGraphError {
    pub fn code(self) -> (result: &'static str)
        ensures
            result@ == match self {
                Self::InvalidInput => "graph.invalid_input"@,
                Self::ProjectionNotFound => "graph.projection_not_found"@,
                Self::PermissionUnavailable => "graph.permission_unavailable"@,
                Self::ProjectionUnavailable => "graph.projection_unavailable"@,
                Self::CorruptedProjection => "graph.corrupted_projection"@,
                Self::CenterDocumentDenied => "graph.center_document_denied"@,
            },
    {
        match self {
            Self::InvalidInput => "graph.invalid_input",
            Self::ProjectionNotFound => "graph.projection_not_found",
            Self::PermissionUnavailable => "graph.permission_unavailable",
            Self::ProjectionUnavailable => "graph.projection_unavailable",
            Self::CorruptedProjection => "graph.corrupted_projection",
            Self::CenterDocumentDenied => "graph.center_document_denied",
        }
    }
}

impl GraphLiteProjectionInput {
    pub fn new(workspace_id: &str, center_document_id: &str, known_document_ids: Vec<&str>) -> (result: Self)
        ensures
            result@ == (workspace_id@, center_document_id@, known_document_ids@.map_values(|s: &str| s@)),
    {
        let mut known: Vec<String> = Vec::new();
        let mut i: usize = 0;
        while i < known_document_ids.len()
            invariant
                i <= known_document_ids.len(),
                strings_view(known@) =~= known_document_ids@.subrange(0, i as int).map_values(|s: &str| s@),
            decreases known_document_ids.len() - i,
        {
            let ghost before = known@;
            known.push(known_document_ids[i].to_string());
            assert(strings_view(known@) =~= strings_view(before).push(known_document_ids@[i as int]@));
            assert(known_document_ids@.subrange(0, i + 1) =~= known_document_ids@.subrange(0, i as int).push(known_document_ids@[i as int]));
            i = i + 1;
        }
        assert(known_document_ids@.subrange(0, known_document_ids.len() as int) =~= known_document_ids@);
        Self {
            workspace_id: workspace_id.to_string(),
            center_document_id: center_document_id.to_string(),
            known_document_ids: known,
        }
    }
}

/// The offset a link-overview cursor stands for: no cursor starts at the
/// top, and a cursor that is no `usize` is refused.
pub fn link_overview_offset(cursor: Option<&str>) -> (result: Result<usize, GetLinkOverviewError>)
    ensures
        match opt_ref_view(cursor) {
            None => result == Ok::<usize, GetLinkOverviewError>(0),
            Some(text) => match decimal_text_value(text) {
                Some(value) => if value <= usize::MAX {
                    result == Ok::<usize, GetLinkOverviewError>(value as usize)
                } else {
                    result == Err::<usize, GetLinkOverviewError>(GetLinkOverviewError::InvalidInput)
                },
                None => result == Err::<usize, GetLinkOverviewError>(GetLinkOverviewError::InvalidInput),
            },
        },
{
    match cursor {
        None => Ok(0),
        Some(text) => match parse_decimal(text, usize::MAX as u64) {
            Some(offset) => Ok(offset as usize),
            None => Err(GetLinkOverviewError::InvalidInput),
        },
    }
}

impl GetLocalKnowledgeGraphInput {
    /// A local graph reaches one or two links deep and keeps at least one
    /// node and one edge.
    pub fn check_bounds(&self) -> (result: Result<(), GetLocalKnowledgeGraphError>)
        ensures
            result is Ok <==> ((self@.2 == 1 || self@.2 == 2) && self@.6 != 0 && self@.7 != 0),
            result is Err ==> result == Err::<(), GetLocalKnowledgeGraphError>(GetLocalKnowledgeGraphError::InvalidInput),
    {
        if !(self.depth == 1 || self.depth == 2) || self.node_limit == 0 || self.edge_limit == 0 {
            return Err(GetLocalKnowledgeGraphError::InvalidInput);
        }
        Ok(())
    }
}

/// The nodes of a lite graph, each as its identifier and kind.
pub open spec fn node_views(nodes: Seq<GraphNode>) -> Seq<(Seq<char>, GraphNodeKind)> {
    nodes.map_values(|n: GraphNode| n@)
}

/// The edges of a lite graph, each as its source, target and kind.
pub open spec fn edge_views(edges: Seq<GraphEdge>) -> Seq<(Seq<char>, Seq<char>, GraphEdgeKind)> {
    edges.map_values(|e: GraphEdge| e@)
}

/// The position of the first node with the identifier, or -1 when there is
/// none.
pub open spec fn node_index(nodes: Seq<(Seq<char>, GraphNodeKind)>, id: Seq<char>) -> int
    decreases nodes.len(),
{
    if nodes.len() == 0 {
        -1
    } else if nodes[0].0 == id {
        0
    } else {
        let rest = node_index(nodes.drop_first(), id);
        if rest < 0 {
            -1
        } else {
            rest + 1
        }
    }
}

/// Whether some node has the identifier.
pub open spec fn has_node(nodes: Seq<(Seq<char>, GraphNodeKind)>, id: Seq<char>) -> bool {
    exists|i: int| 0 <= i < nodes.len() && #[trigger] nodes[i].0 == id
}

/// The nodes after a node with the identifier and kind is recorded: a new
/// identifier is appended; a known one keeps its place, and its kind only
/// changes from missing to document.
pub open spec fn with_node(nodes: Seq<(Seq<char>, GraphNodeKind)>, id: Seq<char>, kind: GraphNodeKind) -> Seq<(Seq<char>, GraphNodeKind)> {
    let i = node_index(nodes, id);
    if i < 0 {
        nodes.push((id, kind))
    } else if nodes[i].1 == GraphNodeKind::Missing && kind == GraphNodeKind::Document {
        nodes.update(i, (id, kind))
    } else {
        nodes
    }
}

proof fn lemma_node_index_first(nodes: Seq<(Seq<char>, GraphNodeKind)>, id: Seq<char>, i: int)
    requires
        0 <= i < nodes.len(),
        nodes[i].0 == id,
        forall|j: int| 0 <= j < i ==> nodes[j].0 != id,
    ensures
        node_index(nodes, id) == i,
    decreases i,
{
    if i > 0 {
        lemma_node_index_first(nodes.drop_first(), id, i - 1);
    }
}

proof fn lemma_node_index_absent(nodes: Seq<(Seq<char>, GraphNodeKind)>, id: Seq<char>)
    requires
        forall|j: int| 0 <= j < nodes.len() ==> nodes[j].0 != id,
    ensures
        node_index(nodes, id) == -1,
    decreases nodes.len(),
{
    if nodes.len() > 0 {
        lemma_node_index_absent(nodes.drop_first(), id);
    }
}

proof fn lemma_node_index_found(nodes: Seq<(Seq<char>, GraphNodeKind)>, id: Seq<char>)
    ensures
        node_index(nodes, id) >= 0 ==> node_index(nodes, id) < nodes.len() && nodes[node_index(nodes, id)].0 == id,
        node_index(nodes, id) < 0 ==> node_index(nodes, id) == -1 && !has_node(nodes, id),
    decreases nodes.len(),
{
    if nodes.len() > 0 {
        lemma_node_index_found(nodes.drop_first(), id);
        if node_index(nodes, id) < 0 {
            assert forall|i: int| 0 <= i < nodes.len() implies #[trigger] nodes[i].0 != id by {
                if i > 0 {
                    assert(nodes.drop_first()[i - 1] == nodes[i]);
                }
            }
        }
    }
}

/// Records a node, as [`with_node`] says.
pub fn push_node(nodes: &mut Vec<GraphNode>, id: &str, kind: GraphNodeKind)
    ensures
        node_views(final(nodes)@) == with_node(node_views(old(nodes)@), id@, kind),
{
    let ghost before = node_views(nodes@);
    let mut i: usize = 0;
    while i < nodes.len()
        invariant
            i <= nodes.len(),
            nodes@ == old(nodes)@,
            before == node_views(nodes@),
            forall|j: int| 0 <= j < i ==> before[j].0 != id@,
        decreases nodes.len() - i,
    {
        if str_equal(nodes[i].id.as_str(), id) {
            proof {
                lemma_node_index_first(before, id@, i as int);
                assert(before[i as int] == nodes@[i as int]@);
            }
            if nodes[i].kind == GraphNodeKind::Missing && kind == GraphNodeKind::Document {
                let updated = GraphNode { id: id.to_string(), kind };
                nodes.set(i, updated);
                assert(node_views(nodes@) =~= before.update(i as int, (id@, kind)));
            }
            return;
        }
        i = i + 1;
    }
    proof {
        lemma_node_index_absent(before, id@);
    }
    nodes.push(GraphNode { id: id.to_string(), kind });
    assert(node_views(nodes@) =~= before.push((id@, kind)));
}

/// The kind of a document node: a document when it is known, else missing.
pub open spec fn document_kind(known: Seq<Seq<char>>, id: Seq<char>) -> GraphNodeKind {
    if known.contains(id) {
        GraphNodeKind::Document
    } else {
        GraphNodeKind::Missing
    }
}

pub fn document_node_kind(document_id: &str, known_document_ids: &[String]) -> (result: GraphNodeKind)
    ensures
        result == document_kind(strings_view(known_document_ids@), document_id@),
{
    let ghost known = strings_view(known_document_ids@);
    let mut i: usize = 0;
    while i < known_document_ids.len()
        invariant
            i <= known_document_ids.len(),
            known == strings_view(known_document_ids@),
            forall|j: int| 0 <= j < i ==> known[j] != document_id@,
        decreases known_document_ids.len() - i,
    {
        if str_equal(known_document_ids[i].as_str(), document_id) {
            assert(known[i as int] == document_id@);
            return GraphNodeKind::Document;
        }
        i = i + 1;
    }
    GraphNodeKind::Missing
}

/// A lite graph as its nodes and edges.
pub type LiteGraphView = (Seq<(Seq<char>, GraphNodeKind)>, Seq<(Seq<char>, Seq<char>, GraphEdgeKind)>);

/// The graph after a link from `link.0` to the document `link.1`: both
/// documents become nodes, and the edge is marked when its target is missing.
pub open spec fn backlink_step(graph: LiteGraphView, link: (Seq<char>, Seq<char>), known: Seq<Seq<char>>) -> LiteGraphView {
    let source_kind = document_kind(known, link.0);
    let target_kind = document_kind(known, link.1);
    (
        with_node(with_node(graph.0, link.0, source_kind), link.1, target_kind),
        graph.1.push((link.0, link.1, if target_kind == GraphNodeKind::Missing {
            GraphEdgeKind::MissingTarget
        } else {
            GraphEdgeKind::Resolved
        })),
    )
}

/// The graph after a link from `link.0` whose target is the unresolved
/// `link.1`; a link whose target resolved (`None`) adds nothing.
pub open spec fn unresolved_step(graph: LiteGraphView, link: (Seq<char>, Option<Seq<char>>)) -> LiteGraphView {
    match link.1 {
        None => graph,
        Some(slug) => (
            with_node(with_node(graph.0, link.0, GraphNodeKind::Document), slug, GraphNodeKind::Unresolved),
            graph.1.push((link.0, slug, GraphEdgeKind::Unresolved)),
        ),
    }
}

/// The graph after the links, taken in order.
pub open spec fn with_backlinks(graph: LiteGraphView, links: Seq<(Seq<char>, Seq<char>)>, known: Seq<Seq<char>>) -> LiteGraphView
    decreases links.len(),
{
    if links.len() == 0 {
        graph
    } else {
        backlink_step(with_backlinks(graph, links.drop_last(), known), links.last(), known)
    }
}

/// The graph after the unresolved links, taken in order.
pub open spec fn with_unresolved_links(graph: LiteGraphView, links: Seq<(Seq<char>, Option<Seq<char>>)>) -> LiteGraphView
    decreases links.len(),
{
    if links.len() == 0 {
        graph
    } else {
        unresolved_step(with_unresolved_links(graph, links.drop_last()), links.last())
    }
}

/// The lite graph of a document: the document itself, then its outgoing
/// links (when the index knows the document: its links to documents, then
/// its unresolved links), then the links that point to it.
pub open spec fn lite_graph(
    center: Seq<char>,
    known: Seq<Seq<char>>,
    outgoing: Option<(Seq<(Seq<char>, Seq<char>)>, Seq<(Seq<char>, Option<Seq<char>>)>)>,
    incoming: Seq<(Seq<char>, Seq<char>)>,
) -> LiteGraphView {
    let start: LiteGraphView = (seq![(center, GraphNodeKind::Document)], Seq::empty());
    let linked = match outgoing {
        Some(links) => with_unresolved_links(with_backlinks(start, links.0, known), links.1),
        None => start,
    };
    with_backlinks(linked, incoming, known)
}

/// Records a link to a document, as [`backlink_step`] says.
pub fn push_backlink_edge(source_id: &str, target_id: &str, known_document_ids: &[String], nodes: &mut Vec<GraphNode>, edges: &mut Vec<GraphEdge>)
    ensures
        (node_views(final(nodes)@), edge_views(final(edges)@)) == backlink_step(
            (node_views(old(nodes)@), edge_views(old(edges)@)),
            (source_id@, target_id@),
            strings_view(known_document_ids@),
        ),
{
    let source_kind = document_node_kind(source_id, known_document_ids);
    let target_kind = document_node_kind(target_id, known_document_ids);
    push_node(nodes, source_id, source_kind);
    push_node(nodes, target_id, target_kind);
    let kind = if target_kind == GraphNodeKind::Missing {
        GraphEdgeKind::MissingTarget
    } else {
        GraphEdgeKind::Resolved
    };
    let ghost before = edge_views(edges@);
    edges.push(GraphEdge { source_id: source_id.to_string(), target_id: target_id.to_string(), kind });
    assert(edge_views(edges@) =~= before.push((source_id@, target_id@, kind)));
}

/// Records a link to an unresolved target, as [`unresolved_step`] says.
pub fn push_unresolved_edge(source_id: &str, target_slug: Option<&str>, nodes: &mut Vec<GraphNode>, edges: &mut Vec<GraphEdge>)
    ensures
        (node_views(final(nodes)@), edge_views(final(edges)@)) == unresolved_step(
            (node_views(old(nodes)@), edge_views(old(edges)@)),
            (source_id@, opt_ref_view(target_slug)),
        ),
{
    match target_slug {
        None => {},
        Some(target_id) => {
            push_node(nodes, source_id, GraphNodeKind::Document);
            push_node(nodes, target_id, GraphNodeKind::Unresolved);
            let ghost before = edge_views(edges@);
            edges.push(GraphEdge { source_id: source_id.to_string(), target_id: target_id.to_string(), kind: GraphEdgeKind::Unresolved });
            assert(edge_views(edges@) =~= before.push((source_id@, target_id@, GraphEdgeKind::Unresolved)));
        },
    }
}

/// The links of a list, each as (source, target), as views.
pub open spec fn links_view(links: Seq<(String, String)>) -> Seq<(Seq<char>, Seq<char>)> {
    links.map_values(|l: (String, String)| (l.0@, l.1@))
}

/// The unresolved links of a list, each as (source, target when unresolved).
pub open spec fn unresolved_links_view(links: Seq<(String, Option<String>)>) -> Seq<(Seq<char>, Option<Seq<char>>)> {
    links.map_values(|l: (String, Option<String>)| (l.0@, opt_str_view(l.1)))
}

fn push_backlink_edges(links: &[(String, String)], known_document_ids: &[String], nodes: &mut Vec<GraphNode>, edges: &mut Vec<GraphEdge>)
    ensures
        (node_views(final(nodes)@), edge_views(final(edges)@)) == with_backlinks(
            (node_views(old(nodes)@), edge_views(old(edges)@)),
            links_view(links@),
            strings_view(known_document_ids@),
        ),
{
    let ghost start: LiteGraphView = (node_views(nodes@), edge_views(edges@));
    let ghost all = links_view(links@);
    let mut i: usize = 0;
    assert(all.subrange(0, 0) =~= Seq::<(Seq<char>, Seq<char>)>::empty());
    while i < links.len()
        invariant
            i <= links.len(),
            all == links_view(links@),
            (node_views(nodes@), edge_views(edges@)) == with_backlinks(start, all.subrange(0, i as int), strings_view(known_document_ids@)),
        decreases links.len() - i,
    {
        let (source_id, target_id) = &links[i];
        push_backlink_edge(source_id.as_str(), target_id.as_str(), known_document_ids, nodes, edges);
        assert(all.subrange(0, i + 1).drop_last() =~= all.subrange(0, i as int));
        i = i + 1;
    }
    assert(all.subrange(0, links.len() as int) =~= all);
}

fn push_unresolved_edges(links: &[(String, Option<String>)], nodes: &mut Vec<GraphNode>, edges: &mut Vec<GraphEdge>)
    ensures
        (node_views(final(nodes)@), edge_views(final(edges)@)) == with_unresolved_links(
            (node_views(old(nodes)@), edge_views(old(edges)@)),
            unresolved_links_view(links@),
        ),
{
    let ghost start: LiteGraphView = (node_views(nodes@), edge_views(edges@));
    let ghost all = unresolved_links_view(links@);
    let mut i: usize = 0;
    assert(all.subrange(0, 0) =~= Seq::<(Seq<char>, Option<Seq<char>>)>::empty());
    while i < links.len()
        invariant
            i <= links.len(),
            all == unresolved_links_view(links@),
            (node_views(nodes@), edge_views(edges@)) == with_unresolved_links(start, all.subrange(0, i as int)),
        decreases links.len() - i,
    {
        let (source_id, target) = &links[i];
        let slug = match target {
            Some(t) => Some(t.as_str()),
            None => None,
        };
        push_unresolved_edge(source_id.as_str(), slug, nodes, edges);
        assert(all.subrange(0, i + 1).drop_last() =~= all.subrange(0, i as int));
        i = i + 1;
    }
    assert(all.subrange(0, links.len() as int) =~= all);
}

/// Builds the lite graph of a document from what the link index holds: the
/// known documents, the document's own links when the index has them (links
/// to documents, then links with their unresolved target, `None` where the
/// target resolved), and the links that point to it.
pub fn project_graph_lite(
    center_document_id: &str,
    known_document_ids: &[String],
    outgoing: Option<(&[(String, String)], &[(String, Option<String>)])>,
    incoming: &[(String, String)],
) -> (result: GraphLiteProjectionOutput)
    ensures
        result@ == lite_graph(
            center_document_id@,
            strings_view(known_document_ids@),
            match outgoing {
                Some(links) => Some((links_view(links.0@), unresolved_links_view(links.1@))),
                None => None,
            },
            links_view(incoming@),
        ),
{
    let mut nodes: Vec<GraphNode> = Vec::new();
    let mut edges: Vec<GraphEdge> = Vec::new();
    push_node(&mut nodes, center_document_id, GraphNodeKind::Document);
    assert(node_views(nodes@) =~= seq![(center_document_id@, GraphNodeKind::Document)]);
    assert(edge_views(edges@) =~= Seq::<(Seq<char>, Seq<char>, GraphEdgeKind)>::empty());
    match outgoing {
        Some((backlinks, unresolved)) => {
            push_backlink_edges(backlinks, known_document_ids, &mut nodes, &mut edges);
            push_unresolved_edges(unresolved, &mut nodes, &mut edges);
        },
        None => {},
    }
    push_backlink_edges(incoming, known_document_ids, &mut nodes, &mut edges);
    GraphLiteProjectionOutput { nodes, edges }
}

/// A lite graph is well formed when no two nodes share an identifier and
/// every edge joins two of its nodes.
pub open spec fn lite_graph_well_formed(graph: LiteGraphView) -> bool {
    &&& forall|i: int, j: int| 0 <= i < j < graph.0.len() ==> graph.0[i].0 != graph.0[j].0
    &&& forall|k: int| 0 <= k < graph.1.len() ==> has_node(graph.0, #[trigger] graph.1[k].0) && has_node(graph.0, graph.1[k].1)
}

proof fn lemma_with_node(nodes: Seq<(Seq<char>, GraphNodeKind)>, id: Seq<char>, kind: GraphNodeKind)
    requires
        forall|i: int, j: int| 0 <= i < j < nodes.len() ==> nodes[i].0 != nodes[j].0,
    ensures
        forall|i: int, j: int| 0 <= i < j < with_node(nodes, id, kind).len() ==> with_node(nodes, id, kind)[i].0 != with_node(nodes, id, kind)[j].0,
        forall|x: Seq<char>| has_node(nodes, x) ==> has_node(with_node(nodes, id, kind), x),
        has_node(with_node(nodes, id, kind), id),
        with_node(nodes, id, kind).len() >= nodes.len(),
        nodes.len() > 0 && nodes[0].1 == GraphNodeKind::Document ==> with_node(nodes, id, kind)[0] == nodes[0],
{
    lemma_node_index_found(nodes, id);
    let result = with_node(nodes, id, kind);
    let i = node_index(nodes, id);
    assert forall|x: Seq<char>| has_node(nodes, x) implies has_node(result, x) by {
        let k = choose|k: int| 0 <= k < nodes.len() && #[trigger] nodes[k].0 == x;
        assert(result[k].0 == x);
    }
    if i < 0 {
        assert(result[nodes.len() as int].0 == id);
    } else {
        assert(result[i].0 == id);
    }
}

#[verifier::spinoff_prover]
proof fn lemma_backlinks_well_formed(graph: LiteGraphView, links: Seq<(Seq<char>, Seq<char>)>, known: Seq<Seq<char>>)
    requires
        lite_graph_well_formed(graph),
        graph.0.len() > 0,
        graph.0[0].1 == GraphNodeKind::Document,
    ensures
        lite_graph_well_formed(with_backlinks(graph, links, known)),
        with_backlinks(graph, links, known).0.len() > 0,
        with_backlinks(graph, links, known).0[0] == graph.0[0],
    decreases links.len(),
{
    if links.len() > 0 {
        lemma_backlinks_well_formed(graph, links.drop_last(), known);
        let before = with_backlinks(graph, links.drop_last(), known);
        let link = links.last();
        let once = with_node(before.0, link.0, document_kind(known, link.0));
        lemma_with_node(before.0, link.0, document_kind(known, link.0));
        lemma_with_node(once, link.1, document_kind(known, link.1));
        let after = with_backlinks(graph, links, known);
        assert forall|k: int| 0 <= k < after.1.len() implies has_node(after.0, #[trigger] after.1[k].0) && has_node(after.0, after.1[k].1) by {
            if k < before.1.len() {
                assert(after.1[k] == before.1[k]);
            }
        }
    }
}

#[verifier::spinoff_prover]
proof fn lemma_unresolved_well_formed(graph: LiteGraphView, links: Seq<(Seq<char>, Option<Seq<char>>)>)
    requires
        lite_graph_well_formed(graph),
        graph.0.len() > 0,
        graph.0[0].1 == GraphNodeKind::Document,
    ensures
        lite_graph_well_formed(with_unresolved_links(graph, links)),
        with_unresolved_links(graph, links).0.len() > 0,
        with_unresolved_links(graph, links).0[0] == graph.0[0],
    decreases links.len(),
{
    if links.len() > 0 {
        lemma_unresolved_well_formed(graph, links.drop_last());
        let before = with_unresolved_links(graph, links.drop_last());
        let link = links.last();
        if let Some(slug) = link.1 {
            let once = with_node(before.0, link.0, GraphNodeKind::Document);
            lemma_with_node(before.0, link.0, GraphNodeKind::Document);
            lemma_with_node(once, slug, GraphNodeKind::Unresolved);
            let after = with_unresolved_links(graph, links);
            assert forall|k: int| 0 <= k < after.1.len() implies has_node(after.0, #[trigger] after.1[k].0) && has_node(after.0, after.1[k].1) by {
                if k < before.1.len() {
                    assert(after.1[k] == before.1[k]);
                }
            }
        }
    }
}

/// A lite graph never names a node twice, every edge joins two of its
/// nodes, and its first node is the document itself, as a document.
pub proof fn lemma_lite_graph_well_formed(
    center: Seq<char>,
    known: Seq<Seq<char>>,
    outgoing: Option<(Seq<(Seq<char>, Seq<char>)>, Seq<(Seq<char>, Option<Seq<char>>)>)>,
    incoming: Seq<(Seq<char>, Seq<char>)>,
)
    ensures
        lite_graph_well_formed(lite_graph(center, known, outgoing, incoming)),
        lite_graph(center, known, outgoing, incoming).0.len() > 0,
        lite_graph(center, known, outgoing, incoming).0[0] == (center, GraphNodeKind::Document),
{
    let start: LiteGraphView = (seq![(center, GraphNodeKind::Document)], Seq::empty());
    let linked = match outgoing {
        Some(links) => {
            lemma_backlinks_well_formed(start, links.0, known);
            lemma_unresolved_well_formed(with_backlinks(start, links.0, known), links.1);
            with_unresolved_links(with_backlinks(start, links.0, known), links.1)
        },
        None => start,
    };
    lemma_backlinks_well_formed(linked, incoming, known);
}

/// What the local graph reads of a node's kind.
#[derive(Debug, Clone, Copy, PartialEq, Eq, Structural)]
pub enum LocalNodeClass {
    UnresolvedLink,
    Attachment,
    Other,
}

/// Whether the local graph may show a node of the class.
pub open spec fn class_shown(class: LocalNodeClass, include_unresolved: bool, include_assets: bool) -> bool {
    match class {
        LocalNodeClass::UnresolvedLink => include_unresolved,
        LocalNodeClass::Attachment => include_assets,
        LocalNodeClass::Other => true,
    }
}

/// The nodes of a projection, each as its identifier and class.
pub open spec fn class_nodes_view(nodes: Seq<(String, LocalNodeClass)>) -> Seq<(Seq<char>, LocalNodeClass)> {
    nodes.map_values(|n: (String, LocalNodeClass)| (n.0@, n.1))
}

/// Whether some node with the identifier may be shown.
pub open spec fn shown_id(nodes: Seq<(Seq<char>, LocalNodeClass)>, id: Seq<char>, include_unresolved: bool, include_assets: bool) -> bool {
    exists|i: int| 0 <= i < nodes.len() && #[trigger] nodes[i].0 == id && class_shown(nodes[i].1, include_unresolved, include_assets)
}

/// Whether an edge points the way the request asks, seen from the center.
pub open spec fn faces(direction: LocalGraphDirection, center: Seq<char>, edge: (Seq<char>, Seq<char>)) -> bool {
    match direction {
        LocalGraphDirection::Incoming => edge.1 == center,
        LocalGraphDirection::Outgoing => edge.0 == center,
        LocalGraphDirection::Both => true,
    }
}

/// Whether the local graph may show an edge: both ends may be shown and it
/// points the asked way.
pub open spec fn edge_shown(
    nodes: Seq<(Seq<char>, LocalNodeClass)>,
    center: Seq<char>,
    direction: LocalGraphDirection,
    include_unresolved: bool,
    include_assets: bool,
) -> spec_fn((Seq<char>, Seq<char>)) -> bool {
    |e: (Seq<char>, Seq<char>)| shown_id(nodes, e.0, include_unresolved, include_assets)
        && shown_id(nodes, e.1, include_unresolved, include_assets) && faces(direction, center, e)
}

/// The first `limit` elements, or all when there are fewer.
pub open spec fn capped<A>(s: Seq<A>, limit: nat) -> Seq<A> {
    if s.len() <= limit {
        s
    } else {
        s.subrange(0, limit as int)
    }
}

/// Whether the identifier is the center or an end of a chosen edge.
pub open spec fn referenced(center: Seq<char>, chosen: Seq<(Seq<char>, Seq<char>)>, id: Seq<char>) -> bool {
    id == center || exists|k: int| #![trigger chosen[k]] 0 <= k < chosen.len() && (chosen[k].0 == id || chosen[k].1 == id)
}

/// The identifiers kept, the center first, then, in the order of the nodes,
/// each referenced identifier not yet kept, while fewer than `limit` are kept.
pub open spec fn retained_ids(nodes: Seq<(Seq<char>, LocalNodeClass)>, center: Seq<char>, chosen: Seq<(Seq<char>, Seq<char>)>, limit: nat) -> Seq<Seq<char>>
    decreases nodes.len(),
{
    if nodes.len() == 0 {
        seq![center]
    } else {
        let kept = retained_ids(nodes.drop_last(), center, chosen, limit);
        let id = nodes.last().0;
        if kept.len() < limit && referenced(center, chosen, id) && !kept.contains(id) {
            kept.push(id)
        } else {
            kept
        }
    }
}

/// The local graph of a projection: its nodes and edges, how many nodes it
/// had and how many were left out.
pub open spec fn local_graph(
    center: Seq<char>,
    nodes: Seq<(Seq<char>, LocalNodeClass)>,
    edges: Seq<(Seq<char>, Seq<char>)>,
    direction: LocalGraphDirection,
    include_unresolved: bool,
    include_assets: bool,
    node_limit: nat,
    edge_limit: nat,
) -> (Seq<(Seq<char>, LocalNodeClass)>, Seq<(Seq<char>, Seq<char>)>) {
    let chosen = capped(edges.filter(edge_shown(nodes, center, direction, include_unresolved, include_assets)), edge_limit);
    let kept = retained_ids(nodes, center, chosen, node_limit);
    (
        nodes.filter(|n: (Seq<char>, LocalNodeClass)| kept.contains(n.0)),
        chosen.filter(|e: (Seq<char>, Seq<char>)| kept.contains(e.0) && kept.contains(e.1)),
    )
}

fn listed(list: &Vec<String>, id: &str) -> (result: bool)
    ensures
        result == strings_view(list@).contains(id@),
{
    let mut i: usize = 0;
    while i < list.len()
        invariant
            i <= list.len(),
            forall|j: int| 0 <= j < i ==> list@[j]@ != id@,
        decreases list.len() - i,
    {
        if str_equal(list[i].as_str(), id) {
            assert(strings_view(list@)[i as int] == id@);
            return true;
        }
        i = i + 1;
    }
    assert forall|j: int| 0 <= j < list@.len() implies strings_view(list@)[j] != id@ by {
        assert(strings_view(list@)[j] == list@[j]@);
    }
    false
}

fn id_shown(nodes: &[(String, LocalNodeClass)], id: &str, include_unresolved: bool, include_assets: bool) -> (result: bool)
    ensures
        result == shown_id(class_nodes_view(nodes@), id@, include_unresolved, include_assets),
{
    let ghost view = class_nodes_view(nodes@);
    let mut i: usize = 0;
    while i < nodes.len()
        invariant
            i <= nodes.len(),
            view == class_nodes_view(nodes@),
            forall|j: int| 0 <= j < i ==> !(#[trigger] view[j].0 == id@ && class_shown(view[j].1, include_unresolved, include_assets)),
        decreases nodes.len() - i,
    {
        let (node_id, class) = &nodes[i];
        let shown = match class {
            LocalNodeClass::UnresolvedLink => include_unresolved,
            LocalNodeClass::Attachment => include_assets,
            LocalNodeClass::Other => true,
        };
        assert(view[i as int] == (node_id@, *class));
        if shown && str_equal(node_id.as_str(), id) {
            assert(view[i as int].0 == id@ && class_shown(view[i as int].1, include_unresolved, include_assets));
            return true;
        }
        i = i + 1;
    }
    false
}

fn is_referenced(center: &str, chosen: &Vec<(String, String)>, id: &str) -> (result: bool)
    ensures
        result == referenced(center@, pairs_view(chosen@), id@),
{
    if str_equal(center, id) {
        return true;
    }
    let ghost view = pairs_view(chosen@);
    let mut k: usize = 0;
    while k < chosen.len()
        invariant
            k <= chosen.len(),
            view == pairs_view(chosen@),
            center@ != id@,
            forall|j: int| #![trigger view[j]] 0 <= j < k ==> !(view[j].0 == id@ || view[j].1 == id@),
        decreases chosen.len() - k,
    {
        let pair = &chosen[k];
        assert(view[k as int] == (pair.0@, pair.1@));
        let hit_source = str_equal(pair.0.as_str(), id);
        let hit_target = str_equal(pair.1.as_str(), id);
        if hit_source || hit_target {
            assert(view[k as int].0 == id@ || view[k as int].1 == id@);
            return true;
        }
        k = k + 1;
    }
    false
}


/// The local graph keeps only what the request asks for: each of its edges
/// is an edge of the projection whose two ends are nodes of included
/// classes (every class but unresolved links and attachments, which need
/// their flags), and which points the asked way: into the center for
/// incoming, out of the center for outgoing; there are at most `edge_limit`
/// of them, and each of its nodes is a node of the projection.
pub proof fn lemma_local_graph_keeps_what_is_asked(
    center: Seq<char>,
    nodes: Seq<(Seq<char>, LocalNodeClass)>,
    edges: Seq<(Seq<char>, Seq<char>)>,
    direction: LocalGraphDirection,
    include_unresolved: bool,
    include_assets: bool,
    node_limit: nat,
    edge_limit: nat,
)
    ensures
        ({
            let graph = local_graph(center, nodes, edges, direction, include_unresolved, include_assets, node_limit, edge_limit);
            &&& graph.1.len() <= edge_limit
            &&& forall|k: int| 0 <= k < graph.1.len() ==> {
                let e = #[trigger] graph.1[k];
                &&& edges.contains(e)
                &&& direction == LocalGraphDirection::Incoming ==> e.1 == center
                &&& direction == LocalGraphDirection::Outgoing ==> e.0 == center
                &&& exists|a: int| 0 <= a < nodes.len() && nodes[a].0 == e.0 && (nodes[a].1 == LocalNodeClass::Other
                    || (nodes[a].1 == LocalNodeClass::UnresolvedLink && include_unresolved)
                    || (nodes[a].1 == LocalNodeClass::Attachment && include_assets))
                &&& exists|b: int| 0 <= b < nodes.len() && nodes[b].0 == e.1 && (nodes[b].1 == LocalNodeClass::Other
                    || (nodes[b].1 == LocalNodeClass::UnresolvedLink && include_unresolved)
                    || (nodes[b].1 == LocalNodeClass::Attachment && include_assets))
            }
            &&& forall|k: int| 0 <= k < graph.0.len() ==> nodes.contains(#[trigger] graph.0[k])
        }),
{
    broadcast use vstd::seq_lib::group_filter_ensures;
    let pick = edge_shown(nodes, center, direction, include_unresolved, include_assets);
    let all = edges.filter(pick);
    let chosen = capped(all, edge_limit);
    let kept = retained_ids(nodes, center, chosen, node_limit);
    let keep_node = |n: (Seq<char>, LocalNodeClass)| kept.contains(n.0);
    let keep_edge = |e: (Seq<char>, Seq<char>)| kept.contains(e.0) && kept.contains(e.1);
    let graph = local_graph(center, nodes, edges, direction, include_unresolved, include_assets, node_limit, edge_limit);
    assert(graph.1 == chosen.filter(keep_edge));
    assert(graph.0 == nodes.filter(keep_node));
    assert(chosen.len() <= edge_limit);
    assert forall|k: int| 0 <= k < graph.1.len() implies {
        let e = #[trigger] graph.1[k];
        &&& edges.contains(e)
        &&& direction == LocalGraphDirection::Incoming ==> e.1 == center
        &&& direction == LocalGraphDirection::Outgoing ==> e.0 == center
        &&& exists|a: int| 0 <= a < nodes.len() && nodes[a].0 == e.0 && (nodes[a].1 == LocalNodeClass::Other
            || (nodes[a].1 == LocalNodeClass::UnresolvedLink && include_unresolved)
            || (nodes[a].1 == LocalNodeClass::Attachment && include_assets))
        &&& exists|b: int| 0 <= b < nodes.len() && nodes[b].0 == e.1 && (nodes[b].1 == LocalNodeClass::Other
            || (nodes[b].1 == LocalNodeClass::UnresolvedLink && include_unresolved)
            || (nodes[b].1 == LocalNodeClass::Attachment && include_assets))
    } by {
        let e = graph.1[k];
        assert(graph.1.contains(e));
        chosen.lemma_filter_contains_rev(keep_edge, e);
        assert(chosen.contains(e));
        let j = choose|j: int| 0 <= j < chosen.len() && chosen[j] == e;
        assert(all[j] == e);
        assert(all.contains(e));
        edges.lemma_filter_contains_rev(pick, e);
        edges.lemma_filter_pred(pick, j);
        assert(pick(e));
        assert(shown_id(nodes, e.0, include_unresolved, include_assets));
        assert(shown_id(nodes, e.1, include_unresolved, include_assets));
        let a = choose|a: int| 0 <= a < nodes.len() && #[trigger] nodes[a].0 == e.0 && class_shown(nodes[a].1, include_unresolved, include_assets);
        let b = choose|b: int| 0 <= b < nodes.len() && #[trigger] nodes[b].0 == e.1 && class_shown(nodes[b].1, include_unresolved, include_assets);
        assert(nodes[a].0 == e.0);
        assert(nodes[b].0 == e.1);
    }
    assert forall|k: int| 0 <= k < graph.0.len() implies nodes.contains(#[trigger] graph.0[k]) by {
        assert(graph.0.contains(graph.0[k]));
        nodes.lemma_filter_contains_rev(keep_node, graph.0[k]);
    }
}


/// While the limit leaves room for every node, the identifiers kept are the
/// center and, at least, every node identifier that is referenced.
proof fn lemma_retained_ids_keep_referenced(
    nodes: Seq<(Seq<char>, LocalNodeClass)>,
    center: Seq<char>,
    chosen: Seq<(Seq<char>, Seq<char>)>,
    limit: nat,
)
    requires
        limit > nodes.len(),
    ensures
        retained_ids(nodes, center, chosen, limit).len() <= nodes.len() + 1,
        retained_ids(nodes, center, chosen, limit).contains(center),
        forall|m: int| 0 <= m < nodes.len() && referenced(center, chosen, #[trigger] nodes[m].0)
            ==> retained_ids(nodes, center, chosen, limit).contains(nodes[m].0),
    decreases nodes.len(),
{
    if nodes.len() == 0 {
        assert(seq![center][0] == center);
    } else {
        let rest = nodes.drop_last();
        lemma_retained_ids_keep_referenced(rest, center, chosen, limit);
        let kept = retained_ids(rest, center, chosen, limit);
        let now = retained_ids(nodes, center, chosen, limit);
        assert forall|x: Seq<char>| kept.contains(x) implies now.contains(x) by {
            let w = choose|w: int| 0 <= w < kept.len() && kept[w] == x;
            if now != kept {
                assert(now[w] == x);
            }
        }
        assert forall|m: int| 0 <= m < nodes.len() && referenced(center, chosen, #[trigger] nodes[m].0)
            implies now.contains(nodes[m].0) by {
            if m < nodes.len() - 1 {
                assert(rest[m] == nodes[m]);
            } else if !kept.contains(nodes[m].0) {
                assert(now[kept.len() as int] == nodes[m].0);
            }
        }
    }
}

/// With room for every node and every edge, the local graph misses no edge
/// the request asks for: each edge of the projection whose two ends are
/// nodes of included classes and which points the asked way is shown.
pub proof fn lemma_local_graph_shows_every_asked_edge(
    center: Seq<char>,
    nodes: Seq<(Seq<char>, LocalNodeClass)>,
    edges: Seq<(Seq<char>, Seq<char>)>,
    direction: LocalGraphDirection,
    include_unresolved: bool,
    include_assets: bool,
    node_limit: nat,
    edge_limit: nat,
)
    requires
        node_limit > nodes.len(),
        edge_limit >= edges.len(),
    ensures
        forall|k: int| 0 <= k < edges.len() && ({
            let e = #[trigger] edges[k];
            &&& direction == LocalGraphDirection::Incoming ==> e.1 == center
            &&& direction == LocalGraphDirection::Outgoing ==> e.0 == center
            &&& exists|a: int| 0 <= a < nodes.len() && nodes[a].0 == e.0 && (nodes[a].1 == LocalNodeClass::Other
                || (nodes[a].1 == LocalNodeClass::UnresolvedLink && include_unresolved)
                || (nodes[a].1 == LocalNodeClass::Attachment && include_assets))
            &&& exists|b: int| 0 <= b < nodes.len() && nodes[b].0 == e.1 && (nodes[b].1 == LocalNodeClass::Other
                || (nodes[b].1 == LocalNodeClass::UnresolvedLink && include_unresolved)
                || (nodes[b].1 == LocalNodeClass::Attachment && include_assets))
        }) ==> local_graph(center, nodes, edges, direction, include_unresolved, include_assets, node_limit, edge_limit).1.contains(edges[k]),
{
    broadcast use vstd::seq_lib::group_filter_ensures;
    let pick = edge_shown(nodes, center, direction, include_unresolved, include_assets);
    let all = edges.filter(pick);
    let chosen = capped(all, edge_limit);
    assert(chosen == all);
    let kept = retained_ids(nodes, center, chosen, node_limit);
    let keep_edge = |e: (Seq<char>, Seq<char>)| kept.contains(e.0) && kept.contains(e.1);
    lemma_retained_ids_keep_referenced(nodes, center, chosen, node_limit);
    assert forall|k: int| 0 <= k < edges.len() && ({
        let e = #[trigger] edges[k];
        &&& direction == LocalGraphDirection::Incoming ==> e.1 == center
        &&& direction == LocalGraphDirection::Outgoing ==> e.0 == center
        &&& exists|a: int| 0 <= a < nodes.len() && nodes[a].0 == e.0 && (nodes[a].1 == LocalNodeClass::Other
            || (nodes[a].1 == LocalNodeClass::UnresolvedLink && include_unresolved)
            || (nodes[a].1 == LocalNodeClass::Attachment && include_assets))
        &&& exists|b: int| 0 <= b < nodes.len() && nodes[b].0 == e.1 && (nodes[b].1 == LocalNodeClass::Other
            || (nodes[b].1 == LocalNodeClass::UnresolvedLink && include_unresolved)
            || (nodes[b].1 == LocalNodeClass::Attachment && include_assets))
    }) implies local_graph(center, nodes, edges, direction, include_unresolved, include_assets, node_limit, edge_limit).1.contains(edges[k]) by {
        let e = edges[k];
        let a = choose|a: int| 0 <= a < nodes.len() && nodes[a].0 == e.0 && (nodes[a].1 == LocalNodeClass::Other
            || (nodes[a].1 == LocalNodeClass::UnresolvedLink && include_unresolved)
            || (nodes[a].1 == LocalNodeClass::Attachment && include_assets));
        let b = choose|b: int| 0 <= b < nodes.len() && nodes[b].0 == e.1 && (nodes[b].1 == LocalNodeClass::Other
            || (nodes[b].1 == LocalNodeClass::UnresolvedLink && include_unresolved)
            || (nodes[b].1 == LocalNodeClass::Attachment && include_assets));
        assert(class_shown(nodes[a].1, include_unresolved, include_assets));
        assert(class_shown(nodes[b].1, include_unresolved, include_assets));
        assert(shown_id(nodes, e.0, include_unresolved, include_assets));
        assert(shown_id(nodes, e.1, include_unresolved, include_assets));
        assert(faces(direction, center, e));
        assert(pick(e));
        edges.lemma_filter_contains(pick, k);
        assert(chosen.contains(e));
        let c = choose|c: int| 0 <= c < chosen.len() && chosen[c] == e;
        assert(referenced(center, chosen, nodes[a].0));
        assert(referenced(center, chosen, nodes[b].0));
        assert(kept.contains(e.0) && kept.contains(e.1));
        assert(keep_edge(chosen[c]));
        chosen.lemma_filter_contains(keep_edge, c);
    }
}

/// Bounds the local graph of a projection, as the request asks: only nodes
/// of the classes it includes, only edges between them that point its way
/// (at most `edge_limit`), and of their ends at most `node_limit` nodes,
/// the center first. The projection's revision is passed through.
pub fn bounded_local_graph(
    input: &GetLocalKnowledgeGraphInput,
    freshness_revision: &str,
    nodes: &[(String, LocalNodeClass)],
    edges: &[(String, String)],
) -> (result: GetLocalKnowledgeGraphOutput)
    ensures
        (result@.0, result@.1) == local_graph(
            input@.1,
            class_nodes_view(nodes@),
            pairs_view(edges@),
            input@.3,
            input@.4,
            input@.5,
            input@.6 as nat,
            input@.7 as nat,
        ),
        result@.2 == nodes@.len(),
        result@.3 == nodes@.len() - result@.0.len(),
        result@.4 == freshness_revision@,
        result@.1.len() <= input@.7,
        forall|k: int| 0 <= k < result@.1.len() ==> {
            let e = #[trigger] result@.1[k];
            &&& pairs_view(edges@).contains(e)
            &&& input@.3 == LocalGraphDirection::Incoming ==> e.1 == input@.1
            &&& input@.3 == LocalGraphDirection::Outgoing ==> e.0 == input@.1
        },
{
    let center = input.center_document_id.as_str();
    let ghost nv = class_nodes_view(nodes@);
    let ghost ev = pairs_view(edges@);
    let ghost pick = edge_shown(nv, center@, input.direction, input.include_unresolved, input.include_assets);
    let ghost all_picked = ev.filter(pick);
    let mut chosen: Vec<(String, String)> = Vec::new();
    let mut i: usize = 0;
    assert(ev.subrange(0, 0).filter(pick) =~= Seq::<(Seq<char>, Seq<char>)>::empty());
    assert(pairs_view(chosen@) =~= Seq::<(Seq<char>, Seq<char>)>::empty());
    while i < edges.len() && chosen.len() < input.edge_limit
        invariant
            i <= edges.len(),
            ev == pairs_view(edges@),
            nv == class_nodes_view(nodes@),
            center@ == input@.1,
            pick == edge_shown(nv, center@, input.direction, input.include_unresolved, input.include_assets),
            pairs_view(chosen@) == ev.subrange(0, i as int).filter(pick),
            chosen.len() <= input.edge_limit,
        decreases edges.len() - i,
    {
        proof {
            crate::sequences::lemma_filter_prefix_step(ev, pick, i as int);
        }
        let (source, target) = &edges[i];
        assert(ev[i as int] == (source@, target@));
        let faces_center = match input.direction {
            LocalGraphDirection::Incoming => str_equal(target.as_str(), center),
            LocalGraphDirection::Outgoing => str_equal(source.as_str(), center),
            LocalGraphDirection::Both => true,
        };
        if id_shown(nodes, source.as_str(), input.include_unresolved, input.include_assets)
            && id_shown(nodes, target.as_str(), input.include_unresolved, input.include_assets) && faces_center {
            let ghost before = chosen@;
            chosen.push((source.clone(), target.clone()));
            assert(pairs_view(chosen@) =~= pairs_view(before).push((source@, target@)));
        }
        i = i + 1;
    }
    let ghost picked = pairs_view(chosen@);
    proof {
        crate::sequences::lemma_filter_prefix(ev, pick, i as int);
        if i == edges.len() {
            assert(ev.subrange(0, i as int) =~= ev);
        }
        assert(picked == capped(all_picked, input.edge_limit as nat));
    }
    let mut kept: Vec<String> = Vec::new();
    kept.push(center.to_string());
    let mut n: usize = 0;
    assert(strings_view(kept@) =~= retained_ids(nv.subrange(0, 0), center@, picked, input.node_limit as nat));
    while n < nodes.len()
        invariant
            n <= nodes.len(),
            nv == class_nodes_view(nodes@),
            picked == pairs_view(chosen@),
            strings_view(kept@) == retained_ids(nv.subrange(0, n as int), center@, picked, input.node_limit as nat),
        decreases nodes.len() - n,
    {
        let (node_id, _) = &nodes[n];
        assert(nv.subrange(0, n + 1).drop_last() =~= nv.subrange(0, n as int));
        assert(nv.subrange(0, n + 1).last().0 == node_id@);
        if kept.len() < input.node_limit && is_referenced(center, &chosen, node_id.as_str()) && !listed(&kept, node_id.as_str()) {
            let ghost before = kept@;
            kept.push(node_id.clone());
            assert(strings_view(kept@) =~= strings_view(before).push(node_id@));
        }
        n = n + 1;
    }
    assert(nv.subrange(0, nodes.len() as int) =~= nv);
    let ghost kept_view = strings_view(kept@);
    let ghost keep_node = |x: (Seq<char>, LocalNodeClass)| kept_view.contains(x.0);
    let ghost keep_edge = |e: (Seq<char>, Seq<char>)| kept_view.contains(e.0) && kept_view.contains(e.1);
    let mut out_nodes: Vec<(String, LocalNodeClass)> = Vec::new();
    let mut j: usize = 0;
    assert(class_nodes_view(out_nodes@) =~= nv.subrange(0, 0).filter(keep_node));
    while j < nodes.len()
        invariant
            j <= nodes.len(),
            nv == class_nodes_view(nodes@),
            kept_view == strings_view(kept@),
            keep_node == (|x: (Seq<char>, LocalNodeClass)| kept_view.contains(x.0)),
            class_nodes_view(out_nodes@) == nv.subrange(0, j as int).filter(keep_node),
        decreases nodes.len() - j,
    {
        proof {
            crate::sequences::lemma_filter_prefix_step(nv, keep_node, j as int);
        }
        let (node_id, class) = &nodes[j];
        assert(nv[j as int] == (node_id@, *class));
        if listed(&kept, node_id.as_str()) {
            let ghost before = out_nodes@;
            out_nodes.push((node_id.clone(), *class));
            assert(class_nodes_view(out_nodes@) =~= class_nodes_view(before).push((node_id@, *class)));
        }
        j = j + 1;
    }
    assert(nv.subrange(0, nodes.len() as int) =~= nv);
    let mut out_edges: Vec<(String, String)> = Vec::new();
    let mut k: usize = 0;
    assert(pairs_view(out_edges@) =~= picked.subrange(0, 0).filter(keep_edge));
    while k < chosen.len()
        invariant
            k <= chosen.len(),
            picked == pairs_view(chosen@),
            kept_view == strings_view(kept@),
            keep_edge == (|e: (Seq<char>, Seq<char>)| kept_view.contains(e.0) && kept_view.contains(e.1)),
            pairs_view(out_edges@) == picked.subrange(0, k as int).filter(keep_edge),
        decreases chosen.len() - k,
    {
        proof {
            crate::sequences::lemma_filter_prefix_step(picked, keep_edge, k as int);
        }
        let (source, target) = &chosen[k];
        assert(picked[k as int] == (source@, target@));
        if listed(&kept, source.as_str()) && listed(&kept, target.as_str()) {
            let ghost before = out_edges@;
            out_edges.push((source.clone(), target.clone()));
            assert(pairs_view(out_edges@) =~= pairs_view(before).push((source@, target@)));
        }
        k = k + 1;
    }
    assert(picked.subrange(0, chosen.len() as int) =~= picked);
    proof {
        crate::sequences::lemma_filter_members(nv, keep_node);
    }
    let candidate_count = nodes.len();
    let filtered_count = candidate_count - out_nodes.len();
    proof {
        lemma_local_graph_keeps_what_is_asked(
            input@.1,
            class_nodes_view(nodes@),
            pairs_view(edges@),
            input@.3,
            input@.4,
            input@.5,
            input@.6 as nat,
            input@.7 as nat,
        );
    }
    GetLocalKnowledgeGraphOutput {
        nodes: out_nodes,
        edges: out_edges,
        candidate_count,
        filtered_count,
        freshness_revision: freshness_revision.to_string(),
    }
}

/// Whether every edge of a local graph joins two of its nodes.
pub open spec fn edges_join_kept_nodes(graph: (Seq<(Seq<char>, LocalNodeClass)>, Seq<(Seq<char>, Seq<char>)>)) -> bool {
    forall|k: int| 0 <= k < graph.1.len() ==> #[trigger] edge_joins_nodes(graph, k)
}

/// Whether both ends of the `k`th edge of a local graph are among its nodes.
pub open spec fn edge_joins_nodes(graph: (Seq<(Seq<char>, LocalNodeClass)>, Seq<(Seq<char>, Seq<char>)>), k: int) -> bool {
    &&& exists|j: int| #![trigger graph.0[j]] 0 <= j < graph.0.len() && graph.0[j].0 == graph.1[k].0
    &&& exists|j: int| #![trigger graph.0[j]] 0 <= j < graph.0.len() && graph.0[j].0 == graph.1[k].1
}

/// A bounded local graph keeps at most `edge_limit` edges, and every edge
/// it keeps joins two of the nodes it keeps.
pub proof fn lemma_local_graph_bounded(
    center: Seq<char>,
    nodes: Seq<(Seq<char>, LocalNodeClass)>,
    edges: Seq<(Seq<char>, Seq<char>)>,
    direction: LocalGraphDirection,
    include_unresolved: bool,
    include_assets: bool,
    node_limit: nat,
    edge_limit: nat,
)
    ensures
        local_graph(center, nodes, edges, direction, include_unresolved, include_assets, node_limit, edge_limit).1.len() <= edge_limit,
        edges_join_kept_nodes(local_graph(center, nodes, edges, direction, include_unresolved, include_assets, node_limit, edge_limit)),
{
    let pick = edge_shown(nodes, center, direction, include_unresolved, include_assets);
    let filtered = edges.filter(pick);
    let chosen = capped(filtered, edge_limit);
    let kept = retained_ids(nodes, center, chosen, node_limit);
    let keep_node = |n: (Seq<char>, LocalNodeClass)| kept.contains(n.0);
    let keep_edge = |e: (Seq<char>, Seq<char>)| kept.contains(e.0) && kept.contains(e.1);
    let graph = local_graph(center, nodes, edges, direction, include_unresolved, include_assets, node_limit, edge_limit);
    assert(graph.0 == nodes.filter(keep_node));
    assert(graph.1 == chosen.filter(keep_edge));
    crate::sequences::lemma_filter_members(chosen, keep_edge);
    crate::sequences::lemma_filter_members(edges, pick);
    assert forall|k: int| 0 <= k < graph.1.len() implies #[trigger] edge_joins_nodes(graph, k) by {
        let e = graph.1[k];
        assert(keep_edge(e));
        assert(chosen.contains(e));
        let c = choose|c: int| 0 <= c < chosen.len() && chosen[c] == e;
        assert(filtered[c] == e);
        assert(pick(e));
        let a = choose|i: int| 0 <= i < nodes.len() && #[trigger] nodes[i].0 == e.0 && class_shown(nodes[i].1, include_unresolved, include_assets);
        let b = choose|i: int| 0 <= i < nodes.len() && #[trigger] nodes[i].0 == e.1 && class_shown(nodes[i].1, include_unresolved, include_assets);
        crate::sequences::lemma_filter_keeps(nodes, keep_node, a);
        crate::sequences::lemma_filter_keeps(nodes, keep_node, b);
        let ja = choose|j: int| 0 <= j < graph.0.len() && graph.0[j] == nodes[a];
        let jb = choose|j: int| 0 <= j < graph.0.len() && graph.0[j] == nodes[b];
        assert(graph.0[ja].0 == e.0);
        assert(graph.0[jb].0 == e.1);
    }
    assert(edges_join_kept_nodes(graph));
}

/// The nodes of a projection, each as its identifier and, for a document
/// node, its document.
pub open spec fn doc_nodes_view(nodes: Seq<(String, Option<String>)>) -> Seq<(Seq<char>, Option<Seq<char>>)> {
    nodes.map_values(|n: (String, Option<String>)| (n.0@, opt_str_view(n.1)))
}

/// Whether the `i`th node may be shown: it names no document, or the actor
/// may read its document.
pub open spec fn node_readable(nodes: Seq<(Seq<char>, Option<Seq<char>>)>, decisions: Seq<Result<bool, PermissionAwareGraphError>>, i: int) -> bool {
    nodes[i].1 is None || decisions[i] == Ok::<bool, PermissionAwareGraphError>(true)
}

/// The first failed permission check among the first `n` nodes.
pub open spec fn permission_error(nodes: Seq<(Seq<char>, Option<Seq<char>>)>, decisions: Seq<Result<bool, PermissionAwareGraphError>>, n: int) -> Option<PermissionAwareGraphError>
    decreases n,
{
    if n <= 0 {
        None
    } else {
        match permission_error(nodes, decisions, n - 1) {
            Some(error) => Some(error),
            None => if nodes[n - 1].1 is Some && decisions[n - 1] is Err {
                Some(decisions[n - 1]->Err_0)
            } else {
                None
            },
        }
    }
}

/// How many of the first `n` nodes name a document the actor may not read.
pub open spec fn denied_count(nodes: Seq<(Seq<char>, Option<Seq<char>>)>, decisions: Seq<Result<bool, PermissionAwareGraphError>>, n: int) -> nat
    decreases n,
{
    if n <= 0 {
        0
    } else {
        denied_count(nodes, decisions, n - 1) + if nodes[n - 1].1 is Some && decisions[n - 1] == Ok::<bool, PermissionAwareGraphError>(false) {
            1nat
        } else {
            0nat
        }
    }
}

/// Whether both ends of an edge may be shown.
pub open spec fn edge_readable(nodes: Seq<(Seq<char>, Option<Seq<char>>)>, decisions: Seq<Result<bool, PermissionAwareGraphError>>) -> spec_fn((Seq<char>, Seq<char>)) -> bool {
    |e: (Seq<char>, Seq<char>)| readable_id(nodes, decisions, e.0) && readable_id(nodes, decisions, e.1)
}

/// Whether a node with the identifier may be shown.
pub open spec fn readable_id(nodes: Seq<(Seq<char>, Option<Seq<char>>)>, decisions: Seq<Result<bool, PermissionAwareGraphError>>, id: Seq<char>) -> bool {
    exists|i: int| #![trigger nodes[i]] 0 <= i < nodes.len() && nodes[i].0 == id && node_readable(nodes, decisions, i)
}

/// The nodes kept among the first `n`: those that may be shown and either
/// name a document or are the center or an end of a kept edge.
pub open spec fn kept_permission_nodes(
    nodes: Seq<(Seq<char>, Option<Seq<char>>)>,
    decisions: Seq<Result<bool, PermissionAwareGraphError>>,
    center: Seq<char>,
    kept_edges: Seq<(Seq<char>, Seq<char>)>,
    n: int,
) -> Seq<(Seq<char>, Option<Seq<char>>)>
    decreases n,
{
    if n <= 0 {
        Seq::empty()
    } else {
        let kept = kept_permission_nodes(nodes, decisions, center, kept_edges, n - 1);
        let node = nodes[n - 1];
        if node_readable(nodes, decisions, n - 1) && (node.1 is Some || referenced(center, kept_edges, node.0)) {
            kept.push(node)
        } else {
            kept
        }
    }
}

/// The graph a reader may see: the first failed permission check is the
/// answer; else the center must be readable; else the edges between
/// readable nodes, the nodes kept by [`kept_permission_nodes`], and how many
/// nodes there were and how many were denied.
pub open spec fn permission_graph(
    center: Seq<char>,
    nodes: Seq<(Seq<char>, Option<Seq<char>>)>,
    edges: Seq<(Seq<char>, Seq<char>)>,
    decisions: Seq<Result<bool, PermissionAwareGraphError>>,
) -> Result<(Seq<(Seq<char>, Option<Seq<char>>)>, Seq<(Seq<char>, Seq<char>)>, (usize, usize)), PermissionAwareGraphError> {
    match permission_error(nodes, decisions, nodes.len() as int) {
        Some(error) => Err(error),
        None => if !readable_id(nodes, decisions, center) {
            Err(PermissionAwareGraphError::CenterDocumentDenied)
        } else {
            let kept_edges = edges.filter(edge_readable(nodes, decisions));
            Ok((
                kept_permission_nodes(nodes, decisions, center, kept_edges, nodes.len() as int),
                kept_edges,
                (nodes.len() as usize, denied_count(nodes, decisions, nodes.len() as int) as usize),
            ))
        },
    }
}

fn node_is_readable(nodes: &[(String, Option<String>)], decisions: &[Result<bool, PermissionAwareGraphError>], i: usize) -> (result: bool)
    requires
        i < nodes@.len(),
        decisions@.len() == nodes@.len(),
    ensures
        result == node_readable(doc_nodes_view(nodes@), decisions@, i as int),
{
    assert(doc_nodes_view(nodes@)[i as int] == (nodes@[i as int].0@, opt_str_view(nodes@[i as int].1)));
    match &nodes[i].1 {
        None => true,
        Some(_) => match &decisions[i] {
            Ok(allowed) => *allowed,
            Err(_) => false,
        },
    }
}

fn id_readable(nodes: &[(String, Option<String>)], decisions: &[Result<bool, PermissionAwareGraphError>], id: &str) -> (result: bool)
    requires
        decisions@.len() == nodes@.len(),
    ensures
        result == readable_id(doc_nodes_view(nodes@), decisions@, id@),
{
    let ghost view = doc_nodes_view(nodes@);
    let mut i: usize = 0;
    while i < nodes.len()
        invariant
            i <= nodes.len(),
            decisions@.len() == nodes@.len(),
            view == doc_nodes_view(nodes@),
            forall|j: int| #![trigger view[j]] 0 <= j < i ==> !(view[j].0 == id@ && node_readable(view, decisions@, j)),
        decreases nodes.len() - i,
    {
        assert(view[i as int] == (nodes@[i as int].0@, opt_str_view(nodes@[i as int].1)));
        if node_is_readable(nodes, decisions, i) && str_equal(nodes[i].0.as_str(), id) {
            assert(view[i as int].0 == id@ && node_readable(view, decisions@, i as int));
            return true;
        }
        i = i + 1;
    }
    false
}

/// Filters a projected graph by what the actor may read. `decisions[i]` is
/// the answer of the permission check for the document of the `i`th node
/// (it is not read for a node that names no document).
pub fn filter_graph_by_permission(
    center_document_id: &str,
    nodes: &[(String, Option<String>)],
    edges: &[(String, String)],
    decisions: &[Result<bool, PermissionAwareGraphError>],
) -> (result: Result<PermissionAwareGraphOutput, PermissionAwareGraphError>)
    requires
        decisions@.len() == nodes@.len(),
    ensures
        match result {
            Ok(output) => permission_graph(center_document_id@, doc_nodes_view(nodes@), pairs_view(edges@), decisions@)
                == Ok::<(Seq<(Seq<char>, Option<Seq<char>>)>, Seq<(Seq<char>, Seq<char>)>, (usize, usize)), PermissionAwareGraphError>(output@),
            Err(error) => permission_graph(center_document_id@, doc_nodes_view(nodes@), pairs_view(edges@), decisions@)
                == Err::<(Seq<(Seq<char>, Option<Seq<char>>)>, Seq<(Seq<char>, Seq<char>)>, (usize, usize)), PermissionAwareGraphError>(error),
        },
{
    let ghost nv = doc_nodes_view(nodes@);
    let ghost ds = decisions@;
    let mut denied: usize = 0;
    let mut i: usize = 0;
    while i < nodes.len()
        invariant
            i <= nodes.len(),
            ds == decisions@,
            ds.len() == nodes@.len(),
            nv == doc_nodes_view(nodes@),
            permission_error(nv, ds, i as int) is None,
            denied == denied_count(nv, ds, i as int),
            denied <= i,
        decreases nodes.len() - i,
    {
        assert(nv[i as int] == (nodes@[i as int].0@, opt_str_view(nodes@[i as int].1)));
        if nodes[i].1.is_some() {
            match &decisions[i] {
                Ok(allowed) => {
                    if !*allowed {
                        denied = denied + 1;
                    }
                },
                Err(error) => {
                    proof {
                        lemma_permission_error_stays(nv, ds, i as int + 1);
                    }
                    return Err(*error);
                },
            }
        }
        i = i + 1;
    }
    if !id_readable(nodes, decisions, center_document_id) {
        return Err(PermissionAwareGraphError::CenterDocumentDenied);
    }
    let ghost keep_edge = edge_readable(nv, ds);
    let ghost ev = pairs_view(edges@);
    let mut kept_edges: Vec<(String, String)> = Vec::new();
    let mut k: usize = 0;
    assert(pairs_view(kept_edges@) =~= ev.subrange(0, 0).filter(keep_edge));
    while k < edges.len()
        invariant
            k <= edges.len(),
            ds == decisions@,
            ds.len() == nodes@.len(),
            nv == doc_nodes_view(nodes@),
            ev == pairs_view(edges@),
            keep_edge == edge_readable(nv, ds),
            pairs_view(kept_edges@) == ev.subrange(0, k as int).filter(keep_edge),
        decreases edges.len() - k,
    {
        proof {
            crate::sequences::lemma_filter_prefix_step(ev, keep_edge, k as int);
        }
        let pair = &edges[k];
        assert(ev[k as int] == (pair.0@, pair.1@));
        if id_readable(nodes, decisions, pair.0.as_str()) && id_readable(nodes, decisions, pair.1.as_str()) {
            let ghost before = kept_edges@;
            kept_edges.push((pair.0.clone(), pair.1.clone()));
            assert(pairs_view(kept_edges@) =~= pairs_view(before).push((pair.0@, pair.1@)));
        }
        k = k + 1;
    }
    assert(ev.subrange(0, edges.len() as int) =~= ev);
    let ghost ke = pairs_view(kept_edges@);
    let mut kept_nodes: Vec<(String, Option<String>)> = Vec::new();
    let mut n: usize = 0;
    assert(doc_nodes_view(kept_nodes@) =~= kept_permission_nodes(nv, ds, center_document_id@, ke, 0));
    while n < nodes.len()
        invariant
            n <= nodes.len(),
            ds == decisions@,
            ds.len() == nodes@.len(),
            nv == doc_nodes_view(nodes@),
            ke == pairs_view(kept_edges@),
            doc_nodes_view(kept_nodes@) == kept_permission_nodes(nv, ds, center_document_id@, ke, n as int),
        decreases nodes.len() - n,
    {
        assert(nv[n as int] == (nodes@[n as int].0@, opt_str_view(nodes@[n as int].1)));
        if node_is_readable(nodes, decisions, n)
            && (nodes[n].1.is_some() || is_referenced(center_document_id, &kept_edges, nodes[n].0.as_str())) {
            let ghost before = kept_nodes@;
            let copy = (nodes[n].0.clone(), crate::text::opt_to_string(match &nodes[n].1 {
                Some(d) => Some(d.as_str()),
                None => None,
            }));
            kept_nodes.push(copy);
            assert(doc_nodes_view(kept_nodes@) =~= doc_nodes_view(before).push(nv[n as int]));
        }
        n = n + 1;
    }
    let stats = PermissionAwareGraphStats::new(nodes.len(), denied);
    Ok(PermissionAwareGraphOutput { nodes: kept_nodes, edges: kept_edges, stats })
}

proof fn lemma_permission_error_stays(nodes: Seq<(Seq<char>, Option<Seq<char>>)>, decisions: Seq<Result<bool, PermissionAwareGraphError>>, n: int)
    requires
        0 <= n <= nodes.len(),
        permission_error(nodes, decisions, n) is Some,
    ensures
        permission_error(nodes, decisions, nodes.len() as int) == permission_error(nodes, decisions, n),
    decreases nodes.len() - n,
{
    if n < nodes.len() {
        lemma_permission_error_stays(nodes, decisions, n + 1);
    }
}

proof fn lemma_kept_nodes_readable(
    nodes: Seq<(Seq<char>, Option<Seq<char>>)>,
    decisions: Seq<Result<bool, PermissionAwareGraphError>>,
    center: Seq<char>,
    kept_edges: Seq<(Seq<char>, Seq<char>)>,
    n: int,
)
    requires
        0 <= n <= nodes.len(),
    ensures
        forall|k: int| #![trigger kept_permission_nodes(nodes, decisions, center, kept_edges, n)[k]]
            0 <= k < kept_permission_nodes(nodes, decisions, center, kept_edges, n).len() ==> exists|i: int|
                #![trigger nodes[i]] 0 <= i < n && nodes[i] == kept_permission_nodes(nodes, decisions, center, kept_edges, n)[k]
                && node_readable(nodes, decisions, i),
        kept_permission_nodes(nodes, decisions, center, kept_edges, n).len() <= n,
    decreases n,
{
    if n > 0 {
        lemma_kept_nodes_readable(nodes, decisions, center, kept_edges, n - 1);
        let before = kept_permission_nodes(nodes, decisions, center, kept_edges, n - 1);
        let after = kept_permission_nodes(nodes, decisions, center, kept_edges, n);
        assert forall|k: int| #![trigger after[k]] 0 <= k < after.len() implies exists|i: int|
            #![trigger nodes[i]] 0 <= i < n && nodes[i] == after[k] && node_readable(nodes, decisions, i) by {
            if k < before.len() {
                assert(after[k] == before[k]);
                let i = choose|i: int| #![trigger nodes[i]] 0 <= i < n - 1 && nodes[i] == before[k] && node_readable(nodes, decisions, i);
                assert(nodes[i] == after[k]);
            } else {
                assert(nodes[n - 1] == after[k]);
            }
        }
    }
}

/// What a reader is shown of a graph holds nothing the reader may not read:
/// every node shown names no document or a document the reader may read,
/// every edge shown joins two nodes the reader may see, and no more nodes
/// are counted as denied than there were.
pub proof fn lemma_permission_graph_shows_only_readable(
    center: Seq<char>,
    nodes: Seq<(Seq<char>, Option<Seq<char>>)>,
    edges: Seq<(Seq<char>, Seq<char>)>,
    decisions: Seq<Result<bool, PermissionAwareGraphError>>,
)
    requires
        decisions.len() == nodes.len(),
        nodes.len() <= usize::MAX,
    ensures
        permission_graph(center, nodes, edges, decisions) matches Ok(graph) ==> {
            &&& forall|k: int| #![trigger graph.0[k]] 0 <= k < graph.0.len() ==> exists|i: int|
                #![trigger nodes[i]] 0 <= i < nodes.len() && nodes[i] == graph.0[k] && node_readable(nodes, decisions, i)
            &&& forall|k: int| #![trigger graph.1[k]] 0 <= k < graph.1.len() ==> readable_id(nodes, decisions, graph.1[k].0)
                && readable_id(nodes, decisions, graph.1[k].1)
            &&& graph.2.1 <= graph.2.0
        },
{
    if let Some(error) = permission_error(nodes, decisions, nodes.len() as int) {
    } else if readable_id(nodes, decisions, center) {
        let keep = edge_readable(nodes, decisions);
        let kept_edges = edges.filter(keep);
        lemma_kept_nodes_readable(nodes, decisions, center, kept_edges, nodes.len() as int);
        crate::sequences::lemma_filter_members(edges, keep);
        lemma_denied_count_bound(nodes, decisions, nodes.len() as int);
    }
}

proof fn lemma_denied_count_bound(nodes: Seq<(Seq<char>, Option<Seq<char>>)>, decisions: Seq<Result<bool, PermissionAwareGraphError>>, n: int)
    requires
        0 <= n,
    ensures
        denied_count(nodes, decisions, n) <= n,
    decreases n,
{
    if n > 0 {
        lemma_denied_count_bound(nodes, decisions, n - 1);
    }
}

impl GetLocalKnowledgeGraphError {
    /// How this usecase reports each graph projection failure.
    pub fn from_projection_error(error: GraphProjectionError) -> (result: Self)
        ensures
            result == match error {
                GraphProjectionError::InvalidInput => Self::InvalidInput,
                GraphProjectionError::StorageUnavailable => Self::ProjectionUnavailable,
                GraphProjectionError::CorruptedProjection => Self::CorruptedProjection,
            },
    {
        match error {
            GraphProjectionError::InvalidInput => Self::InvalidInput,
            GraphProjectionError::StorageUnavailable => Self::ProjectionUnavailable,
            GraphProjectionError::CorruptedProjection => Self::CorruptedProjection,
        }
    }
}

impl PermissionAwareGraphError {
    /// How this usecase reports each graph projection failure.
    pub fn from_graph_projection_error(error: GraphProjectionError) -> (result: Self)
        ensures
            result == match error {
                GraphProjectionError::InvalidInput => Self::InvalidInput,
                GraphProjectionError::StorageUnavailable => Self::ProjectionUnavailable,
                GraphProjectionError::CorruptedProjection => Self::CorruptedProjection,
            },
    {
        match error {
            GraphProjectionError::InvalidInput => Self::InvalidInput,
            GraphProjectionError::StorageUnavailable => Self::ProjectionUnavailable,
            GraphProjectionError::CorruptedProjection => Self::CorruptedProjection,
        }
    }
}

impl PermissionAwareGraphError {
    /// How this usecase reports each permission aware query failure.
    pub fn from_permission_error(error: PermissionAwareQueryError) -> (result: Self)
        ensures
            result == match error {
                PermissionAwareQueryError::InvalidInput => Self::InvalidInput,
                PermissionAwareQueryError::NotFound | PermissionAwareQueryError::IndexStale | PermissionAwareQueryError::StorageUnavailable => Self::PermissionUnavailable,
                PermissionAwareQueryError::CorruptedProjection => Self::CorruptedProjection,
            },
    {
        match error {
            PermissionAwareQueryError::InvalidInput => Self::InvalidInput,
            PermissionAwareQueryError::NotFound | PermissionAwareQueryError::IndexStale | PermissionAwareQueryError::StorageUnavailable => Self::PermissionUnavailable,
            PermissionAwareQueryError::CorruptedProjection => Self::CorruptedProjection,
        }
    }
}

} // verus!
