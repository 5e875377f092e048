use vstd::prelude::*;
use crate::collaborator_errors::{CurrentDocumentVersionPointerError, GraphProjectionError};
use crate::graph::{class_nodes_view, class_shown, LocalNodeClass};
use crate::text::{lemma_text_order_is_total, sort_texts, str_equal, text_le, text_order};
use crate::text::{opt_sstr_view, opt_str_view, opt_to_string, opt_ref_view, pairs_view, strings_view};

verus! {
#[derive(Debug, Clone, PartialEq, Eq)]
pub struct GetGlobalKnowledgeGraphInput {
    workspace_id: String,
    cursor: Option<String>,
    include_unresolved: bool,
    include_assets: bool,
    projection_limit: usize,
    node_limit: usize,
    edge_limit: usize,
}

impl View for GetGlobalKnowledgeGraphInput {
    type V = (Seq<char>, Option<Seq<char>>, bool, bool, usize, usize, usize);

    closed spec fn view(&self) -> (Seq<char>, Option<Seq<char>>, bool, bool, usize, usize, usize) {
        (self.workspace_id@, opt_str_view(self.cursor), self.include_unresolved, self.include_assets, self.projection_limit, self.node_limit, self.edge_limit)
    }
}

impl GetGlobalKnowledgeGraphInput {
    pub fn new(workspace_id: &str, cursor: Option<&str>, include_unresolved: bool, include_assets: bool, projection_limit: usize, node_limit: usize, edge_limit: usize) -> (result: Self)
        ensures
            result@ == (workspace_id@, opt_ref_view(cursor), include_unresolved, include_assets, projection_limit, node_limit, edge_limit),
    {
        Self {
            workspace_id: workspace_id.to_string(),
            cursor: opt_to_string(cursor),
            include_unresolved: include_unresolved,
            include_assets: include_assets,
            projection_limit: projection_limit,
            node_limit: node_limit,
            edge_limit: edge_limit,
        }
    }

}

#[derive(Debug, Clone, PartialEq, Eq)]
pub struct GetGlobalKnowledgeGraphOutput {
    nodes: Vec<(String, LocalNodeClass)>,
    edges: Vec<(String, String, String)>,
    degraded: bool,
    next_cursor: Option<String>,
    candidate_count: usize,
}

impl View for GetGlobalKnowledgeGraphOutput {
    type V = (Seq<(Seq<char>, LocalNodeClass)>, Seq<(Seq<char>, Seq<char>, Seq<char>)>, bool, Option<Seq<char>>, usize);

    closed spec fn view(&self) -> (Seq<(Seq<char>, LocalNodeClass)>, Seq<(Seq<char>, Seq<char>, Seq<char>)>, bool, Option<Seq<char>>, usize) {
        (class_nodes_view(self.nodes@), global_edges_view(self.edges@), self.degraded, opt_str_view(self.next_cursor), self.candidate_count)
    }
}

impl GetGlobalKnowledgeGraphOutput {
    pub fn nodes(&self) -> (result: &[(String, LocalNodeClass)])
        ensures
            class_nodes_view(result@) == self@.0,
    {
        self.nodes.as_slice()
    }

    pub fn edges(&self) -> (result: &[(String, String, String)])
        ensures
            global_edges_view(result@) == self@.1,
    {
        self.edges.as_slice()
    }

    pub fn degraded(&self) -> (result: bool)
        ensures
            result == self@.2,
    {
        self.degraded
    }

    pub fn next_cursor(&self) -> (result: Option<&str>)
        ensures
            match result { Some(s) => Some(s@), None => None::<Seq<char>> } == self@.3,
    {
        match &self.next_cursor {
            Some(s) => Some(s.as_str()),
            None => None,
        }
    }

    pub fn candidate_count(&self) -> (result: usize)
        ensures
            result == self@.4,
    {
        self.candidate_count
    }

}

#[derive(Debug, Clone, Copy, PartialEq, Eq, Structural)]
pub enum GetGlobalKnowledgeGraphError {
    InvalidInput,
    ProjectionUnavailable,
    CorruptedProjection,
}

impl GetGlobalKnowledgeGraphError {
    pub fn code(self) -> (result: &'static str)
        ensures
            result@ == match self {
                Self::InvalidInput => "global_graph.invalid_input"@,
                Self::ProjectionUnavailable => "global_graph.projection_unavailable"@,
                Self::CorruptedProjection => "global_graph.corrupted_projection"@,
            },
    {
        match self {
            Self::InvalidInput => "global_graph.invalid_input",
            Self::ProjectionUnavailable => "global_graph.projection_unavailable",
            Self::CorruptedProjection => "global_graph.corrupted_projection",
        }
    }
}

#[derive(Debug, Clone, Copy, PartialEq, Eq, Structural)]
pub struct GetGlobalKnowledgeGraphUsecase;

impl GetGlobalKnowledgeGraphUsecase {
    pub fn new() -> (result: Self)
        ensures
            result == (GetGlobalKnowledgeGraphUsecase),
    {
        GetGlobalKnowledgeGraphUsecase
    }
}

impl GetGlobalKnowledgeGraphInput {
    /// A global graph reads at least one projection and keeps at least one
    /// node and one edge.
    pub fn check_limits(&self) -> (result: Result<(), GetGlobalKnowledgeGraphError>)
        ensures
            result is Ok <==> (self@.4 != 0 && self@.5 != 0 && self@.6 != 0),
            result is Err ==> result == Err::<(), GetGlobalKnowledgeGraphError>(GetGlobalKnowledgeGraphError::InvalidInput),
    {
        if self.projection_limit == 0 || self.node_limit == 0 || self.edge_limit == 0 {
            return Err(GetGlobalKnowledgeGraphError::InvalidInput);
        }
        Ok(())
    }
}

/// A node of a projection: its identifier and class.
pub type GlobalNodeView = (Seq<char>, LocalNodeClass);

/// An edge of a projection: its identifier, source and target.
pub type GlobalEdgeView = (Seq<char>, Seq<char>, Seq<char>);

/// What the global graph reads of one document's projection: whether it
/// is clean, whether it was built from the document's current version, its
/// nodes and its edges.
#[derive(Debug, Clone, PartialEq, Eq)]
pub struct GlobalGraphRecord {
    clean: bool,
    fresh: bool,
    nodes: Vec<(String, LocalNodeClass)>,
    edges: Vec<(String, String, String)>,
}

/// The edges of a projection, as views.
pub open spec fn global_edges_view(edges: Seq<(String, String, String)>) -> Seq<GlobalEdgeView> {
    edges.map_values(|e: (String, String, String)| (e.0@, e.1@, e.2@))
}

impl View for GlobalGraphRecord {
    type V = (bool, bool, Seq<GlobalNodeView>, Seq<GlobalEdgeView>);

    closed spec fn view(&self) -> (bool, bool, Seq<GlobalNodeView>, Seq<GlobalEdgeView>) {
        (self.clean, self.fresh, class_nodes_view(self.nodes@), global_edges_view(self.edges@))
    }
}

impl GlobalGraphRecord {
    pub fn new(clean: bool, fresh: bool, nodes: Vec<(String, LocalNodeClass)>, edges: Vec<(String, String, String)>) -> (result: Self)
        ensures
            result@ == (clean, fresh, class_nodes_view(nodes@), global_edges_view(edges@)),
    {
        Self { clean, fresh, nodes, edges }
    }
}

/// Whether a node with the identifier is among the nodes.
pub open spec fn has_node_id(nodes: Seq<GlobalNodeView>, id: Seq<char>) -> bool {
    exists|i: int| #![trigger nodes[i]] 0 <= i < nodes.len() && nodes[i].0 == id
}

/// Whether an edge with the identifier is among the edges.
pub open spec fn has_edge_id(edges: Seq<GlobalEdgeView>, id: Seq<char>) -> bool {
    exists|i: int| #![trigger edges[i]] 0 <= i < edges.len() && edges[i].0 == id
}

/// The nodes gathered after a projection's nodes: each shown node whose
/// identifier is new is added, in order.
pub open spec fn add_global_nodes(acc: Seq<GlobalNodeView>, nodes: Seq<GlobalNodeView>, include_unresolved: bool, include_assets: bool) -> Seq<GlobalNodeView>
    decreases nodes.len(),
{
    if nodes.len() == 0 {
        acc
    } else {
        let gathered = add_global_nodes(acc, nodes.drop_last(), include_unresolved, include_assets);
        let node = nodes.last();
        if class_shown(node.1, include_unresolved, include_assets) && !has_node_id(gathered, node.0) {
            gathered.push(node)
        } else {
            gathered
        }
    }
}

/// The edges gathered after a projection's edges: each edge between two
/// gathered nodes whose identifier is new is added, in order.
pub open spec fn add_global_edges(acc: Seq<GlobalEdgeView>, nodes: Seq<GlobalNodeView>, edges: Seq<GlobalEdgeView>) -> Seq<GlobalEdgeView>
    decreases edges.len(),
{
    if edges.len() == 0 {
        acc
    } else {
        let gathered = add_global_edges(acc, nodes, edges.drop_last());
        let edge = edges.last();
        if has_node_id(nodes, edge.1) && has_node_id(nodes, edge.2) && !has_edge_id(gathered, edge.0) {
            gathered.push(edge)
        } else {
            gathered
        }
    }
}

/// The nodes and edges gathered from the projections, one after another.
pub open spec fn merge_projections(records: Seq<(bool, bool, Seq<GlobalNodeView>, Seq<GlobalEdgeView>)>, include_unresolved: bool, include_assets: bool) -> (Seq<GlobalNodeView>, Seq<GlobalEdgeView>)
    decreases records.len(),
{
    if records.len() == 0 {
        (Seq::empty(), Seq::empty())
    } else {
        let before = merge_projections(records.drop_last(), include_unresolved, include_assets);
        let record = records.last();
        let nodes = add_global_nodes(before.0, record.2, include_unresolved, include_assets);
        (nodes, add_global_edges(before.1, nodes, record.3))
    }
}

/// Whether some projection is not clean or was not built from the current
/// version of its document.
pub open spec fn any_degraded(records: Seq<(bool, bool, Seq<GlobalNodeView>, Seq<GlobalEdgeView>)>) -> bool {
    exists|i: int| #![trigger records[i]] 0 <= i < records.len() && !(records[i].0 && records[i].1)
}

/// How many nodes the projections hold together.
pub open spec fn total_nodes(records: Seq<(bool, bool, Seq<GlobalNodeView>, Seq<GlobalEdgeView>)>) -> nat
    decreases records.len(),
{
    if records.len() == 0 {
        0
    } else {
        total_nodes(records.drop_last()) + records.last().2.len()
    }
}

/// The nodes in the order of their identifiers.
pub open spec fn nodes_by_id(nodes: Seq<GlobalNodeView>) -> Seq<GlobalNodeView> {
    let ids = nodes.map_values(|n: GlobalNodeView| n.0);
    ids.sort_by(text_order()).map_values(|id: Seq<char>| nodes[ids.index_of_first(id)->Some_0])
}

/// The edges in the order of their identifiers.
pub open spec fn edges_by_id(edges: Seq<GlobalEdgeView>) -> Seq<GlobalEdgeView> {
    let ids = edges.map_values(|e: GlobalEdgeView| e.0);
    ids.sort_by(text_order()).map_values(|id: Seq<char>| edges[ids.index_of_first(id)->Some_0])
}

/// The workspace graph of a page of projections: refused when it holds more
/// nodes or edges than asked for; else its nodes and its edges, each in the
/// order of their identifiers, whether it is degraded, and how many nodes
/// the projections held.
pub open spec fn global_graph(
    records: Seq<(bool, bool, Seq<GlobalNodeView>, Seq<GlobalEdgeView>)>,
    include_unresolved: bool,
    include_assets: bool,
    node_limit: nat,
    edge_limit: nat,
) -> Result<(Seq<GlobalNodeView>, Seq<GlobalEdgeView>, bool, nat), GetGlobalKnowledgeGraphError> {
    let merged = merge_projections(records, include_unresolved, include_assets);
    if merged.0.len() > node_limit || merged.1.len() > edge_limit {
        Err(GetGlobalKnowledgeGraphError::InvalidInput)
    } else {
        Ok((nodes_by_id(merged.0), edges_by_id(merged.1), any_degraded(records), total_nodes(records)))
    }
}

/// The records of a page, as views.
pub open spec fn records_view(records: Seq<GlobalGraphRecord>) -> Seq<(bool, bool, Seq<GlobalNodeView>, Seq<GlobalEdgeView>)> {
    records.map_values(|r: GlobalGraphRecord| r@)
}

fn has_node_id_exec(nodes: &Vec<(String, LocalNodeClass)>, id: &str) -> (result: bool)
    ensures
        result == has_node_id(class_nodes_view(nodes@), id@),
{
    let ghost view = class_nodes_view(nodes@);
    let mut i: usize = 0;
    while i < nodes.len()
        invariant
            i <= nodes.len(),
            view == class_nodes_view(nodes@),
            forall|j: int| #![trigger view[j]] 0 <= j < i ==> view[j].0 != id@,
        decreases nodes.len() - i,
    {
        assert(view[i as int].0 == nodes@[i as int].0@);
        if str_equal(nodes[i].0.as_str(), id) {
            return true;
        }
        i = i + 1;
    }
    false
}

fn has_edge_id_exec(edges: &Vec<(String, String, String)>, id: &str) -> (result: bool)
    ensures
        result == has_edge_id(global_edges_view(edges@), id@),
{
    let ghost view = global_edges_view(edges@);
    let mut i: usize = 0;
    while i < edges.len()
        invariant
            i <= edges.len(),
            view == global_edges_view(edges@),
            forall|j: int| #![trigger view[j]] 0 <= j < i ==> view[j].0 != id@,
        decreases edges.len() - i,
    {
        assert(view[i as int].0 == edges@[i as int].0@);
        if str_equal(edges[i].0.as_str(), id) {
            return true;
        }
        i = i + 1;
    }
    false
}

fn gather_nodes(acc: &mut Vec<(String, LocalNodeClass)>, nodes: &Vec<(String, LocalNodeClass)>, include_unresolved: bool, include_assets: bool)
    ensures
        class_nodes_view(final(acc)@) == add_global_nodes(class_nodes_view(old(acc)@), class_nodes_view(nodes@), include_unresolved, include_assets),
{
    let ghost start = class_nodes_view(acc@);
    let ghost nv = class_nodes_view(nodes@);
    let mut i: usize = 0;
    assert(nv.subrange(0, 0) =~= Seq::<GlobalNodeView>::empty());
    while i < nodes.len()
        invariant
            i <= nodes.len(),
            nv == class_nodes_view(nodes@),
            class_nodes_view(acc@) == add_global_nodes(start, nv.subrange(0, i as int), include_unresolved, include_assets),
        decreases nodes.len() - i,
    {
        let (id, class) = &nodes[i];
        assert(nv.subrange(0, i + 1).drop_last() =~= nv.subrange(0, i as int));
        assert(nv.subrange(0, i + 1).last() == (id@, *class));
        let shown = match class {
            LocalNodeClass::UnresolvedLink => include_unresolved,
            LocalNodeClass::Attachment => include_assets,
            LocalNodeClass::Other => true,
        };
        if shown && !has_node_id_exec(acc, id.as_str()) {
            let ghost before = acc@;
            acc.push((id.clone(), *class));
            assert(class_nodes_view(acc@) =~= class_nodes_view(before).push((id@, *class)));
        }
        i = i + 1;
    }
    assert(nv.subrange(0, nodes.len() as int) =~= nv);
}

fn gather_edges(acc: &mut Vec<(String, String, String)>, nodes: &Vec<(String, LocalNodeClass)>, edges: &Vec<(String, String, String)>)
    ensures
        global_edges_view(final(acc)@) == add_global_edges(global_edges_view(old(acc)@), class_nodes_view(nodes@), global_edges_view(edges@)),
{
    let ghost start = global_edges_view(acc@);
    let ghost ev = global_edges_view(edges@);
    let mut i: usize = 0;
    assert(ev.subrange(0, 0) =~= Seq::<GlobalEdgeView>::empty());
    while i < edges.len()
        invariant
            i <= edges.len(),
            ev == global_edges_view(edges@),
            global_edges_view(acc@) == add_global_edges(start, class_nodes_view(nodes@), ev.subrange(0, i as int)),
        decreases edges.len() - i,
    {
        let edge = &edges[i];
        assert(ev.subrange(0, i + 1).drop_last() =~= ev.subrange(0, i as int));
        assert(ev.subrange(0, i + 1).last() == (edge.0@, edge.1@, edge.2@));
        if has_node_id_exec(nodes, edge.1.as_str()) && has_node_id_exec(nodes, edge.2.as_str()) && !has_edge_id_exec(acc, edge.0.as_str()) {
            let ghost before = acc@;
            acc.push((edge.0.clone(), edge.1.clone(), edge.2.clone()));
            assert(global_edges_view(acc@) =~= global_edges_view(before).push((edge.0@, edge.1@, edge.2@)));
        }
        i = i + 1;
    }
    assert(ev.subrange(0, edges.len() as int) =~= ev);
}

fn nodes_in_id_order(nodes: &Vec<(String, LocalNodeClass)>) -> (result: Vec<(String, LocalNodeClass)>)
    ensures
        class_nodes_view(result@) == nodes_by_id(class_nodes_view(nodes@)),
{
    let ghost nv = class_nodes_view(nodes@);
    let ghost ids_view = nv.map_values(|n: GlobalNodeView| n.0);
    let mut ids: Vec<String> = Vec::new();
    let mut i: usize = 0;
    while i < nodes.len()
        invariant
            i <= nodes.len(),
            nv == class_nodes_view(nodes@),
            ids_view == nv.map_values(|n: GlobalNodeView| n.0),
            strings_view(ids@) =~= ids_view.subrange(0, i as int),
        decreases nodes.len() - i,
    {
        ids.push(nodes[i].0.clone());
        assert(ids_view[i as int] == nodes@[i as int].0@);
        assert(ids_view.subrange(0, i + 1) =~= ids_view.subrange(0, i as int).push(ids_view[i as int]));
        i = i + 1;
    }
    assert(ids_view.subrange(0, nodes.len() as int) =~= ids_view);
    let sorted = sort_texts(ids);
    let ghost order = ids_view.sort_by(text_order());
    proof {
        lemma_text_order_is_total();
        ids_view.lemma_sort_by_ensures(text_order());
    }
    let mut result: Vec<(String, LocalNodeClass)> = Vec::new();
    let mut k: usize = 0;
    while k < sorted.len()
        invariant
            k <= sorted.len(),
            nv == class_nodes_view(nodes@),
            ids_view == nv.map_values(|n: GlobalNodeView| n.0),
            order == ids_view.sort_by(text_order()),
            strings_view(sorted@) == order,
            forall|x: Seq<char>| #[trigger] order.contains(x) ==> ids_view.contains(x),
            class_nodes_view(result@) =~= order.subrange(0, k as int).map_values(|id: Seq<char>| nv[ids_view.index_of_first(id)->Some_0]),
        decreases sorted.len() - k,
    {
        let id = sorted[k].as_str();
        assert(order[k as int] == id@);
        assert(order.contains(id@));
        proof {
            ids_view.index_of_first_ensures(id@);
        }
        let mut p: usize = 0;
        while p < nodes.len() && !str_equal(nodes[p].0.as_str(), id)
            invariant
                p <= nodes.len(),
                nv == class_nodes_view(nodes@),
                ids_view == nv.map_values(|n: GlobalNodeView| n.0),
                ids_view.contains(id@),
                forall|j: int| 0 <= j < p ==> ids_view[j] != id@,
            decreases nodes.len() - p,
        {
            p = p + 1;
        }
        if p == nodes.len() {
            proof {
                let w = choose|w: int| 0 <= w < ids_view.len() && ids_view[w] == id@;
                assert(ids_view[w] != id@);
                assert(false);
            }
        }
        assert(ids_view[p as int] == nodes@[p as int].0@);
        assert(p == ids_view.index_of_first(id@)->Some_0);
        let ghost before = result@;
        result.push((nodes[p].0.clone(), nodes[p].1));
        assert(class_nodes_view(result@) =~= class_nodes_view(before).push(nv[p as int]));
        assert(order.subrange(0, k + 1) =~= order.subrange(0, k as int).push(id@));
        k = k + 1;
    }
    assert(order.subrange(0, sorted.len() as int) =~= order);
    result
}

fn edges_in_id_order(edges: &Vec<(String, String, String)>) -> (result: Vec<(String, String, String)>)
    ensures
        global_edges_view(result@) == edges_by_id(global_edges_view(edges@)),
{
    let ghost ev = global_edges_view(edges@);
    let ghost ids_view = ev.map_values(|e: GlobalEdgeView| e.0);
    let mut ids: Vec<String> = Vec::new();
    let mut i: usize = 0;
    while i < edges.len()
        invariant
            i <= edges.len(),
            ev == global_edges_view(edges@),
            ids_view == ev.map_values(|e: GlobalEdgeView| e.0),
            strings_view(ids@) =~= ids_view.subrange(0, i as int),
        decreases edges.len() - i,
    {
        ids.push(edges[i].0.clone());
        assert(ids_view[i as int] == edges@[i as int].0@);
        assert(ids_view.subrange(0, i + 1) =~= ids_view.subrange(0, i as int).push(ids_view[i as int]));
        i = i + 1;
    }
    assert(ids_view.subrange(0, edges.len() as int) =~= ids_view);
    let sorted = sort_texts(ids);
    let ghost order = ids_view.sort_by(text_order());
    proof {
        lemma_text_order_is_total();
        ids_view.lemma_sort_by_ensures(text_order());
    }
    let mut result: Vec<(String, String, String)> = Vec::new();
    let mut k: usize = 0;
    while k < sorted.len()
        invariant
            k <= sorted.len(),
            ev == global_edges_view(edges@),
            ids_view == ev.map_values(|e: GlobalEdgeView| e.0),
            order == ids_view.sort_by(text_order()),
            strings_view(sorted@) == order,
            forall|x: Seq<char>| #[trigger] order.contains(x) ==> ids_view.contains(x),
            global_edges_view(result@) =~= order.subrange(0, k as int).map_values(|id: Seq<char>| ev[ids_view.index_of_first(id)->Some_0]),
        decreases sorted.len() - k,
    {
        let id = sorted[k].as_str();
        assert(order[k as int] == id@);
        assert(order.contains(id@));
        proof {
            ids_view.index_of_first_ensures(id@);
        }
        let mut p: usize = 0;
        while p < edges.len() && !str_equal(edges[p].0.as_str(), id)
            invariant
                p <= edges.len(),
                ev == global_edges_view(edges@),
                ids_view == ev.map_values(|e: GlobalEdgeView| e.0),
                ids_view.contains(id@),
                forall|j: int| 0 <= j < p ==> ids_view[j] != id@,
            decreases edges.len() - p,
        {
            p = p + 1;
        }
        if p == edges.len() {
            proof {
                let w = choose|w: int| 0 <= w < ids_view.len() && ids_view[w] == id@;
                assert(ids_view[w] != id@);
                assert(false);
            }
        }
        assert(ids_view[p as int] == edges@[p as int].0@);
        assert(p == ids_view.index_of_first(id@)->Some_0);
        let ghost before = result@;
        result.push((edges[p].0.clone(), edges[p].1.clone(), edges[p].2.clone()));
        assert(global_edges_view(result@) =~= global_edges_view(before).push(ev[p as int]));
        assert(order.subrange(0, k + 1) =~= order.subrange(0, k as int).push(id@));
        k = k + 1;
    }
    assert(order.subrange(0, sorted.len() as int) =~= order);
    result
}


/// The workspace graph is reported degraded exactly when some projection of
/// the page is not clean or is not fresh: a single unclean or stale
/// projection makes it degraded, and a page of clean, fresh projections
/// does not.
pub proof fn lemma_global_graph_degraded_iff_some_projection_is(
    records: Seq<(bool, bool, Seq<GlobalNodeView>, Seq<GlobalEdgeView>)>,
    include_unresolved: bool,
    include_assets: bool,
    node_limit: nat,
    edge_limit: nat,
)
    ensures
        global_graph(records, include_unresolved, include_assets, node_limit, edge_limit) matches Ok(graph) ==> {
            &&& (forall|i: int| 0 <= i < records.len() ==> #[trigger] records[i].0 && records[i].1) ==> !graph.2
            &&& (exists|i: int| 0 <= i < records.len() && !#[trigger] records[i].0) ==> graph.2
            &&& (exists|i: int| 0 <= i < records.len() && !#[trigger] records[i].1) ==> graph.2
        },
{
    if exists|i: int| 0 <= i < records.len() && !#[trigger] records[i].0 {
        let i = choose|i: int| 0 <= i < records.len() && !#[trigger] records[i].0;
        assert(!(records[i].0 && records[i].1));
    }
    if exists|i: int| 0 <= i < records.len() && !#[trigger] records[i].1 {
        let i = choose|i: int| 0 <= i < records.len() && !#[trigger] records[i].1;
        assert(!(records[i].0 && records[i].1));
    }
}

/// Builds the workspace graph from a page of projections, as
/// [`global_graph`] says; `next_cursor` is the page's own.
pub fn assemble_global_graph(
    input: &GetGlobalKnowledgeGraphInput,
    records: &Vec<GlobalGraphRecord>,
    next_cursor: Option<&str>,
) -> (result: Result<GetGlobalKnowledgeGraphOutput, GetGlobalKnowledgeGraphError>)
    requires
        total_nodes(records_view(records@)) <= usize::MAX,
    ensures
        match result {
            Ok(output) => global_graph(records_view(records@), input@.2, input@.3, input@.5 as nat, input@.6 as nat)
                == Ok::<(Seq<GlobalNodeView>, Seq<GlobalEdgeView>, bool, nat), GetGlobalKnowledgeGraphError>((output@.0, output@.1, output@.2, output@.4 as nat))
                && output@.3 == opt_ref_view(next_cursor),
            Err(error) => global_graph(records_view(records@), input@.2, input@.3, input@.5 as nat, input@.6 as nat)
                == Err::<(Seq<GlobalNodeView>, Seq<GlobalEdgeView>, bool, nat), GetGlobalKnowledgeGraphError>(error),
        },
        result matches Ok(output) ==> (output@.2 <==> exists|i: int| 0 <= i < records@.len() && !(#[trigger] records_view(records@)[i].0 && records_view(records@)[i].1)),
{
    proof {
        lemma_global_graph_degraded_iff_some_projection_is(records_view(records@), input@.2, input@.3, input@.5 as nat, input@.6 as nat);
    }
    let ghost rv = records_view(records@);
    let mut nodes: Vec<(String, LocalNodeClass)> = Vec::new();
    let mut edges: Vec<(String, String, String)> = Vec::new();
    let mut degraded = false;
    let mut candidate_count: usize = 0;
    let mut i: usize = 0;
    assert(rv.subrange(0, 0) =~= Seq::<(bool, bool, Seq<GlobalNodeView>, Seq<GlobalEdgeView>)>::empty());
    assert(class_nodes_view(nodes@) =~= Seq::<GlobalNodeView>::empty());
    assert(global_edges_view(edges@) =~= Seq::<GlobalEdgeView>::empty());
    while i < records.len()
        invariant
            i <= records.len(),
            rv == records_view(records@),
            total_nodes(rv) <= usize::MAX,
            (class_nodes_view(nodes@), global_edges_view(edges@)) == merge_projections(rv.subrange(0, i as int), input@.2, input@.3),
            degraded == any_degraded(rv.subrange(0, i as int)),
            candidate_count == total_nodes(rv.subrange(0, i as int)),
        decreases records.len() - i,
    {
        let record = &records[i];
        assert(rv.subrange(0, i + 1).drop_last() =~= rv.subrange(0, i as int));
        assert(rv.subrange(0, i + 1).last() == record@);
        proof {
            lemma_total_nodes_prefix(rv, i as int + 1);
        }
        gather_nodes(&mut nodes, &record.nodes, input.include_unresolved, input.include_assets);
        gather_edges(&mut edges, &nodes, &record.edges);
        if !(record.clean && record.fresh) {
            degraded = true;
        }
        proof {
            let prefix = rv.subrange(0, i + 1);
            if !(record.clean && record.fresh) {
                assert(prefix[i as int] == record@);
            } else {
                if any_degraded(prefix) {
                    let w = choose|w: int| #![trigger prefix[w]] 0 <= w < prefix.len() && !(prefix[w].0 && prefix[w].1);
                    assert(w < i);
                    assert(rv.subrange(0, i as int)[w] == prefix[w]);
                }
            }
            if degraded && !(!(record.clean && record.fresh)) {
                let w = choose|w: int| #![trigger rv.subrange(0, i as int)[w]] 0 <= w < i && !(rv.subrange(0, i as int)[w].0 && rv.subrange(0, i as int)[w].1);
                assert(prefix[w] == rv.subrange(0, i as int)[w]);
            }
        }
        candidate_count = candidate_count + record.nodes.len();
        i = i + 1;
    }
    assert(rv.subrange(0, records.len() as int) =~= rv);
    if nodes.len() > input.node_limit || edges.len() > input.edge_limit {
        return Err(GetGlobalKnowledgeGraphError::InvalidInput);
    }
    let ordered_nodes = nodes_in_id_order(&nodes);
    let ordered_edges = edges_in_id_order(&edges);
    Ok(GetGlobalKnowledgeGraphOutput {
        nodes: ordered_nodes,
        edges: ordered_edges,
        degraded,
        next_cursor: crate::text::opt_to_string(next_cursor),
        candidate_count,
    })
}

proof fn lemma_total_nodes_prefix(records: Seq<(bool, bool, Seq<GlobalNodeView>, Seq<GlobalEdgeView>)>, n: int)
    requires
        0 <= n <= records.len(),
    ensures
        total_nodes(records.subrange(0, n)) <= total_nodes(records),
    decreases records.len() - n,
{
    if n < records.len() {
        lemma_total_nodes_prefix(records, n + 1);
        assert(records.subrange(0, n + 1).drop_last() =~= records.subrange(0, n));
    } else {
        assert(records.subrange(0, n) =~= records);
    }
}

/// The identifiers of gathered nodes.
pub open spec fn node_ids(nodes: Seq<GlobalNodeView>) -> Seq<Seq<char>> {
    nodes.map_values(|n: GlobalNodeView| n.0)
}

proof fn lemma_add_global_nodes(acc: Seq<GlobalNodeView>, nodes: Seq<GlobalNodeView>, include_unresolved: bool, include_assets: bool)
    requires
        node_ids(acc).no_duplicates(),
    ensures
        node_ids(add_global_nodes(acc, nodes, include_unresolved, include_assets)).no_duplicates(),
        add_global_nodes(acc, nodes, include_unresolved, include_assets).len() >= acc.len(),
        add_global_nodes(acc, nodes, include_unresolved, include_assets).subrange(0, acc.len() as int) == acc,
    decreases nodes.len(),
{
    if nodes.len() > 0 {
        lemma_add_global_nodes(acc, nodes.drop_last(), include_unresolved, include_assets);
        let gathered = add_global_nodes(acc, nodes.drop_last(), include_unresolved, include_assets);
        let node = nodes.last();
        if class_shown(node.1, include_unresolved, include_assets) && !has_node_id(gathered, node.0) {
            let after = gathered.push(node);
            assert(after.subrange(0, acc.len() as int) =~= gathered.subrange(0, acc.len() as int));
            assert forall|i: int, j: int| 0 <= i < node_ids(after).len() && 0 <= j < node_ids(after).len() && i != j
                implies node_ids(after)[i] != node_ids(after)[j] by {
                if i < gathered.len() && j < gathered.len() {
                    assert(node_ids(gathered)[i] != node_ids(gathered)[j]);
                } else if i == gathered.len() {
                    assert(gathered[j].0 != node.0);
                } else {
                    assert(gathered[i].0 != node.0);
                }
            }
        }
    }
}

#[verifier::spinoff_prover]
proof fn lemma_add_global_edges(acc: Seq<GlobalEdgeView>, nodes: Seq<GlobalNodeView>, edges: Seq<GlobalEdgeView>)
    requires
        forall|k: int| 0 <= k < acc.len() ==> has_node_id(nodes, #[trigger] acc[k].1) && has_node_id(nodes, acc[k].2),
    ensures
        forall|k: int| 0 <= k < add_global_edges(acc, nodes, edges).len() ==>
            has_node_id(nodes, #[trigger] add_global_edges(acc, nodes, edges)[k].1) && has_node_id(nodes, add_global_edges(acc, nodes, edges)[k].2),
    decreases edges.len(),
{
    if edges.len() > 0 {
        lemma_add_global_edges(acc, nodes, edges.drop_last());
        let gathered = add_global_edges(acc, nodes, edges.drop_last());
        let after = add_global_edges(acc, nodes, edges);
        assert forall|k: int| 0 <= k < after.len() implies has_node_id(nodes, #[trigger] after[k].1) && has_node_id(nodes, after[k].2) by {
            if k < gathered.len() {
                assert(after[k] == gathered[k]);
            }
        }
    }
}

proof fn lemma_merge_projections(records: Seq<(bool, bool, Seq<GlobalNodeView>, Seq<GlobalEdgeView>)>, include_unresolved: bool, include_assets: bool)
    ensures
        node_ids(merge_projections(records, include_unresolved, include_assets).0).no_duplicates(),
        forall|k: int| 0 <= k < merge_projections(records, include_unresolved, include_assets).1.len() ==>
            has_node_id(merge_projections(records, include_unresolved, include_assets).0, #[trigger] merge_projections(records, include_unresolved, include_assets).1[k].1)
            && has_node_id(merge_projections(records, include_unresolved, include_assets).0, merge_projections(records, include_unresolved, include_assets).1[k].2),
    decreases records.len(),
{
    if records.len() == 0 {
        assert(node_ids(Seq::<GlobalNodeView>::empty()) =~= Seq::<Seq<char>>::empty());
    } else {
        lemma_merge_projections(records.drop_last(), include_unresolved, include_assets);
        let before = merge_projections(records.drop_last(), include_unresolved, include_assets);
        let record = records.last();
        lemma_add_global_nodes(before.0, record.2, include_unresolved, include_assets);
        let nodes = add_global_nodes(before.0, record.2, include_unresolved, include_assets);
        assert forall|k: int| 0 <= k < before.1.len() implies has_node_id(nodes, #[trigger] before.1[k].1) && has_node_id(nodes, before.1[k].2) by {
            let a = choose|i: int| #![trigger before.0[i]] 0 <= i < before.0.len() && before.0[i].0 == before.1[k].1;
            let b = choose|i: int| #![trigger before.0[i]] 0 <= i < before.0.len() && before.0[i].0 == before.1[k].2;
            assert(nodes.subrange(0, before.0.len() as int)[a] == nodes[a]);
            assert(nodes.subrange(0, before.0.len() as int)[b] == nodes[b]);
        }
        lemma_add_global_edges(before.1, nodes, record.3);
    }
}

/// Whether the nodes are listed in the order of their identifiers, none twice.
pub open spec fn strictly_ordered_by_id(nodes: Seq<GlobalNodeView>) -> bool {
    forall|i: int, j: int| 0 <= i < j < nodes.len() ==> text_le(#[trigger] nodes[i].0, #[trigger] nodes[j].0) && nodes[i].0 != nodes[j].0
}

/// Whether every edge joins two of the nodes.
pub open spec fn edges_within(nodes: Seq<GlobalNodeView>, edges: Seq<GlobalEdgeView>) -> bool {
    forall|k: int| 0 <= k < edges.len() ==> has_node_id(nodes, #[trigger] edges[k].1) && has_node_id(nodes, edges[k].2)
}

/// The workspace graph lists its nodes in the order of their identifiers,
/// never one twice, and every edge it lists joins two of its nodes.
pub proof fn lemma_global_graph_well_formed(
    records: Seq<(bool, bool, Seq<GlobalNodeView>, Seq<GlobalEdgeView>)>,
    include_unresolved: bool,
    include_assets: bool,
    node_limit: nat,
    edge_limit: nat,
)
    ensures
        global_graph(records, include_unresolved, include_assets, node_limit, edge_limit) matches Ok(graph) ==>
            strictly_ordered_by_id(graph.0) && edges_within(graph.0, graph.1),
{
    broadcast use vstd::seq_lib::group_to_multiset_ensures;
    let merged = merge_projections(records, include_unresolved, include_assets);
    lemma_merge_projections(records, include_unresolved, include_assets);
    lemma_text_order_is_total();
    let ids = node_ids(merged.0);
    let order = ids.sort_by(text_order());
    ids.lemma_sort_by_ensures(text_order());
    let out = nodes_by_id(merged.0);
    assert(out.len() == order.len());
    assert forall|k: int| 0 <= k < out.len() implies #[trigger] out[k].0 == order[k] by {
        assert(order.to_multiset().count(order[k]) > 0);
        assert(ids.contains(order[k]));
        ids.index_of_first_ensures(order[k]);
    }
    ids.lemma_multiset_has_no_duplicates();
    assert forall|x: Seq<char>| order.to_multiset().contains(x) implies order.to_multiset().count(x) == 1 by {
        assert(ids.to_multiset().contains(x));
    }
    order.lemma_multiset_has_no_duplicates_conv();
    assert forall|i: int, j: int| 0 <= i < j < out.len() implies text_le(#[trigger] out[i].0, #[trigger] out[j].0) && out[i].0 != out[j].0 by {
        assert(out[i].0 == order[i]);
        assert(out[j].0 == order[j]);
        assert(text_order()(order[i], order[j]));
    }
    let eids = merged.1.map_values(|e: GlobalEdgeView| e.0);
    let eorder = eids.sort_by(text_order());
    eids.lemma_sort_by_ensures(text_order());
    let eout = edges_by_id(merged.1);
    assert forall|k: int| 0 <= k < eout.len() implies has_node_id(out, #[trigger] eout[k].1) && has_node_id(out, eout[k].2) by {
        assert(eorder.to_multiset().count(eorder[k]) > 0);
        assert(eids.contains(eorder[k]));
        eids.index_of_first_ensures(eorder[k]);
        let idx = eids.index_of_first(eorder[k])->Some_0;
        assert(eout[k] == merged.1[idx]);
        let e = merged.1[idx];
        let a = choose|i: int| #![trigger merged.0[i]] 0 <= i < merged.0.len() && merged.0[i].0 == e.1;
        let b = choose|i: int| #![trigger merged.0[i]] 0 <= i < merged.0.len() && merged.0[i].0 == e.2;
        assert(ids[a] == e.1);
        assert(ids[b] == e.2);
        assert(ids.to_multiset().count(e.1) > 0);
        assert(ids.to_multiset().count(e.2) > 0);
        assert(order.contains(e.1));
        assert(order.contains(e.2));
        let ka = choose|x: int| 0 <= x < order.len() && order[x] == e.1;
        let kb = choose|x: int| 0 <= x < order.len() && order[x] == e.2;
        assert(out[ka].0 == e.1);
        assert(out[kb].0 == e.2);
    }
}

/// How this usecase reports each current document version pointer failure.
pub fn map_pointer_error(error: CurrentDocumentVersionPointerError) -> (result: GetGlobalKnowledgeGraphError)
    ensures
        result == match error {
            CurrentDocumentVersionPointerError::StorageUnavailable => GetGlobalKnowledgeGraphError::ProjectionUnavailable,
            CurrentDocumentVersionPointerError::Conflict | CurrentDocumentVersionPointerError::CorruptedPointer => GetGlobalKnowledgeGraphError::CorruptedProjection,
        },
{
    match error {
        CurrentDocumentVersionPointerError::StorageUnavailable => GetGlobalKnowledgeGraphError::ProjectionUnavailable,
        CurrentDocumentVersionPointerError::Conflict | CurrentDocumentVersionPointerError::CorruptedPointer => GetGlobalKnowledgeGraphError::CorruptedProjection,
    }
}

/// How this usecase reports each graph projection failure.
pub fn map_error(error: GraphProjectionError) -> (result: GetGlobalKnowledgeGraphError)
    ensures
        result == match error {
            GraphProjectionError::InvalidInput => GetGlobalKnowledgeGraphError::InvalidInput,
            GraphProjectionError::StorageUnavailable => GetGlobalKnowledgeGraphError::ProjectionUnavailable,
            GraphProjectionError::CorruptedProjection => GetGlobalKnowledgeGraphError::CorruptedProjection,
        },
{
    match error {
        GraphProjectionError::InvalidInput => GetGlobalKnowledgeGraphError::InvalidInput,
        GraphProjectionError::StorageUnavailable => GetGlobalKnowledgeGraphError::ProjectionUnavailable,
        GraphProjectionError::CorruptedProjection => GetGlobalKnowledgeGraphError::CorruptedProjection,
    }
}

} // verus!
