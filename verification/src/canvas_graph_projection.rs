use vstd::prelude::*;
use crate::text::{opt_sstr_view, opt_str_view, opt_to_string, opt_ref_view, pairs_view, strings_view};
use crate::text::str_equal;

verus! {
#[derive(Debug, Clone, Copy, PartialEq, Eq, Structural)]
pub struct CanvasGraphProjectionPolicy {
    relation_limit: usize,
}

impl View for CanvasGraphProjectionPolicy {
    type V = usize;

    closed spec fn view(&self) -> usize {
        self.relation_limit
    }
}

#[derive(Debug, Clone, Copy, PartialEq, Eq, Structural)]
pub struct ProjectCanvasGraphRelationsOutput {
    projected_record_count: usize,
    projected_edge_count: usize,
    skipped_edge_count: usize,
}

impl View for ProjectCanvasGraphRelationsOutput {
    type V = (usize, usize, usize);

    closed spec fn view(&self) -> (usize, usize, usize) {
        (self.projected_record_count, self.projected_edge_count, self.skipped_edge_count)
    }
}

impl ProjectCanvasGraphRelationsOutput {
    /// The answer of a projection: how many records and edges were
    /// projected and how many edges were skipped.
    pub fn new(projected_record_count: usize, projected_edge_count: usize, skipped_edge_count: usize) -> (result: Self)
        ensures
            result@ == (projected_record_count, projected_edge_count, skipped_edge_count),
    {
        ProjectCanvasGraphRelationsOutput { projected_record_count, projected_edge_count, skipped_edge_count }
    }

    pub fn projected_record_count(self) -> (result: usize)
        ensures
            result == self@.0,
    {
        self.projected_record_count
    }

    pub fn projected_edge_count(self) -> (result: usize)
        ensures
            result == self@.1,
    {
        self.projected_edge_count
    }

    pub fn skipped_edge_count(self) -> (result: usize)
        ensures
            result == self@.2,
    {
        self.skipped_edge_count
    }

}

#[derive(Debug, Clone, Copy, PartialEq, Eq, Structural)]
pub struct ProjectCanvasGraphRelationsUsecase {
    policy: CanvasGraphProjectionPolicy,
}

impl View for ProjectCanvasGraphRelationsUsecase {
    type V = CanvasGraphProjectionPolicy;

    closed spec fn view(&self) -> CanvasGraphProjectionPolicy {
        self.policy
    }
}

impl ProjectCanvasGraphRelationsUsecase {
    pub fn new(policy: CanvasGraphProjectionPolicy) -> (result: Self)
        ensures
            result@ == policy,
    {
        Self { policy }
    }
}

/// What a canvas node shows, as the graph projection reads it.
#[derive(Debug, Clone, PartialEq, Eq)]
pub enum CanvasNodeKind {
    /// A document, with its id.
    Document(String),
    Attachment,
    ExternalLink,
    /// A text card, which has no graph node.
    TextCard,
}

/// The documents an edge between nodes showing these is centered on: the
/// source's document, then the target's when it is another one.
pub open spec fn edge_centers_of(source: CanvasNodeKind, target: CanvasNodeKind) -> Seq<Seq<char>> {
    let from_source = match source {
        CanvasNodeKind::Document(id) => seq![id@],
        _ => Seq::empty(),
    };
    match target {
        CanvasNodeKind::Document(id) => if from_source.len() == 1 && from_source[0] == id@ {
            from_source
        } else {
            from_source.push(id@)
        },
        _ => from_source,
    }
}

/// Whether an edge between nodes showing these is eligible for projection:
/// neither end is a text card, and it is centered on some document.
pub open spec fn edge_projected(source: CanvasNodeKind, target: CanvasNodeKind) -> bool {
    !(source is TextCard) && !(target is TextCard) && edge_centers_of(source, target).len() > 0
}

/// The documents an edge is centered on, as `edge_centers_of` says.
pub fn edge_centers(source: &CanvasNodeKind, target: &CanvasNodeKind) -> (result: Vec<String>)
    ensures
        strings_view(result@) == edge_centers_of(*source, *target),
{
    let mut centers: Vec<String> = Vec::new();
    if let CanvasNodeKind::Document(id) = source {
        centers.push(id.clone());
    }
    if let CanvasNodeKind::Document(id) = target {
        let repeated = centers.len() == 1 && str_equal(centers[0].as_str(), id.as_str());
        if !repeated {
            centers.push(id.clone());
        }
    }
    assert(strings_view(centers@) =~= edge_centers_of(*source, *target));
    centers
}

/// Why counting the edges of a canvas for its projection failed.
#[derive(Debug, Clone, Copy, PartialEq, Eq, Structural)]
pub enum CanvasEdgeTallyError {
    /// An edge names a node the canvas does not hold.
    CorruptedProjection,
    /// More edges are eligible than the relation limit allows.
    RelationLimitExceeded,
}

/// The tally of the first `n` edges (each with the kinds of its two ends,
/// or `None` when an end is missing): how many are eligible for projection
/// and how many are skipped, or the first failure met.
pub open spec fn edge_tally(edges: Seq<Option<(CanvasNodeKind, CanvasNodeKind)>>, n: int, limit: nat) -> Result<(nat, nat), CanvasEdgeTallyError>
    decreases n,
{
    if n <= 0 {
        Ok((0, 0))
    } else {
        match edge_tally(edges, n - 1, limit) {
            Err(error) => Err(error),
            Ok((projected, skipped)) => match edges[n - 1] {
                None => Err(CanvasEdgeTallyError::CorruptedProjection),
                Some((source, target)) => if !edge_projected(source, target) {
                    Ok((projected, skipped + 1))
                } else if projected + 1 > limit {
                    Err(CanvasEdgeTallyError::RelationLimitExceeded)
                } else {
                    Ok((projected + 1, skipped))
                },
            },
        }
    }
}

/// How a projection counts the edges of a canvas: every edge of an archived
/// canvas is skipped; otherwise the edges are taken in order, an edge with
/// a missing end is corrupt, an edge touching a text card or centered on no
/// document is skipped, and every other edge is eligible for projection,
/// more of them than the relation limit being refused.
pub fn canvas_edge_tally(
    archived: bool,
    edges: &[Option<(CanvasNodeKind, CanvasNodeKind)>],
    relation_limit: usize,
) -> (result: Result<(usize, usize), CanvasEdgeTallyError>)
    ensures
        archived ==> result == Ok::<(usize, usize), CanvasEdgeTallyError>((0, edges@.len() as usize)),
        !archived ==> match edge_tally(edges@, edges@.len() as int, relation_limit as nat) {
            Ok((projected, skipped)) => result == Ok::<(usize, usize), CanvasEdgeTallyError>((projected as usize, skipped as usize)),
            Err(error) => result == Err::<(usize, usize), CanvasEdgeTallyError>(error),
        },
{
    if archived {
        return Ok((0, edges.len()));
    }
    let mut projected: usize = 0;
    let mut skipped: usize = 0;
    let mut i: usize = 0;
    while i < edges.len()
        invariant
            !archived,
            i <= edges@.len(),
            edge_tally(edges@, i as int, relation_limit as nat) == Ok::<(nat, nat), CanvasEdgeTallyError>((projected as nat, skipped as nat)),
            projected + skipped == i,
            projected <= relation_limit,
        decreases edges@.len() - i,
    {
        match &edges[i] {
            None => {
                proof {
                    lemma_edge_tally_stays_failed(edges@, i as int + 1, edges@.len() as int, relation_limit as nat);
                }
                return Err(CanvasEdgeTallyError::CorruptedProjection);
            },
            Some((source, target)) => {
                let text_card = match source {
                    CanvasNodeKind::TextCard => true,
                    _ => match target {
                        CanvasNodeKind::TextCard => true,
                        _ => false,
                    },
                };
                if text_card || edge_centers(source, target).len() == 0 {
                    skipped = skipped + 1;
                } else if projected + 1 > relation_limit {
                    proof {
                        lemma_edge_tally_stays_failed(edges@, i as int + 1, edges@.len() as int, relation_limit as nat);
                    }
                    return Err(CanvasEdgeTallyError::RelationLimitExceeded);
                } else {
                    projected = projected + 1;
                }
            },
        }
        i = i + 1;
    }
    Ok((projected, skipped))
}

proof fn lemma_edge_tally_stays_failed(edges: Seq<Option<(CanvasNodeKind, CanvasNodeKind)>>, n: int, m: int, limit: nat)
    requires
        0 < n <= m,
        edge_tally(edges, n, limit) is Err,
    ensures
        edge_tally(edges, m, limit) == edge_tally(edges, n, limit),
    decreases m - n,
{
    if m > n {
        lemma_edge_tally_stays_failed(edges, n, m - 1, limit);
    }
}

} // verus!
