//! Associative memory of one entity: an append-only log of remembered events,
//! associative links between them, and the belief clusters that group similar
//! events.
//!
//! The graph keeps the discrete structure of the memory. What an event holds
//! and how strongly it is still activated are quantities that the caller keeps
//! under the node's index. Where a rule of the memory depends on how such
//! quantities compare, the caller hands them over as scores.

use crate::score::Score;
use vstd::prelude::*;

verus! {

/// The score of 0.01: a memory counts as live while its activation exceeds
/// this.
pub const ACTIVATION_FLOOR: Score = 0x3C23_D70A;

/// The score of 0.5: an event is felt as pleasant when its first component
/// exceeds this.
pub const PLEASANT_ABOVE: Score = 0x3F00_0000;

/// The score of -0.5: an event is felt as unpleasant when its first
/// component is below this.
pub const UNPLEASANT_BELOW: Score = -0x3F00_0000;

/// How an event is felt.
#[derive(Clone, Copy, Debug, PartialEq, Eq, Structural)]
pub enum Valence {
    /// Unpleasant: it counts as -1.
    Negative,
    /// Neither: it counts as 0.
    Neutral,
    /// Pleasant: it counts as +1.
    Positive,
}

impl Valence {
    /// The number that the valence counts as.
    pub open spec fn weight(self) -> int {
        match self {
            Valence::Negative => -1,
            Valence::Neutral => 0,
            Valence::Positive => 1,
        }
    }

    /// The number that the valence counts as.
    pub fn sign(self) -> (sign: i8)
        ensures
            sign == self.weight(),
    {
        match self {
            Valence::Negative => -1,
            Valence::Neutral => 0,
            Valence::Positive => 1,
        }
    }
}

/// How an event is felt whose first component is `first`. An event without
/// components is felt as neutral.
pub open spec fn valence_of(first: Option<Score>) -> Valence {
    match first {
        Some(level) => if level > PLEASANT_ABOVE {
            Valence::Positive
        } else if level < UNPLEASANT_BELOW {
            Valence::Negative
        } else {
            Valence::Neutral
        },
        None => Valence::Neutral,
    }
}

/// Tells how an event is felt, from its first component.
pub fn valence(first: Option<Score>) -> (felt: Valence)
    ensures
        felt == valence_of(first),
{
    match first {
        Some(level) => {
            if level > PLEASANT_ABOVE {
                Valence::Positive
            } else if level < UNPLEASANT_BELOW {
                Valence::Negative
            } else {
                Valence::Neutral
            }
        },
        None => Valence::Neutral,
    }
}

/// Whether two event vectors have a similarity to speak of: both have
/// components, and both have a length above zero. `len1` and `len2` are the
/// numbers of their components, `norm1` and `norm2` their lengths.
pub open spec fn comparable(len1: usize, len2: usize, norm1: Score, norm2: Score) -> bool {
    len1 > 0 && len2 > 0 && norm1 > crate::score::ZERO && norm2 > crate::score::ZERO
}

/// Tells whether the similarity of two event vectors is their normalised dot
/// product. Where it is not, because one of them is empty or has no length,
/// their similarity is 0.
pub fn is_comparable(len1: usize, len2: usize, norm1: Score, norm2: Score) -> (defined: bool)
    ensures
        defined == comparable(len1, len2, norm1, norm2),
{
    len1 > 0 && len2 > 0 && norm1 > crate::score::ZERO && norm2 > crate::score::ZERO
}

/// Whether node `node` is live: it has an activation, and that exceeds the
/// floor.
pub open spec fn is_live(activations: Seq<Score>, node: usize) -> bool {
    node < activations.len() && activations[node as int] > ACTIVATION_FLOOR
}

/// Those of `members` that are live, in the same order.
pub open spec fn live_among(members: Seq<usize>, activations: Seq<Score>) -> Seq<usize>
    decreases members.len(),
{
    if members.len() == 0 {
        Seq::empty()
    } else if is_live(activations, members.last()) {
        live_among(members.drop_last(), activations).push(members.last())
    } else {
        live_among(members.drop_last(), activations)
    }
}

/// One remembered event: when it was recorded and the belief cluster it was
/// assigned to, if any.
#[derive(Clone, Copy, Debug)]
pub struct MemoryNode {
    /// Time at which the node was created.
    pub timestamp: u64,
    /// Belief cluster the node was assigned to.
    pub cluster_id: Option<u32>,
}

impl MemoryNode {
    /// A node recorded at `timestamp` that belongs to no cluster yet.
    pub fn new(timestamp: u64) -> (node: MemoryNode)
        ensures
            node.timestamp == timestamp,
            node.cluster_id is None,
    {
        MemoryNode { timestamp, cluster_id: None }
    }
}

/// A group of remembered events that were found similar to each other.
#[derive(Debug)]
pub struct BeliefCluster {
    /// Identifier of the cluster, unique within its graph.
    pub id: u32,
    /// Indices of the member nodes, in the order in which they joined.
    pub node_indices: Vec<usize>,
}

impl BeliefCluster {
    /// A cluster with the given identifier and no member.
    pub fn new(id: u32) -> (cluster: BeliefCluster)
        ensures
            cluster.id == id,
            cluster.node_indices@ == Seq::<usize>::empty(),
    {
        BeliefCluster { id, node_indices: Vec::new() }
    }
}

/// Mathematical content of a memory graph.
pub struct GraphModel {
    /// The nodes in the order in which they were added.
    pub nodes: Seq<MemoryNode>,
    /// The associative links, as pairs of node indices.
    pub edges: Seq<(usize, usize)>,
    /// For each cluster identifier, the member node indices in joining order.
    pub clusters: Seq<Seq<usize>>,
}

impl GraphModel {
    /// The graph without nodes, links or clusters.
    pub open spec fn empty() -> GraphModel {
        GraphModel { nodes: Seq::empty(), edges: Seq::empty(), clusters: Seq::empty() }
    }

    /// Every reference inside the graph points at something that exists:
    /// a node's cluster is a cluster of the graph and lists the node, the
    /// members of a cluster and the ends of a link are nodes of the graph,
    /// and no cluster is without members.
    pub open spec fn wf(self) -> bool {
        &&& self.clusters.len() <= u32::MAX
        &&& forall|i: int|
            0 <= i < self.nodes.len() ==> match (#[trigger] self.nodes[i]).cluster_id {
                Some(c) => c < self.clusters.len() && self.clusters[c as int].contains(i as usize),
                None => true,
            }
        &&& forall|c: int| 0 <= c < self.clusters.len() ==> (#[trigger] self.clusters[c]).len() > 0
        &&& forall|c: int, k: int|
            0 <= c < self.clusters.len() && 0 <= k < self.clusters[c].len() ==> (
            #[trigger] self.clusters[c][k]) < self.nodes.len()
        &&& forall|e: int|
            0 <= e < self.edges.len() ==> (#[trigger] self.edges[e]).0 < self.nodes.len()
                && self.edges[e].1 < self.nodes.len()
    }

    /// Every node belongs to exactly one cluster: each node names a cluster,
    /// the members of a cluster name that cluster, and no cluster lists a
    /// node twice.
    pub open spec fn partitioned(self) -> bool {
        &&& forall|i: int| 0 <= i < self.nodes.len() ==> (#[trigger] self.nodes[i]).cluster_id is Some
        &&& forall|c: int, k: int|
            0 <= c < self.clusters.len() && 0 <= k < self.clusters[c].len() ==> self.nodes[(
            #[trigger] self.clusters[c][k]) as int].cluster_id == Some(c as u32)
        &&& forall|c: int, k: int, l: int|
            0 <= c < self.clusters.len() && 0 <= k < l < self.clusters[c].len()
                ==> #[trigger] self.clusters[c][k] != #[trigger] self.clusters[c][l]
    }

    /// The graph after a node recorded at `timestamp` was appended.
    pub open spec fn add_node(self, timestamp: u64) -> GraphModel {
        GraphModel {
            nodes: self.nodes.push(MemoryNode { timestamp, cluster_id: None }),
            edges: self.edges,
            clusters: self.clusters,
        }
    }

    /// The graph after a link from `src` to `dst` was asked for: the link is
    /// recorded when both are nodes of the graph, and ignored otherwise.
    pub open spec fn add_edge(self, src: usize, dst: usize) -> GraphModel {
        if src < self.nodes.len() && dst < self.nodes.len() {
            GraphModel {
                nodes: self.nodes,
                edges: self.edges.push((src, dst)),
                clusters: self.clusters,
            }
        } else {
            self
        }
    }

    /// Cluster `c` takes part in a selection: it has members and a score.
    pub open spec fn is_candidate(self, scores: Seq<Score>, c: int) -> bool {
        0 <= c < self.clusters.len() && c < scores.len() && self.clusters[c].len() > 0
    }

    /// Cluster `c` is the one an event with these scores joins: its score
    /// exceeds `tau`, no candidate scores higher, and every candidate with a
    /// smaller identifier scores lower.
    pub open spec fn selects(self, scores: Seq<Score>, tau: Score, c: int) -> bool {
        &&& self.is_candidate(scores, c)
        &&& scores[c] > tau
        &&& forall|j: int| self.is_candidate(scores, j) ==> #[trigger] scores[j] <= scores[c]
        &&& forall|j: int| j < c && self.is_candidate(scores, j) ==> #[trigger] scores[j] < scores[c]
    }

    /// No cluster is similar enough: no candidate's score exceeds `tau`.
    pub open spec fn no_match(self, scores: Seq<Score>, tau: Score) -> bool {
        forall|j: int| self.is_candidate(scores, j) ==> #[trigger] scores[j] <= tau
    }

    /// The cluster that an event with these scores joins, if there is one.
    pub open spec fn best_match(self, scores: Seq<Score>, tau: Score) -> Option<int> {
        if exists|c: int| self.selects(scores, tau, c) {
            Some(choose|c: int| self.selects(scores, tau, c))
        } else {
            None
        }
    }

    /// The graph after node `node_idx` joined the existing cluster `c`.
    pub open spec fn join(self, node_idx: int, c: int) -> GraphModel {
        GraphModel {
            nodes: self.nodes.update(
                node_idx,
                MemoryNode { timestamp: self.nodes[node_idx].timestamp, cluster_id: Some(c as u32) },
            ),
            edges: self.edges,
            clusters: self.clusters.update(c, self.clusters[c].push(node_idx as usize)),
        }
    }

    /// The graph after a new cluster was opened with node `node_idx` as its
    /// only member. The new cluster gets the next identifier.
    pub open spec fn open_cluster(self, node_idx: int) -> GraphModel {
        GraphModel {
            nodes: self.nodes.update(
                node_idx,
                MemoryNode {
                    timestamp: self.nodes[node_idx].timestamp,
                    cluster_id: Some(self.clusters.len() as u32),
                },
            ),
            edges: self.edges,
            clusters: self.clusters.push(seq![node_idx as usize]),
        }
    }

    /// The graph after the event of node `node_idx` was clustered: the node
    /// joins the best matching cluster, or opens a new one when none matches.
    pub open spec fn cluster_event(self, scores: Seq<Score>, node_idx: int, tau: Score) -> GraphModel {
        match self.best_match(scores, tau) {
            Some(c) => self.join(node_idx, c),
            None => self.open_cluster(node_idx),
        }
    }

    /// The graph after one event was recorded at `timestamp` and clustered.
    pub open spec fn remember(self, timestamp: u64, scores: Seq<Score>, tau: Score) -> GraphModel {
        self.add_node(timestamp).cluster_event(scores, self.nodes.len() as int, tau)
    }

    /// The graph that results from an empty one when one event per entry of
    /// `timestamps` is remembered in turn, each of them scoring `score`
    /// against every cluster that exists when it arrives.
    pub open spec fn replay(timestamps: Seq<u64>, score: Score, tau: Score) -> GraphModel
        decreases timestamps.len(),
    {
        if timestamps.len() == 0 {
            GraphModel::empty()
        } else {
            let before = GraphModel::replay(timestamps.drop_last(), score, tau);
            before.remember(timestamps.last(), uniform_scores(before.clusters.len(), score), tau)
        }
    }
}

/// The scores of an event that is equally similar to each of `n` clusters.
pub open spec fn uniform_scores(n: nat, score: Score) -> Seq<Score> {
    Seq::new(n, |c: int| score)
}

/// At most one cluster is selected: ties between equally similar clusters
/// are decided for the smallest identifier, so the outcome of a selection
/// does not depend on anything but the scores.
pub proof fn lemma_selection_is_unique(g: GraphModel, scores: Seq<Score>, tau: Score, c: int, d: int)
    requires
        g.selects(scores, tau, c),
        g.selects(scores, tau, d),
    ensures
        c == d,
{
    if c < d {
        assert(scores[c] < scores[d]);
        assert(scores[d] <= scores[c]);
    } else if d < c {
        assert(scores[d] < scores[c]);
        assert(scores[c] <= scores[d]);
    }
}

/// A selected cluster is the best match.
pub proof fn lemma_selected_is_best(g: GraphModel, scores: Seq<Score>, tau: Score, c: int)
    requires
        g.selects(scores, tau, c),
    ensures
        g.best_match(scores, tau) == Some(c),
{
    let d = choose|d: int| g.selects(scores, tau, d);
    lemma_selection_is_unique(g, scores, tau, c, d);
}

/// Where no candidate exceeds the threshold there is no best match.
pub proof fn lemma_no_match_is_none(g: GraphModel, scores: Seq<Score>, tau: Score)
    requires
        g.no_match(scores, tau),
    ensures
        g.best_match(scores, tau) is None,
{
    if exists|c: int| g.selects(scores, tau, c) {
        let c = choose|c: int| g.selects(scores, tau, c);
        assert(g.is_candidate(scores, c));
        assert(scores[c] <= tau);
    }
}

/// Which cluster an event joins depends on the clusters and the scores
/// alone.
pub proof fn lemma_best_match_depends_on_clusters(
    g: GraphModel,
    h: GraphModel,
    scores: Seq<Score>,
    tau: Score,
)
    requires
        g.clusters == h.clusters,
    ensures
        g.best_match(scores, tau) == h.best_match(scores, tau),
{
    assert forall|c: int| g.selects(scores, tau, c) == h.selects(scores, tau, c) by {
        assert forall|j: int| g.is_candidate(scores, j) == h.is_candidate(scores, j) by {}
    }
    match g.best_match(scores, tau) {
        Some(c) => {
            assert(h.selects(scores, tau, c));
            lemma_selected_is_best(h, scores, tau, c);
        },
        None => {
            if exists|c: int| h.selects(scores, tau, c) {
                let c = choose|c: int| h.selects(scores, tau, c);
                assert(g.selects(scores, tau, c));
            }
        },
    }
}

/// Joining a cluster keeps a graph well formed.
pub proof fn lemma_join_preserves_wf(g: GraphModel, node_idx: int, c: int)
    requires
        g.wf(),
        0 <= node_idx < g.nodes.len(),
        0 <= c < g.clusters.len(),
    ensures
        g.join(node_idx, c).wf(),
{
    let h = g.join(node_idx, c);
    assert forall|i: int| 0 <= i < h.nodes.len() implies match (#[trigger] h.nodes[i]).cluster_id {
        Some(d) => d < h.clusters.len() && h.clusters[d as int].contains(i as usize),
        None => true,
    } by {
        if i == node_idx {
            let members = h.clusters[c];
            assert(members[members.len() - 1] == i as usize);
        } else {
            match g.nodes[i].cluster_id {
                Some(d) => {
                    let k = choose|k: int|
                        0 <= k < g.clusters[d as int].len() && g.clusters[d as int][k] == i as usize;
                    assert(h.clusters[d as int][k] == i as usize);
                },
                None => {},
            }
        }
    }
    assert forall|d: int, k: int|
        0 <= d < h.clusters.len() && 0 <= k < h.clusters[d].len() implies (
    #[trigger] h.clusters[d][k]) < h.nodes.len() by {
        if d == c && k == g.clusters[c].len() {
        } else {
            assert(h.clusters[d][k] == g.clusters[d][k]);
        }
    }
    assert forall|d: int| 0 <= d < h.clusters.len() implies (#[trigger] h.clusters[d]).len()
        > 0 by {
        assert(g.clusters[d].len() > 0);
    }
    assert forall|e: int| 0 <= e < h.edges.len() implies (#[trigger] h.edges[e]).0 < h.nodes.len()
        && h.edges[e].1 < h.nodes.len() by {
        assert(h.edges[e] == g.edges[e]);
    }
}

/// Opening a cluster keeps a graph well formed, as long as identifiers are
/// left.
pub proof fn lemma_open_cluster_preserves_wf(g: GraphModel, node_idx: int)
    requires
        g.wf(),
        0 <= node_idx < g.nodes.len(),
        g.clusters.len() < u32::MAX,
    ensures
        g.open_cluster(node_idx).wf(),
{
    let h = g.open_cluster(node_idx);
    let fresh = g.clusters.len() as int;
    assert forall|i: int| 0 <= i < h.nodes.len() implies match (#[trigger] h.nodes[i]).cluster_id {
        Some(d) => d < h.clusters.len() && h.clusters[d as int].contains(i as usize),
        None => true,
    } by {
        if i == node_idx {
            assert(h.clusters[fresh][0] == i as usize);
        } else {
            match g.nodes[i].cluster_id {
                Some(d) => {
                    assert(h.clusters[d as int] == g.clusters[d as int]);
                },
                None => {},
            }
        }
    }
    assert forall|d: int, k: int|
        0 <= d < h.clusters.len() && 0 <= k < h.clusters[d].len() implies (
    #[trigger] h.clusters[d][k]) < h.nodes.len() by {
        if d < fresh {
            assert(h.clusters[d][k] == g.clusters[d][k]);
        }
    }
    assert forall|d: int| 0 <= d < h.clusters.len() implies (#[trigger] h.clusters[d]).len()
        > 0 by {
        if d < fresh {
            assert(g.clusters[d].len() > 0);
        }
    }
    assert forall|e: int| 0 <= e < h.edges.len() implies (#[trigger] h.edges[e]).0 < h.nodes.len()
        && h.edges[e].1 < h.nodes.len() by {
        assert(h.edges[e] == g.edges[e]);
    }
}

/// Clustering an event keeps a graph well formed: afterwards every node's
/// cluster exists and lists the node, and every member of a cluster is a
/// node.
pub proof fn lemma_cluster_event_preserves_wf(
    g: GraphModel,
    scores: Seq<Score>,
    node_idx: int,
    tau: Score,
)
    requires
        g.wf(),
        0 <= node_idx < g.nodes.len(),
        g.best_match(scores, tau) is None ==> g.clusters.len() < u32::MAX,
    ensures
        g.cluster_event(scores, node_idx, tau).wf(),
{
    match g.best_match(scores, tau) {
        Some(c) => {
            assert(g.selects(scores, tau, c));
            lemma_join_preserves_wf(g, node_idx, c);
        },
        None => {
            lemma_open_cluster_preserves_wf(g, node_idx);
        },
    }
}

/// Appending a node keeps a graph well formed.
pub proof fn lemma_add_node_preserves_wf(g: GraphModel, timestamp: u64)
    requires
        g.wf(),
    ensures
        g.add_node(timestamp).wf(),
{
    let grown = g.add_node(timestamp);
    assert forall|i: int| 0 <= i < grown.nodes.len() implies match (
    #[trigger] grown.nodes[i]).cluster_id {
        Some(d) => d < grown.clusters.len() && grown.clusters[d as int].contains(i as usize),
        None => true,
    } by {
        if i < g.nodes.len() {
            assert(grown.nodes[i] == g.nodes[i]);
        }
    }
    assert forall|e: int| 0 <= e < grown.edges.len() implies (#[trigger] grown.edges[e]).0
        < grown.nodes.len() && grown.edges[e].1 < grown.nodes.len() by {
        assert(grown.edges[e] == g.edges[e]);
    }
}

/// Remembering an event keeps a graph well formed. It adds one node, keeps
/// the nodes and clusters there were, and adds at most one cluster.
pub proof fn lemma_remember_preserves_wf(g: GraphModel, timestamp: u64, scores: Seq<Score>, tau: Score)
    requires
        g.wf(),
        g.nodes.len() < usize::MAX,
        g.best_match(scores, tau) is None ==> g.clusters.len() < u32::MAX,
    ensures
        g.remember(timestamp, scores, tau).wf(),
        g.remember(timestamp, scores, tau).nodes.len() == g.nodes.len() + 1,
        g.clusters.len() <= g.remember(timestamp, scores, tau).clusters.len() <= g.clusters.len()
            + 1,
        g.remember(timestamp, scores, tau).edges == g.edges,
{
    let grown = g.add_node(timestamp);
    lemma_add_node_preserves_wf(g, timestamp);
    lemma_best_match_depends_on_clusters(g, grown, scores, tau);
    lemma_cluster_event_preserves_wf(grown, scores, g.nodes.len() as int, tau);
}

/// Remembering keeps the memories sorted into beliefs: where every node
/// belonged to exactly one cluster before an event was remembered, every
/// node does so afterwards, the new one included.
pub proof fn lemma_remember_preserves_partition(
    g: GraphModel,
    timestamp: u64,
    scores: Seq<Score>,
    tau: Score,
)
    requires
        g.wf(),
        g.partitioned(),
        g.nodes.len() < usize::MAX,
        g.best_match(scores, tau) is None ==> g.clusters.len() < u32::MAX,
    ensures
        g.remember(timestamp, scores, tau).partitioned(),
{
    let grown = g.add_node(timestamp);
    let fresh = g.nodes.len() as int;
    let h = g.remember(timestamp, scores, tau);
    lemma_best_match_depends_on_clusters(g, grown, scores, tau);
    assert forall|c: int, k: int|
        0 <= c < g.clusters.len() && 0 <= k < g.clusters[c].len() implies (
    #[trigger] g.clusters[c][k]) != fresh by {}
    match g.best_match(scores, tau) {
        Some(b) => {
            assert(g.selects(scores, tau, b));
            assert(h == grown.join(fresh, b));
            assert forall|i: int| 0 <= i < h.nodes.len() implies (
            #[trigger] h.nodes[i]).cluster_id is Some by {
                if i < fresh {
                    assert(g.nodes[i].cluster_id is Some);
                }
            }
            assert forall|c: int, k: int|
                0 <= c < h.clusters.len() && 0 <= k < h.clusters[c].len() implies h.nodes[(
            #[trigger] h.clusters[c][k]) as int].cluster_id == Some(c as u32) by {
                if c == b && k == g.clusters[b].len() {
                } else {
                    assert(h.clusters[c][k] == g.clusters[c][k]);
                    assert(g.clusters[c][k] != fresh);
                }
            }
            assert forall|c: int, k: int, l: int|
                0 <= c < h.clusters.len() && 0 <= k < l < h.clusters[c].len()
                    implies #[trigger] h.clusters[c][k] != #[trigger] h.clusters[c][l] by {
                if c == b && l == g.clusters[b].len() {
                    assert(h.clusters[c][k] == g.clusters[c][k]);
                    assert(g.clusters[c][k] != fresh);
                } else {
                    assert(h.clusters[c][k] == g.clusters[c][k]);
                    assert(h.clusters[c][l] == g.clusters[c][l]);
                }
            }
        },
        None => {
            assert(h == grown.open_cluster(fresh));
            let opened = g.clusters.len() as int;
            assert forall|i: int| 0 <= i < h.nodes.len() implies (
            #[trigger] h.nodes[i]).cluster_id is Some by {
                if i < fresh {
                    assert(g.nodes[i].cluster_id is Some);
                }
            }
            assert forall|c: int, k: int|
                0 <= c < h.clusters.len() && 0 <= k < h.clusters[c].len() implies h.nodes[(
            #[trigger] h.clusters[c][k]) as int].cluster_id == Some(c as u32) by {
                if c < opened {
                    assert(h.clusters[c][k] == g.clusters[c][k]);
                    assert(g.clusters[c][k] != fresh);
                }
            }
            assert forall|c: int, k: int, l: int|
                0 <= c < h.clusters.len() && 0 <= k < l < h.clusters[c].len()
                    implies #[trigger] h.clusters[c][k] != #[trigger] h.clusters[c][l] by {
                if c < opened {
                    assert(h.clusters[c][k] == g.clusters[c][k]);
                    assert(h.clusters[c][l] == g.clusters[c][l]);
                }
            }
        },
    }
}

/// An event that recurs forms a single belief: when the same event is
/// remembered again and again, and it is more similar to itself than the
/// threshold asks, then all its nodes end up in one cluster, in the order in
/// which they were recorded.
pub proof fn lemma_recurring_event_forms_one_cluster(timestamps: Seq<u64>, score: Score, tau: Score)
    requires
        1 <= timestamps.len() <= usize::MAX,
        score > tau,
    ensures
        GraphModel::replay(timestamps, score, tau).wf(),
        GraphModel::replay(timestamps, score, tau).nodes.len() == timestamps.len(),
        GraphModel::replay(timestamps, score, tau).clusters == seq![
            Seq::new(timestamps.len(), |k: int| k as usize),
        ],
        forall|i: int|
            0 <= i < timestamps.len() ==> (#[trigger] GraphModel::replay(
                timestamps,
                score,
                tau,
            ).nodes[i]) == (MemoryNode { timestamp: timestamps[i], cluster_id: Some(0u32) }),
    decreases timestamps.len(),
{
    let n = timestamps.len() as int;
    let earlier = timestamps.drop_last();
    let before = GraphModel::replay(earlier, score, tau);
    let scores = uniform_scores(before.clusters.len(), score);
    let grown = before.add_node(timestamps.last());
    let after = GraphModel::replay(timestamps, score, tau);
    assert(after == grown.cluster_event(scores, before.nodes.len() as int, tau));
    if n == 1 {
        assert(before == GraphModel::empty());
        assert(grown.no_match(scores, tau));
        lemma_no_match_is_none(grown, scores, tau);
        assert(after == grown.open_cluster(0));
        lemma_add_node_preserves_wf(before, timestamps.last());
        lemma_open_cluster_preserves_wf(grown, 0);
        assert(after.clusters =~= seq![Seq::new(1, |k: int| k as usize)]) by {
            assert(after.clusters[0] =~= Seq::new(1, |k: int| k as usize));
        }
    } else {
        lemma_recurring_event_forms_one_cluster(earlier, score, tau);
        assert(before.clusters[0] == Seq::new((n - 1) as nat, |k: int| k as usize));
        lemma_add_node_preserves_wf(before, timestamps.last());
        assert(grown.selects(scores, tau, 0));
        lemma_selected_is_best(grown, scores, tau, 0);
        assert(after == grown.join(n - 1, 0));
        lemma_join_preserves_wf(grown, n - 1, 0);
        assert(after.clusters =~= seq![Seq::new(n as nat, |k: int| k as usize)]) by {
            assert(after.clusters[0] =~= Seq::new(n as nat, |k: int| k as usize));
        }
        assert forall|i: int| 0 <= i < n implies (#[trigger] after.nodes[i]) == (MemoryNode {
            timestamp: timestamps[i],
            cluster_id: Some(0u32),
        }) by {
            if i < n - 1 {
                assert(before.nodes[i] == (MemoryNode {
                    timestamp: earlier[i],
                    cluster_id: Some(0u32),
                }));
            }
        }
    }
}

/// The memory of one entity.
pub struct MemoryGraph {
    nodes: Vec<MemoryNode>,
    edges: Vec<(usize, usize)>,
    clusters: Vec<BeliefCluster>,
    next_cluster_id: u32,
}

impl View for MemoryGraph {
    type V = GraphModel;

    closed spec fn view(&self) -> GraphModel {
        GraphModel {
            nodes: self.nodes@,
            edges: self.edges@,
            clusters: Seq::new(self.clusters@.len(), |c: int| self.clusters@[c].node_indices@),
        }
    }
}

impl MemoryGraph {
    /// The graph is consistent: its content is well formed, clusters are
    /// stored under their identifiers, and identifiers are handed out in
    /// ascending order without gaps.
    pub closed spec fn wf(&self) -> bool {
        &&& self@.wf()
        &&& self.next_cluster_id == self.clusters@.len()
        &&& forall|c: int| 0 <= c < self.clusters@.len() ==> (#[trigger] self.clusters@[c]).id == c
    }

    /// The content of a consistent graph is well formed.
    pub proof fn lemma_wf_content(&self)
        requires
            self.wf(),
        ensures
            self@.wf(),
    {
    }

    /// An empty graph.
    pub fn new() -> (graph: MemoryGraph)
        ensures
            graph.wf(),
            graph@ == GraphModel::empty(),
    {
        let graph = MemoryGraph {
            nodes: Vec::new(),
            edges: Vec::new(),
            clusters: Vec::new(),
            next_cluster_id: 0,
        };
        assert(graph@.clusters =~= Seq::empty());
        graph
    }

    /// Appends a node and returns its index, which is the number of nodes
    /// there were before. The node is stored as not yet clustered.
    pub fn add_node(&mut self, node: MemoryNode) -> (idx: usize)
        requires
            old(self).wf(),
        ensures
            final(self).wf(),
            idx == old(self)@.nodes.len(),
            final(self)@ == old(self)@.add_node(node.timestamp),
    {
        let idx = self.nodes.len();
        self.nodes.push(MemoryNode::new(node.timestamp));
        proof {
            assert(self@.clusters =~= old(self)@.clusters);
            lemma_add_node_preserves_wf(old(self)@, node.timestamp);
        }
        idx
    }

    /// Records an associative link from node `src` to node `dst`. A link
    /// with an end that is no node of the graph is ignored.
    pub fn add_edge(&mut self, src: usize, dst: usize)
        requires
            old(self).wf(),
        ensures
            final(self).wf(),
            final(self)@ == old(self)@.add_edge(src, dst),
    {
        if src < self.nodes.len() && dst < self.nodes.len() {
            self.edges.push((src, dst));
            proof {
                assert(self@.clusters =~= old(self)@.clusters);
                let before = old(self)@;
                let after = self@;
                assert forall|e: int| 0 <= e < after.edges.len() implies (
                #[trigger] after.edges[e]).0 < after.nodes.len() && after.edges[e].1
                    < after.nodes.len() by {
                    if e < before.edges.len() {
                        assert(after.edges[e] == before.edges[e]);
                    }
                }
            }
        }
    }

    /// Number of nodes.
    pub fn node_count(&self) -> (n: usize)
        ensures
            n == self@.nodes.len(),
    {
        self.nodes.len()
    }

    /// Number of clusters.
    pub fn cluster_count(&self) -> (n: usize)
        ensures
            n == self@.clusters.len(),
    {
        self.clusters.len()
    }

    /// The nodes in the order in which they were added.
    pub fn nodes(&self) -> (nodes: &Vec<MemoryNode>)
        ensures
            nodes@ == self@.nodes,
    {
        &self.nodes
    }

    /// The associative links in the order in which they were recorded.
    pub fn edges(&self) -> (edges: &Vec<(usize, usize)>)
        ensures
            edges@ == self@.edges,
    {
        &self.edges
    }

    /// The clusters in ascending order of their identifiers. With a
    /// consistent graph the cluster at position `c` has identifier `c`.
    pub fn clusters(&self) -> (clusters: &Vec<BeliefCluster>)
        ensures
            clusters@.len() == self@.clusters.len(),
            forall|c: int|
                0 <= c < clusters@.len() ==> (#[trigger] clusters@[c]).node_indices@
                    == self@.clusters[c],
            self.wf() ==> forall|c: int|
                0 <= c < clusters@.len() ==> (#[trigger] clusters@[c]).id == c,
    {
        &self.clusters
    }

    /// The members of cluster `cluster` that contribute to its affective
    /// signal: those that are live, in joining order. `activations[n]` is
    /// the activation of node `n`. A cluster that the graph does not have
    /// has no members.
    pub fn live_members(&self, cluster: usize, activations: &Vec<Score>) -> (live: Vec<usize>)
        ensures
            live@ == if cluster < self@.clusters.len() {
                live_among(self@.clusters[cluster as int], activations@)
            } else {
                Seq::empty()
            },
    {
        let mut live: Vec<usize> = Vec::new();
        if cluster >= self.clusters.len() {
            return live;
        }
        let members = &self.clusters[cluster].node_indices;
        let mut k: usize = 0;
        while k < members.len()
            invariant
                k <= members@.len(),
                live@ == live_among(members@.take(k as int), activations@),
            decreases members@.len() - k,
        {
            let node = members[k];
            proof {
                assert(members@.take(k + 1).drop_last() =~= members@.take(k as int));
                assert(members@.take(k + 1).last() == node);
            }
            if node < activations.len() && activations[node] > ACTIVATION_FLOOR {
                live.push(node);
            }
            k += 1;
        }
        proof {
            assert(members@.take(k as int) =~= members@);
        }
        live
    }

    /// Picks the cluster that an event joins. `scores[c]` tells how similar
    /// the event is to the members of cluster `c`, and `tau` is the least
    /// similarity, on the same scale, that a cluster must exceed. Among the
    /// clusters with members and a score, the one with the highest score above
    /// `tau` is picked, the one with the smallest identifier among equals.
    pub fn select_cluster(&self, scores: &Vec<Score>, tau: Score) -> (best: Option<u32>)
        requires
            self@.clusters.len() <= u32::MAX,
        ensures
            match best {
                Some(c) => self@.selects(scores@, tau, c as int),
                None => self@.no_match(scores@, tau),
            },
            best matches Some(c) ==> self@.best_match(scores@, tau) == Some(c as int),
            best is None ==> self@.best_match(scores@, tau) is None,
    {
        let mut best: Option<u32> = None;
        let mut best_score: Score = tau;
        let mut c: usize = 0;
        while c < self.clusters.len() && c < scores.len()
            invariant
                self@.clusters.len() <= u32::MAX,
                c <= self.clusters@.len(),
                c <= scores@.len(),
                best_score >= tau,
                best is None ==> best_score == tau,
                forall|j: int|
                    j < c && self@.is_candidate(scores@, j) ==> #[trigger] scores@[j]
                        <= best_score,
                match best {
                    Some(b) => {
                        &&& b < c
                        &&& self@.is_candidate(scores@, b as int)
                        &&& scores@[b as int] == best_score
                        &&& best_score > tau
                        &&& forall|j: int|
                            j < b && self@.is_candidate(scores@, j) ==> #[trigger] scores@[j]
                                < best_score
                    },
                    None => true,
                },
            decreases self.clusters@.len() - c,
        {
            if self.clusters[c].node_indices.len() > 0 && scores[c] > best_score {
                best_score = scores[c];
                best = Some(c as u32);
            }
            c += 1;
        }
        proof {
            match best {
                Some(b) => {
                    lemma_selected_is_best(self@, scores@, tau, b as int);
                },
                None => {
                    lemma_no_match_is_none(self@, scores@, tau);
                },
            }
        }
        best
    }

    /// Clusters the event of node `node_idx`. The node joins the cluster
    /// that `select_cluster` picks for these scores; where it picks none, a
    /// new cluster with the next identifier is opened for the node. The
    /// node then names that cluster as its own. An index that names no node
    /// of the graph is ignored: the graph stays as it is.
    pub fn cluster_event(&mut self, scores: &Vec<Score>, node_idx: usize, tau: Score)
        requires
            old(self).wf(),
            (node_idx < old(self)@.nodes.len() && old(self)@.best_match(scores@, tau) is None)
                ==> old(self)@.clusters.len() < u32::MAX,
        ensures
            final(self).wf(),
            final(self)@ == if node_idx < old(self)@.nodes.len() {
                old(self)@.cluster_event(scores@, node_idx as int, tau)
            } else {
                old(self)@
            },
    {
        if node_idx >= self.nodes.len() {
            return;
        }
        let best = self.select_cluster(scores, tau);
        let cluster_id: u32 = match best {
            Some(c) => c,
            None => {
                let fresh = self.next_cluster_id;
                self.next_cluster_id = fresh + 1;
                self.clusters.push(BeliefCluster::new(fresh));
                fresh
            },
        };
        self.clusters[cluster_id as usize].node_indices.push(node_idx);
        let timestamp = self.nodes[node_idx].timestamp;
        self.nodes.set(node_idx, MemoryNode { timestamp, cluster_id: Some(cluster_id) });
        proof {
            let before = old(self)@;
            let after = self@;
            let expected = before.cluster_event(scores@, node_idx as int, tau);
            assert(after.clusters =~= expected.clusters);
            assert(after.nodes =~= expected.nodes);
            lemma_cluster_event_preserves_wf(before, scores@, node_idx as int, tau);
        }
    }
}

} // verus!
