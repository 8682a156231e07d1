use synthetic_consciousness::memory::{
    is_comparable, valence, BeliefCluster, MemoryGraph, MemoryNode, Valence,
};

/// Cosine of the angle between two vectors, 0 where one of them is empty or
/// has no length.
fn cosine(a: &[f32], b: &[f32]) -> f32 {
    let dot: f32 = a.iter().zip(b.iter()).map(|(x, y)| x * y).sum();
    let na: f32 = a.iter().map(|x| x * x).sum::<f32>().sqrt();
    let nb: f32 = b.iter().map(|x| x * x).sum::<f32>().sqrt();
    if is_comparable(a.len(), b.len(), score_of(na), score_of(nb)) {
        dot / (na * nb)
    } else {
        0.0
    }
}

fn score_of(x: f32) -> i64 {
    let bits = x.to_bits();
    let magnitude = (bits & 0x7fff_ffff) as i64;
    if bits & 0x8000_0000 != 0 {
        -magnitude
    } else {
        magnitude
    }
}

/// Mean similarity of `event` to the members of each cluster.
fn scores_against(graph: &MemoryGraph, events: &[Vec<f32>], event: &[f32]) -> Vec<i64> {
    let mut scores = Vec::new();
    for cluster in graph.clusters().iter() {
        let mut total = 0.0f32;
        for &member in cluster.node_indices.iter() {
            total += cosine(event, &events[member]) / cluster.node_indices.len() as f32;
        }
        scores.push(score_of(total));
    }
    scores
}

fn remember(graph: &mut MemoryGraph, events: &mut Vec<Vec<f32>>, event: Vec<f32>, t: u64, tau: f32) {
    let scores = scores_against(graph, events, &event);
    let idx = graph.add_node(MemoryNode::new(t));
    events.push(event);
    assert!(graph.cluster_count() < u32::MAX as usize);
    graph.cluster_event(&scores, idx, score_of(tau));
}

/// The affective signal of each cluster: the mean, over its live members, of
/// activation times valence.
fn affective_signals(graph: &MemoryGraph, events: &[Vec<f32>], activations: &[f32]) -> Vec<f32> {
    let levels: Vec<i64> = activations.iter().map(|a| score_of(*a)).collect();
    let mut signals = Vec::new();
    for c in 0..graph.cluster_count() {
        let live = graph.live_members(c, &levels);
        let mut signal = 0.0f32;
        for &node in live.iter() {
            let felt = valence(events[node].first().map(|x| score_of(*x)));
            signal += activations[node] * felt.sign() as f32;
        }
        signals.push(if live.is_empty() { 0.0 } else { signal / live.len() as f32 });
    }
    signals
}

#[test]
fn new_node_is_unclustered() {
    let node = MemoryNode::new(17);
    assert_eq!(node.timestamp, 17);
    assert_eq!(node.cluster_id, None);
}

#[test]
fn new_cluster_has_no_members() {
    let cluster = BeliefCluster::new(4);
    assert_eq!(cluster.id, 4);
    assert!(cluster.node_indices.is_empty());
}

#[test]
fn new_graph_is_empty() {
    let graph = MemoryGraph::new();
    assert_eq!(graph.node_count(), 0);
    assert_eq!(graph.cluster_count(), 0);
    assert!(graph.nodes().is_empty());
    assert!(graph.edges().is_empty());
    assert!(graph.clusters().is_empty());
}

#[test]
fn add_node_returns_sequential_indices() {
    let mut graph = MemoryGraph::new();
    assert_eq!(graph.add_node(MemoryNode::new(10)), 0);
    assert_eq!(graph.add_node(MemoryNode::new(11)), 1);
    assert_eq!(graph.add_node(MemoryNode::new(12)), 2);
    assert_eq!(graph.node_count(), 3);
    assert_eq!(graph.nodes()[1].timestamp, 11);
    assert_eq!(graph.nodes()[1].cluster_id, None);
}

#[test]
fn add_node_stores_the_node_as_unclustered() {
    let mut graph = MemoryGraph::new();
    let idx = graph.add_node(MemoryNode { timestamp: 3, cluster_id: Some(99) });
    assert_eq!(graph.nodes()[idx].timestamp, 3);
    assert_eq!(graph.nodes()[idx].cluster_id, None);
}

#[test]
fn add_edge_records_links_between_nodes() {
    let mut graph = MemoryGraph::new();
    graph.add_node(MemoryNode::new(0));
    graph.add_node(MemoryNode::new(1));
    graph.add_edge(0, 1);
    graph.add_edge(1, 1);
    assert_eq!(graph.edges().as_slice(), &[(0, 1), (1, 1)]);
}

#[test]
fn add_edge_ignores_links_to_missing_nodes() {
    let mut graph = MemoryGraph::new();
    graph.add_edge(0, 0);
    graph.add_node(MemoryNode::new(0));
    graph.add_edge(0, 1);
    graph.add_edge(1, 0);
    graph.add_edge(7, 9);
    assert!(graph.edges().is_empty());
    assert_eq!(graph.node_count(), 1);
}

/// A graph with `n` nodes in `n` clusters of one member each.
fn graph_with_singleton_clusters(n: usize) -> MemoryGraph {
    let mut graph = MemoryGraph::new();
    for t in 0..n {
        let idx = graph.add_node(MemoryNode::new(t as u64));
        graph.cluster_event(&vec![], idx, 0);
    }
    graph
}

#[test]
fn select_cluster_finds_nothing_in_an_empty_graph() {
    let graph = MemoryGraph::new();
    assert_eq!(graph.select_cluster(&vec![], 0), None);
    assert_eq!(graph.select_cluster(&vec![100, 200], 0), None);
}

#[test]
fn select_cluster_picks_the_highest_score() {
    let graph = graph_with_singleton_clusters(4);
    assert_eq!(graph.select_cluster(&vec![10, 40, 30, 20], 5), Some(1));
    assert_eq!(graph.select_cluster(&vec![10, 20, 30, 40], 5), Some(3));
    assert_eq!(graph.select_cluster(&vec![-10, -40, -3, -20], -50), Some(2));
}

#[test]
fn select_cluster_prefers_the_smallest_identifier_among_equals() {
    let graph = graph_with_singleton_clusters(4);
    assert_eq!(graph.select_cluster(&vec![10, 40, 40, 40], 5), Some(1));
    assert_eq!(graph.select_cluster(&vec![7, 7, 7, 7], 5), Some(0));
}

#[test]
fn select_cluster_wants_the_threshold_exceeded() {
    let graph = graph_with_singleton_clusters(3);
    assert_eq!(graph.select_cluster(&vec![5, 5, 5], 5), None);
    assert_eq!(graph.select_cluster(&vec![1, 2, 3], 5), None);
    assert_eq!(graph.select_cluster(&vec![5, 6, 5], 5), Some(1));
    assert_eq!(graph.select_cluster(&vec![i64::MIN, i64::MIN], i64::MIN), None);
    assert_eq!(graph.select_cluster(&vec![i64::MAX, i64::MAX], i64::MAX), None);
}

#[test]
fn select_cluster_considers_scored_clusters_only() {
    let graph = graph_with_singleton_clusters(3);
    assert_eq!(graph.select_cluster(&vec![9], 5), Some(0));
    assert_eq!(graph.select_cluster(&vec![1, 9], 5), Some(1));
    assert_eq!(graph.select_cluster(&vec![1, 2, 3, 400, 500], 2), Some(2));
}

#[test]
fn cluster_event_opens_the_first_cluster() {
    let mut graph = MemoryGraph::new();
    let idx = graph.add_node(MemoryNode::new(5));
    graph.cluster_event(&vec![], idx, 700);
    assert_eq!(graph.cluster_count(), 1);
    assert_eq!(graph.clusters()[0].id, 0);
    assert_eq!(graph.clusters()[0].node_indices, vec![0]);
    assert_eq!(graph.nodes()[0].cluster_id, Some(0));
    assert_eq!(graph.nodes()[0].timestamp, 5);
}

#[test]
fn cluster_event_joins_the_best_cluster() {
    let mut graph = graph_with_singleton_clusters(3);
    let idx = graph.add_node(MemoryNode::new(3));
    graph.cluster_event(&vec![710, 990, 800], idx, 700);
    assert_eq!(graph.cluster_count(), 3);
    assert_eq!(graph.clusters()[1].node_indices, vec![1, 3]);
    assert_eq!(graph.clusters()[0].node_indices, vec![0]);
    assert_eq!(graph.clusters()[2].node_indices, vec![2]);
    assert_eq!(graph.nodes()[3].cluster_id, Some(1));
}

#[test]
fn cluster_event_opens_a_cluster_when_none_is_similar_enough() {
    let mut graph = graph_with_singleton_clusters(2);
    let idx = graph.add_node(MemoryNode::new(2));
    graph.cluster_event(&vec![699, 700], idx, 700);
    assert_eq!(graph.cluster_count(), 3);
    assert_eq!(graph.clusters()[2].id, 2);
    assert_eq!(graph.clusters()[2].node_indices, vec![2]);
    assert_eq!(graph.nodes()[2].cluster_id, Some(2));
}

#[test]
fn cluster_identifiers_ascend_without_gaps() {
    let graph = graph_with_singleton_clusters(5);
    let ids: Vec<u32> = graph.clusters().iter().map(|c| c.id).collect();
    assert_eq!(ids, vec![0, 1, 2, 3, 4]);
    for (i, node) in graph.nodes().iter().enumerate() {
        assert_eq!(node.cluster_id, Some(i as u32));
    }
}

#[test]
fn cluster_event_ignores_an_index_that_names_no_node() {
    let mut graph = MemoryGraph::new();
    graph.cluster_event(&vec![], 5, 0);
    graph.cluster_event(&vec![9, 9], 0, 0);
    assert_eq!(graph.node_count(), 0);
    assert_eq!(graph.cluster_count(), 0);

    let mut graph = graph_with_singleton_clusters(3);
    graph.add_edge(0, 2);
    graph.cluster_event(&vec![10, 40, 30], 3, 5);
    graph.cluster_event(&vec![], usize::MAX, 5);
    assert_eq!(graph.node_count(), 3);
    assert_eq!(graph.cluster_count(), 3);
    for (i, cluster) in graph.clusters().iter().enumerate() {
        assert_eq!(cluster.id, i as u32);
        assert_eq!(cluster.node_indices, vec![i]);
        assert_eq!(graph.nodes()[i].cluster_id, Some(i as u32));
        assert_eq!(graph.nodes()[i].timestamp, i as u64);
    }
    assert_eq!(graph.edges().as_slice(), &[(0, 2)]);
    let idx = graph.add_node(MemoryNode::new(3));
    graph.cluster_event(&vec![10, 40, 30], idx, 5);
    assert_eq!(graph.clusters()[1].node_indices, vec![1, 3]);
}

#[test]
fn vectors_without_components_or_length_are_not_comparable() {
    let one = score_of(1.0);
    assert!(is_comparable(3, 2, one, score_of(1e-30)));
    assert!(!is_comparable(0, 2, one, one));
    assert!(!is_comparable(2, 0, one, one));
    assert!(!is_comparable(2, 2, score_of(0.0), one));
    assert!(!is_comparable(2, 2, one, score_of(0.0)));
    assert!(!is_comparable(2, 2, one, score_of(-0.0)));
    assert!(!is_comparable(0, 0, score_of(0.0), score_of(0.0)));
    assert_eq!(cosine(&[], &[]), 0.0);
    assert_eq!(cosine(&[0.0, 0.0], &[1.0, 2.0]), 0.0);
    assert_eq!(cosine(&[1.0, 2.0], &[0.0, 0.0]), 0.0);
    assert_eq!(cosine(&[3.0, 0.0], &[0.0, 2.0]), 0.0);
    assert_eq!(cosine(&[3.0, 0.0], &[-2.0, 0.0]), -1.0);
}

#[test]
fn clustering_a_node_again_moves_its_cluster_reference() {
    let mut graph = graph_with_singleton_clusters(2);
    graph.cluster_event(&vec![1, 9], 0, 5);
    assert_eq!(graph.nodes()[0].cluster_id, Some(1));
    assert_eq!(graph.clusters()[1].node_indices, vec![1, 0]);
    assert_eq!(graph.clusters()[0].node_indices, vec![0]);
}

#[test]
fn recurring_event_forms_one_cluster() {
    let mut graph = MemoryGraph::new();
    let mut events: Vec<Vec<f32>> = Vec::new();
    let event = vec![0.3f32, -1.25, 4.0];
    let n = 25;
    for t in 0..n {
        remember(&mut graph, &mut events, event.clone(), t as u64, 0.7);
    }
    assert_eq!(graph.node_count(), n);
    assert_eq!(graph.cluster_count(), 1);
    assert_eq!(graph.clusters()[0].node_indices, (0..n).collect::<Vec<usize>>());
    for (t, node) in graph.nodes().iter().enumerate() {
        assert_eq!(node.cluster_id, Some(0));
        assert_eq!(node.timestamp, t as u64);
    }
}

#[test]
fn dissimilar_events_form_separate_clusters() {
    let mut graph = MemoryGraph::new();
    let mut events: Vec<Vec<f32>> = Vec::new();
    remember(&mut graph, &mut events, vec![1.0, 0.0], 0, 0.7);
    remember(&mut graph, &mut events, vec![0.0, 1.0], 1, 0.7);
    remember(&mut graph, &mut events, vec![0.9, 0.1], 2, 0.7);
    remember(&mut graph, &mut events, vec![-1.0, 0.0], 3, 0.7);
    assert_eq!(graph.cluster_count(), 3);
    assert_eq!(graph.clusters()[0].node_indices, vec![0, 2]);
    assert_eq!(graph.clusters()[1].node_indices, vec![1]);
    assert_eq!(graph.clusters()[2].node_indices, vec![3]);
}

#[test]
fn event_without_direction_never_joins_a_cluster() {
    let mut graph = MemoryGraph::new();
    let mut events: Vec<Vec<f32>> = Vec::new();
    remember(&mut graph, &mut events, vec![0.0, 0.0], 0, 0.7);
    remember(&mut graph, &mut events, vec![0.0, 0.0], 1, 0.7);
    remember(&mut graph, &mut events, vec![], 2, 0.7);
    assert_eq!(graph.cluster_count(), 3);
}

#[test]
fn similarity_of_a_vector_to_itself_exceeds_the_threshold() {
    let vectors: [&[f32]; 4] = [&[1.0], &[0.3, -1.25, 4.0], &[1e-3, 1e-3], &[-7.0, 0.0, 0.0, 2.0]];
    for v in vectors.iter() {
        assert!((cosine(v, v) - 1.0).abs() < 1e-6);
        assert!(score_of(cosine(v, v)) > score_of(0.7));
    }
    assert_eq!(cosine(&[], &[1.0]), 0.0);
    assert_eq!(cosine(&[1.0], &[]), 0.0);
    assert_eq!(score_of(cosine(&[], &[])), 0);
}

#[test]
fn valence_of_an_event() {
    assert_eq!(valence(None), Valence::Neutral);
    assert_eq!(valence(Some(score_of(0.0))), Valence::Neutral);
    assert_eq!(valence(Some(score_of(0.5))), Valence::Neutral);
    assert_eq!(valence(Some(score_of(-0.5))), Valence::Neutral);
    assert_eq!(valence(Some(score_of(0.50000006))), Valence::Positive);
    assert_eq!(valence(Some(score_of(-0.50000006))), Valence::Negative);
    assert_eq!(valence(Some(score_of(3.0))), Valence::Positive);
    assert_eq!(valence(Some(score_of(-3.0))), Valence::Negative);
    assert_eq!(Valence::Positive.sign(), 1);
    assert_eq!(Valence::Neutral.sign(), 0);
    assert_eq!(Valence::Negative.sign(), -1);
}

#[test]
fn live_members_are_those_above_the_floor() {
    let mut graph = MemoryGraph::new();
    for t in 0..5 {
        let idx = graph.add_node(MemoryNode::new(t));
        let scores = vec![10; graph.cluster_count()];
        graph.cluster_event(&scores, idx, 5);
    }
    assert_eq!(graph.clusters()[0].node_indices, vec![0, 1, 2, 3, 4]);
    let levels: Vec<i64> =
        [1.0f32, 0.01, 0.010000001, 0.0, 0.5].iter().map(|a| score_of(*a)).collect();
    assert_eq!(graph.live_members(0, &levels), vec![0, 2, 4]);
    assert_eq!(graph.live_members(0, &levels[..2].to_vec()), vec![0]);
    assert_eq!(graph.live_members(0, &vec![]), Vec::<usize>::new());
    assert_eq!(graph.live_members(1, &levels), Vec::<usize>::new());
}

#[test]
fn affective_signal_is_the_mean_over_live_members() {
    let mut graph = MemoryGraph::new();
    let mut events: Vec<Vec<f32>> = Vec::new();
    remember(&mut graph, &mut events, vec![0.9, 0.1], 0, 0.7);
    remember(&mut graph, &mut events, vec![0.8, 0.1], 1, 0.7);
    remember(&mut graph, &mut events, vec![0.4, 0.05], 2, 0.7);
    remember(&mut graph, &mut events, vec![-0.9, 0.1], 3, 0.7);
    remember(&mut graph, &mut events, vec![0.0, 1.0], 4, 0.7);
    remember(&mut graph, &mut events, vec![0.7, 0.1], 5, 0.7);
    assert_eq!(graph.clusters()[0].node_indices, vec![0, 1, 2, 5]);
    assert_eq!(graph.clusters()[1].node_indices, vec![3]);
    assert_eq!(graph.clusters()[2].node_indices, vec![4]);
    let activations = [1.0f32, 0.5, 0.25, 0.75, 0.9, 0.005];
    let signals = affective_signals(&graph, &events, &activations);
    assert_eq!(signals, vec![(1.0 + 0.5 + 0.0) / 3.0, -0.75, 0.0]);
    let faded = [0.01f32, 0.0, 0.001, 0.01, 0.0, 0.0];
    assert_eq!(affective_signals(&graph, &events, &faded), vec![0.0, 0.0, 0.0]);
}
