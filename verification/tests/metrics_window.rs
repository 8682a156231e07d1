use synthetic_consciousness::metrics::Metrics;
use synthetic_consciousness::visualization::{MetricsHistory, MAX_HISTORY};

fn snapshot(value: i64) -> Metrics {
    Metrics {
        timestamp: 0,
        attention_entropy: value,
        memory_diversity: value + 1,
        velocity_stability: value + 2,
        identity_coherence: value + 3,
        cluster_stability: value + 4,
        affective_strength: value + 5,
        essence_trajectory: value + 6,
        average_essence: value + 7,
    }
}

#[test]
fn new_window_is_empty() {
    assert_eq!(MAX_HISTORY, 500);
    assert_eq!(MetricsHistory::new().len(), 0);
    assert_eq!(MetricsHistory::default().len(), 0);
    assert!(MetricsHistory::new().samples().is_empty());
}

#[test]
fn window_keeps_snapshots_in_order() {
    let mut window = MetricsHistory::new();
    for step in 0..10u64 {
        window.push(step * 10, &snapshot(step as i64));
        assert_eq!(window.len(), step as usize + 1);
    }
    for (k, sample) in window.samples().iter().enumerate() {
        assert_eq!(sample.timestamp, k as u64 * 10);
        assert_eq!(sample.attention_entropy, k as i64);
        assert_eq!(sample.average_essence, k as i64 + 7);
    }
}

#[test]
fn full_window_lets_go_of_its_oldest_snapshot() {
    let mut window = MetricsHistory::new();
    for step in 0..500u64 {
        window.push(step, &snapshot(step as i64));
    }
    assert_eq!(window.len(), 500);
    assert_eq!(window.samples().front().unwrap().timestamp, 0);
    window.push(500, &snapshot(500));
    assert_eq!(window.len(), 500);
    assert_eq!(window.samples().front().unwrap().timestamp, 1);
    assert_eq!(window.samples().back().unwrap().timestamp, 500);
    for step in 501..1234u64 {
        window.push(step, &snapshot(step as i64));
        assert_eq!(window.len(), 500);
    }
    let steps: Vec<u64> = window.samples().iter().map(|m| m.timestamp).collect();
    assert_eq!(steps, (734..1234).collect::<Vec<u64>>());
    assert_eq!(window.samples().back().unwrap().memory_diversity, 1234);
}

#[test]
fn copy_of_a_window_holds_the_same_snapshots() {
    let mut window = MetricsHistory::new();
    window.push(3, &snapshot(30));
    window.push(4, &snapshot(40));
    let copy = window.clone();
    window.push(5, &snapshot(50));
    assert_eq!(copy.len(), 2);
    assert_eq!(window.len(), 3);
    assert_eq!(copy.samples()[1].timestamp, 4);
    assert_eq!(copy.samples()[1].attention_entropy, 40);
}
