use synthetic_consciousness::metrics::Metrics;
use synthetic_consciousness::results::{Criterion, Verdict, CRITERIA};

const ALL: [Criterion; 6] = [
    Criterion::AttentionEntropy,
    Criterion::MemoryDiversity,
    Criterion::VelocityStability,
    Criterion::IdentityCoherence,
    Criterion::ClusterStability,
    Criterion::AffectiveStrength,
];

fn score_of(x: f32) -> i64 {
    let bits = x.to_bits();
    let magnitude = (bits & 0x7fff_ffff) as i64;
    if bits & 0x8000_0000 != 0 {
        -magnitude
    } else {
        magnitude
    }
}

/// A snapshot with the given values of the six metrics that a run is judged
/// by, in the order of the criteria.
fn snapshot(values: &[f32; 6]) -> Metrics {
    Metrics {
        timestamp: 7,
        attention_entropy: score_of(values[0]),
        memory_diversity: score_of(values[1]),
        velocity_stability: score_of(values[2]),
        identity_coherence: score_of(values[3]),
        cluster_stability: score_of(values[4]),
        affective_strength: score_of(values[5]),
        essence_trajectory: score_of(5.0),
        average_essence: score_of(5.0),
    }
}

fn judge(values: &[f32; 6]) -> Verdict {
    Verdict::judge(&snapshot(values))
}

/// Metrics that reach every threshold exactly.
const AT_THRESHOLD: [f32; 6] = [2.0, 0.1, 0.8, 0.7, 0.5, 0.01];

/// For each criterion the largest value of its metric that misses it.
const JUST_BELOW: [f32; 6] = [1.9999999, 0.099999994, 0.79999995, 0.6999999, 0.49999997, 0.009999999];

#[test]
fn criteria_have_fixed_positions_and_names() {
    assert_eq!(CRITERIA, 6);
    for (k, criterion) in ALL.iter().enumerate() {
        assert_eq!(Criterion::from_position(k), Some(*criterion));
    }
    assert_eq!(Criterion::from_position(6), None);
    assert_eq!(Criterion::from_position(usize::MAX), None);
    let labels: Vec<String> = ALL.iter().map(|c| c.to_label()).collect();
    assert_eq!(
        labels,
        vec![
            "Attention Entropy",
            "Memory Diversity",
            "Velocity Stability",
            "Identity Coherence",
            "Cluster Stability",
            "Affective Strength",
        ]
    );
    let keys: Vec<String> = ALL.iter().map(|c| c.to_key()).collect();
    assert_eq!(
        keys,
        vec![
            "attention_entropy",
            "memory_diversity",
            "velocity_stability",
            "identity_coherence",
            "cluster_stability",
            "affective_strength",
        ]
    );
}

#[test]
fn verdict_is_positive_when_every_threshold_is_reached() {
    let verdict = judge(&AT_THRESHOLD);
    assert!(verdict.achieved);
    assert_eq!(verdict.passed, ALL.to_vec());
    assert!(verdict.failed.is_empty());
    let verdict = judge(&[3.0, 0.5, 1.0, 1.0, 2.5, 0.9]);
    assert!(verdict.achieved);
}

#[test]
fn verdict_is_negative_when_one_threshold_is_missed() {
    for missed in 0..6 {
        let mut metrics = AT_THRESHOLD;
        metrics[missed] = JUST_BELOW[missed];
        assert!(JUST_BELOW[missed] < AT_THRESHOLD[missed]);
        let verdict = judge(&metrics);
        assert!(!verdict.achieved);
        assert_eq!(verdict.failed, vec![ALL[missed]]);
        assert_eq!(verdict.passed.len(), 5);
        assert!(!verdict.passed.contains(&ALL[missed]));
    }
}

#[test]
fn verdict_lists_criteria_in_order() {
    let verdict = judge(&[0.0, 0.3, -1.0, 0.75, 0.5, 0.0]);
    assert!(!verdict.achieved);
    assert_eq!(
        verdict.passed,
        vec![
            Criterion::MemoryDiversity,
            Criterion::IdentityCoherence,
            Criterion::ClusterStability
        ]
    );
    assert_eq!(
        verdict.failed,
        vec![
            Criterion::AttentionEntropy,
            Criterion::VelocityStability,
            Criterion::AffectiveStrength
        ]
    );
}

#[test]
fn criteria_look_at_their_own_metrics() {
    let metrics = snapshot(&[1.0, 2.0, 3.0, 4.0, 5.0, 6.0]);
    for (k, criterion) in ALL.iter().enumerate() {
        assert_eq!(criterion.value_in(&metrics), score_of(k as f32 + 1.0));
    }
    assert!(!Criterion::AttentionEntropy.is_met_by(&metrics));
    assert!(Criterion::MemoryDiversity.is_met_by(&metrics));
    assert!(Criterion::AffectiveStrength.is_met_by(&metrics));
}

#[test]
fn verdict_does_not_depend_on_well_being() {
    let mut metrics = snapshot(&AT_THRESHOLD);
    metrics.essence_trajectory = score_of(0.0);
    metrics.average_essence = score_of(0.0);
    metrics.timestamp = 0;
    assert!(Verdict::judge(&metrics).achieved);
}

#[test]
fn verdict_on_a_population_that_has_not_run() {
    let verdict = judge(&[0.0, 0.0, 1.0, 0.0, 0.0, 0.0]);
    assert!(!verdict.achieved);
    assert_eq!(verdict.passed, vec![Criterion::VelocityStability]);
}

#[test]
fn verdict_names_the_metrics_it_judged() {
    let metrics = snapshot(&[3.0, 0.5, 1.0, 1.0, 2.5, 0.9]);
    let verdict = Verdict::judge(&metrics);
    assert_eq!(verdict.judged.timestamp, 7);
    assert_eq!(verdict.judged.attention_entropy, score_of(3.0));
    assert_eq!(verdict.judged.affective_strength, score_of(0.9));
}

#[test]
fn run_without_steps_has_no_verdict() {
    assert!(Verdict::of_run(&vec![]).is_none());
}

#[test]
fn run_is_judged_by_its_last_step() {
    let good = snapshot(&AT_THRESHOLD);
    let mut bad = snapshot(&[0.0, 0.0, 1.0, 0.0, 0.0, 0.0]);
    bad.timestamp = 8;
    let verdict = Verdict::of_run(&vec![good]).expect("the run has a step");
    assert!(verdict.achieved);
    assert_eq!(verdict.judged.timestamp, 7);
    let verdict = Verdict::of_run(&vec![good, good, bad]).expect("the run has steps");
    assert!(!verdict.achieved);
    assert_eq!(verdict.judged.timestamp, 8);
    assert_eq!(verdict.passed, vec![Criterion::VelocityStability]);
    assert_eq!(verdict.failed.len(), 5);
    let verdict = Verdict::of_run(&vec![bad, bad, good]).expect("the run has steps");
    assert!(verdict.achieved);
    assert_eq!(verdict.passed, ALL.to_vec());
}
