//! The verdict on a run: which criteria its final metrics meet.
//!
//! A run is judged by six of its final metrics. Each has a threshold that it
//! must reach, and the run achieves what it is judged for only when every one
//! of them does.

use crate::metrics::Metrics;
use crate::score::Score;
use vstd::prelude::*;

verus! {

/// The criteria that a run is judged by, in the order in which they are
/// looked at.
#[derive(Clone, Copy, Debug, PartialEq, Eq, Structural)]
pub enum Criterion {
    AttentionEntropy,
    MemoryDiversity,
    VelocityStability,
    IdentityCoherence,
    ClusterStability,
    AffectiveStrength,
}

/// Number of criteria.
pub const CRITERIA: usize = 6;

impl Criterion {
    /// The criterion at position `k`.
    pub open spec fn at(k: int) -> Criterion {
        if k == 0 {
            Criterion::AttentionEntropy
        } else if k == 1 {
            Criterion::MemoryDiversity
        } else if k == 2 {
            Criterion::VelocityStability
        } else if k == 3 {
            Criterion::IdentityCoherence
        } else if k == 4 {
            Criterion::ClusterStability
        } else {
            Criterion::AffectiveStrength
        }
    }

    /// Whether the criterion is met by these metrics: the value of its
    /// metric reaches its threshold.
    pub open spec fn met_by(self, metrics: Metrics) -> bool {
        self.metric(metrics) >= self.threshold()
    }

    /// The least value of its metric with which the criterion is met: 2 for
    /// attention entropy, 0.1 for memory diversity, 0.8 for velocity
    /// stability, 0.7 for identity coherence, 0.5 for cluster stability and
    /// 0.01 for affective strength.
    pub open spec fn threshold(self) -> Score {
        match self {
            Criterion::AttentionEntropy => 0x4000_0000,
            Criterion::MemoryDiversity => 0x3DCC_CCCD,
            Criterion::VelocityStability => 0x3F4C_CCCD,
            Criterion::IdentityCoherence => 0x3F33_3333,
            Criterion::ClusterStability => 0x3F00_0000,
            Criterion::AffectiveStrength => 0x3C23_D70A,
        }
    }

    /// The value of the metric that the criterion looks at.
    pub open spec fn metric(self, metrics: Metrics) -> Score {
        match self {
            Criterion::AttentionEntropy => metrics.attention_entropy,
            Criterion::MemoryDiversity => metrics.memory_diversity,
            Criterion::VelocityStability => metrics.velocity_stability,
            Criterion::IdentityCoherence => metrics.identity_coherence,
            Criterion::ClusterStability => metrics.cluster_stability,
            Criterion::AffectiveStrength => metrics.affective_strength,
        }
    }

    /// The name of the metric that the criterion looks at.
    pub open spec fn key(self) -> Seq<char> {
        match self {
            Criterion::AttentionEntropy => "attention_entropy"@,
            Criterion::MemoryDiversity => "memory_diversity"@,
            Criterion::VelocityStability => "velocity_stability"@,
            Criterion::IdentityCoherence => "identity_coherence"@,
            Criterion::ClusterStability => "cluster_stability"@,
            Criterion::AffectiveStrength => "affective_strength"@,
        }
    }

    /// The name under which the criterion is reported.
    pub open spec fn label(self) -> Seq<char> {
        match self {
            Criterion::AttentionEntropy => "Attention Entropy"@,
            Criterion::MemoryDiversity => "Memory Diversity"@,
            Criterion::VelocityStability => "Velocity Stability"@,
            Criterion::IdentityCoherence => "Identity Coherence"@,
            Criterion::ClusterStability => "Cluster Stability"@,
            Criterion::AffectiveStrength => "Affective Strength"@,
        }
    }

    /// The criterion at position `k`, for `k` below the number of criteria.
    pub fn from_position(k: usize) -> (criterion: Option<Criterion>)
        ensures
            criterion == if k < CRITERIA {
                Some(Criterion::at(k as int))
            } else {
                None
            },
    {
        if k == 0 {
            Some(Criterion::AttentionEntropy)
        } else if k == 1 {
            Some(Criterion::MemoryDiversity)
        } else if k == 2 {
            Some(Criterion::VelocityStability)
        } else if k == 3 {
            Some(Criterion::IdentityCoherence)
        } else if k == 4 {
            Some(Criterion::ClusterStability)
        } else if k == 5 {
            Some(Criterion::AffectiveStrength)
        } else {
            None
        }
    }

    /// The least value of its metric with which the criterion is met.
    pub fn minimum(self) -> (least: Score)
        ensures
            least == self.threshold(),
    {
        match self {
            Criterion::AttentionEntropy => 0x4000_0000,
            Criterion::MemoryDiversity => 0x3DCC_CCCD,
            Criterion::VelocityStability => 0x3F4C_CCCD,
            Criterion::IdentityCoherence => 0x3F33_3333,
            Criterion::ClusterStability => 0x3F00_0000,
            Criterion::AffectiveStrength => 0x3C23_D70A,
        }
    }

    /// The value of the metric that the criterion looks at.
    pub fn value_in(self, metrics: &Metrics) -> (value: Score)
        ensures
            value == self.metric(*metrics),
    {
        match self {
            Criterion::AttentionEntropy => metrics.attention_entropy,
            Criterion::MemoryDiversity => metrics.memory_diversity,
            Criterion::VelocityStability => metrics.velocity_stability,
            Criterion::IdentityCoherence => metrics.identity_coherence,
            Criterion::ClusterStability => metrics.cluster_stability,
            Criterion::AffectiveStrength => metrics.affective_strength,
        }
    }

    /// Tells whether the criterion is met by these metrics: the value of
    /// its metric reaches its threshold.
    pub fn is_met_by(self, metrics: &Metrics) -> (ok: bool)
        ensures
            ok == self.met_by(*metrics),
    {
        self.value_in(metrics) >= self.minimum()
    }

    /// The name of the metric that the criterion looks at.
    pub fn to_key(self) -> (text: String)
        ensures
            text@ == self.key(),
    {
        match self {
            Criterion::AttentionEntropy => "attention_entropy".to_owned(),
            Criterion::MemoryDiversity => "memory_diversity".to_owned(),
            Criterion::VelocityStability => "velocity_stability".to_owned(),
            Criterion::IdentityCoherence => "identity_coherence".to_owned(),
            Criterion::ClusterStability => "cluster_stability".to_owned(),
            Criterion::AffectiveStrength => "affective_strength".to_owned(),
        }
    }

    /// The name under which the criterion is reported.
    pub fn to_label(self) -> (text: String)
        ensures
            text@ == self.label(),
    {
        match self {
            Criterion::AttentionEntropy => "Attention Entropy".to_owned(),
            Criterion::MemoryDiversity => "Memory Diversity".to_owned(),
            Criterion::VelocityStability => "Velocity Stability".to_owned(),
            Criterion::IdentityCoherence => "Identity Coherence".to_owned(),
            Criterion::ClusterStability => "Cluster Stability".to_owned(),
            Criterion::AffectiveStrength => "Affective Strength".to_owned(),
        }
    }
}

/// Whether the criterion at position `k` is met by `metrics`.
pub open spec fn met(metrics: Metrics, k: int) -> bool {
    Criterion::at(k).met_by(metrics)
}

/// The first `n` criteria that are met, in order.
pub open spec fn passed_among(metrics: Metrics, n: nat) -> Seq<Criterion>
    decreases n,
{
    if n == 0 {
        Seq::empty()
    } else if met(metrics, n - 1) {
        passed_among(metrics, (n - 1) as nat).push(Criterion::at(n - 1))
    } else {
        passed_among(metrics, (n - 1) as nat)
    }
}

/// The first `n` criteria that are not met, in order.
pub open spec fn failed_among(metrics: Metrics, n: nat) -> Seq<Criterion>
    decreases n,
{
    if n == 0 {
        Seq::empty()
    } else if met(metrics, n - 1) {
        failed_among(metrics, (n - 1) as nat)
    } else {
        failed_among(metrics, (n - 1) as nat).push(Criterion::at(n - 1))
    }
}

/// The verdict on a run.
#[derive(Debug)]
pub struct Verdict {
    /// The metrics that were judged.
    pub judged: Metrics,
    /// The criteria that are met, in order.
    pub passed: Vec<Criterion>,
    /// The criteria that are not met, in order.
    pub failed: Vec<Criterion>,
    /// Whether the run achieved what it was judged for: every criterion
    /// is met.
    pub achieved: bool,
}

impl Verdict {
    /// The verdict is the one on these metrics: it names them, it lists the
    /// criteria that they meet and those that they miss, each in order, and
    /// it is positive exactly when they meet every criterion.
    pub open spec fn judges(&self, metrics: Metrics) -> bool {
        &&& self.judged == metrics
        &&& self.passed@ == passed_among(metrics, CRITERIA as nat)
        &&& self.failed@ == failed_among(metrics, CRITERIA as nat)
        &&& self.achieved == (forall|k: int| 0 <= k < CRITERIA ==> met(metrics, k))
    }

    /// Judges the metrics of one moment.
    pub fn judge(metrics: &Metrics) -> (verdict: Verdict)
        ensures
            verdict.judges(*metrics),
            verdict.passed@.len() + verdict.failed@.len() == CRITERIA,
            verdict.achieved == (verdict.passed@.len() == CRITERIA),
    {
        let mut passed: Vec<Criterion> = Vec::new();
        let mut failed: Vec<Criterion> = Vec::new();
        let mut k: usize = 0;
        while k < CRITERIA
            invariant
                k <= CRITERIA,
                passed@ == passed_among(*metrics, k as nat),
                failed@ == failed_among(*metrics, k as nat),
                passed@.len() + failed@.len() == k,
                (failed@.len() == 0) == (forall|j: int| 0 <= j < k ==> met(*metrics, j)),
            decreases CRITERIA - k,
        {
            match Criterion::from_position(k) {
                Some(criterion) => {
                    if criterion.is_met_by(metrics) {
                        passed.push(criterion);
                    } else {
                        failed.push(criterion);
                        assert(!met(*metrics, k as int));
                    }
                },
                None => {},
            }
            k += 1;
        }
        let achieved = failed.len() == 0;
        Verdict { judged: *metrics, passed, failed, achieved }
    }

    /// Judges a run by the metrics of its steps, oldest first. A run is
    /// judged by the metrics of its last step; a run without steps has no
    /// verdict.
    pub fn of_run(history: &Vec<Metrics>) -> (outcome: Option<Verdict>)
        ensures
            match outcome {
                Some(verdict) => history@.len() > 0 && verdict.judges(history@.last()),
                None => history@.len() == 0,
            },
    {
        if history.len() == 0 {
            None
        } else {
            Some(Verdict::judge(&history[history.len() - 1]))
        }
    }
}

} // verus!
