//! What a display of a running simulation keeps of its past: a window of the
//! latest metrics.

use crate::metrics::Metrics;
use std::collections::VecDeque;
use vstd::prelude::*;

verus! {

/// Number of snapshots that a history keeps at most.
pub const MAX_HISTORY: usize = 500;

/// The snapshots that a full window lets go of before it takes in another:
/// its oldest, where it holds as many as it may.
pub open spec fn made_room(samples: Seq<Metrics>) -> Seq<Metrics> {
    if samples.len() >= MAX_HISTORY {
        samples.subrange(1, samples.len() as int)
    } else {
        samples
    }
}

/// A rolling window of the latest metrics of a run, oldest first.
#[derive(Clone, Debug)]
pub struct MetricsHistory {
    samples: VecDeque<Metrics>,
}

impl View for MetricsHistory {
    type V = Seq<Metrics>;

    closed spec fn view(&self) -> Seq<Metrics> {
        self.samples@
    }
}

impl MetricsHistory {
    /// A history without snapshots.
    pub fn new() -> (history: MetricsHistory)
        ensures
            history@ == Seq::<Metrics>::empty(),
    {
        MetricsHistory { samples: VecDeque::new() }
    }

    /// Adds the metrics of step `step` to the window. A window that holds
    /// as many snapshots as it may lets go of its oldest first, so a window
    /// that was within its bound stays within it.
    pub fn push(&mut self, step: u64, metrics: &Metrics)
        ensures
            final(self)@ == made_room(old(self)@).push(metrics.at(step)),
            old(self)@.len() <= MAX_HISTORY ==> final(self)@.len() <= MAX_HISTORY,
            old(self)@.len() < MAX_HISTORY ==> final(self)@.len() == old(self)@.len() + 1,
    {
        if self.samples.len() >= MAX_HISTORY {
            self.samples.pop_front();
        }
        self.samples.push_back(metrics.taken_at(step));
    }

    /// Number of snapshots in the window.
    pub fn len(&self) -> (n: usize)
        ensures
            n == self@.len(),
    {
        self.samples.len()
    }

    /// The snapshots of the window, oldest first.
    pub fn samples(&self) -> (samples: &VecDeque<Metrics>)
        ensures
            samples@ == self@,
    {
        &self.samples
    }
}

impl Default for MetricsHistory {
    /// A history without snapshots.
    fn default() -> (history: MetricsHistory)
        ensures
            history@ == Seq::<Metrics>::empty(),
    {
        MetricsHistory::new()
    }
}

/// The window after the given snapshots were pushed, one after another, into
/// an empty one.
pub open spec fn window_of(pushed: Seq<Metrics>) -> Seq<Metrics>
    decreases pushed.len(),
{
    if pushed.len() == 0 {
        Seq::empty()
    } else {
        made_room(window_of(pushed.drop_last())).push(pushed.last())
    }
}

/// A window that is filled from empty holds the latest snapshots: all that
/// were pushed while they are within the bound, and the latest of them, as
/// many as the bound allows, from then on.
pub proof fn lemma_window_holds_the_latest(pushed: Seq<Metrics>)
    ensures
        window_of(pushed) == if pushed.len() <= MAX_HISTORY {
            pushed
        } else {
            pushed.subrange(pushed.len() - MAX_HISTORY, pushed.len() as int)
        },
        window_of(pushed).len() <= MAX_HISTORY,
    decreases pushed.len(),
{
    if pushed.len() > 0 {
        let before = pushed.drop_last();
        lemma_window_holds_the_latest(before);
        let window = window_of(pushed);
        if pushed.len() <= MAX_HISTORY {
            assert(window =~= pushed);
        } else {
            assert(window =~= pushed.subrange(pushed.len() - MAX_HISTORY, pushed.len() as int));
        }
    }
}

} // verus!
