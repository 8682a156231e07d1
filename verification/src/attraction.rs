//! Configuration of the attraction field between entities, and the anchor
//! that keeps the attention distribution stable.

use crate::score::Score;
use crate::score::MINUS_INFINITY;
use crate::score::ZERO;
use vstd::prelude::*;

verus! {

/// How the influence of an entity falls off with distance.
#[derive(Clone, Copy, Debug, PartialEq, Eq, Structural)]
pub enum KernelType {
    /// Smooth, bell-shaped falloff: influence stays local.
    Gaussian,
    /// Falloff with the inverse of the distance: influence reaches far.
    InverseDistance,
}

/// Configuration of the attraction field.
#[derive(Clone, Copy, Debug)]
pub struct AttractionConfig {
    /// The kernel in use.
    pub kernel: KernelType,
    /// Bandwidth of the kernel.
    pub sigma: Score,
    /// Temperature of the attention distribution.
    pub lambda: Score,
}

/// The largest of the first `n` of `scores`, and what lies below every
/// bound where there are none.
pub open spec fn peak_among(scores: Seq<Score>, n: nat) -> Score
    decreases n,
{
    if n == 0 {
        MINUS_INFINITY
    } else {
        let before = peak_among(scores, (n - 1) as nat);
        if scores[n - 1] > before {
            scores[n - 1]
        } else {
            before
        }
    }
}

/// The peak is the least upper bound of the scores: none of them exceeds it,
/// and it is one of them unless all of them lie below every bound.
pub proof fn lemma_peak_is_least_upper_bound(scores: Seq<Score>, n: nat)
    requires
        n <= scores.len(),
    ensures
        forall|i: int| 0 <= i < n ==> #[trigger] scores[i] <= peak_among(scores, n),
        peak_among(scores, n) >= MINUS_INFINITY,
        peak_among(scores, n) == MINUS_INFINITY || exists|i: int|
            0 <= i < n && #[trigger] scores[i] == peak_among(scores, n),
    decreases n,
{
    if n > 0 {
        lemma_peak_is_least_upper_bound(scores, (n - 1) as nat);
        let before = peak_among(scores, (n - 1) as nat);
        if scores[n - 1] > before {
            assert(scores[n - 1] == peak_among(scores, n));
        } else if before != MINUS_INFINITY {
            let i = choose|i: int| 0 <= i < n - 1 && #[trigger] scores[i] == before;
            assert(scores[i] == peak_among(scores, n));
        }
    }
}

/// Finds the anchor of an attention distribution: the largest of the scores,
/// which is taken off each of them before weights are computed, so that no
/// weight grows beyond 1. Without scores the anchor lies below every bound.
pub fn peak(scores: &Vec<Score>) -> (anchor: Score)
    ensures
        anchor == peak_among(scores@, scores@.len()),
        forall|i: int| 0 <= i < scores@.len() ==> #[trigger] scores@[i] <= anchor,
{
    let mut anchor: Score = MINUS_INFINITY;
    let mut i: usize = 0;
    while i < scores.len()
        invariant
            i <= scores@.len(),
            anchor == peak_among(scores@, i as nat),
        decreases scores@.len() - i,
    {
        if scores[i] > anchor {
            anchor = scores[i];
        }
        i += 1;
    }
    proof {
        lemma_peak_is_least_upper_bound(scores@, scores@.len());
    }
    anchor
}

/// Tells whether an attention distribution can be normalised: the sum of
/// its unnormalised weights is above zero. Where it is not, every weight of
/// the distribution is 0.
pub fn can_normalise(sum: Score) -> (ok: bool)
    ensures
        ok == (sum > ZERO),
{
    sum > ZERO
}

} // verus!
