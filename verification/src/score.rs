//! How real-valued quantities reach the library.
//!
//! The library keeps the discrete state of a simulation and decides by its
//! rules; it does not compute with real numbers. A quantity that a rule
//! depends on is handed over as a score, an integer that stands for it:
//!
//! * zero has the score 0,
//! * a quantity above zero has the bit pattern of its encoding as a
//!   single-precision binary floating-point number, read as an integer,
//! * a quantity below zero has the negated score of its absolute value.
//!
//! Scores compare as the quantities do: one quantity is less than another
//! exactly when its score is less. So a rule that asks how quantities
//! compare can be stated, and proved, on scores. The constants of the rules
//! are given as scores too, each with the quantity it stands for.

use vstd::prelude::*;

verus! {

/// The score of a quantity.
pub type Score = i64;

/// The score of 0.
pub const ZERO: Score = 0;

/// The score of 1.
pub const ONE: Score = 0x3F80_0000;

/// The score of a quantity that grew beyond every bound. The scores of
/// finite quantities lie strictly between its negation and itself.
pub const INFINITY: Score = 0x7F80_0000;

/// The score of a quantity that fell below every bound.
pub const MINUS_INFINITY: Score = -0x7F80_0000;

/// The quantity `x` limited to the range from `lo` to `hi`: first raised to
/// `lo` if it is below, then lowered to `hi` if it is above.
pub open spec fn clamped(x: Score, lo: Score, hi: Score) -> Score {
    let raised = if x < lo {
        lo
    } else {
        x
    };
    if raised > hi {
        hi
    } else {
        raised
    }
}

/// Limits `x` to the range from `lo` to `hi`.
pub fn clamp(x: Score, lo: Score, hi: Score) -> (limited: Score)
    ensures
        limited == clamped(x, lo, hi),
        lo <= hi ==> lo <= limited <= hi,
        lo <= x <= hi ==> limited == x,
{
    let raised = if x < lo {
        lo
    } else {
        x
    };
    if raised > hi {
        hi
    } else {
        raised
    }
}

} // verus!
