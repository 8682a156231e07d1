//! Shape of the world that the entities live in, and the rules by which a
//! periodic world takes back what leaves it.

use crate::score;
use crate::score::Score;
use vstd::prelude::*;

verus! {

/// The score of 100: the default extent of the world along each axis.
pub const HUNDRED: Score = 0x42C8_0000;

/// Dimensionality and extent of the world, and how its boundary behaves.
#[derive(Debug)]
pub struct GeometryConfig {
    /// Number of axes of the world: 2 for a plane, 3 for a space.
    pub dimension: usize,
    /// Extent of the world along each axis.
    pub bounds: Vec<Score>,
    /// Whether a position that leaves the world on one side enters it again
    /// on the other.
    pub periodic: bool,
}

/// Where a coordinate lies with respect to the extent of its axis.
#[derive(Clone, Copy, Debug, PartialEq, Eq, Structural)]
pub enum Crossing {
    /// The position left the world on the lower side.
    Below,
    /// The position is inside the world.
    Inside,
    /// The position left the world on the upper side.
    Above,
}

impl GeometryConfig {
    /// The world is a plane or a space, and an extent is given for each of
    /// its axes.
    pub open spec fn valid(&self) -> bool {
        self.bounds@.len() == self.dimension && 2 <= self.dimension <= 3
    }

    /// A bounded space of three axes, each of extent 100.
    pub fn default_3d() -> (config: GeometryConfig)
        ensures
            config.dimension == 3,
            config.bounds@ == seq![HUNDRED, HUNDRED, HUNDRED],
            !config.periodic,
            config.valid(),
    {
        GeometryConfig { dimension: 3, bounds: vec![HUNDRED, HUNDRED, HUNDRED], periodic: false }
    }

    /// A bounded plane, each axis of extent 100.
    pub fn default_2d() -> (config: GeometryConfig)
        ensures
            config.dimension == 2,
            config.bounds@ == seq![HUNDRED, HUNDRED],
            !config.periodic,
            config.valid(),
    {
        GeometryConfig { dimension: 2, bounds: vec![HUNDRED, HUNDRED], periodic: false }
    }

    /// Tells whether the configuration describes a world that the simulation
    /// can run in.
    pub fn is_valid(&self) -> (ok: bool)
        ensures
            ok == self.valid(),
    {
        self.bounds.len() == self.dimension && self.dimension >= 2 && self.dimension <= 3
    }
}

/// Where the coordinate `position` lies on an axis of extent `bound`, the
/// extent itself counted as inside.
pub open spec fn crossing_of(position: Score, bound: Score) -> Crossing {
    if position < score::ZERO {
        Crossing::Below
    } else if position > bound {
        Crossing::Above
    } else {
        Crossing::Inside
    }
}

/// Decides what the wrap of a single position does with a coordinate in a
/// periodic world: one below zero comes back in from the upper side, one
/// above the extent of its axis from the lower side, and one in between,
/// the extent included, stays as it is. A world that is not periodic leaves
/// every coordinate as it is.
pub fn crossing(position: Score, bound: Score, periodic: bool) -> (side: Crossing)
    ensures
        side == if periodic {
            crossing_of(position, bound)
        } else {
            Crossing::Inside
        },
{
    if !periodic {
        Crossing::Inside
    } else if position < score::ZERO {
        Crossing::Below
    } else if position > bound {
        Crossing::Above
    } else {
        Crossing::Inside
    }
}

/// Where the coordinate `position` lies on an axis of extent `bound` when
/// the world reaches from zero up to, but not including, the extent.
pub open spec fn step_crossing_of(position: Score, bound: Score) -> Crossing {
    if position < score::ZERO {
        Crossing::Below
    } else if position >= bound {
        Crossing::Above
    } else {
        Crossing::Inside
    }
}

/// Decides what the boundary phase of a step does with a coordinate in a
/// periodic world: one below zero is moved up by the extent of its axis,
/// one at or above the extent is moved down by it, and one in between stays
/// as it is. A world that is not periodic leaves every coordinate as it is.
pub fn step_crossing(position: Score, bound: Score, periodic: bool) -> (side: Crossing)
    ensures
        side == if periodic {
            step_crossing_of(position, bound)
        } else {
            Crossing::Inside
        },
{
    if !periodic {
        Crossing::Inside
    } else if position < score::ZERO {
        Crossing::Below
    } else if position >= bound {
        Crossing::Above
    } else {
        Crossing::Inside
    }
}

/// The two rules differ on the extent alone: a coordinate exactly on the
/// extent of its axis stays for the wrap of a single position and is moved
/// down by the boundary phase; every other coordinate is treated alike.
pub proof fn lemma_crossings_differ_on_the_extent(position: Score, bound: Score)
    ensures
        position != bound || position < score::ZERO ==> step_crossing_of(position, bound)
            == crossing_of(position, bound),
        position == bound && position >= score::ZERO ==> crossing_of(position, bound)
            == Crossing::Inside && step_crossing_of(position, bound) == Crossing::Above,
{
}

} // verus!
