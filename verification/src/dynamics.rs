//! Configuration of the integrator and the rule of perpetual motion.
//!
//! Entities never come to rest. After acceleration and damping were applied
//! to a velocity, its length is looked at: a velocity that is too slow is
//! stretched to the least speed, and one that has all but vanished gets the
//! least speed along the first axis.

use crate::score;
use crate::score::Score;
use vstd::prelude::*;

verus! {

/// The score of 0.01: the default time step.
pub const DEFAULT_DT: Score = 0x3C23_D70A;

/// The score of 0.05: the default least speed.
pub const DEFAULT_MIN_SPEED: Score = 0x3D4C_CCCD;

/// The score of 0.99: the default damping.
pub const DEFAULT_DAMPING: Score = 0x3F7D_70A4;

/// The score of one millionth: a speed up to this counts as rest.
pub const REST: Score = 0x3586_37BD;

/// The quantities that steer the integration of motion.
#[derive(Clone, Copy, Debug)]
pub struct DynamicsConfig {
    /// Time step.
    pub dt: Score,
    /// Least speed that an entity keeps.
    pub min_speed: Score,
    /// Factor by which a velocity is damped per step.
    pub damping: Score,
}

/// What is done to a velocity so that its entity keeps moving.
#[derive(Clone, Copy, Debug, PartialEq, Eq, Structural)]
pub enum SpeedCorrection {
    /// The entity is fast enough: its velocity stays as it is.
    Keep,
    /// The entity moves, but too slowly: its velocity is stretched to the
    /// least speed, keeping its direction.
    Rescale,
    /// The entity is at rest: the first component of its velocity is set to
    /// the least speed.
    Kick,
}

impl DynamicsConfig {
    /// Time advances, and the least speed is not negative.
    pub open spec fn valid(self) -> bool {
        self.dt > score::ZERO && self.min_speed >= score::ZERO
    }

    /// A time step of 0.01, a least speed of 0.05 and a damping of 0.99.
    pub fn default() -> (config: DynamicsConfig)
        ensures
            config == (DynamicsConfig {
                dt: DEFAULT_DT,
                min_speed: DEFAULT_MIN_SPEED,
                damping: DEFAULT_DAMPING,
            }),
            config.valid(),
    {
        DynamicsConfig { dt: DEFAULT_DT, min_speed: DEFAULT_MIN_SPEED, damping: DEFAULT_DAMPING }
    }

    /// Tells whether the integrator can run with this configuration.
    pub fn is_valid(&self) -> (ok: bool)
        ensures
            ok == self.valid(),
    {
        !(self.dt <= score::ZERO || self.min_speed < score::ZERO)
    }
}

/// The correction that the speed `speed` calls for when `min_speed` is the
/// least speed.
pub open spec fn correction_of(speed: Score, min_speed: Score) -> SpeedCorrection {
    if speed <= REST {
        SpeedCorrection::Kick
    } else if speed < min_speed {
        SpeedCorrection::Rescale
    } else {
        SpeedCorrection::Keep
    }
}

/// Decides how a velocity of length `speed` is corrected.
pub fn speed_correction(speed: Score, min_speed: Score) -> (correction: SpeedCorrection)
    ensures
        correction == correction_of(speed, min_speed),
        correction == SpeedCorrection::Keep <==> speed > REST && speed >= min_speed,
{
    if speed < min_speed && speed > REST {
        SpeedCorrection::Rescale
    } else if speed <= REST {
        SpeedCorrection::Kick
    } else {
        SpeedCorrection::Keep
    }
}

} // verus!
