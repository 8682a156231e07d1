//! The well-being index of an entity: a value that is kept between 0 and 10
//! and drawn towards a baseline.
//!
//! An update of the index takes the mean of the affective signals of the
//! entity's belief clusters, limits it to the range from -5 to 5, scales it,
//! adds it to the value after the value has moved towards the baseline, and
//! limits the sum to the range from 0 to 10. The two limits are applied
//! here; the arithmetic between them is the caller's.

use crate::score;
use crate::score::Score;
use vstd::prelude::*;

verus! {

/// The score of 5: the largest signal that an update takes in, and the
/// baseline that is used when none is configured.
pub const FIVE: Score = 0x40A0_0000;

/// The score of -5: the smallest signal that an update takes in.
pub const MINUS_FIVE: Score = -0x40A0_0000;

/// The score of 10: the largest value of the index.
pub const TEN: Score = 0x4120_0000;

/// The score of 0.001: the decay that is used when none is configured.
pub const DEFAULT_DECAY: Score = 0x3A83_126F;

/// How the index behaves.
#[derive(Clone, Copy, Debug)]
pub struct EssenceConfig {
    /// The value that the index is drawn to.
    pub baseline: Score,
    /// The share of its distance to the baseline that the value loses per
    /// step.
    pub decay: Score,
    /// The factor by which experience is scaled.
    pub experience_scale: Score,
}

impl EssenceConfig {
    /// A baseline of 5, a decay of 0.001 and experience taken as it is.
    pub fn default() -> (config: EssenceConfig)
        ensures
            config == (EssenceConfig {
                baseline: FIVE,
                decay: DEFAULT_DECAY,
                experience_scale: score::ONE,
            }),
    {
        EssenceConfig { baseline: FIVE, decay: DEFAULT_DECAY, experience_scale: score::ONE }
    }
}

/// The well-being of an entity, from 0 for dread to 10 for joy.
#[derive(Clone, Copy, Debug)]
pub struct EssenceIndex {
    value: Score,
    config: EssenceConfig,
}

impl EssenceIndex {
    /// The current value.
    pub closed spec fn level(&self) -> Score {
        self.value
    }

    /// The configuration that the index was created with.
    pub closed spec fn configuration(&self) -> EssenceConfig {
        self.config
    }

    /// An index that stands at its baseline.
    pub fn new(config: EssenceConfig) -> (index: EssenceIndex)
        ensures
            index.level() == config.baseline,
            index.configuration() == config,
    {
        EssenceIndex { value: config.baseline, config }
    }

    /// An index with the default configuration.
    pub fn default() -> (index: EssenceIndex)
        ensures
            index.level() == FIVE,
            index.configuration() == (EssenceConfig {
                baseline: FIVE,
                decay: DEFAULT_DECAY,
                experience_scale: score::ONE,
            }),
    {
        EssenceIndex::new(EssenceConfig::default())
    }

    /// The current value.
    pub fn value(&self) -> (value: Score)
        ensures
            value == self.level(),
    {
        self.value
    }

    /// The configuration of the index.
    pub fn config(&self) -> (config: EssenceConfig)
        ensures
            config == self.configuration(),
    {
        self.config
    }

    /// The signal that an update works with: the mean signal, limited to
    /// the range from -5 to 5.
    pub fn bounded_signal(mean: Score) -> (signal: Score)
        ensures
            signal == score::clamped(mean, MINUS_FIVE, FIVE),
            MINUS_FIVE <= signal <= FIVE,
    {
        score::clamp(mean, MINUS_FIVE, FIVE)
    }

    /// Ends an update: `raw` is the value after decay and experience were
    /// applied, and the index takes it on, limited to the range from 0 to 10.
    /// So the index is in range after every update, whatever came before.
    pub fn settle(&mut self, raw: Score)
        ensures
            final(self).level() == score::clamped(raw, score::ZERO, TEN),
            score::ZERO <= final(self).level() <= TEN,
            final(self).configuration() == old(self).configuration(),
    {
        self.value = score::clamp(raw, score::ZERO, TEN);
    }
}

} // verus!
