//! Configuration of the internal state that each entity carries.

use crate::score::Score;
use vstd::prelude::*;

verus! {

/// The score of 0.995: the default share of the memory that is kept per
/// step.
pub const DEFAULT_DECAY_ALPHA: Score = 0x3F7E_B852;

/// The score of 0.5: the default weight of attention.
pub const DEFAULT_BETA_ATTENTION: Score = 0x3F00_0000;

/// The score of 0.3: the default weight of memory input.
pub const DEFAULT_GAMMA_MEMORY: Score = 0x3E99_999A;

/// Sizes of the components of an entity's state and the weights of its
/// update. The sizes are fixed when the state is created and never change
/// afterwards.
#[derive(Clone, Copy, Debug)]
pub struct StateConfig {
    /// Length of the long-term memory component.
    pub memory_dim: usize,
    /// Length of the short-term context component.
    pub context_dim: usize,
    /// Share of the memory that is kept per step.
    pub decay_alpha: Score,
    /// Weight of the attention force.
    pub beta_attention: Score,
    /// Weight of the memory input.
    pub gamma_memory: Score,
}

impl StateConfig {
    /// Both components have at least one entry.
    pub open spec fn valid(self) -> bool {
        self.memory_dim != 0 && self.context_dim != 0
    }

    /// The configuration used when nothing else is given.
    pub fn default() -> (config: StateConfig)
        ensures
            config == (StateConfig {
                memory_dim: 128,
                context_dim: 64,
                decay_alpha: DEFAULT_DECAY_ALPHA,
                beta_attention: DEFAULT_BETA_ATTENTION,
                gamma_memory: DEFAULT_GAMMA_MEMORY,
            }),
            config.valid(),
    {
        StateConfig {
            memory_dim: 128,
            context_dim: 64,
            decay_alpha: DEFAULT_DECAY_ALPHA,
            beta_attention: DEFAULT_BETA_ATTENTION,
            gamma_memory: DEFAULT_GAMMA_MEMORY,
        }
    }
}

} // verus!
