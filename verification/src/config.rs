//! The configuration of a simulation run and its validation.

use crate::attraction::AttractionConfig;
use crate::attraction::KernelType;
use crate::dynamics::DynamicsConfig;
use crate::dynamics::DEFAULT_DAMPING;
use crate::dynamics::DEFAULT_DT;
use crate::dynamics::DEFAULT_MIN_SPEED;
use crate::essence::EssenceConfig;
use crate::essence::FIVE;
use crate::essence::TEN;
use crate::geometry::GeometryConfig;
use crate::score::Score;
use crate::score::ONE;
use crate::state::StateConfig;
use crate::state::DEFAULT_BETA_ATTENTION;
use crate::state::DEFAULT_GAMMA_MEMORY;
use vstd::prelude::*;

verus! {

/// The score of 0.95: the share of the memory that the default run keeps per
/// step.
pub const RUN_DECAY_ALPHA: Score = 0x3F73_3333;

/// The score of 0.1: the decay of well-being in the default run.
pub const RUN_ESSENCE_DECAY: Score = 0x3DCC_CCCD;

/// Descriptive information about a run.
#[derive(Debug)]
pub struct MetadataConfig {
    /// Name of the run.
    pub name: String,
    /// What the run is about.
    pub description: String,
    /// Version of the configuration.
    pub version: String,
}

/// Scale, duration and randomness of a run.
#[derive(Clone, Copy, Debug)]
pub struct SimulationParams {
    /// Number of entities in the population.
    pub num_entities: u32,
    /// Number of steps of the run.
    pub num_steps: u32,
    /// Time that passes per step.
    pub dt: Score,
    /// Seed of the random source.
    pub seed: u64,
}

/// Everything a run is configured with.
#[derive(Debug)]
pub struct SimulationConfig {
    pub metadata: MetadataConfig,
    pub geometry: GeometryConfig,
    pub attraction: AttractionConfig,
    pub state: StateConfig,
    pub dynamics: DynamicsConfig,
    pub essence: EssenceConfig,
    pub simulation: SimulationParams,
}

/// What keeps a run from starting.
#[derive(Clone, Copy, Debug, PartialEq, Eq, Structural)]
pub enum ConfigFault {
    /// The world is neither a plane nor a space, or the number of extents
    /// differs from the number of axes.
    Geometry,
    /// A component of the state has no entry.
    State,
    /// Time does not advance, or the least speed is negative.
    Dynamics,
}

impl ConfigFault {
    /// The message that reports the fault.
    pub open spec fn message(self) -> Seq<char> {
        match self {
            ConfigFault::Geometry => "Geometry configuration invalid"@,
            ConfigFault::State => "State dimensions must be positive"@,
            ConfigFault::Dynamics => "Dynamics parameters must be valid"@,
        }
    }

    /// The message that reports the fault.
    pub fn to_message(self) -> (text: String)
        ensures
            text@ == self.message(),
    {
        match self {
            ConfigFault::Geometry => "Geometry configuration invalid".to_owned(),
            ConfigFault::State => "State dimensions must be positive".to_owned(),
            ConfigFault::Dynamics => "Dynamics parameters must be valid".to_owned(),
        }
    }
}

impl SimulationConfig {
    /// The first fault of the configuration, if it has one. The geometry is
    /// looked at first, then the state, then the dynamics.
    pub open spec fn fault(&self) -> Option<ConfigFault> {
        if !self.geometry.valid() {
            Some(ConfigFault::Geometry)
        } else if !self.state.valid() {
            Some(ConfigFault::State)
        } else if !self.dynamics.valid() {
            Some(ConfigFault::Dynamics)
        } else {
            None
        }
    }

    /// A run can start with this configuration.
    pub open spec fn valid(&self) -> bool {
        self.fault() is None
    }

    /// Finds the first fault of the configuration.
    pub fn check(&self) -> (fault: Option<ConfigFault>)
        ensures
            fault == self.fault(),
    {
        if !self.geometry.is_valid() {
            return Some(ConfigFault::Geometry);
        }
        if self.state.memory_dim == 0 || self.state.context_dim == 0 {
            return Some(ConfigFault::State);
        }
        if !self.dynamics.is_valid() {
            return Some(ConfigFault::Dynamics);
        }
        None
    }

    /// Accepts a configuration that a run can start with, and reports the
    /// first fault of any other.
    pub fn validate(&self) -> (outcome: Result<(), String>)
        ensures
            match outcome {
                Ok(_) => self.fault() is None,
                Err(text) => self.fault() matches Some(fault) && text@ == fault.message(),
            },
    {
        match self.check() {
            Some(fault) => Err(fault.to_message()),
            None => Ok(()),
        }
    }

    /// Ten entities on a periodic plane of extent 10, for a thousand steps.
    pub fn default_2d() -> (config: SimulationConfig)
        ensures
            config.valid(),
            config.metadata.name@ == "Default 2D Synthetic Consciousness"@,
            config.metadata.description@ == "Default 2D simulation with 10 entities"@,
            config.metadata.version@ == "1.0.0"@,
            config.geometry.dimension == 2,
            config.geometry.bounds@ == seq![TEN, TEN],
            config.geometry.periodic,
            config.attraction == (AttractionConfig {
                kernel: KernelType::Gaussian,
                sigma: ONE,
                lambda: DEFAULT_BETA_ATTENTION,
            }),
            config.state == (StateConfig {
                memory_dim: 100,
                context_dim: 20,
                decay_alpha: RUN_DECAY_ALPHA,
                beta_attention: DEFAULT_BETA_ATTENTION,
                gamma_memory: DEFAULT_GAMMA_MEMORY,
            }),
            config.dynamics == (DynamicsConfig {
                dt: DEFAULT_DT,
                min_speed: DEFAULT_MIN_SPEED,
                damping: DEFAULT_DAMPING,
            }),
            config.essence == (EssenceConfig {
                baseline: FIVE,
                decay: RUN_ESSENCE_DECAY,
                experience_scale: ONE,
            }),
            config.simulation == (SimulationParams {
                num_entities: 10,
                num_steps: 1000,
                dt: DEFAULT_DT,
                seed: 42,
            }),
    {
        SimulationConfig {
            metadata: MetadataConfig {
                name: "Default 2D Synthetic Consciousness".to_owned(),
                description: "Default 2D simulation with 10 entities".to_owned(),
                version: "1.0.0".to_owned(),
            },
            geometry: GeometryConfig { dimension: 2, bounds: vec![TEN, TEN], periodic: true },
            attraction: AttractionConfig {
                kernel: KernelType::Gaussian,
                sigma: ONE,
                lambda: DEFAULT_BETA_ATTENTION,
            },
            state: StateConfig {
                memory_dim: 100,
                context_dim: 20,
                decay_alpha: RUN_DECAY_ALPHA,
                beta_attention: DEFAULT_BETA_ATTENTION,
                gamma_memory: DEFAULT_GAMMA_MEMORY,
            },
            dynamics: DynamicsConfig {
                dt: DEFAULT_DT,
                min_speed: DEFAULT_MIN_SPEED,
                damping: DEFAULT_DAMPING,
            },
            essence: EssenceConfig {
                baseline: FIVE,
                decay: RUN_ESSENCE_DECAY,
                experience_scale: ONE,
            },
            simulation: SimulationParams {
                num_entities: 10,
                num_steps: 1000,
                dt: DEFAULT_DT,
                seed: 42,
            },
        }
    }

    /// The same run in a periodic space of three axes.
    pub fn default_3d() -> (config: SimulationConfig)
        ensures
            config.valid(),
            config.metadata.name@ == "Default 3D Synthetic Consciousness"@,
            config.metadata.description@ == "Default 3D simulation with 10 entities"@,
            config.metadata.version@ == "1.0.0"@,
            config.geometry.dimension == 3,
            config.geometry.bounds@ == seq![TEN, TEN, TEN],
            config.geometry.periodic,
            config.attraction == (AttractionConfig {
                kernel: KernelType::Gaussian,
                sigma: ONE,
                lambda: DEFAULT_BETA_ATTENTION,
            }),
            config.state == (StateConfig {
                memory_dim: 100,
                context_dim: 20,
                decay_alpha: RUN_DECAY_ALPHA,
                beta_attention: DEFAULT_BETA_ATTENTION,
                gamma_memory: DEFAULT_GAMMA_MEMORY,
            }),
            config.dynamics == (DynamicsConfig {
                dt: DEFAULT_DT,
                min_speed: DEFAULT_MIN_SPEED,
                damping: DEFAULT_DAMPING,
            }),
            config.essence == (EssenceConfig {
                baseline: FIVE,
                decay: RUN_ESSENCE_DECAY,
                experience_scale: ONE,
            }),
            config.simulation == (SimulationParams {
                num_entities: 10,
                num_steps: 1000,
                dt: DEFAULT_DT,
                seed: 42,
            }),
    {
        let mut config = SimulationConfig::default_2d();
        config.geometry.dimension = 3;
        config.geometry.bounds = vec![TEN, TEN, TEN];
        config.metadata.name = "Default 3D Synthetic Consciousness".to_owned();
        config.metadata.description = "Default 3D simulation with 10 entities".to_owned();
        config
    }
}

} // verus!
