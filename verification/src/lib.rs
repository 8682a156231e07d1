//! Discrete core of a simulation of interacting entities that move through a
//! bounded space, remember what they sense, group their memories into belief
//! clusters and carry a well-being index.
//!
//! The library holds what is discrete in such a simulation and what is
//! decided by rule: the population and its handles, the structure of each
//! entity's memory, the choice of the cluster that an event joins, the limits
//! of the well-being index, the rule of perpetual motion, the wrap at a
//! periodic boundary, the counts behind the metrics and their history, the
//! verdict on a run, the validation of a configuration, and the order of the
//! phases of a step.
//!
//! It does not compute with real numbers. Kernels, similarities, sums and
//! means are the caller's part; where a rule depends on how two quantities
//! compare, the caller hands them over as scores (see [`score`]).

pub mod attraction;
pub mod config;
pub mod dynamics;
pub mod entities;
pub mod essence;
pub mod geometry;
pub mod memory;
pub mod metrics;
pub mod results;
pub mod score;
pub mod simulation;
pub mod state;
pub mod visualization;
