//! The orchestrator: it owns the population, fixes the order of the phases
//! of a step, and keeps the clock.
//!
//! A step consists of ten phases. The orchestrator performs what a phase
//! does to the discrete state: sensing adds one memory node to each entity,
//! and the last phase adds the metrics of the step to the history and
//! advances the clock. What a phase computes on quantities is the caller's
//! part; the orchestrator tells which phase is due and does not move on
//! before the caller says so.

use crate::config::SimulationConfig;
use crate::entities::handle_at;
use crate::entities::Entity;
use crate::entities::EntityId;
use crate::entities::EntityModel;
use crate::entities::EntityPool;
use crate::memory::GraphModel;
use crate::entities::SIMILARITY_THRESHOLD;
use crate::memory::MemoryGraph;
use crate::metrics::Metrics;
use crate::score::Score;
use vstd::prelude::*;

verus! {

/// The phases of a step, in the order in which they run.
#[derive(Clone, Copy, Debug, PartialEq, Eq, Structural)]
pub enum Phase {
    /// Every entity takes in a stimulus and remembers it.
    Sense,
    /// Attraction and attention between entities are computed.
    Attention,
    /// The state vectors are updated.
    StateUpdate,
    /// The affective signals of the belief clusters are refreshed.
    Affective,
    /// The well-being of every entity is updated.
    Essence,
    /// Every entity decides on its action.
    Decision,
    /// Motion is integrated.
    Integration,
    /// Positions are wrapped at the boundary of the world.
    Boundary,
    /// The activation of memories decays.
    MemoryDecay,
    /// The metrics of the population are computed.
    Metrics,
}

impl Phase {
    /// Position of the phase within a step, counted from 0.
    pub open spec fn index(self) -> nat {
        match self {
            Phase::Sense => 0,
            Phase::Attention => 1,
            Phase::StateUpdate => 2,
            Phase::Affective => 3,
            Phase::Essence => 4,
            Phase::Decision => 5,
            Phase::Integration => 6,
            Phase::Boundary => 7,
            Phase::MemoryDecay => 8,
            Phase::Metrics => 9,
        }
    }

    /// The phase that runs after this one. After the last phase of a step
    /// comes the first phase of the next step.
    pub open spec fn successor(self) -> Phase {
        match self {
            Phase::Sense => Phase::Attention,
            Phase::Attention => Phase::StateUpdate,
            Phase::StateUpdate => Phase::Affective,
            Phase::Affective => Phase::Essence,
            Phase::Essence => Phase::Decision,
            Phase::Decision => Phase::Integration,
            Phase::Integration => Phase::Boundary,
            Phase::Boundary => Phase::MemoryDecay,
            Phase::MemoryDecay => Phase::Metrics,
            Phase::Metrics => Phase::Sense,
        }
    }

    /// Position of the phase within a step, counted from 0.
    pub fn position(self) -> (k: usize)
        ensures
            k == self.index(),
    {
        match self {
            Phase::Sense => 0,
            Phase::Attention => 1,
            Phase::StateUpdate => 2,
            Phase::Affective => 3,
            Phase::Essence => 4,
            Phase::Decision => 5,
            Phase::Integration => 6,
            Phase::Boundary => 7,
            Phase::MemoryDecay => 8,
            Phase::Metrics => 9,
        }
    }

    /// The phase that runs after this one.
    pub fn next(self) -> (phase: Phase)
        ensures
            phase == self.successor(),
            phase.index() == (self.index() + 1) % 10,
    {
        match self {
            Phase::Sense => Phase::Attention,
            Phase::Attention => Phase::StateUpdate,
            Phase::StateUpdate => Phase::Affective,
            Phase::Affective => Phase::Essence,
            Phase::Essence => Phase::Decision,
            Phase::Decision => Phase::Integration,
            Phase::Integration => Phase::Boundary,
            Phase::Boundary => Phase::MemoryDecay,
            Phase::MemoryDecay => Phase::Metrics,
            Phase::Metrics => Phase::Sense,
        }
    }
}

/// The phase that is due `k` phases after `phase`.
pub open spec fn phase_after(phase: Phase, k: nat) -> Phase
    decreases k,
{
    if k == 0 {
        phase
    } else {
        phase_after(phase, (k - 1) as nat).successor()
    }
}

/// The phases run in one fixed order: each phase is followed by the one with
/// the next position, the last one by the first.
pub proof fn lemma_phases_run_in_order(phase: Phase, k: nat)
    ensures
        phase_after(phase, k).index() == (phase.index() + k) % 10,
    decreases k,
{
    if k > 0 {
        lemma_phases_run_in_order(phase, (k - 1) as nat);
        let before = phase_after(phase, (k - 1) as nat);
        assert(before.successor().index() == (before.index() + 1) % 10);
    }
}

/// A step has ten phases: ten phases after a phase was due, it is due again.
pub proof fn lemma_ten_phases_make_a_step(phase: Phase)
    ensures
        phase_after(phase, 10) == phase,
{
    lemma_phases_run_in_order(phase, 10);
    lemma_position_tells_phase(phase_after(phase, 10), phase);
}

/// No two phases have the same position.
pub proof fn lemma_position_tells_phase(a: Phase, b: Phase)
    requires
        a.index() == b.index(),
    ensures
        a == b,
{
}

/// The scores that entity number `i` senses with: those given for it, or
/// none where the list is too short.
pub open spec fn scores_of(scores: Seq<Vec<Score>>, i: int) -> Seq<Score> {
    if 0 <= i < scores.len() {
        scores[i]@
    } else {
        Seq::empty()
    }
}

/// Mathematical content of a simulation.
pub struct SimulationModel {
    /// The entities in ascending order of their handles.
    pub entities: Seq<EntityModel>,
    /// Number of steps that were completed.
    pub timestamp: u64,
    /// The phase that is due.
    pub phase: Phase,
    /// The metrics of the steps that were completed, one snapshot per step.
    pub history: Seq<Metrics>,
}

impl SimulationModel {
    /// The history holds one snapshot for each completed step, taken at
    /// that step. Every entity has one memory node for each step in which it
    /// has sensed, each of its memory nodes belongs to exactly one of its
    /// belief clusters, and it has no more belief clusters than memory nodes.
    pub open spec fn wf(self) -> bool {
        &&& self.timestamp <= u32::MAX
        &&& self.phase != Phase::Sense ==> self.timestamp < u32::MAX
        &&& self.history.len() == self.timestamp
        &&& forall|k: int|
            0 <= k < self.history.len() ==> (#[trigger] self.history[k]).timestamp == k
        &&& forall|i: int|
            0 <= i < self.entities.len() ==> {
                let memory = (#[trigger] self.entities[i]).memory;
                &&& self.entities[i].id == handle_at(i)
                &&& memory.wf()
                &&& memory.nodes.len() == self.timestamp + (if self.phase == Phase::Sense {
                    0int
                } else {
                    1int
                })
                &&& memory.clusters.len() <= memory.nodes.len()
                &&& memory.partitioned()
            }
    }

    /// The population after every entity has sensed at the current time.
    pub open spec fn sensed(self, scores: Seq<Vec<Score>>) -> Seq<EntityModel> {
        Seq::new(
            self.entities.len(),
            |i: int|
                EntityModel {
                    id: self.entities[i].id,
                    memory: self.entities[i].memory.remember(
                        self.timestamp,
                        scores_of(scores, i),
                        SIMILARITY_THRESHOLD,
                    ),
                },
        )
    }
}

/// A simulation run.
pub struct Simulation {
    config: SimulationConfig,
    entities: EntityPool,
    timestamp: u64,
    phase: Phase,
    history: Vec<Metrics>,
}

impl View for Simulation {
    type V = SimulationModel;

    closed spec fn view(&self) -> SimulationModel {
        SimulationModel {
            entities: self.entities@,
            timestamp: self.timestamp,
            phase: self.phase,
            history: self.history@,
        }
    }
}

impl Simulation {
    /// The configuration that the run was created with.
    pub closed spec fn configuration(&self) -> SimulationConfig {
        self.config
    }

    /// The run is consistent: its configuration is valid, the population has
    /// the configured size, and its content is well formed.
    pub closed spec fn wf(&self) -> bool {
        &&& self.config.valid()
        &&& self.entities.wf()
        &&& self.entities@.len() == self.config.simulation.num_entities
        &&& self@.wf()
    }

    /// What holds of a consistent run at every moment: its configuration is
    /// valid, its population has the configured size, and every entity has
    /// one memory node per step in which it has sensed, each of them in
    /// exactly one belief cluster.
    pub proof fn lemma_wf_content(&self)
        requires
            self.wf(),
        ensures
            self.configuration().valid(),
            self@.entities.len() == self.configuration().simulation.num_entities,
            self@.wf(),
    {
    }

    /// Starts a run. A configuration with a fault is refused with the
    /// message of its first fault. Otherwise the population is created:
    /// as many entities as configured, with the handles 1, 2, 3 and so on and
    /// with empty memories. The clock stands at 0, the history is empty and
    /// sensing is due.
    pub fn new(config: SimulationConfig) -> (outcome: Result<Simulation, String>)
        requires
            config.simulation.num_entities < u32::MAX,
        ensures
            match outcome {
                Ok(sim) => {
                    &&& config.fault() is None
                    &&& sim.wf()
                    &&& sim.configuration() == config
                    &&& sim@.timestamp == 0
                    &&& sim@.phase == Phase::Sense
                    &&& sim@.history == Seq::<Metrics>::empty()
                    &&& sim@.entities.len() == config.simulation.num_entities
                    &&& forall|i: int|
                        0 <= i < sim@.entities.len() ==> #[trigger] sim@.entities[i] == (
                        EntityModel { id: handle_at(i), memory: GraphModel::empty() })
                },
                Err(text) => config.fault() matches Some(fault) && text@ == fault.message(),
            },
    {
        match config.check() {
            Some(fault) => {
                return Err(fault.to_message());
            },
            None => {},
        }
        let n = config.simulation.num_entities;
        let mut entities = EntityPool::new();
        let mut i: u32 = 0;
        while i < n
            invariant
                entities.wf(),
                i <= n,
                n < u32::MAX,
                entities@.len() == i,
                forall|j: int|
                    0 <= j < i ==> #[trigger] entities@[j] == (EntityModel {
                        id: handle_at(j),
                        memory: GraphModel::empty(),
                    }),
            decreases n - i,
        {
            let entity = Entity::new(EntityId(0), MemoryGraph::new());
            entities.add_entity(entity);
            i += 1;
        }
        Ok(Simulation { config, entities, timestamp: 0, phase: Phase::Sense, history: Vec::new() })
    }

    /// Performs the sensing phase: every entity remembers one event at the
    /// current time and clusters it. `scores[i]` holds the similarities of
    /// the event of the entity with handle `i + 1` to the clusters of that
    /// entity, as `Entity::sense` takes them; an entity for which no scores
    /// are given senses with none. Afterwards the attention phase is due.
    pub fn sense_step(&mut self, scores: &Vec<Vec<Score>>)
        requires
            old(self).wf(),
            old(self)@.phase == Phase::Sense,
            old(self)@.timestamp < u32::MAX,
        ensures
            final(self).wf(),
            final(self).configuration() == old(self).configuration(),
            final(self)@ == (SimulationModel {
                entities: old(self)@.sensed(scores@),
                timestamp: old(self)@.timestamp,
                phase: Phase::Attention,
                history: old(self)@.history,
            }),
    {
        let n = self.entities.count();
        let now = self.timestamp;
        let none: Vec<Score> = Vec::new();
        let ghost before = self@;
        let ghost after = before.sensed(scores@);
        let mut i: usize = 0;
        while i < n
            invariant
                self.entities.wf(),
                self.entities@.len() == n,
                before.entities.len() == n,
                before.wf(),
                before.phase == Phase::Sense,
                before.timestamp == now,
                now < u32::MAX,
                after == before.sensed(scores@),
                none@ == Seq::<i64>::empty(),
                i <= n,
                self.config == old(self).config,
                self.timestamp == now,
                self.phase == Phase::Sense,
                self.history == old(self).history,
                forall|j: int| 0 <= j < i ==> #[trigger] self.entities@[j] == after[j],
                forall|j: int| i <= j < n ==> #[trigger] self.entities@[j] == before.entities[j],
            decreases n - i,
        {
            proof {
                self.entities.lemma_handles_are_positions(i as int);
            }
            let id = EntityId((i + 1) as u32);
            let own: &Vec<Score> = if i < scores.len() {
                &scores[i]
            } else {
                &none
            };
            let ghost pool_before = self.entities@;
            match self.entities.get_entity_mut(id) {
                Some(entity) => {
                    assert(entity@ == before.entities[i as int]);
                    entity.sense(own, now);
                },
                None => {},
            }
            assert(self.entities@ == pool_before.update(i as int, after[i as int]));
            i += 1;
        }
        self.phase = Phase::Attention;
        proof {
            assert(self@.entities =~= after);
            assert forall|k: int| 0 <= k < self@.entities.len() implies {
                let memory = (#[trigger] self@.entities[k]).memory;
                &&& self@.entities[k].id == handle_at(k)
                &&& memory.wf()
                &&& memory.nodes.len() == now + 1
                &&& memory.clusters.len() <= memory.nodes.len()
                &&& memory.partitioned()
            } by {
                let earlier = before.entities[k].memory;
                crate::memory::lemma_remember_preserves_partition(
                    earlier,
                    now,
                    scores_of(scores@, k),
                    SIMILARITY_THRESHOLD,
                );
                crate::memory::lemma_remember_preserves_wf(
                    earlier,
                    now,
                    scores_of(scores@, k),
                    SIMILARITY_THRESHOLD,
                );
            }
        }
    }

    /// Ends the phase that is due and tells which phase is due next. The
    /// sensing phase is ended by `sense_step` and the metrics phase by
    /// `record_metrics`.
    pub fn advance(&mut self) -> (next: Phase)
        requires
            old(self).wf(),
            old(self)@.phase != Phase::Sense,
            old(self)@.phase != Phase::Metrics,
        ensures
            final(self).wf(),
            final(self).configuration() == old(self).configuration(),
            next == old(self)@.phase.successor(),
            final(self)@ == (SimulationModel {
                entities: old(self)@.entities,
                timestamp: old(self)@.timestamp,
                phase: next,
                history: old(self)@.history,
            }),
    {
        self.phase = self.phase.next();
        self.phase
    }

    /// Performs the metrics phase, the last of a step: the metrics of the
    /// population are added to the history as the snapshot of the current
    /// step. With that the step is complete: the clock advances by one and
    /// sensing is due again.
    pub fn record_metrics(&mut self, metrics: &Metrics)
        requires
            old(self).wf(),
            old(self)@.phase == Phase::Metrics,
        ensures
            final(self).wf(),
            final(self).configuration() == old(self).configuration(),
            final(self)@ == (SimulationModel {
                entities: old(self)@.entities,
                timestamp: (old(self)@.timestamp + 1) as u64,
                phase: Phase::Sense,
                history: old(self)@.history.push(metrics.at(old(self)@.timestamp)),
            }),
            final(self)@.timestamp == old(self)@.timestamp + 1,
    {
        self.history.push(metrics.taken_at(self.timestamp));
        self.timestamp = self.timestamp + 1;
        self.phase = Phase::Sense;
    }

    /// The configuration of the run.
    pub fn config(&self) -> (config: &SimulationConfig)
        ensures
            *config == self.configuration(),
    {
        &self.config
    }

    /// The population.
    pub fn entities(&self) -> (pool: &EntityPool)
        ensures
            pool@ == self@.entities,
            self.wf() ==> pool.wf(),
    {
        &self.entities
    }

    /// The metrics of the completed steps, one snapshot per step.
    pub fn metrics_history(&self) -> (history: &Vec<Metrics>)
        ensures
            history@ == self@.history,
    {
        &self.history
    }

    /// Number of steps that were completed.
    pub fn timestamp(&self) -> (t: u64)
        ensures
            t == self@.timestamp,
    {
        self.timestamp
    }

    /// The phase that is due.
    pub fn phase(&self) -> (phase: Phase)
        ensures
            phase == self@.phase,
    {
        self.phase
    }

    /// Tells whether the configured number of steps has been completed.
    pub fn is_complete(&self) -> (done: bool)
        ensures
            done == (self@.phase == Phase::Sense && self@.timestamp
                >= self.configuration().simulation.num_steps),
    {
        self.phase == Phase::Sense && self.timestamp >= self.config.simulation.num_steps as u64
    }
}

} // verus!
