//! The metrics of a population: the snapshot that is taken once per step,
//! and the counts that its values are averaged over.
//!
//! Each metric is a mean. Which entities a mean is taken over, and how many
//! belief clusters there are to average, is decided here; the sums are
//! quantities that the caller computes.

use crate::entities::Entity;
use crate::entities::EntityModel;
use crate::entities::EntityPool;
use crate::score::Score;
use vstd::prelude::*;

verus! {

/// The metrics of a population at one moment.
#[derive(Clone, Copy, Debug)]
pub struct Metrics {
    /// The step at which the snapshot was taken.
    pub timestamp: u64,
    /// Mean entropy of the activations of the entities' memories.
    pub attention_entropy: Score,
    /// Mean spread of the affective signals of the entities' clusters.
    pub memory_diversity: Score,
    /// How evenly the entities move.
    pub velocity_stability: Score,
    /// How evenly the states of the entities are sized.
    pub identity_coherence: Score,
    /// Mean number of belief clusters per entity, in tens.
    pub cluster_stability: Score,
    /// Mean magnitude of the affective signals of all clusters.
    pub affective_strength: Score,
    /// Mean well-being of the entities.
    pub essence_trajectory: Score,
    /// Mean well-being of the entities.
    pub average_essence: Score,
}

impl Metrics {
    /// The same metrics, taken at step `timestamp`.
    pub open spec fn at(self, timestamp: u64) -> Metrics {
        Metrics {
            timestamp,
            attention_entropy: self.attention_entropy,
            memory_diversity: self.memory_diversity,
            velocity_stability: self.velocity_stability,
            identity_coherence: self.identity_coherence,
            cluster_stability: self.cluster_stability,
            affective_strength: self.affective_strength,
            essence_trajectory: self.essence_trajectory,
            average_essence: self.average_essence,
        }
    }

    /// The same metrics, taken at step `timestamp`.
    pub fn taken_at(&self, timestamp: u64) -> (metrics: Metrics)
        ensures
            metrics == self.at(timestamp),
    {
        Metrics {
            timestamp,
            attention_entropy: self.attention_entropy,
            memory_diversity: self.memory_diversity,
            velocity_stability: self.velocity_stability,
            identity_coherence: self.identity_coherence,
            cluster_stability: self.cluster_stability,
            affective_strength: self.affective_strength,
            essence_trajectory: self.essence_trajectory,
            average_essence: self.average_essence,
        }
    }
}

/// The score of one millionth: a sum or a mean counts for something only
/// when it exceeds this.
pub const NEGLIGIBLE: Score = 0x3586_37BD;

/// Tells whether a sum or a mean is large enough to divide by. Where it is
/// not, a metric takes its neutral value instead of a quotient.
pub fn is_significant(amount: Score) -> (significant: bool)
    ensures
        significant == (amount > NEGLIGIBLE),
{
    amount > NEGLIGIBLE
}

/// The entity remembers something: it has at least one memory node.
/// Attention entropy is averaged over such entities.
pub open spec fn remembers(entity: EntityModel) -> bool {
    entity.memory.nodes.len() > 0
}

/// The entity holds several beliefs: it has two or more belief clusters.
/// Memory diversity is averaged over such entities.
pub open spec fn believes(entity: EntityModel) -> bool {
    entity.memory.clusters.len() >= 2
}

/// Tells whether attention entropy counts the entity.
pub fn is_remembering(entity: &Entity) -> (counted: bool)
    ensures
        counted == remembers(entity@),
{
    entity.memory_graph().node_count() > 0
}

/// Tells whether memory diversity counts the entity.
pub fn is_believing(entity: &Entity) -> (counted: bool)
    ensures
        counted == believes(entity@),
{
    entity.memory_graph().cluster_count() >= 2
}

/// Number of entities of `population` that remember something.
pub open spec fn remembering(population: Seq<EntityModel>) -> nat
    decreases population.len(),
{
    if population.len() == 0 {
        0
    } else {
        remembering(population.drop_last()) + if remembers(population.last()) {
            1nat
        } else {
            0nat
        }
    }
}

/// Number of entities of `population` that hold several beliefs.
pub open spec fn believing(population: Seq<EntityModel>) -> nat
    decreases population.len(),
{
    if population.len() == 0 {
        0
    } else {
        believing(population.drop_last()) + if believes(population.last()) {
            1nat
        } else {
            0nat
        }
    }
}

/// Number of belief clusters of all entities of `population` together:
/// cluster stability and affective strength are derived from it.
pub open spec fn cluster_total(population: Seq<EntityModel>) -> nat
    decreases population.len(),
{
    if population.len() == 0 {
        0
    } else {
        cluster_total(population.drop_last()) + population.last().memory.clusters.len()
    }
}

/// The counts of a population at one moment.
#[derive(Clone, Copy, Debug)]
pub struct Census {
    /// Number of entities.
    pub entities: usize,
    /// Number of entities with at least one memory node.
    pub remembering: usize,
    /// Number of entities with at least two belief clusters.
    pub believing: usize,
    /// Number of belief clusters of all entities together.
    pub clusters: u64,
}

impl Census {
    /// Counts the population of a pool.
    pub fn compute(entities: &EntityPool) -> (census: Census)
        requires
            entities.wf(),
        ensures
            census.entities == entities@.len(),
            census.remembering == remembering(entities@),
            census.believing == believing(entities@),
            census.clusters == cluster_total(entities@),
    {
        let all = entities.all_entities();
        let mut census = Census { entities: all.len(), remembering: 0, believing: 0, clusters: 0 };
        let mut i: usize = 0;
        while i < all.len()
            invariant
                entities.wf(),
                all@.len() == entities@.len(),
                forall|j: int| 0 <= j < all@.len() ==> (#[trigger] all@[j])@ == entities@[j],
                i <= all@.len(),
                census.entities == all@.len(),
                census.remembering == remembering(entities@.take(i as int)),
                census.believing == believing(entities@.take(i as int)),
                census.clusters == cluster_total(entities@.take(i as int)),
                census.remembering <= i,
                census.believing <= i,
                census.clusters <= i * u32::MAX,
            decreases all@.len() - i,
        {
            let graph = all[i].memory_graph();
            proof {
                entities.lemma_handles_are_positions(i as int);
                assert(entities@.take(i + 1).drop_last() =~= entities@.take(i as int));
                assert(entities@.take(i + 1).last() == entities@[i as int]);
                assert(graph@.clusters.len() <= u32::MAX);
                assert((i + 1) * u32::MAX == i * u32::MAX + u32::MAX) by (nonlinear_arith);
                assert(i * u32::MAX + u32::MAX <= u64::MAX) by (nonlinear_arith)
                    requires
                        i < u32::MAX,
                ;
            }
            if is_remembering(all[i]) {
                census.remembering = census.remembering + 1;
            }
            if is_believing(all[i]) {
                census.believing = census.believing + 1;
            }
            census.clusters = census.clusters + graph.cluster_count() as u64;
            i += 1;
        }
        proof {
            assert(entities@.take(i as int) =~= entities@);
        }
        census
    }
}

/// The counts are bounded by the size of the population, and an entity with
/// two clusters has memories: it is counted as remembering too.
pub proof fn lemma_census_bounds(population: Seq<EntityModel>)
    requires
        forall|i: int| 0 <= i < population.len() ==> (#[trigger] population[i]).memory.wf(),
    ensures
        believing(population) <= remembering(population) <= population.len(),
    decreases population.len(),
{
    if population.len() > 0 {
        let rest = population.drop_last();
        assert forall|i: int| 0 <= i < rest.len() implies (#[trigger] rest[i]).memory.wf() by {
            assert(rest[i] == population[i]);
        }
        lemma_census_bounds(rest);
        let memory = population.last().memory;
        if memory.clusters.len() >= 2 {
            assert(memory.clusters[0].len() > 0);
            assert(memory.clusters[0][0] < memory.nodes.len());
        }
    }
}

/// Before anything was sensed nothing is remembered: a population whose
/// memories are all empty has no remembering entity, no believing entity and
/// no cluster.
pub proof fn lemma_census_of_blank_population(population: Seq<EntityModel>)
    requires
        forall|i: int|
            0 <= i < population.len() ==> (#[trigger] population[i]).memory.nodes.len() == 0
                && population[i].memory.clusters.len() == 0,
    ensures
        remembering(population) == 0,
        believing(population) == 0,
        cluster_total(population) == 0,
    decreases population.len(),
{
    if population.len() > 0 {
        let rest = population.drop_last();
        assert forall|i: int| 0 <= i < rest.len() implies (#[trigger] rest[i]).memory.nodes.len()
            == 0 && rest[i].memory.clusters.len() == 0 by {
            assert(rest[i] == population[i]);
        }
        lemma_census_of_blank_population(rest);
        assert(population.last() == population[population.len() - 1]);
    }
}

} // verus!
