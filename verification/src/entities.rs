//! Entities and the pool that owns them.

use crate::memory::lemma_best_match_depends_on_clusters;
use crate::memory::GraphModel;
use crate::memory::MemoryGraph;
use crate::memory::MemoryNode;
use crate::score::Score;
use vstd::prelude::*;

verus! {

/// The score of 0.7: an event joins a belief cluster when its mean similarity
/// to the members of the cluster exceeds this.
pub const SIMILARITY_THRESHOLD: Score = 0x3F33_3333;

/// Opaque handle of an entity. Handles are issued by the pool that owns the
/// entity and are never issued twice.
#[derive(Clone, Copy, Debug, PartialEq, Eq, Hash, Structural)]
pub struct EntityId(pub u32);

/// Mathematical content of an entity.
pub struct EntityModel {
    /// Handle of the entity.
    pub id: EntityId,
    /// Content of the entity's memory.
    pub memory: GraphModel,
}

/// A simulated agent: its handle and its memory. Position, velocity, state
/// and well-being are quantities that the caller keeps under the handle.
pub struct Entity {
    id: EntityId,
    memory_graph: MemoryGraph,
}

impl View for Entity {
    type V = EntityModel;

    closed spec fn view(&self) -> EntityModel {
        EntityModel { id: self.id, memory: self.memory_graph@ }
    }
}

impl Entity {
    /// The entity's memory is consistent.
    pub closed spec fn wf(&self) -> bool {
        self.memory_graph.wf()
    }

    /// The memory of a consistent entity is well formed.
    pub proof fn lemma_wf_content(&self)
        requires
            self.wf(),
        ensures
            self@.memory.wf(),
    {
        self.memory_graph.lemma_wf_content();
    }

    /// An entity with the given handle and memory.
    pub fn new(id: EntityId, memory_graph: MemoryGraph) -> (entity: Entity)
        requires
            memory_graph.wf(),
        ensures
            entity.wf(),
            entity@ == (EntityModel { id, memory: memory_graph@ }),
    {
        Entity { id, memory_graph }
    }

    /// Handle of the entity.
    pub fn id(&self) -> (id: EntityId)
        ensures
            id == self@.id,
    {
        self.id
    }

    /// Memory of the entity.
    pub fn memory_graph(&self) -> (graph: &MemoryGraph)
        ensures
            graph@ == self@.memory,
            self.wf() ==> graph.wf(),
    {
        &self.memory_graph
    }

    /// Takes in a stimulus: records it as a new memory node at `timestamp`
    /// and clusters it. `scores[c]` is the mean similarity of the stimulus to
    /// the members of cluster `c` of the entity's memory; the cluster is
    /// joined that `MemoryGraph::select_cluster` picks for these scores and
    /// the similarity threshold.
    pub fn sense(&mut self, scores: &Vec<Score>, timestamp: u64)
        requires
            old(self).wf(),
            old(self)@.memory.best_match(scores@, SIMILARITY_THRESHOLD) is None ==> old(
                self,
            )@.memory.clusters.len() < u32::MAX,
        ensures
            final(self).wf(),
            final(self)@.id == old(self)@.id,
            final(self)@.memory == old(self)@.memory.remember(
                timestamp,
                scores@,
                SIMILARITY_THRESHOLD,
            ),
    {
        proof {
            lemma_best_match_depends_on_clusters(
                old(self)@.memory,
                old(self)@.memory.add_node(timestamp),
                scores@,
                SIMILARITY_THRESHOLD,
            );
        }
        let idx = self.memory_graph.add_node(MemoryNode::new(timestamp));
        self.memory_graph.cluster_event(scores, idx, SIMILARITY_THRESHOLD);
    }
}

/// The handle of the entity that a pool stores at position `index`.
pub open spec fn handle_at(index: int) -> EntityId {
    EntityId((index + 1) as u32)
}

/// Exclusive owner of the entities of a run. Entities are added and never
/// removed; each is addressed by the handle that the pool gave it.
pub struct EntityPool {
    entities: Vec<Entity>,
    next_id: u32,
}

impl View for EntityPool {
    type V = Seq<EntityModel>;

    /// The entities in the order in which they were added.
    closed spec fn view(&self) -> Seq<EntityModel> {
        Seq::new(self.entities@.len(), |i: int| self.entities@[i]@)
    }
}

impl EntityPool {
    /// Every entity is consistent and carries the handle of its position,
    /// and the next handle is the one after the last that was issued.
    pub closed spec fn wf(&self) -> bool {
        &&& self.next_id == self.entities@.len() + 1
        &&& forall|i: int|
            0 <= i < self.entities@.len() ==> (#[trigger] self.entities@[i]).wf()
                && self.entities@[i]@.id == handle_at(i)
    }

    /// Handles are issued in ascending order, starting with 1: in a
    /// consistent pool the entity at position `i` has the handle `i + 1`.
    pub proof fn lemma_handles_are_positions(&self, i: int)
        requires
            self.wf(),
            0 <= i < self@.len(),
        ensures
            self@[i].id == handle_at(i),
            self@[i].memory.wf(),
            self@.len() < u32::MAX,
    {
        self.entities@[i].lemma_wf_content();
    }

    /// The entity with the given handle, if the pool has issued it.
    pub open spec fn lookup(&self, id: EntityId) -> Option<EntityModel> {
        if 1 <= id.0 <= self@.len() {
            Some(self@[id.0 - 1])
        } else {
            None
        }
    }

    /// A pool without entities.
    pub fn new() -> (pool: EntityPool)
        ensures
            pool.wf(),
            pool@ == Seq::<EntityModel>::empty(),
    {
        let pool = EntityPool { entities: Vec::new(), next_id: 1 };
        assert(pool@ =~= Seq::empty());
        pool
    }

    /// Takes ownership of an entity and gives it the next handle, which is
    /// returned. The handle that the entity came with is replaced.
    pub fn add_entity(&mut self, entity: Entity) -> (id: EntityId)
        requires
            old(self).wf(),
            entity.wf(),
            old(self)@.len() + 1 < u32::MAX,
        ensures
            final(self).wf(),
            id == handle_at(old(self)@.len() as int),
            final(self)@ == old(self)@.push(EntityModel { id, memory: entity@.memory }),
    {
        let id = EntityId(self.next_id);
        let mut entity = entity;
        entity.id = id;
        self.entities.push(entity);
        self.next_id = self.next_id + 1;
        assert(self@ =~= old(self)@.push(EntityModel { id, memory: entity@.memory }));
        id
    }

    /// The entity with the given handle.
    pub fn get_entity(&self, id: EntityId) -> (found: Option<&Entity>)
        requires
            self.wf(),
        ensures
            match found {
                Some(entity) => self.lookup(id) == Some(entity@) && entity.wf(),
                None => self.lookup(id) is None,
            },
    {
        if 1 <= id.0 && id.0 as usize <= self.entities.len() {
            Some(&self.entities[(id.0 - 1) as usize])
        } else {
            None
        }
    }

    /// The entity with the given handle, for changing it. The pool stays
    /// consistent when the entity is left consistent and with its handle.
    pub fn get_entity_mut(&mut self, id: EntityId) -> (found: Option<&mut Entity>)
        requires
            old(self).wf(),
        ensures
            match found {
                Some(entity) => {
                    &&& old(self).lookup(id) == Some(entity@)
                    &&& entity.wf()
                    &&& final(self)@ == old(self)@.update(id.0 - 1, final(entity)@)
                    &&& final(entity).wf() && final(entity)@.id == id ==> final(self).wf()
                },
                None => {
                    &&& old(self).lookup(id) is None
                    &&& final(self)@ == old(self)@
                    &&& final(self).wf()
                },
            },
    {
        if 1 <= id.0 && id.0 as usize <= self.entities.len() {
            Some(&mut self.entities[(id.0 - 1) as usize])
        } else {
            None
        }
    }

    /// Number of entities.
    pub fn count(&self) -> (n: usize)
        ensures
            n == self@.len(),
    {
        self.entities.len()
    }

    /// All entities in ascending order of their handles.
    pub fn all_entities(&self) -> (all: Vec<&Entity>)
        requires
            self.wf(),
        ensures
            all@.len() == self@.len(),
            forall|i: int|
                0 <= i < all@.len() ==> (#[trigger] all@[i])@ == self@[i] && all@[i].wf(),
    {
        let mut all: Vec<&Entity> = Vec::new();
        let mut i: usize = 0;
        while i < self.entities.len()
            invariant
                self.wf(),
                i <= self.entities@.len(),
                all@.len() == i,
                forall|j: int| 0 <= j < i ==> (#[trigger] all@[j])@ == self@[j] && all@[j].wf(),
            decreases self.entities@.len() - i,
        {
            all.push(&self.entities[i]);
            i += 1;
        }
        all
    }
}

} // verus!
