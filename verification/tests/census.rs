use synthetic_consciousness::entities::{Entity, EntityId, EntityPool};
use synthetic_consciousness::memory::MemoryGraph;
use synthetic_consciousness::metrics::{is_believing, is_remembering, Census};

/// An entity that has sensed `events` events, each of which opened a cluster
/// of its own when `apart` is set and joined the first cluster otherwise.
fn entity_with(events: usize, apart: bool) -> Entity {
    let mut entity = Entity::new(EntityId(0), MemoryGraph::new());
    for t in 0..events {
        let clusters = entity.memory_graph().cluster_count();
        let alike = 0.9f32.to_bits() as i64;
        let scores = vec![if apart { 0 } else { alike }; clusters];
        entity.sense(&scores, t as u64);
    }
    entity
}

#[test]
fn census_of_an_empty_pool() {
    let census = Census::compute(&EntityPool::new());
    assert_eq!(census.entities, 0);
    assert_eq!(census.remembering, 0);
    assert_eq!(census.believing, 0);
    assert_eq!(census.clusters, 0);
}

#[test]
fn census_counts_entities_memories_and_clusters() {
    let mut pool = EntityPool::new();
    pool.add_entity(entity_with(0, true));
    pool.add_entity(entity_with(1, true));
    pool.add_entity(entity_with(4, true));
    pool.add_entity(entity_with(5, false));
    pool.add_entity(entity_with(2, true));
    pool.add_entity(entity_with(0, false));
    let census = Census::compute(&pool);
    assert_eq!(census.entities, 6);
    assert_eq!(census.remembering, 4);
    assert_eq!(census.believing, 2);
    assert_eq!(census.clusters, 1 + 4 + 1 + 2);
}

#[test]
fn entities_counted_by_the_means() {
    assert!(!is_remembering(&entity_with(0, true)));
    assert!(is_remembering(&entity_with(1, true)));
    assert!(!is_believing(&entity_with(0, true)));
    assert!(!is_believing(&entity_with(1, true)));
    assert!(!is_believing(&entity_with(5, false)));
    assert!(is_believing(&entity_with(2, true)));
    assert!(is_believing(&entity_with(4, true)));
}
