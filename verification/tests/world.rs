use tubereng::world::commands::CommandBuffer;
use tubereng::world::entity::{EntityBundle, EntityStore};
use tubereng::world::event::EventQueue;
use tubereng::world::query::Q;
use tubereng::world::relationship::{ChildOf, Relationship, RelationshipId, RelationshipStore};
use tubereng::world::system::SystemSet;

#[test]
fn events_are_visible_for_one_frame() {
    let mut queue = EventQueue::new();
    queue.push(1);
    queue.push(2);
    assert!(queue.pending_events().is_empty());
    queue.swap_and_clear();
    assert_eq!(queue.pending_events(), &vec![1, 2]);
    assert_eq!(queue.len(), 2);
    queue.swap_and_clear();
    assert!(queue.pending_events().is_empty());
    assert!(queue.is_empty());
}

#[test]
fn command_buffer_ids_match_the_entity_store() {
    let mut store = EntityStore::new();
    store.allocate_entity();
    let mut buffer = CommandBuffer::new(store.entity_count());
    let first = buffer.insert("a");
    let second = buffer.insert("b");
    buffer.push("c");
    assert_eq!(buffer.len(), 3);
    let commands = buffer.flush_commands();
    assert_eq!(commands, vec!["a", "b", "c"]);
    assert!(buffer.is_empty());
    assert_eq!(store.allocate_entity(), first);
    assert_eq!(store.allocate_entity(), second);
    assert!(store.is_allocated(second));
    assert!(!store.is_allocated(7));
    assert_eq!(store.entity_ids().len(), 3);
}

#[test]
fn relationship_store_records_pairs() {
    let mut store = RelationshipStore::new();
    let child_of = ChildOf::relationship_id();
    store.insert(child_of, 2, 1);
    store.insert(child_of, 3, 1);
    assert!(store.has(child_of, 2, 1));
    assert!(!store.has(child_of, 1, 2));
    assert!(!store.has(RelationshipId(child_of.0.wrapping_add(1)), 2, 1));
    let sources = store.sources_of::<ChildOf>(1).unwrap();
    assert!(sources.contains(&2) && sources.contains(&3));
    assert_eq!(store.targets_of::<ChildOf>(3), Some(vec![1]));
    assert_eq!(store.targets_of::<ChildOf>(1), None);
    store.insert(child_of, 3, 7);
    let mut targets = store.targets_of::<ChildOf>(3).unwrap();
    targets.sort();
    assert_eq!(targets, vec![1, 7]);
    assert!(targets.iter().all(|t| store.has(child_of, 3, *t)));
    assert_eq!(store.targets_with(child_of, 3).len(), 2);
    let all = store.all_sources_of::<ChildOf>();
    assert_eq!(all.len(), 2);
    struct OwnedBy;
    assert_ne!(OwnedBy::relationship_id(), child_of);
    assert_eq!(store.targets_of::<OwnedBy>(3), Some(vec![]));
    assert!(store.sources_of::<OwnedBy>(1).is_none());
    assert_ne!(tubereng::ecs::relationship::ChildOf::relationship_id(), child_of);
}

#[test]
fn query_walks_entities_related_to_a_target() {
    let mut store = RelationshipStore::new();
    store.insert(ChildOf::relationship_id(), 2, 0);
    store.insert(ChildOf::relationship_id(), 4, 0);
    let mut iter = Q::new().with_relationship::<ChildOf>(0).iter();
    let fetch = |entity: usize| if entity % 2 == 0 { Some(entity) } else { None };
    let mut found = vec![];
    while let Some(entity) = iter.next(6, &store, &fetch) {
        found.push(entity);
    }
    assert_eq!(found, vec![0, 2, 4]);
}

#[test]
fn entity_bundle_keeps_order_and_root() {
    let mut bundle = EntityBundle::new();
    let parent = bundle.add_entity("parent");
    let child = bundle.add_entity("child");
    bundle.add_relationship::<ChildOf>(child, parent);
    bundle.set_root(parent);
    assert_eq!((parent, child), (0, 1));
    assert_eq!(bundle.root(), parent);
}

#[test]
fn system_set_add_system() {
    let mut system_set: SystemSet<Box<dyn std::any::Any>> = SystemSet::new();
    system_set.add_system(Box::new(|| {}));
    system_set.add_system(Box::new(|_command_buffer: &CommandBuffer<u8>| {}));
    assert_eq!(system_set.systems_mut().len(), 2);
}

#[test]
fn system_set_keeps_adding_order() {
    let mut set = SystemSet::new();
    set.add_system(3);
    set.add_system(4);
    assert_eq!(set.systems_mut(), &mut vec![3, 4]);
}

#[test]
fn add_relationship() {
    let mut relationship_store = RelationshipStore::new();
    relationship_store.insert(ChildOf::relationship_id(), 1, 0);
    assert!(relationship_store.has(ChildOf::relationship_id(), 1, 0));
    let children_of_0 = relationship_store.sources_of::<ChildOf>(0).unwrap();
    assert_eq!(children_of_0.len(), 1);
    assert_eq!(*children_of_0.iter().next().unwrap(), 1);
    let all_children_of_any = relationship_store.all_sources_of::<ChildOf>();
    assert_eq!(all_children_of_any.len(), 1);
    assert_eq!(*all_children_of_any.iter().next().unwrap(), 1);
}

#[test]
fn add_relationships() {
    let mut relationship_store = RelationshipStore::new();
    relationship_store.insert(ChildOf::relationship_id(), 1, 0);
    relationship_store.insert(ChildOf::relationship_id(), 2, 1);
    assert!(relationship_store.has(ChildOf::relationship_id(), 1, 0));
    let children_of_0 = relationship_store.sources_of::<ChildOf>(0).unwrap();
    assert_eq!(children_of_0.len(), 1);
    assert_eq!(*children_of_0.iter().next().unwrap(), 1);
    let all_children_of_any = relationship_store.all_sources_of::<ChildOf>();
    assert_eq!(all_children_of_any.len(), 2);
}
