use tubereng::ecs::bitset::BitSet;
use tubereng::ecs::commands::CommandQueue;
use tubereng::ecs::component_store::ComponentStore;
use tubereng::ecs::relationship::{ChildOf, Relationship, Relationships};
use tubereng::ecs::storage::Storage;

struct Position {
    x: i32,
    y: i32,
}

#[test]
fn bitset_set_bit() {
    let mut bitset = [0u8; 2];
    bitset.set_bit(0);
    assert_eq!(bitset[0], 1u8);
    assert_eq!(bitset[1], 0u8);
    bitset.set_bit(8);
    assert_eq!(bitset[0], 1u8);
    assert_eq!(bitset[1], 1u8);
    bitset.set_bit(10);
    assert_eq!(bitset[0], 1u8);
    assert_eq!(bitset[1], 5u8);
}

#[test]
fn bitset_bit() {
    let mut bitset = [0u8; 2];
    bitset.set_bit(0);
    bitset.set_bit(8);
    bitset.set_bit(10);
    assert!(bitset.bit(0));
    assert!(bitset.bit(8));
    assert!(bitset.bit(10));
    for i in 0..=15 {
        if i == 0 || i == 8 || i == 10 {
            continue;
        }
        assert!(!bitset.bit(i));
    }
}

#[test]
fn bitset_unset_and_clear() {
    let mut bitset = [0u8; 2];
    bitset.set_bit(3);
    bitset.set_bit(12);
    bitset.unset_bit(3);
    assert!(!bitset.bit(3));
    assert!(bitset.bit(12));
    assert_eq!(bitset, [0u8, 16u8]);
    bitset.clear_bits();
    assert_eq!(bitset, [0u8, 0u8]);
}

#[test]
fn component_store_store() {
    let mut store = ComponentStore::<Position>::new();
    store.store(5, Position { x: 23, y: 12 });
    assert_eq!(store.capacity(), 6);
    store.store(2, Position { x: 43, y: 45 });
    assert_eq!(store.capacity(), 6);
}

#[test]
fn component_store_get() {
    let mut store = ComponentStore::<Position>::new();
    store.store(5, Position { x: 23, y: 12 });
    store.store(2, Position { x: 11, y: 33 });

    let position = store.get(2).unwrap();
    assert_eq!(position.x, 11);
    assert_eq!(position.y, 33);

    let position = store.get(5).unwrap();
    assert_eq!(position.x, 23);
    assert_eq!(position.y, 12);
}

#[test]
fn component_store_get_mut() {
    let mut store = ComponentStore::<Position>::new();
    store.store(5, Position { x: 23, y: 12 });
    store.store(2, Position { x: 11, y: 33 });

    let position = store.get_mut(2).unwrap();
    position.x = 83;
    position.y = 92;

    let position = store.get(5).unwrap();
    assert_eq!(position.x, 23);
    assert_eq!(position.y, 12);

    let position = store.get(2).unwrap();
    assert_eq!(position.x, 83);
    assert_eq!(position.y, 92);
}

#[test]
fn component_store_delete_then_get_gives_none() {
    let mut store = ComponentStore::<Position>::new();
    store.store(3, Position { x: 1, y: 2 });
    store.delete(3);
    assert!(store.get(3).is_none());
    assert!(store.get(100).is_none());
    store.store(3, Position { x: 4, y: 5 });
    assert_eq!(store.get(3).unwrap().x, 4);
    store.clear();
    assert!(store.get(3).is_none());
}

#[test]
fn component_store_dirty_flags() {
    let mut store = ComponentStore::<Position>::new();
    store.store(7, Position { x: 0, y: 0 });
    assert!(!store.dirty(7));
    store.set_dirty(7);
    assert!(store.dirty(7));
    assert!(!store.dirty(6));
    store.clear_dirty_bitset();
    assert!(!store.dirty(7));
}

#[test]
fn ancestors() {
    let mut relationship = Relationship::default();
    relationship.add(4, 3);
    relationship.add(3, 2);
    relationship.add(2, 1);
    relationship.add(1, 0);

    let ancestors = relationship.ancestors(0);
    assert!(&ancestors.contains(&1));
    assert!(&ancestors.contains(&2));
    assert!(&ancestors.contains(&3));
    assert!(&ancestors.contains(&4));
}

#[test]
fn successors() {
    let mut relationship = Relationship::default();
    relationship.add(4, 3);
    relationship.add(3, 2);
    relationship.add(2, 1);
    relationship.add(1, 0);

    let successors = relationship.successors(4);
    assert!(successors.contains(&0));
    assert!(successors.contains(&1));
    assert!(successors.contains(&2));
    assert!(successors.contains(&3));
}

#[test]
fn successors_tree() {
    let mut relationship = Relationship::default();
    relationship.add(4, 3);
    relationship.add(3, 2);
    relationship.add(2, 1);
    relationship.add(2, 5);
    relationship.add(5, 6);
    relationship.add(1, 0);

    let successors = relationship.successors(4);
    assert!(successors.contains(&0));
    assert!(successors.contains(&1));
    assert!(successors.contains(&2));
    assert!(successors.contains(&3));
    assert!(successors.contains(&5));
    assert!(successors.contains(&6));
}

#[test]
fn sources_mirror_targets() {
    let mut relationship = Relationship::default();
    relationship.add(1, 2);
    relationship.add(3, 2);
    let sources = relationship.sources(2).unwrap();
    assert!(sources.contains(&1) && sources.contains(&3));
    assert!(relationship.targets(1).unwrap().contains(&2));
    assert!(relationship.targets(3).unwrap().contains(&2));
    assert!(relationship.sources(1).is_none());
    assert!(relationship.ancestors(1).is_empty());
}

#[test]
fn relationships_by_kind() {
    let mut relationships = Relationships::new();
    assert!(relationships.get::<ChildOf>().is_none());
    relationships.insert::<ChildOf>(5, 6);
    let child_of = relationships.get::<ChildOf>().unwrap();
    assert!(child_of.targets(5).unwrap().contains(&6));
    assert!(child_of.sources(6).unwrap().contains(&5));
    struct OwnedBy;
    assert!(relationships.get::<OwnedBy>().is_none());
    assert!(relationships.get::<tubereng::world::relationship::ChildOf>().is_none());
    relationships.insert::<OwnedBy>(1, 2);
    assert!(relationships.get::<OwnedBy>().unwrap().targets(1).unwrap().contains(&2));
    assert!(relationships.get::<ChildOf>().unwrap().targets(1).is_none());
}

#[test]
fn storage_reuses_deleted_ids_last_first() {
    let mut storage = Storage::new();
    assert_eq!(storage.allocate_entity(), 0);
    assert_eq!(storage.allocate_entity(), 1);
    assert_eq!(storage.allocate_entity(), 2);
    storage.delete(0);
    storage.delete(2);
    assert!(storage.is_deleted(2));
    assert_eq!(storage.entity_count(), 1);
    assert_eq!(storage.allocate_entity(), 2);
    assert_eq!(storage.allocate_entity(), 0);
    assert_eq!(storage.allocate_entity(), 3);
    assert!(!storage.is_deleted(0));
}

#[test]
fn command_queue_predicts_deleted_then_fresh_ids() {
    let mut queue = CommandQueue::new(10, &[4, 7]);
    assert_eq!(queue.compute_next_entity_id(), 4);
    assert_eq!(queue.compute_next_entity_id(), 7);
    assert_eq!(queue.compute_next_entity_id(), 10);
    assert_eq!(queue.compute_next_entity_id(), 11);
}

#[test]
fn command_queue_matches_storage_for_a_palindrome() {
    let mut storage = Storage::new();
    for _ in 0..6 {
        storage.allocate_entity();
    }
    storage.delete(3);
    storage.delete(5);
    storage.delete(3);
    let mut queue = CommandQueue::new(storage.next_entity_id(), storage.deleted_entities());
    for _ in 0..5 {
        assert_eq!(queue.compute_next_entity_id(), storage.allocate_entity());
    }
}

struct Startup;
struct Update;

#[test]
fn schedule_runs_stages_in_first_registration_order() {
    let mut schedule = tubereng::ecs::system::Schedule::new();
    schedule.add_system(&Update, "move");
    schedule.add_system(&Startup, "spawn");
    schedule.register_system_for_stage::<Update>("draw");
    let order: Vec<&str> = schedule.systems_in_run_order().into_iter().copied().collect();
    assert_eq!(order, vec!["move", "draw", "spawn"]);
    let mut keyed = tubereng::ecs::system::Schedule::new();
    keyed.register_system_for_key(7, 'a');
    keyed.register_system_for_key(3, 'b');
    keyed.register_system_for_key(7, 'c');
    let order: Vec<char> = keyed.systems_in_run_order().into_iter().copied().collect();
    assert_eq!(order, vec!['a', 'c', 'b']);
}

#[test]
fn query_cursor_skips_deleted_and_unfetched_entities() {
    let mut cursor = tubereng::ecs::query::QueryCursor::new(5);
    let fetch = |entity: usize| if entity == 1 { None } else { Some(entity * 10) };
    let deleted = [2usize];
    let mut found = vec![];
    while let Some((id, item)) = cursor.next_with_id(&deleted, &fetch) {
        found.push((id, item));
    }
    assert_eq!(found, vec![(0, 0), (3, 30), (4, 40), (5, 50)]);
    assert!(tubereng::ecs::query::slice_contains(&deleted, 2));
}

#[test]
fn successors_of_a_tree_come_once_each() {
    let mut relationship = Relationship::default();
    relationship.add(4, 3);
    relationship.add(3, 2);
    relationship.add(2, 1);
    relationship.add(2, 5);
    relationship.add(5, 6);
    relationship.add(1, 0);
    let mut successors = relationship.successors(4);
    assert_eq!(successors.len(), 6);
    successors.sort();
    assert_eq!(successors, vec![0, 1, 2, 3, 5, 6]);
    assert!(!relationship.ancestors(0).contains(&0));
    assert_eq!(relationship.ancestors(0).len(), 4);
}

#[test]
fn successors_reached_along_two_chains_come_twice() {
    let mut relationship = Relationship::default();
    relationship.add(1, 2);
    relationship.add(1, 3);
    relationship.add(2, 4);
    relationship.add(3, 4);
    let mut successors = relationship.successors(1);
    successors.sort();
    assert_eq!(successors, vec![2, 3, 4, 4]);
}
