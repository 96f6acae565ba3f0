use crate::ecs::relationship::{
    graphs_of, relationship_result, with_pair, Relationship, RelationshipGraphs, Relationships,
};
use crate::type_key::type_key;
use vstd::prelude::*;

verus! {

/// Entity ids are plain indices.
pub type EntityId = usize;

/// The entity bookkeeping of a world: the next fresh entity id, the ids of deleted
/// entities waiting to be reused (the last deleted is reused first), and the
/// relationships between entities.
pub struct Storage {
    next_entity_id: EntityId,
    deleted_entities: Vec<EntityId>,
    relationships: Relationships,
}

/// The id handed out by an allocation from a storage with fresh id `next` and deleted ids
/// `deleted`, and the fresh id and deleted ids afterwards.
pub open spec fn allocation_step(next: nat, deleted: Seq<EntityId>) -> (EntityId, nat, Seq<EntityId>) {
    if deleted.len() > 0 {
        (deleted.last(), next, deleted.drop_last())
    } else {
        (next as EntityId, next + 1, deleted)
    }
}

/// The id handed out by the `k`-th allocation (counting from 0) from that state.
pub open spec fn nth_allocated_id(next: nat, deleted: Seq<EntityId>, k: nat) -> EntityId
    decreases k,
{
    let (id, next2, deleted2) = allocation_step(next, deleted);
    if k == 0 {
        id
    } else {
        nth_allocated_id(next2, deleted2, (k - 1) as nat)
    }
}

impl Storage {
    /// Every relationship is well formed.
    pub closed spec fn wf(&self) -> bool {
        self.relationships.wf()
    }

    /// The next fresh entity id.
    pub closed spec fn spec_next_entity_id(&self) -> nat {
        self.next_entity_id as nat
    }

    /// The ids of deleted entities, in the order they were deleted.
    pub closed spec fn spec_deleted(&self) -> Seq<EntityId> {
        self.deleted_entities@
    }

    /// The relationships, by kind.
    pub closed spec fn spec_relationships(&self) -> Map<u64, RelationshipGraphs> {
        self.relationships@
    }

    pub fn new() -> (s: Self)
        ensures
            s.wf(),
            s.spec_next_entity_id() == 0,
            s.spec_deleted() == Seq::<EntityId>::empty(),
            s.spec_relationships() == Map::<u64, RelationshipGraphs>::empty(),
    {
        Storage { next_entity_id: 0, deleted_entities: Vec::new(), relationships: Relationships::new() }
    }

    /// The next fresh entity id.
    pub fn next_entity_id(&self) -> (r: EntityId)
        ensures
            r == self.spec_next_entity_id(),
    {
        self.next_entity_id
    }

    /// The ids of deleted entities.
    pub fn deleted_entities(&self) -> (r: &[EntityId])
        ensures
            r@ == self.spec_deleted(),
    {
        self.deleted_entities.as_slice()
    }

    /// Number of live entities: allocated ids minus deleted ones.
    pub fn entity_count(&self) -> (r: usize)
        requires
            self.spec_deleted().len() <= self.spec_next_entity_id(),
        ensures
            r == self.spec_next_entity_id() - self.spec_deleted().len(),
    {
        self.next_entity_id - self.deleted_entities.len()
    }

    /// Whether `entity_id` was deleted and not reused since.
    pub fn is_deleted(&self, entity_id: EntityId) -> (r: bool)
        ensures
            r == self.spec_deleted().contains(entity_id),
    {
        let mut i: usize = 0;
        while i < self.deleted_entities.len()
            invariant
                i <= self.deleted_entities@.len(),
                forall|k: int| 0 <= k < i ==> self.deleted_entities@[k] != entity_id,
            decreases self.deleted_entities@.len() - i,
        {
            if self.deleted_entities[i] == entity_id {
                return true;
            }
            i = i + 1;
        }
        false
    }

    /// Hands out an entity id: the most recently deleted one if any, else a fresh one.
    pub fn allocate_entity(&mut self) -> (id: EntityId)
        requires
            old(self).spec_deleted().len() > 0 || old(self).spec_next_entity_id() < usize::MAX,
        ensures
            (id, final(self).spec_next_entity_id(), final(self).spec_deleted())
                == allocation_step(old(self).spec_next_entity_id(), old(self).spec_deleted()),
            final(self).spec_relationships() == old(self).spec_relationships(),
            final(self).wf() == old(self).wf(),
    {
        if let Some(entity_id) = self.deleted_entities.pop() {
            return entity_id;
        }
        let entity_id = self.next_entity_id;
        self.next_entity_id += 1;
        entity_id
    }

    /// Records the deletion of `entity_id`, whose id becomes reusable.
    pub fn delete(&mut self, entity_id: EntityId)
        ensures
            final(self).spec_next_entity_id() == old(self).spec_next_entity_id(),
            final(self).spec_deleted() == old(self).spec_deleted().push(entity_id),
            final(self).spec_relationships() == old(self).spec_relationships(),
            final(self).wf() == old(self).wf(),
    {
        self.deleted_entities.push(entity_id);
    }

    /// Records that `source` relates to `target` through the relationship kind `R`, under
    /// the key of `R`'s type.
    pub fn insert_relationship<R: 'static>(&mut self, source: EntityId, target: EntityId)
        requires
            old(self).wf(),
        ensures
            final(self).wf(),
            exists|key: u64| #[trigger] old(self).spec_relationships().insert(
                key,
                with_pair(graphs_of(old(self).spec_relationships(), key), source, target),
            ) == final(self).spec_relationships(),
            final(self).spec_next_entity_id() == old(self).spec_next_entity_id(),
            final(self).spec_deleted() == old(self).spec_deleted(),
    {
        let key = type_key::<R>();
        self.relationships.insert_keyed(key, source, target);
        assert(old(self).spec_relationships().insert(
            key,
            with_pair(graphs_of(old(self).spec_relationships(), key), source, target),
        ) == self.spec_relationships());
    }

    /// The relationships of kind `R`, if any was recorded under the key of `R`'s type.
    pub fn relationship<R: 'static>(&self) -> (r: Option<&Relationship>)
        requires
            self.wf(),
        ensures
            exists|key: u64| #[trigger] relationship_result(self.spec_relationships(), key, r),
    {
        let key = type_key::<R>();
        let r = self.relationships.get_keyed(key);
        assert(relationship_result(self.spec_relationships(), key, r));
        r
    }
}

} // verus!
