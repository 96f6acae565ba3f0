use crate::ecs::storage::{EntityId, nth_allocated_id, allocation_step};
use core::marker::PhantomData;
use vstd::prelude::*;

verus! {

/// The id that a queue built from fresh id `next` and deleted ids `deleted` predicts for
/// its `k`-th inserted entity (counting from 0).
pub open spec fn predicted_id(next: nat, deleted: Seq<EntityId>, k: nat) -> int {
    if k < deleted.len() {
        deleted[k as int] as int
    } else {
        next + k - deleted.len()
    }
}

/// Law: the ids a queue predicts come in this order: the deleted ids as they were given,
/// the first deleted id first, each once, then fresh ids counting up from `next`.
pub proof fn lemma_predictions_in_order(next: nat, deleted: Seq<EntityId>, k: nat)
    ensures
        k < deleted.len() ==> predicted_id(next, deleted, k) == deleted[k as int],
        k >= deleted.len() ==> predicted_id(next, deleted, k) == next + (k - deleted.len()),
        predicted_id(next, deleted, k + 1) == (if k + 1 < deleted.len() {
            deleted[(k + 1) as int] as int
        } else {
            predicted_id(next, deleted, k) + (if k + 1 == deleted.len() {
                next - deleted[k as int]
            } else {
                1
            })
        }),
{
}

/// Law: where the deleted ids are distinct and all below `next`, a queue never predicts one id
/// for two inserts.
pub proof fn lemma_predictions_distinct(next: nat, deleted: Seq<EntityId>, k1: nat, k2: nat)
    requires
        deleted.no_duplicates(),
        forall|i: int| 0 <= i < deleted.len() ==> #[trigger] deleted[i] < next,
        k1 != k2,
    ensures
        predicted_id(next, deleted, k1) != predicted_id(next, deleted, k2),
{
}

/// Predicts the ids that entities inserted through deferred commands will receive.
pub struct CommandQueue {
    allocated_entity_count: usize,
    next_entity_id: usize,
    deleted_entities: Vec<EntityId>,
}

impl CommandQueue {
    pub closed spec fn spec_allocated(&self) -> nat {
        self.allocated_entity_count as nat
    }

    pub closed spec fn spec_next_entity_id(&self) -> nat {
        self.next_entity_id as nat
    }

    pub closed spec fn spec_deleted(&self) -> Seq<EntityId> {
        self.deleted_entities@
    }

    pub fn new(next_entity_id: usize, deleted_entities: &[EntityId]) -> (q: Self)
        ensures
            q.spec_allocated() == 0,
            q.spec_next_entity_id() == next_entity_id,
            q.spec_deleted() == deleted_entities@,
    {
        let mut copy: Vec<EntityId> = Vec::new();
        for i in 0..deleted_entities.len()
            invariant
                copy@ == deleted_entities@.take(i as int),
        {
            copy.push(deleted_entities[i]);
            proof {
                assert(copy@ =~= deleted_entities@.take(i + 1));
            }
        }
        proof {
            assert(copy@ =~= deleted_entities@);
        }
        CommandQueue { allocated_entity_count: 0, next_entity_id, deleted_entities: copy }
    }

    /// The id the next inserted entity will receive: the deleted ids in order, then fresh
    /// ids.
    pub fn compute_next_entity_id(&mut self) -> (id: EntityId)
        requires
            old(self).spec_allocated() < usize::MAX,
            old(self).spec_allocated() >= old(self).spec_deleted().len() ==> old(self).spec_next_entity_id()
                + old(self).spec_allocated() <= usize::MAX,
        ensures
            id == predicted_id(old(self).spec_next_entity_id(), old(self).spec_deleted(), old(self).spec_allocated()),
            final(self).spec_allocated() == old(self).spec_allocated() + 1,
            final(self).spec_next_entity_id() == old(self).spec_next_entity_id(),
            final(self).spec_deleted() == old(self).spec_deleted(),
    {
        let allocated_entity_count = self.allocated_entity_count;
        let id = if allocated_entity_count < self.deleted_entities.len() {
            self.deleted_entities[allocated_entity_count]
        } else {
            self.next_entity_id + allocated_entity_count - self.deleted_entities.len()
        };
        self.allocated_entity_count = allocated_entity_count + 1;
        id
    }
}

proof fn lemma_nth_allocated_fresh(next: nat, deleted: Seq<EntityId>, k: nat)
    requires
        deleted.len() == 0,
        next + k <= usize::MAX,
    ensures
        nth_allocated_id(next, deleted, k) == next + k,
    decreases k,
{
    if k > 0 {
        lemma_nth_allocated_fresh(next + 1, deleted, (k - 1) as nat);
    }
}

proof fn lemma_nth_allocated(next: nat, deleted: Seq<EntityId>, k: nat)
    requires
        next + k <= usize::MAX,
    ensures
        nth_allocated_id(next, deleted, k) == (if k < deleted.len() {
            deleted[deleted.len() - 1 - k] as int
        } else {
            next + k - deleted.len()
        }),
    decreases k,
{
    if deleted.len() == 0 {
        lemma_nth_allocated_fresh(next, deleted, k);
    } else if k > 0 {
        lemma_nth_allocated(next, deleted.drop_last(), (k - 1) as nat);
    }
}

/// Law: the ids that a command queue predicts for its inserted entities are the ids the
/// storage it was built from hands out when those inserts are applied in order, provided
/// the deleted ids read the same forwards and backwards (the queue reuses them from the
/// first deleted, the storage from the last).
pub proof fn lemma_predicted_ids_match_allocation(next: nat, deleted: Seq<EntityId>, k: nat)
    requires
        deleted =~= deleted.reverse(),
        next + k <= usize::MAX,
    ensures
        predicted_id(next, deleted, k) == nth_allocated_id(next, deleted, k),
{
    lemma_nth_allocated(next, deleted, k);
    if k < deleted.len() {
        assert(deleted.reverse()[k as int] == deleted[deleted.len() - 1 - k]);
    }
}

/// Deferred insertion of a component on an entity.
pub struct InsertComponent<C> {
    entity_id: EntityId,
    component: Option<C>,
}

impl<C> InsertComponent<C> {
    pub fn new(entity_id: EntityId, component: C) -> (r: Self)
        ensures
            r.spec_entity_id() == entity_id,
            r.spec_component() == Some(component),
    {
        Self { entity_id, component: Some(component) }
    }

    pub closed spec fn spec_entity_id(&self) -> EntityId {
        self.entity_id
    }

    pub closed spec fn spec_component(&self) -> Option<C> {
        self.component
    }

    pub fn entity_id(&self) -> (r: EntityId)
        ensures
            r == self.spec_entity_id(),
    {
        self.entity_id
    }

    /// Takes the component out; a command is applied once.
    pub fn take_component(&mut self) -> (r: Option<C>)
        ensures
            r == old(self).spec_component(),
            final(self).spec_component() == None::<C>,
            final(self).spec_entity_id() == old(self).spec_entity_id(),
    {
        self.component.take()
    }
}

/// Deferred removal of the component of type `C` of an entity.
pub struct RemoveComponent<C> {
    entity_id: EntityId,
    _marker: PhantomData<C>,
}

impl<C> RemoveComponent<C> {
    pub fn new(entity_id: EntityId) -> (r: Self)
        ensures
            r.spec_entity_id() == entity_id,
    {
        Self { entity_id, _marker: PhantomData }
    }

    pub closed spec fn spec_entity_id(&self) -> EntityId {
        self.entity_id
    }

    pub fn entity_id(&self) -> (r: EntityId)
        ensures
            r == self.spec_entity_id(),
    {
        self.entity_id
    }
}

/// Deferred deletion of an entity.
pub struct DeleteEntity {
    entity_id: EntityId,
}

impl DeleteEntity {
    pub fn new(entity_id: EntityId) -> (r: Self)
        ensures
            r.spec_entity_id() == entity_id,
    {
        Self { entity_id }
    }

    pub closed spec fn spec_entity_id(&self) -> EntityId {
        self.entity_id
    }

    pub fn entity_id(&self) -> (r: EntityId)
        ensures
            r == self.spec_entity_id(),
    {
        self.entity_id
    }
}

/// Deferred insertion of a resource.
pub struct InsertResource<R> {
    resource: Option<R>,
}

impl<R> InsertResource<R> {
    pub fn new(resource: R) -> (r: Self)
        ensures
            r.spec_resource() == Some(resource),
    {
        Self { resource: Some(resource) }
    }

    pub closed spec fn spec_resource(&self) -> Option<R> {
        self.resource
    }

    /// Takes the resource out; a command is applied once.
    pub fn take_resource(&mut self) -> (r: Option<R>)
        ensures
            r == old(self).spec_resource(),
            final(self).spec_resource() == None::<R>,
    {
        self.resource.take()
    }
}

/// Deferred insertion of a relationship of kind `R`.
pub struct InsertRelationship<R> {
    source: EntityId,
    target: EntityId,
    _marker: PhantomData<R>,
}

impl<R> InsertRelationship<R> {
    pub fn new(source: EntityId, target: EntityId) -> (r: Self)
        ensures
            r.spec_source() == source,
            r.spec_target() == target,
    {
        Self { source, target, _marker: PhantomData }
    }

    pub closed spec fn spec_source(&self) -> EntityId {
        self.source
    }

    pub closed spec fn spec_target(&self) -> EntityId {
        self.target
    }

    pub fn source(&self) -> (r: EntityId)
        ensures
            r == self.spec_source(),
    {
        self.source
    }

    pub fn target(&self) -> (r: EntityId)
        ensures
            r == self.spec_target(),
    {
        self.target
    }
}

} // verus!
