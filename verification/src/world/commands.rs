use crate::world::entity::EntityId;
use crate::world::relationship::{Relationship, RelationshipId};
use core::marker::PhantomData;
use vstd::prelude::*;

verus! {

/// Commands recorded by systems, applied later; inserting an entity reports the id it will
/// receive.
pub struct CommandBuffer<C> {
    next_entity_id: usize,
    commands: Vec<C>,
}

impl<C> CommandBuffer<C> {
    pub closed spec fn spec_next_entity_id(&self) -> nat {
        self.next_entity_id as nat
    }

    pub closed spec fn spec_commands(&self) -> Seq<C> {
        self.commands@
    }

    pub fn new(next_entity_id: usize) -> (b: Self)
        ensures
            b.spec_next_entity_id() == next_entity_id,
            b.spec_commands() == Seq::<C>::empty(),
    {
        CommandBuffer { next_entity_id, commands: Vec::new() }
    }

    /// Forgets every recorded command.
    pub fn clear(&mut self)
        ensures
            final(self).spec_commands() == Seq::<C>::empty(),
            final(self).spec_next_entity_id() == old(self).spec_next_entity_id(),
    {
        self.commands.clear();
    }

    /// Records a command that inserts an entity, and returns the id that entity will
    /// receive.
    pub fn insert(&mut self, command: C) -> (id: EntityId)
        requires
            old(self).spec_next_entity_id() < usize::MAX,
        ensures
            id == old(self).spec_next_entity_id(),
            final(self).spec_next_entity_id() == old(self).spec_next_entity_id() + 1,
            final(self).spec_commands() == old(self).spec_commands().push(command),
    {
        self.commands.push(command);
        let id = self.next_entity_id;
        self.next_entity_id = id + 1;
        id
    }

    /// Records any other command.
    pub fn push(&mut self, command: C)
        ensures
            final(self).spec_commands() == old(self).spec_commands().push(command),
            final(self).spec_next_entity_id() == old(self).spec_next_entity_id(),
    {
        self.commands.push(command);
    }

    /// Takes every recorded command, in recording order.
    pub fn flush_commands(&mut self) -> (r: Vec<C>)
        ensures
            r@ == old(self).spec_commands(),
            final(self).spec_commands() == Seq::<C>::empty(),
            final(self).spec_next_entity_id() == old(self).spec_next_entity_id(),
    {
        let mut taken: Vec<C> = Vec::new();
        std::mem::swap(&mut taken, &mut self.commands);
        taken
    }

    /// Number of recorded commands.
    pub fn len(&self) -> (r: usize)
        ensures
            r == self.spec_commands().len(),
    {
        self.commands.len()
    }

    /// Whether no command is recorded.
    pub fn is_empty(&self) -> (r: bool)
        ensures
            r == (self.spec_commands().len() == 0),
    {
        self.len() == 0
    }
}

/// Law: the ids a command buffer reports for its inserted entities are the ids an entity
/// store holding `count` entities hands out when those inserts are applied in order: both
/// count up from `count`.
pub proof fn lemma_buffered_ids_match_allocation(count: nat, k: nat)
    ensures
        buffered_id(count, k) == stored_id(count, k),
{
    lemma_stored_id(count, k);
}

/// The id reported for the `k`-th insert (from 0) by a buffer built with `count`.
pub open spec fn buffered_id(count: nat, k: nat) -> nat {
    count + k
}

/// The id an entity store holding `count` entities hands out at its `k`-th allocation.
pub open spec fn stored_id(count: nat, k: nat) -> nat
    decreases k,
{
    if k == 0 {
        count
    } else {
        stored_id(count + 1, (k - 1) as nat)
    }
}

proof fn lemma_stored_id(count: nat, k: nat)
    ensures
        stored_id(count, k) == count + k,
    decreases k,
{
    if k > 0 {
        lemma_stored_id(count + 1, (k - 1) as nat);
    }
}

/// Deferred insertion of an entity.
pub struct InsertEntity<ED> {
    entity: Option<ED>,
}

impl<ED> InsertEntity<ED> {
    pub fn new(entity: ED) -> (r: Self)
        ensures
            r.spec_entity() == Some(entity),
    {
        Self { entity: Some(entity) }
    }

    pub closed spec fn spec_entity(&self) -> Option<ED> {
        self.entity
    }

    /// Takes the entity definition out; a command is applied once.
    pub fn take_entity(&mut self) -> (r: Option<ED>)
        ensures
            r == old(self).spec_entity(),
            final(self).spec_entity() == None::<ED>,
    {
        self.entity.take()
    }
}

/// Deferred insertion of a component on an entity.
pub struct InsertComponent<C> {
    entity_id: EntityId,
    component: Option<C>,
}

impl<C> InsertComponent<C> {
    pub fn new(entity_id: EntityId, component: C) -> (r: Self)
        ensures
            r.spec_entity_id() == entity_id,
            r.spec_component() == Some(component),
    {
        InsertComponent { entity_id, component: Some(component) }
    }

    pub closed spec fn spec_entity_id(&self) -> EntityId {
        self.entity_id
    }

    pub closed spec fn spec_component(&self) -> Option<C> {
        self.component
    }

    pub fn entity_id(&self) -> (r: EntityId)
        ensures
            r == self.spec_entity_id(),
    {
        self.entity_id
    }

    /// Takes the component out; a command is applied once.
    pub fn take_component(&mut self) -> (r: Option<C>)
        ensures
            r == old(self).spec_component(),
            final(self).spec_component() == None::<C>,
            final(self).spec_entity_id() == old(self).spec_entity_id(),
    {
        self.component.take()
    }
}

/// Deferred insertion of a relationship of kind `R`.
pub struct InsertRelationship<R> {
    source: EntityId,
    target: EntityId,
    _marker: PhantomData<R>,
}

impl<R: Relationship> InsertRelationship<R> {
    pub fn new(source: EntityId, target: EntityId) -> (r: Self)
        ensures
            r.spec_source() == source,
            r.spec_target() == target,
    {
        Self { source, target, _marker: PhantomData }
    }

    pub closed spec fn spec_source(&self) -> EntityId {
        self.source
    }

    pub closed spec fn spec_target(&self) -> EntityId {
        self.target
    }

    /// The relationship kind (the key of `R`'s type), source and target to record.
    pub fn relationship(&self) -> (r: (RelationshipId, EntityId, EntityId))
        ensures
            r.1 == self.spec_source(),
            r.2 == self.spec_target(),
    {
        (R::relationship_id(), self.source, self.target)
    }
}

/// Deferred insertion of a resource.
pub struct InsertResource<R> {
    resource: Option<R>,
}

impl<R> InsertResource<R> {
    pub fn new(resource: R) -> (r: Self)
        ensures
            r.spec_resource() == Some(resource),
    {
        Self { resource: Some(resource) }
    }

    pub closed spec fn spec_resource(&self) -> Option<R> {
        self.resource
    }

    /// Takes the resource out; a command is applied once.
    pub fn take_resource(&mut self) -> (r: Option<R>)
        ensures
            r == old(self).spec_resource(),
            final(self).spec_resource() == None::<R>,
    {
        self.resource.take()
    }
}

} // verus!
