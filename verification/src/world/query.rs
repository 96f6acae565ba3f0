use crate::graph::links;
use crate::ecs::relationship::graphs_of;
use crate::world::entity::EntityId;
use crate::world::relationship::{Relationship, RelationshipId, RelationshipStore};
use vstd::prelude::*;

verus! {

/// Keeps the entities that relate to `target_entity` through `relationship_id`.
#[derive(Clone, Copy)]
pub struct RelationshipFilter {
    pub relationship_id: RelationshipId,
    pub target_entity: EntityId,
}

/// Whether `entity` passes every filter of `filters` in the relationships `store`.
pub open spec fn passes_filters(store: Map<u64, crate::ecs::relationship::RelationshipGraphs>, filters: Seq<RelationshipFilter>, entity: EntityId) -> bool {
    forall|i: int| 0 <= i < filters.len() ==> #[trigger] links(graphs_of(store, filters[i].relationship_id.0).0, filters[i].target_entity, entity)
}

/// Whether `entity` passes every filter.
pub fn passes_all(store: &RelationshipStore, filters: &Vec<RelationshipFilter>, entity: EntityId) -> (r: bool)
    ensures
        r == passes_filters(store@, filters@, entity),
{
    let mut i: usize = 0;
    while i < filters.len()
        invariant
            i <= filters@.len(),
            forall|k: int| 0 <= k < i ==> #[trigger] links(graphs_of(store@, filters@[k].relationship_id.0).0, filters@[k].target_entity, entity),
        decreases filters@.len() - i,
    {
        let filter = filters[i];
        if !store.has(filter.relationship_id, entity, filter.target_entity) {
            return false;
        }
        i = i + 1;
    }
    true
}

/// A query over the entities of a store, optionally restricted by relationships.
pub struct Q {
    relationship_filters: Vec<RelationshipFilter>,
}

impl Q {
    pub closed spec fn spec_filters(&self) -> Seq<RelationshipFilter> {
        self.relationship_filters@
    }

    pub fn new() -> (q: Self)
        ensures
            q.spec_filters() == Seq::<RelationshipFilter>::empty(),
    {
        Q { relationship_filters: Vec::new() }
    }

    /// Restricts the query to entities related to `entity_id` through `R`.
    pub fn with_relationship<R: Relationship>(self, entity_id: EntityId) -> (q: Self)
        ensures
            exists|id: RelationshipId| #[trigger] self.spec_filters().push(
                RelationshipFilter { relationship_id: id, target_entity: entity_id },
            ) == q.spec_filters(),
    {
        let id = R::relationship_id();
        let mut filters = self.relationship_filters;
        filters.push(RelationshipFilter { relationship_id: id, target_entity: entity_id });
        let q = Q { relationship_filters: filters };
        assert(self.spec_filters().push(RelationshipFilter { relationship_id: id, target_entity: entity_id }) == q.spec_filters());
        q
    }

    /// Starts iterating from the first entity.
    pub fn iter(self) -> (it: Iter)
        ensures
            it.spec_current() == 0,
            it.spec_filters() == self.spec_filters(),
    {
        Iter { current_index: 0, relationship_filters: self.relationship_filters }
    }
}

/// Every entity from `start` up to, not including, `end` that a query's `next` hands to
/// `fetch` (the entity at `start`, and those after it that pass the filters) got no item.
pub open spec fn rejected<T, F: Fn(EntityId) -> Option<T>>(
    fetch: &F,
    store: Map<u64, crate::ecs::relationship::RelationshipGraphs>,
    filters: Seq<RelationshipFilter>,
    start: nat,
    end: nat,
) -> bool {
    forall|j: EntityId|
        start <= j < end && (j == start || passes_filters(store, filters, j)) ==> #[trigger] fetch.ensures((j,), None::<T>)
}

/// The position of a query.
pub struct Iter {
    current_index: usize,
    relationship_filters: Vec<RelationshipFilter>,
}

impl Iter {
    pub closed spec fn spec_current(&self) -> nat {
        self.current_index as nat
    }

    pub closed spec fn spec_filters(&self) -> Seq<RelationshipFilter> {
        self.relationship_filters@
    }

    /// The next item: the current entity's item if `fetch` yields one, otherwise the item
    /// of the first following entity that passes the filters and for which `fetch` yields
    /// one. The current entity itself is not checked against the filters.
    pub fn next<T, F: Fn(EntityId) -> Option<T>>(
        &mut self,
        entity_count: usize,
        relationship_store: &RelationshipStore,
        fetch: &F,
    ) -> (r: Option<T>)
        requires
            forall|i: EntityId| #[trigger] fetch.requires((i,)),
        ensures
            final(self).spec_filters() == old(self).spec_filters(),
            old(self).spec_current() >= entity_count ==> r is None && final(self).spec_current() == old(self).spec_current(),
            old(self).spec_current() < entity_count ==> match r {
                Some(item) => {
                    let id = final(self).spec_current() - 1;
                    &&& old(self).spec_current() <= id < entity_count
                    &&& fetch.ensures((id as EntityId,), Some(item))
                    &&& (id > old(self).spec_current() ==> passes_filters(relationship_store@, old(self).spec_filters(), id as EntityId))
                    &&& rejected(fetch, relationship_store@, old(self).spec_filters(), old(self).spec_current(), id as nat)
                },
                None => {
                    &&& final(self).spec_current() == entity_count
                    &&& rejected(fetch, relationship_store@, old(self).spec_filters(), old(self).spec_current(), entity_count as nat)
                },
            },
    {
        if self.current_index >= entity_count {
            return None;
        }
        let ghost start = self.current_index;
        let mut result = fetch(self.current_index);
        while result.is_none()
            invariant
                self.relationship_filters@ == old(self).relationship_filters@,
                start == old(self).current_index,
                start <= self.current_index < entity_count,
                forall|i: EntityId| #[trigger] fetch.requires((i,)),
                result is Some ==> fetch.ensures((self.current_index,), result)
                    && (self.current_index > start ==> passes_filters(relationship_store@, self.relationship_filters@, self.current_index)),
                result is Some ==> rejected(fetch, relationship_store@, self.relationship_filters@, start as nat, self.current_index as nat),
                result is None ==> rejected(fetch, relationship_store@, self.relationship_filters@, start as nat, (self.current_index + 1) as nat),
            decreases entity_count - self.current_index,
        {
            self.current_index += 1;
            if self.current_index >= entity_count {
                return None;
            }
            if !passes_all(relationship_store, &self.relationship_filters, self.current_index) {
                continue;
            }
            result = fetch(self.current_index);
        }
        self.current_index += 1;
        result
    }
}

} // verus!
