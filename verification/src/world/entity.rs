use crate::world::relationship::Relationship;
use std::collections::{HashMap, HashSet};
use vstd::prelude::*;

verus! {

broadcast use vstd::std_specs::hash::group_hash_axioms;

pub type EntityId = usize;

/// Hands out entity ids in increasing order, from 0.
pub struct EntityStore {
    next_entity_id: EntityId,
}

impl EntityStore {
    pub closed spec fn spec_entity_count(&self) -> nat {
        self.next_entity_id as nat
    }

    pub fn new() -> (s: Self)
        ensures
            s.spec_entity_count() == 0,
    {
        EntityStore { next_entity_id: 0 }
    }

    /// Number of entities allocated so far.
    pub fn entity_count(&self) -> (r: usize)
        ensures
            r == self.spec_entity_count(),
    {
        self.next_entity_id
    }

    /// The ids of every allocated entity.
    pub fn entity_ids(&self) -> (r: HashSet<EntityId>)
        ensures
            r@ == Set::new(|id: EntityId| id < self.spec_entity_count()),
    {
        let mut ids: HashSet<EntityId> = HashSet::new();
        let mut i: usize = 0;
        while i < self.next_entity_id
            invariant
                i <= self.next_entity_id,
                ids@ == Set::new(|id: EntityId| id < i),
            decreases self.next_entity_id - i,
        {
            ids.insert(i);
            proof {
                assert(ids@ =~= Set::new(|id: EntityId| id < i + 1));
            }
            i = i + 1;
        }
        ids
    }

    /// Hands out the next entity id.
    pub fn allocate_entity(&mut self) -> (id: EntityId)
        requires
            old(self).spec_entity_count() < usize::MAX,
        ensures
            id == old(self).spec_entity_count(),
            final(self).spec_entity_count() == old(self).spec_entity_count() + 1,
    {
        let id = self.next_entity_id;
        self.next_entity_id += 1;
        id
    }

    /// Whether a component may be written for `entity_id`: only allocated entities hold
    /// components.
    pub fn is_allocated(&self, entity_id: EntityId) -> (r: bool)
        ensures
            r == (entity_id < self.spec_entity_count()),
    {
        entity_id < self.next_entity_id
    }
}

impl Default for EntityStore {
    fn default() -> (s: Self)
        ensures
            s.spec_entity_count() == 0,
    {
        Self::new()
    }
}

/// A group of entity definitions with relationships between them, and a root entity.
pub struct EntityBundle<E> {
    entities: Vec<E>,
    relationships: Vec<HashMap<u64, Vec<usize>>>,
    root: usize,
}

/// The targets recorded for kind `id` in one entity's relationship table.
pub open spec fn targets_in(m: Map<u64, Seq<usize>>, id: u64) -> Seq<usize> {
    if m.contains_key(id) {
        m[id]
    } else {
        Seq::empty()
    }
}

/// The relationship tables after recording that the entity at `source` relates to `target`
/// through the relationship `id`.
pub open spec fn with_target(tables: Seq<Map<u64, Seq<usize>>>, source: int, id: u64, target: usize) -> Seq<
    Map<u64, Seq<usize>>,
> {
    tables.update(source, tables[source].insert(id, targets_in(tables[source], id).push(target)))
}

impl<E> EntityBundle<E> {
    pub closed spec fn spec_entities(&self) -> Seq<E> {
        self.entities@
    }

    /// For each entity of the bundle, its relationship targets by kind.
    pub closed spec fn spec_relationships(&self) -> Seq<Map<u64, Seq<usize>>> {
        self.relationships@.map_values(|m: HashMap<u64, Vec<usize>>| m@.map_values(|v: Vec<usize>| v@))
    }

    pub closed spec fn spec_root(&self) -> usize {
        self.root
    }

    /// One relationship table per entity.
    pub closed spec fn wf(&self) -> bool {
        self.entities@.len() == self.relationships@.len()
    }

    pub fn new() -> (b: Self)
        ensures
            b.wf(),
            b.spec_entities() == Seq::<E>::empty(),
            b.spec_relationships() == Seq::<Map<u64, Seq<usize>>>::empty(),
            b.spec_root() == 0,
    {
        let b = EntityBundle { entities: Vec::new(), relationships: Vec::new(), root: 0 };
        proof {
            assert(b.spec_relationships() =~= Seq::<Map<u64, Seq<usize>>>::empty());
        }
        b
    }

    /// Adds an entity and returns its index in the bundle.
    pub fn add_entity(&mut self, entity_definition: E) -> (index: usize)
        requires
            old(self).wf(),
        ensures
            final(self).wf(),
            index == old(self).spec_entities().len(),
            final(self).spec_entities() == old(self).spec_entities().push(entity_definition),
            final(self).spec_relationships() == old(self).spec_relationships().push(Map::empty()),
            final(self).spec_root() == old(self).spec_root(),
    {
        self.entities.push(entity_definition);
        self.relationships.push(HashMap::new());
        proof {
            assert(self.spec_relationships()[self.relationships@.len() - 1] =~= Map::<u64, Seq<usize>>::empty());
            assert(self.spec_relationships() =~= old(self).spec_relationships().push(Map::empty()));
        }
        self.entities.len() - 1
    }

    /// Records that the entity at `source` relates to the entity at `target` through the
    /// relationship kind `R`.
    pub fn add_relationship<R: Relationship>(&mut self, source: usize, target: usize)
        requires
            old(self).wf(),
            source < old(self).spec_entities().len(),
        ensures
            final(self).wf(),
            final(self).spec_entities() == old(self).spec_entities(),
            final(self).spec_root() == old(self).spec_root(),
            exists|id: u64| #[trigger] with_target(old(self).spec_relationships(), source as int, id, target)
                == final(self).spec_relationships(),
    {
        let id = R::relationship_id().0;
        let mut table: HashMap<u64, Vec<usize>> = HashMap::new();
        std::mem::swap(&mut table, &mut self.relationships[source]);
        let mut targets = match table.remove(&id) {
            Some(v) => v,
            None => Vec::new(),
        };
        proof {
            assert(targets@ == targets_in(old(self).spec_relationships()[source as int], id));
        }
        targets.push(target);
        table.insert(id, targets);
        self.relationships.set(source, table);
        proof {
            let expected = old(self).spec_relationships().update(
                source as int,
                old(self).spec_relationships()[source as int].insert(
                    id,
                    targets_in(old(self).spec_relationships()[source as int], id).push(target),
                ),
            );
            assert(self.spec_relationships()[source as int] =~= expected[source as int]);
            assert(self.spec_relationships() =~= expected);
            assert(with_target(old(self).spec_relationships(), source as int, id, target) == self.spec_relationships());
        }
    }

    /// Makes the entity at `root` the root of the bundle.
    pub fn set_root(&mut self, root: usize)
        ensures
            final(self).spec_root() == root,
            final(self).spec_entities() == old(self).spec_entities(),
            final(self).spec_relationships() == old(self).spec_relationships(),
            final(self).wf() == old(self).wf(),
    {
        self.root = root;
    }

    /// The index of the root entity.
    pub fn root(&self) -> (r: usize)
        ensures
            r == self.spec_root(),
    {
        self.root
    }
}

} // verus!
