use crate::type_key::type_key;
use vstd::prelude::*;

verus! {

/// Identifies a kind of relationship between entities: the key of the kind's type.
#[derive(Clone, Copy, Debug, PartialEq, Eq, Hash)]
pub struct RelationshipId(pub u64);

/// A kind of relationship between entities, such as [`ChildOf`]. Every type is one, and is
/// identified by its type.
pub trait Relationship: 'static {
    /// The identifier of the kind: the key of its type.
    fn relationship_id() -> RelationshipId {
        RelationshipId(type_key::<Self>())
    }
}

impl<T: 'static> Relationship for T {

}

/// The `ChildOf` relationship
pub struct ChildOf;

} // verus!

use crate::ecs::relationship::{RelationshipGraphs, mirrored, with_pair, graphs_of};
use crate::graph::{adjacency, links};
use std::collections::{HashMap, HashSet};

verus! {

broadcast use vstd::std_specs::hash::group_hash_axioms;

fn insert_link(m: &mut HashMap<usize, HashSet<usize>>, from: usize, to: usize)
    ensures
        adjacency(final(m)@) == crate::ecs::relationship::with_link(adjacency(old(m)@), from, to),
{
    let mut set = match m.remove(&from) {
        Some(s) => s,
        None => HashSet::new(),
    };
    set.insert(to);
    m.insert(from, set);
    proof {
        assert(adjacency(m@) =~= crate::ecs::relationship::with_link(adjacency(old(m)@), from, to));
    }
}

/// The relationships of one kind: the sources of each target and the targets of each
/// source.
pub struct RelationshipData {
    sources_by_target: HashMap<usize, HashSet<usize>>,
    targets_by_source: HashMap<usize, HashSet<usize>>,
}

impl View for RelationshipData {
    type V = RelationshipGraphs;

    closed spec fn view(&self) -> RelationshipGraphs {
        (adjacency(self.sources_by_target@), adjacency(self.targets_by_source@))
    }
}

impl RelationshipData {
    /// Sources and targets mirror each other, and an entity listed with targets has one.
    pub closed spec fn wf(&self) -> bool {
        &&& mirrored(self@)
        &&& forall|s: usize| #[trigger] self@.1.contains_key(s) ==> exists|t: usize| links(self@.1, s, t)
    }

    pub fn new() -> (r: Self)
        ensures
            r@.0 == Map::<usize, Set<usize>>::empty(),
            r@.1 == Map::<usize, Set<usize>>::empty(),
            r.wf(),
    {
        let r = RelationshipData { sources_by_target: HashMap::new(), targets_by_source: HashMap::new() };
        proof {
            assert(r@.0 =~= Map::<usize, Set<usize>>::empty());
            assert(r@.1 =~= Map::<usize, Set<usize>>::empty());
        }
        r
    }

    /// Whether `source` was recorded as relating to `target`.
    pub fn has_source(&self, target: usize, source: usize) -> (r: bool)
        ensures
            r == links(self@.0, target, source),
    {
        let Some(sources) = self.sources_by_target.get(&target) else {
            return false;
        };
        sources.contains(&source)
    }

    /// Records that `source` relates to `target`.
    pub fn insert_source(&mut self, target: usize, source: usize)
        requires
            old(self).wf(),
        ensures
            final(self).wf(),
            final(self)@ == with_pair(old(self)@, source, target),
    {
        insert_link(&mut self.sources_by_target, target, source);
        insert_link(&mut self.targets_by_source, source, target);
        proof {
            let v = self@;
            let o = old(self)@;
            assert forall|t: usize, s: usize| #[trigger] links(v.0, t, s) <==> #[trigger] links(v.1, s, t) by {
                assert(links(o.0, t, s) <==> links(o.1, s, t));
            }
            assert forall|s: usize| #[trigger] v.1.contains_key(s) implies exists|t: usize| links(v.1, s, t) by {
                if s == source {
                    assert(links(v.1, s, target));
                } else {
                    assert(o.1.contains_key(s));
                    let t = choose|t: usize| links(o.1, s, t);
                    assert(links(v.1, s, t));
                }
            }
        }
    }
}

impl Default for RelationshipData {
    fn default() -> (r: Self)
        ensures
            r@.0 == Map::<usize, Set<usize>>::empty(),
            r@.1 == Map::<usize, Set<usize>>::empty(),
            r.wf(),
    {
        Self::new()
    }
}

/// The relationships of every kind, indexed by kind.
pub struct RelationshipStore {
    relationships: HashMap<u64, RelationshipData>,
}

impl View for RelationshipStore {
    type V = Map<u64, RelationshipGraphs>;

    closed spec fn view(&self) -> Map<u64, RelationshipGraphs> {
        self.relationships@.map_values(|r: RelationshipData| r@)
    }
}

impl RelationshipStore {
    /// Every stored relationship is well formed.
    pub closed spec fn wf(&self) -> bool {
        forall|id: u64| #[trigger] self.relationships@.contains_key(id) ==> self.relationships@[id].wf()
    }

    pub fn new() -> (r: Self)
        ensures
            r@ == Map::<u64, RelationshipGraphs>::empty(),
            r.wf(),
    {
        let r = RelationshipStore { relationships: HashMap::new() };
        proof {
            assert(r@ =~= Map::<u64, RelationshipGraphs>::empty());
        }
        r
    }

    /// Records that `source` relates to `target` through the relationship `relationship_id`.
    pub fn insert(&mut self, relationship_id: RelationshipId, source: usize, target: usize)
        requires
            old(self).wf(),
        ensures
            final(self).wf(),
            final(self)@ == old(self)@.insert(
                relationship_id.0,
                with_pair(graphs_of(old(self)@, relationship_id.0), source, target),
            ),
    {
        let id = relationship_id.0;
        let mut data = match self.relationships.remove(&id) {
            Some(r) => r,
            None => RelationshipData::new(),
        };
        proof {
            assert(data@ == graphs_of(old(self)@, id));
        }
        data.insert_source(target, source);
        self.relationships.insert(id, data);
        proof {
            assert(self@ =~= old(self)@.insert(id, with_pair(graphs_of(old(self)@, id), source, target)));
        }
    }

    /// Whether `source` relates to `target` through the relationship `relationship_id`.
    pub fn has(&self, relationship_id: RelationshipId, source: usize, target: usize) -> (r: bool)
        ensures
            r == links(graphs_of(self@, relationship_id.0).0, target, source),
    {
        let Some(relationship) = self.relationships.get(&relationship_id.0) else {
            return false;
        };
        relationship.has_source(target, source)
    }

    /// Every entity that relates to some entity through the relationship `relationship_id`.
    pub fn all_sources_with(&self, relationship_id: RelationshipId) -> (r: HashSet<usize>)
        ensures
            r@ == graphs_of(self@, relationship_id.0).1.dom(),
    {
        let id = relationship_id.0;
        let Some(relationship) = self.relationships.get(&id) else {
            let r = HashSet::new();
            proof {
                assert(r@ =~= graphs_of(self@, id).1.dom());
            }
            return r;
        };
        let mut sources: HashSet<usize> = HashSet::new();
        let ghost keys = vstd::std_specs::iter::IteratorSpec::remaining(&vstd::std_specs::hash::spec_keys_iter(&relationship.targets_by_source));
        for k in it: relationship.targets_by_source.keys()
            invariant
                it.seq() == keys,
                keys.unref().to_set() == relationship.targets_by_source@.dom(),
                sources@ == keys.unref().take(it.index() as int).to_set(),
        {
            proof {
                assert(keys.unref().take(it.index() + 1) =~= keys.unref().take(it.index() as int).push(*k));
                keys.unref().take(it.index() as int).lemma_push_to_set_commute(*k);
            }
            sources.insert(*k);
            proof {
                assert(sources@ =~= keys.unref().take(it.index() + 1).to_set());
            }
        }
        proof {
            assert(keys.unref().take(keys.len() as int) =~= keys.unref());
            assert(graphs_of(self@, id).1.dom() =~= relationship.targets_by_source@.dom());
        }
        sources
    }

    /// Every entity that relates to some entity through the relationship kind `R`: what
    /// `all_sources_with` gives for `R`'s identifier.
    pub fn all_sources_of<R: Relationship>(&self) -> (r: HashSet<usize>)
        ensures
            exists|id: RelationshipId| #[trigger] graphs_of(self@, id.0).1.dom() == r@,
    {
        let id = R::relationship_id();
        let r = self.all_sources_with(id);
        assert(graphs_of(self@, id.0).1.dom() == r@);
        r
    }

    /// The entities that relate to `target` through the relationship `relationship_id`.
    pub fn sources_with(&self, relationship_id: RelationshipId, target: usize) -> (r: Option<&HashSet<usize>>)
        ensures
            sources_result(self@, relationship_id.0, target, r),
    {
        let relationship = self.relationships.get(&relationship_id.0)?;
        relationship.sources_by_target.get(&target)
    }

    /// The entities that relate to `target` through the relationship kind `R`: what
    /// `sources_with` gives for `R`'s identifier.
    pub fn sources_of<R: Relationship>(&self, target: usize) -> (r: Option<&HashSet<usize>>)
        ensures
            exists|id: RelationshipId| #[trigger] sources_result(self@, id.0, target, r),
    {
        let id = R::relationship_id();
        let r = self.sources_with(id, target);
        assert(sources_result(self@, id.0, target, r));
        r
    }

    /// In a well-formed store, the targets of each kind mirror its sources: `source` relates
    /// to `target` in one map exactly when it does in the other.
    pub proof fn lemma_mirrored(&self, relationship_id: RelationshipId)
        requires
            self.wf(),
        ensures
            mirrored(graphs_of(self@, relationship_id.0)),
            forall|s: usize| #[trigger] graphs_of(self@, relationship_id.0).1.contains_key(s) ==> exists|t: usize|
                links(graphs_of(self@, relationship_id.0).1, s, t),
    {
        let id = relationship_id.0;
        if self.relationships@.contains_key(id) {
            assert(self.relationships@[id].wf());
            assert(graphs_of(self@, id) == self.relationships@[id]@);
        } else {
            assert forall|t: usize, s: usize| #[trigger] links(graphs_of(self@, id).0, t, s) <==> #[trigger] links(
                graphs_of(self@, id).1,
                s,
                t,
            ) by {}
        }
    }

    /// The entities `source` relates to through the relationship `relationship_id`, each once:
    /// those `t` for which `has(relationship_id, source, t)` holds. There must be one, unless
    /// the relationship has no pair at all.
    pub fn targets_with(&self, relationship_id: RelationshipId, source: usize) -> (r: Vec<usize>)
        requires
            self.wf(),
            targets_defined(self@, relationship_id.0, source),
        ensures
            r@.no_duplicates(),
            forall|t: usize| #[trigger] r@.contains(t) <==> links(graphs_of(self@, relationship_id.0).0, t, source),
    {
        let Some(relationship) = self.relationships.get(&relationship_id.0) else {
            let r = Vec::new();
            proof {
                assert forall|t: usize| #[trigger] r@.contains(t) <==> links(graphs_of(self@, relationship_id.0).0, t, source) by {
                    assert(graphs_of(self@, relationship_id.0).0 == Map::<usize, Set<usize>>::empty());
                }
            }
            return r;
        };
        proof {
            self.lemma_mirrored(relationship_id);
            let g = graphs_of(self@, relationship_id.0);
            assert(self@.contains_key(relationship_id.0));
            let t0 = choose|t: usize| #[trigger] links(g.0, t, source);
            assert(links(g.0, t0, source));
            assert(links(g.1, source, t0));
            assert(relationship.targets_by_source@.contains_key(source));
        }
        let targets = relationship.targets_by_source.get(&source).unwrap();
        let mut r: Vec<usize> = Vec::new();
        let ghost keys = vstd::std_specs::iter::IteratorSpec::remaining(&vstd::std_specs::hash::spec_hash_keys_iter(targets));
        for t in it: targets.iter()
            invariant
                it.seq() == keys,
                keys.unref().to_set() == targets@,
                keys.unref().no_duplicates(),
                r@ == keys.unref().take(it.index() as int),
        {
            r.push(*t);
            proof {
                assert(r@ =~= keys.unref().take(it.index() + 1));
            }
        }
        proof {
            assert(keys.unref().take(keys.len() as int) =~= keys.unref());
            self.lemma_mirrored(relationship_id);
            let g = graphs_of(self@, relationship_id.0);
            assert(g.1[source] == targets@);
            assert forall|t: usize| #[trigger] r@.contains(t) <==> links(g.0, t, source) by {
                assert(r@.contains(t) <==> r@.to_set().contains(t));
                assert(links(g.0, t, source) <==> links(g.1, source, t));
            }
        }
        r
    }

    /// The entities `source` relates to through the relationship kind `R`, each once, as
    /// `targets_with` gives them for `R`'s identifier; `None` where that kind has pairs but
    /// none from `source`.
    pub fn targets_of<R: Relationship>(&self, source: usize) -> (r: Option<Vec<usize>>)
        requires
            self.wf(),
        ensures
            exists|id: RelationshipId| #[trigger] targets_result(self@, id.0, source, r),
    {
        let id = R::relationship_id();
        if self.relationships.contains_key(&id.0) {
            let relationship = self.relationships.get(&id.0).unwrap();
            if !relationship.targets_by_source.contains_key(&source) {
                proof {
                    self.lemma_mirrored(id);
                    let g = graphs_of(self@, id.0);
                    assert(self@.contains_key(id.0));
                    assert(!g.1.contains_key(source));
                    assert forall|t: usize| !links(g.0, t, source) by {
                        assert(links(g.0, t, source) <==> links(g.1, source, t));
                    }
                    assert(targets_result(self@, id.0, source, None));
                }
                return None;
            }
            proof {
                self.lemma_mirrored(id);
                let g = graphs_of(self@, id.0);
                assert(self@.contains_key(id.0));
                assert(g.1.contains_key(source));
                let t0 = choose|t: usize| links(g.1, source, t);
                assert(links(g.1, source, t0));
                assert(links(g.0, t0, source));
                assert(targets_defined(self@, id.0, source));
            }
        }
        let r = self.targets_with(id, source);
        proof {
            assert(targets_result(self@, id.0, source, Some(r)));
        }
        Some(r)
    }
}

impl Default for RelationshipStore {
    fn default() -> (r: Self)
        ensures
            r@ == Map::<u64, RelationshipGraphs>::empty(),
            r.wf(),
    {
        Self::new()
    }
}

/// What `sources_with` gives for the relationship `id`.
pub open spec fn sources_result(store: Map<u64, RelationshipGraphs>, id: u64, target: usize, r: Option<&HashSet<usize>>) -> bool {
    match r {
        Some(set) => links_defined(graphs_of(store, id).0, target) && set@ == graphs_of(store, id).0[target],
        None => !links_defined(graphs_of(store, id).0, target),
    }
}

/// The relationship `id` has no pair at all, or one from `source`.
pub open spec fn targets_defined(store: Map<u64, RelationshipGraphs>, id: u64, source: usize) -> bool {
    !store.contains_key(id) || exists|t: usize| #[trigger] links(graphs_of(store, id).0, t, source)
}

/// What `targets_of` gives for the relationship `id`: `None` where it has pairs but none from
/// `source`, else each entity that `source` relates to, once.
pub open spec fn targets_result(store: Map<u64, RelationshipGraphs>, id: u64, source: usize, r: Option<Vec<usize>>) -> bool {
    match r {
        None => !targets_defined(store, id, source),
        Some(v) => targets_defined(store, id, source) && v@.no_duplicates()
            && forall|t: usize| #[trigger] v@.contains(t) <==> links(graphs_of(store, id).0, t, source),
    }
}

/// `g` has an entry for `key`.
pub open spec fn links_defined(g: Map<usize, Set<usize>>, key: usize) -> bool {
    g.contains_key(key)
}

} // verus!
