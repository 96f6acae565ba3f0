use crate::graph::{
    acyclic_from, adjacency, collect_reachable, lemma_acyclic_not_reaching_start, links, reaches,
    tree_from,
};
use crate::type_key::type_key;
use std::collections::{HashMap, HashSet};
use vstd::prelude::*;

verus! {

broadcast use vstd::std_specs::hash::group_hash_axioms;

/// The `ChildOf` relationship
pub struct ChildOf;

/// The entities linked from `key` in `g`, empty when `key` has no entry.
pub open spec fn linked(g: Map<usize, Set<usize>>, key: usize) -> Set<usize> {
    if g.contains_key(key) {
        g[key]
    } else {
        Set::empty()
    }
}

/// `g` with a link from `from` to `to` added.
pub open spec fn with_link(g: Map<usize, Set<usize>>, from: usize, to: usize) -> Map<
    usize,
    Set<usize>,
> {
    g.insert(from, linked(g, from).insert(to))
}

/// Abstract content of a relationship: the sources of each target, and the targets of
/// each source.
pub type RelationshipGraphs = (Map<usize, Set<usize>>, Map<usize, Set<usize>>);

/// The graphs after recording that `source` relates to `target`.
pub open spec fn with_pair(v: RelationshipGraphs, source: usize, target: usize) -> RelationshipGraphs {
    (with_link(v.0, target, source), with_link(v.1, source, target))
}

/// The two maps are mirror images: `s` is a source of `t` exactly when `t` is a target of `s`.
pub open spec fn mirrored(v: RelationshipGraphs) -> bool {
    forall|t: usize, s: usize| #[trigger] links(v.0, t, s) <==> #[trigger] links(v.1, s, t)
}

/// One kind of relationship between entities: for each entity, the entities related
/// to it (its sources) and the entities it relates to (its targets).
pub struct Relationship {
    sources_for_entity: HashMap<usize, HashSet<usize>>,
    targets_for_entity: HashMap<usize, HashSet<usize>>,
}

impl View for Relationship {
    type V = RelationshipGraphs;

    closed spec fn view(&self) -> RelationshipGraphs {
        (adjacency(self.sources_for_entity@), adjacency(self.targets_for_entity@))
    }
}

impl Default for Relationship {
    fn default() -> (r: Self)
        ensures
            r@.0 == Map::<usize, Set<usize>>::empty(),
            r@.1 == Map::<usize, Set<usize>>::empty(),
            r.wf(),
    {
        let r = Relationship { sources_for_entity: HashMap::new(), targets_for_entity: HashMap::new() };
        proof {
            assert(r@.0 =~= Map::<usize, Set<usize>>::empty());
            assert(r@.1 =~= Map::<usize, Set<usize>>::empty());
        }
        r
    }
}

fn insert_link(m: &mut HashMap<usize, HashSet<usize>>, from: usize, to: usize)
    ensures
        adjacency(final(m)@) == with_link(adjacency(old(m)@), from, to),
{
    let mut set = match m.remove(&from) {
        Some(s) => s,
        None => HashSet::new(),
    };
    set.insert(to);
    m.insert(from, set);
    proof {
        assert(adjacency(m@) =~= with_link(adjacency(old(m)@), from, to));
    }
}

impl Relationship {
    /// Sources and targets mirror each other.
    pub closed spec fn wf(&self) -> bool {
        mirrored(self@)
    }

    /// Records that `source` relates to `target`.
    pub fn add(&mut self, source: usize, target: usize)
        requires
            old(self).wf(),
        ensures
            final(self).wf(),
            final(self)@ == with_pair(old(self)@, source, target),
    {
        insert_link(&mut self.sources_for_entity, target, source);
        insert_link(&mut self.targets_for_entity, source, target);
        proof {
            let v = self@;
            let o = old(self)@;
            assert forall|t: usize, s: usize| #[trigger] links(v.0, t, s) <==> #[trigger] links(v.1, s, t) by {
                assert(links(o.0, t, s) <==> links(o.1, s, t));
            }
        }
    }

    /// The entities related to `target`, if any relationship to it was recorded.
    pub fn sources(&self, target: usize) -> (r: Option<&HashSet<usize>>)
        ensures
            match r {
                Some(set) => self@.0.contains_key(target) && set@ == self@.0[target],
                None => !self@.0.contains_key(target),
            },
    {
        self.sources_for_entity.get(&target)
    }

    /// The entities `source` relates to, if any relationship from it was recorded.
    pub fn targets(&self, source: usize) -> (r: Option<&HashSet<usize>>)
        ensures
            match r {
                Some(set) => self@.1.contains_key(source) && set@ == self@.1[source],
                None => !self@.1.contains_key(source),
            },
    {
        self.targets_for_entity.get(&source)
    }

    /// Every entity related to `target` directly or through a chain of relationships,
    /// once per chain, so once each where the sources above `target` form a tree. Only
    /// returns when no cycle of sources leads back into `target`'s ancestry.
    pub fn ancestors(&self, target: usize) -> (r: Vec<usize>)
        requires
            acyclic_from(self@.0, target),
        ensures
            forall|a: usize| r@.contains(a) <==> reaches(self@.0, target, a),
            !r@.contains(target),
            tree_from(self@.0, target) ==> r@.no_duplicates(),
    {
        proof {
            lemma_acyclic_not_reaching_start(self@.0, target);
        }
        collect_reachable(&self.sources_for_entity, target)
    }

    /// Every entity `source` relates to directly or through a chain of relationships,
    /// once per chain, so once each where the targets below `source` form a tree. Only
    /// returns when no cycle of targets can be reached from `source`.
    pub fn successors(&self, source: usize) -> (r: Vec<usize>)
        requires
            acyclic_from(self@.1, source),
        ensures
            forall|a: usize| r@.contains(a) <==> reaches(self@.1, source, a),
            !r@.contains(source),
            tree_from(self@.1, source) ==> r@.no_duplicates(),
    {
        proof {
            lemma_acyclic_not_reaching_start(self@.1, source);
        }
        collect_reachable(&self.targets_for_entity, source)
    }
}

/// The relationships of every kind, indexed by kind.
pub struct Relationships {
    relationships: HashMap<u64, Relationship>,
}

impl View for Relationships {
    type V = Map<u64, RelationshipGraphs>;

    closed spec fn view(&self) -> Map<u64, RelationshipGraphs> {
        self.relationships@.map_values(|r: Relationship| r@)
    }
}

/// The graphs recorded for kind `id`, empty when none were.
pub open spec fn graphs_of(v: Map<u64, RelationshipGraphs>, id: u64) -> RelationshipGraphs {
    if v.contains_key(id) {
        v[id]
    } else {
        (Map::empty(), Map::empty())
    }
}

impl Relationships {
    /// Every stored relationship is well formed.
    pub closed spec fn wf(&self) -> bool {
        forall|id: u64| #[trigger] self.relationships@.contains_key(id) ==> self.relationships@[id].wf()
    }

    pub fn new() -> (r: Self)
        ensures
            r@ == Map::<u64, RelationshipGraphs>::empty(),
            r.wf(),
    {
        let r = Relationships { relationships: HashMap::new() };
        proof {
            assert(r@ =~= Map::<u64, RelationshipGraphs>::empty());
        }
        r
    }

    /// Records that `source` relates to `target` through the relationship kind keyed `key`.
    pub fn insert_keyed(&mut self, key: u64, source: usize, target: usize)
        requires
            old(self).wf(),
        ensures
            final(self).wf(),
            final(self)@ == old(self)@.insert(key, with_pair(graphs_of(old(self)@, key), source, target)),
    {
        let mut relationship = match self.relationships.remove(&key) {
            Some(r) => r,
            None => Relationship::default(),
        };
        proof {
            assert(relationship@ == graphs_of(old(self)@, key));
        }
        relationship.add(source, target);
        self.relationships.insert(key, relationship);
        proof {
            assert(self@ =~= old(self)@.insert(key, with_pair(graphs_of(old(self)@, key), source, target)));
        }
    }

    /// Records that `source` relates to `target` through the relationship kind `R`: what
    /// `insert_keyed` does with the key of `R`'s type.
    pub fn insert<R: 'static>(&mut self, source: usize, target: usize)
        requires
            old(self).wf(),
        ensures
            final(self).wf(),
            exists|key: u64| #[trigger] old(self)@.insert(key, with_pair(graphs_of(old(self)@, key), source, target))
                == final(self)@,
    {
        let key = type_key::<R>();
        self.insert_keyed(key, source, target);
        assert(old(self)@.insert(key, with_pair(graphs_of(old(self)@, key), source, target)) == self@);
    }

    /// The relationships of the kind keyed `key`, if any was recorded.
    pub fn get_keyed(&self, key: u64) -> (r: Option<&Relationship>)
        requires
            self.wf(),
        ensures
            relationship_result(self@, key, r),
    {
        let r = self.relationships.get(&key);
        proof {
            if self.relationships@.contains_key(key) {
                assert(self.relationships@[key].wf());
            }
        }
        r
    }

    /// The relationships of kind `R`, if any was recorded: what `get_keyed` gives for the key
    /// of `R`'s type.
    pub fn get<R: 'static>(&self) -> (r: Option<&Relationship>)
        requires
            self.wf(),
        ensures
            exists|key: u64| #[trigger] relationship_result(self@, key, r),
    {
        let key = type_key::<R>();
        let r = self.get_keyed(key);
        assert(relationship_result(self@, key, r));
        r
    }
}

/// What `get_keyed` gives for the key `key`: the relationships recorded under it, if any.
pub open spec fn relationship_result(v: Map<u64, RelationshipGraphs>, key: u64, r: Option<&Relationship>) -> bool {
    match r {
        Some(rel) => v.contains_key(key) && rel@ == v[key] && rel.wf(),
        None => !v.contains_key(key),
    }
}

} // verus!

verus! {

/// Law: `s` is among the sources of `t` exactly when `t` is among the targets of `s`.
pub proof fn lemma_sources_mirror_targets(r: &Relationship, t: usize, s: usize)
    requires
        r.wf(),
    ensures
        links(r@.0, t, s) <==> links(r@.1, s, t),
{
}

/// Law: once a pair of the kind with key `key` is recorded (as `Relationships::insert_keyed`
/// and `RelationshipStore::insert` record it), `source` is among the sources of `target` and
/// `target` among the targets of `source` for that kind, and every kind with another key is
/// as it was.
pub proof fn lemma_recorded_pair(
    before: Map<u64, RelationshipGraphs>,
    after: Map<u64, RelationshipGraphs>,
    key: u64,
    other: u64,
    source: usize,
    target: usize,
)
    requires
        after == before.insert(key, with_pair(graphs_of(before, key), source, target)),
        other != key,
    ensures
        links(graphs_of(after, key).0, target, source),
        links(graphs_of(after, key).1, source, target),
        graphs_of(after, other) == graphs_of(before, other),
{
}

/// Law: `a` is an ancestor of `t` exactly when `t` is a successor of `a`.
pub proof fn lemma_ancestors_successors_converse(r: &Relationship, t: usize, a: usize)
    requires
        r.wf(),
    ensures
        reaches(r@.0, t, a) <==> reaches(r@.1, a, t),
{
    assert forall|x: usize, y: usize| #[trigger] links(r@.0, x, y) implies links(r@.1, y, x) by {
        lemma_sources_mirror_targets(r, x, y);
    }
    assert forall|x: usize, y: usize| #[trigger] links(r@.1, x, y) implies links(r@.0, y, x) by {
        lemma_sources_mirror_targets(r, y, x);
    }
    if reaches(r@.0, t, a) {
        crate::graph::lemma_reaches_converse(r@.0, r@.1, t, a);
    }
    if reaches(r@.1, a, t) {
        crate::graph::lemma_reaches_converse(r@.1, r@.0, a, t);
    }
}

} // verus!
