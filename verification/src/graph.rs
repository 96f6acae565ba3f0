use std::collections::{HashMap, HashSet};
use vstd::arithmetic::power::{lemma_pow_increases, lemma_pow_positive, pow};
use vstd::prelude::*;

verus! {

broadcast use vstd::std_specs::hash::group_hash_axioms;

/// The abstract adjacency of a map from entity ids to sets of entity ids.
pub open spec fn adjacency(m: Map<usize, HashSet<usize>>) -> Map<usize, Set<usize>> {
    m.map_values(|s: HashSet<usize>| s@)
}

/// `to` is one of the entities linked from `from`.
pub open spec fn links(g: Map<usize, Set<usize>>, from: usize, to: usize) -> bool {
    g.contains_key(from) && g[from].contains(to)
}

/// Step `i` of the walk `p` follows a link.
pub open spec fn step_ok(g: Map<usize, Set<usize>>, p: Seq<usize>, i: int) -> bool {
    links(g, p[i], p[i + 1])
}

/// `p` is a walk of at least one link through `g`.
pub open spec fn is_walk(g: Map<usize, Set<usize>>, p: Seq<usize>) -> bool {
    &&& p.len() >= 2
    &&& forall|i: int| 0 <= i < p.len() - 1 ==> #[trigger] step_ok(g, p, i)
}

/// `to` can be reached from `from` by following one or more links.
pub open spec fn reaches(g: Map<usize, Set<usize>>, from: usize, to: usize) -> bool {
    exists|p: Seq<usize>| #[trigger] is_walk(g, p) && p[0] == from && p.last() == to
}

/// `rank` strictly decreases along every link that leaves `start` or an entity that
/// `start` reaches; such a rank exists exactly when no cycle can be reached from `start`.
pub open spec fn ranked_from(
    g: Map<usize, Set<usize>>,
    start: usize,
    rank: spec_fn(usize) -> nat,
) -> bool {
    forall|a: usize, s: usize|
        (a == start || reaches(g, start, a)) && #[trigger] links(g, a, s) ==> rank(s) < rank(a)
}

/// No cycle of links can be reached from `start`.
pub open spec fn acyclic_from(g: Map<usize, Set<usize>>, start: usize) -> bool {
    exists|rank: spec_fn(usize) -> nat| ranked_from(g, start, rank)
}

/// The links below `start` form a tree: none leads back to `start` from `start` or an entity
/// it reaches, and each entity it reaches is linked from one entity only among those.
pub open spec fn tree_from(g: Map<usize, Set<usize>>, start: usize) -> bool {
    &&& forall|p: usize| (p == start || reaches(g, start, p)) ==> !#[trigger] links(g, p, start)
    &&& forall|a: usize, p: usize, q: usize|
        (p == start || reaches(g, start, p)) && (q == start || reaches(g, start, q))
            && #[trigger] links(g, p, a) && #[trigger] links(g, q, a) ==> p == q
}

pub proof fn lemma_link_reaches(g: Map<usize, Set<usize>>, a: usize, s: usize)
    requires
        links(g, a, s),
    ensures
        reaches(g, a, s),
{
    let p = seq![a, s];
    assert(step_ok(g, p, 0));
    assert(is_walk(g, p));
}

pub proof fn lemma_reaches_extend(g: Map<usize, Set<usize>>, a: usize, x: usize, s: usize)
    requires
        reaches(g, a, x),
        links(g, x, s),
    ensures
        reaches(g, a, s),
{
    let p = choose|p: Seq<usize>| #[trigger] is_walk(g, p) && p[0] == a && p.last() == x;
    let q = p.push(s);
    assert forall|i: int| 0 <= i < q.len() - 1 implies #[trigger] step_ok(g, q, i) by {
        if i < p.len() - 1 {
            assert(step_ok(g, p, i));
        }
    }
    assert(is_walk(g, q));
}

pub proof fn lemma_reaches_split(g: Map<usize, Set<usize>>, x: usize, a: usize)
    requires
        reaches(g, x, a),
    ensures
        exists|s: usize| #[trigger] links(g, x, s) && (s == a || reaches(g, s, a)),
{
    let p = choose|p: Seq<usize>| #[trigger] is_walk(g, p) && p[0] == x && p.last() == a;
    assert(step_ok(g, p, 0));
    let s = p[1];
    if p.len() > 2 {
        let q = p.subrange(1, p.len() as int);
        assert forall|i: int| 0 <= i < q.len() - 1 implies #[trigger] step_ok(g, q, i) by {
            assert(step_ok(g, p, i + 1));
        }
        assert(is_walk(g, q));
        assert(reaches(g, s, a));
    }
    assert(links(g, x, s));
}

/// Along a walk that begins at `start` or at an entity `start` reaches, a rank that
/// decreases along the links below `start` stays under the rank of the walk's first entity
/// from the first step on, and every entity of the walk is reached from `start`.
proof fn lemma_walk_rank(g: Map<usize, Set<usize>>, start: usize, rank: spec_fn(usize) -> nat, p: Seq<usize>, i: int)
    requires
        ranked_from(g, start, rank),
        is_walk(g, p),
        p[0] == start || reaches(g, start, p[0]),
        1 <= i < p.len(),
    ensures
        reaches(g, start, p[i]),
        rank(p[i]) < rank(p[0]),
    decreases i,
{
    assert(step_ok(g, p, i - 1));
    if i == 1 {
        if p[0] == start {
            lemma_link_reaches(g, start, p[1]);
        } else {
            lemma_reaches_extend(g, start, p[0], p[1]);
        }
    } else {
        lemma_walk_rank(g, start, rank, p, i - 1);
        lemma_reaches_extend(g, start, p[i - 1], p[i]);
    }
}

/// Law: where a rank decreases along the links below `start` (`acyclic_from`), no cycle can
/// be reached from `start`: neither `start` nor any entity it reaches reaches itself.
pub proof fn lemma_acyclic_no_reachable_cycle(g: Map<usize, Set<usize>>, start: usize, a: usize)
    requires
        acyclic_from(g, start),
        a == start || reaches(g, start, a),
    ensures
        !reaches(g, a, a),
{
    let rank = choose|rank: spec_fn(usize) -> nat| ranked_from(g, start, rank);
    if reaches(g, a, a) {
        let p = choose|p: Seq<usize>| #[trigger] is_walk(g, p) && p[0] == a && p.last() == a;
        lemma_walk_rank(g, start, rank, p, p.len() - 1);
    }
}

/// Law: where no cycle can be reached from `start`, `start` does not reach itself.
pub proof fn lemma_acyclic_not_reaching_start(g: Map<usize, Set<usize>>, start: usize)
    requires
        acyclic_from(g, start),
    ensures
        !reaches(g, start, start),
{
    lemma_acyclic_no_reachable_cycle(g, start, start);
}

/// Sum of `base ^ rank(x)` over the entries of `s`.
pub open spec fn weight_sum(s: Seq<usize>, rank: spec_fn(usize) -> nat, base: nat) -> int
    decreases s.len(),
{
    if s.len() == 0 {
        0
    } else {
        weight_sum(s.drop_last(), rank, base) + pow(base as int, rank(s.last()))
    }
}

proof fn lemma_weight_push(s: Seq<usize>, rank: spec_fn(usize) -> nat, base: nat, v: usize)
    ensures
        weight_sum(s.push(v), rank, base) == weight_sum(s, rank, base) + pow(
            base as int,
            rank(v),
        ),
{
    assert(s.push(v).drop_last() =~= s);
}

proof fn lemma_weight_nonneg(s: Seq<usize>, rank: spec_fn(usize) -> nat, base: nat)
    requires
        base > 0,
    ensures
        weight_sum(s, rank, base) >= 0,
    decreases s.len(),
{
    if s.len() > 0 {
        lemma_weight_nonneg(s.drop_last(), rank, base);
        lemma_pow_positive(base as int, rank(s.last()));
    }
}

proof fn lemma_degree_bound(g: Map<usize, Set<usize>>) -> (d: nat)
    requires
        g.dom().finite(),
    ensures
        forall|k: usize| g.contains_key(k) ==> #[trigger] g[k].len() <= d,
    decreases g.dom().len(),
{
    if g.dom().len() == 0 {
        g.dom().lemma_len0_is_empty();
        assert forall|k: usize| g.contains_key(k) implies #[trigger] g[k].len() <= 0 by {
            assert(g.dom().contains(k));
        }
        0
    } else {
        let k0 = g.dom().choose();
        let rest = g.remove(k0);
        assert(rest.dom() =~= g.dom().remove(k0));
        let d0 = lemma_degree_bound(rest);
        let d = if d0 > g[k0].len() {
            d0
        } else {
            g[k0].len()
        };
        assert forall|k: usize| g.contains_key(k) implies #[trigger] g[k].len() <= d by {
            if k != k0 {
                assert(rest.contains_key(k));
                assert(rest[k] == g[k]);
            }
        }
        d
    }
}

/// What the walk of `collect_reachable` keeps where the links below `start` form a tree:
/// nothing is listed or pending twice, each pending entity other than `start` is listed, no
/// handled entity is pending, each handled entity is `start` or listed, and each listed
/// entity is linked from a handled one.
pub open spec fn tree_stack_ok(
    g: Map<usize, Set<usize>>,
    start: usize,
    found: Seq<usize>,
    stack: Seq<usize>,
    done: Seq<usize>,
) -> bool {
    &&& found.no_duplicates()
    &&& stack.no_duplicates()
    &&& forall|i: int| 0 <= i < stack.len() ==> #[trigger] stack[i] == start || found.contains(stack[i])
    &&& forall|x: usize| #[trigger] done.contains(x) ==> !stack.contains(x) && (x == start || found.contains(x))
    &&& forall|x: usize| #[trigger] found.contains(x) ==> exists|p: usize| done.contains(p) && #[trigger] links(g, p, x)
}

/// One step of the walk keeps `tree_stack_ok`: the entity on top of the stack is handled, and
/// the entities it links to are listed and pushed.
proof fn lemma_tree_step(
    g: Map<usize, Set<usize>>,
    start: usize,
    old_found: Seq<usize>,
    old_stack: Seq<usize>,
    old_done: Seq<usize>,
    current: usize,
    children: Seq<usize>,
)
    requires
        tree_from(g, start),
        tree_stack_ok(g, start, old_found, old_stack, old_done),
        old_stack.len() > 0,
        current == old_stack.last(),
        current == start || reaches(g, start, current),
        forall|i: int| 0 <= i < old_found.len() ==> #[trigger] reaches(g, start, old_found[i]),
        children.no_duplicates(),
        forall|k: int| 0 <= k < children.len() ==> #[trigger] links(g, current, children[k]),
    ensures
        tree_stack_ok(g, start, old_found + children, old_stack.drop_last() + children, old_done.push(current)),
{
    let popped = old_stack.drop_last();
    let found = old_found + children;
    let stack = popped + children;
    let done = old_done.push(current);
    assert(old_stack[old_stack.len() - 1] == current);
    assert(old_stack.contains(current));
    assert(current == start || old_found.contains(current));
    assert(!old_done.contains(current));
    assert forall|k: int| 0 <= k < children.len() implies #[trigger] children[k] != start && !old_found.contains(
        children[k],
    ) by {
        let c = children[k];
        assert(links(g, current, c));
        if c == start {
            assert(!links(g, current, start));
        }
        if old_found.contains(c) {
            let p = choose|p: usize| old_done.contains(p) && #[trigger] links(g, p, c);
            assert(p == start || old_found.contains(p));
            if p != start {
                let i = choose|i: int| 0 <= i < old_found.len() && old_found[i] == p;
                assert(reaches(g, start, old_found[i]));
            }
            assert(p == current);
        }
    }
    assert forall|i: int| 0 <= i < popped.len() implies #[trigger] popped[i] != current && (popped[i] == start
        || old_found.contains(popped[i])) by {
        assert(popped[i] == old_stack[i]);
        assert(old_stack[i] == start || old_found.contains(old_stack[i]));
    }
    assert forall|i: int, j: int| 0 <= i < found.len() && 0 <= j < found.len() && i != j implies found[i]
        != found[j] by {
        let n = old_found.len() as int;
        if i < n && j < n {
        } else if i >= n && j >= n {
            assert(found[i] == children[i - n]);
            assert(found[j] == children[j - n]);
        } else if i < n {
            assert(old_found.contains(found[i]));
            assert(found[j] == children[j - n]);
        } else {
            assert(old_found.contains(found[j]));
            assert(found[i] == children[i - n]);
        }
    }
    assert(found.no_duplicates());
    assert forall|i: int, j: int| 0 <= i < stack.len() && 0 <= j < stack.len() && i != j implies stack[i]
        != stack[j] by {
        let n = popped.len() as int;
        if i < n && j < n {
            assert(stack[i] == old_stack[i]);
            assert(stack[j] == old_stack[j]);
        } else if i >= n && j >= n {
            assert(stack[i] == children[i - n]);
            assert(stack[j] == children[j - n]);
        } else if i < n {
            assert(stack[i] == popped[i]);
            assert(stack[j] == children[j - n]);
        } else {
            assert(stack[j] == popped[j]);
            assert(stack[i] == children[i - n]);
        }
    }
    assert(stack.no_duplicates());
    assert forall|x: usize| #[trigger] old_found.contains(x) implies found.contains(x) by {
        let i = choose|i: int| 0 <= i < old_found.len() && old_found[i] == x;
        assert(found[i] == x);
    }
    assert forall|i: int| 0 <= i < stack.len() implies #[trigger] stack[i] == start || found.contains(stack[i]) by {
        let n = popped.len() as int;
        if i < n {
            assert(stack[i] == popped[i]);
        } else {
            assert(stack[i] == children[i - n]);
            assert(found[old_found.len() + i - n] == children[i - n]);
        }
    }
    assert forall|x: usize| #[trigger] done.contains(x) implies !stack.contains(x) && (x == start || found.contains(x)) by {
        let d = choose|d: int| 0 <= d < done.len() && done[d] == x;
        if d < old_done.len() {
            assert(old_done[d] == x);
            assert(old_done.contains(x));
        }
        if stack.contains(x) {
            let i = choose|i: int| 0 <= i < stack.len() && stack[i] == x;
            let n = popped.len() as int;
            if i < n {
                assert(stack[i] == popped[i]);
                assert(popped[i] == old_stack[i]);
                assert(old_stack.contains(x));
            } else {
                assert(stack[i] == children[i - n]);
            }
        }
    }
    assert forall|x: usize| #[trigger] found.contains(x) implies exists|p: usize| done.contains(p) && #[trigger] links(g, p, x) by {
        let i = choose|i: int| 0 <= i < found.len() && found[i] == x;
        let n = old_found.len() as int;
        if i < n {
            assert(old_found[i] == x);
            assert(old_found.contains(x));
            let p = choose|p: usize| old_done.contains(p) && #[trigger] links(g, p, x);
            let d = choose|d: int| 0 <= d < old_done.len() && old_done[d] == p;
            assert(done[d] == p);
            assert(done.contains(p));
        } else {
            assert(found[i] == children[i - n]);
            assert(links(g, current, children[i - n]));
            assert(done[done.len() - 1] == current);
            assert(done.contains(current));
        }
    }
}

/// Collects every entity reachable from `start` by following the links of `links_map`,
/// popping pending entities from a stack and pushing all the entities they link to.
/// An entity reachable along several walks is listed once per walk, so each is listed once
/// where the links below `start` form a tree.
pub fn collect_reachable(links_map: &HashMap<usize, HashSet<usize>>, start: usize) -> (found: Vec<
    usize,
>)
    requires
        acyclic_from(adjacency(links_map@), start),
    ensures
        forall|a: usize| found@.contains(a) <==> reaches(adjacency(links_map@), start, a),
        tree_from(adjacency(links_map@), start) ==> found@.no_duplicates(),
{
    let ghost g = adjacency(links_map@);
    let ghost rank = choose|rank: spec_fn(usize) -> nat| ranked_from(g, start, rank);
    let ghost d: nat;
    proof {
        assert(g.dom() =~= links_map@.dom());
        d = lemma_degree_bound(g);
    }
    let ghost base: nat = d + 1;
    let mut found: Vec<usize> = Vec::new();
    let mut to_process: Vec<usize> = Vec::new();
    let ghost mut done: Seq<usize> = Seq::empty();
    let ghost tree = tree_from(g, start);
    to_process.push(start);
    proof {
        assert forall|a: usize| reaches(g, start, a) implies found@.contains(a) || exists|j: int|
            0 <= j < to_process.len() && #[trigger] reaches(g, to_process@[j], a) by {
            assert(to_process@[0] == start);
        }
        lemma_weight_push(Seq::empty(), rank, base, start);
        assert(Seq::<usize>::empty().push(start) =~= to_process@);
    }
    while to_process.len() > 0
        invariant
            g == adjacency(links_map@),
            ranked_from(g, start, rank),
            base == d + 1,
            forall|k: usize| g.contains_key(k) ==> #[trigger] g[k].len() <= d,
            forall|i: int| 0 <= i < found.len() ==> #[trigger] reaches(g, start, found@[i]),
            forall|i: int|
                0 <= i < to_process.len() ==> to_process@[i] == start || #[trigger] reaches(
                    g,
                    start,
                    to_process@[i],
                ),
            forall|a: usize|
                reaches(g, start, a) ==> found@.contains(a) || exists|j: int|
                    0 <= j < to_process.len() && #[trigger] reaches(g, to_process@[j], a),
            tree == tree_from(g, start),
            tree ==> tree_stack_ok(g, start, found@, to_process@, done),
        decreases weight_sum(to_process@, rank, base),
    {
        let ghost old_found = found@;
        let ghost old_stack = to_process@;
        let current = to_process.pop().unwrap();
        let ghost popped = to_process@;
        let ghost old_done = done;
        proof {
            done = done.push(current);
        }
        proof {
            assert(old_stack.drop_last() =~= popped);
            assert(current == old_stack[old_stack.len() - 1]);
            assert(current == start || reaches(g, start, current));
        }
        let ghost cur_rank: nat = rank(current);
        let ghost step: int = if cur_rank > 0 {
            pow(base as int, (cur_rank - 1) as nat)
        } else {
            0
        };
        match links_map.get(&current) {
            Some(next) => {
                proof {
                    assert(g.contains_key(current));
                    assert(g[current] == next@);
                }
                let ghost keys = vstd::std_specs::iter::IteratorSpec::remaining(&vstd::std_specs::hash::spec_hash_keys_iter(next));
                for s in it: next.iter()
                    invariant
                        g == adjacency(links_map@),
                        ranked_from(g, start, rank),
                        base == d + 1,
                        g.contains_key(current),
                        g[current] == next@,
                        current == start || reaches(g, start, current),
                        cur_rank == rank(current),
                        step == (if cur_rank > 0 {
                            pow(base as int, (cur_rank - 1) as nat)
                        } else {
                            0
                        }),
                        it.seq() == keys,
                        keys.unref().to_set() == next@,
                        keys.unref().no_duplicates(),
                        keys.len() == next@.len(),
                        found@.len() == old_found.len() + it.index(),
                        to_process@.len() == popped.len() + it.index(),
                        forall|i: int| 0 <= i < old_found.len() ==> found@[i] == old_found[i],
                        forall|i: int| 0 <= i < popped.len() ==> to_process@[i] == popped[i],
                        forall|k: int|
                            0 <= k < it.index() ==> found@[old_found.len() + k] == *#[trigger] keys[k]
                                && to_process@[popped.len() + k] == *keys[k],
                        weight_sum(to_process@, rank, base) <= weight_sum(popped, rank, base)
                            + it.index() * step,
                {
                    let ghost before = to_process@;
                    proof {
                        let k = it.index();
                        assert(it.seq().unref()[k as int] == *s);
                        assert(it.seq().unref().to_set().contains(*s));
                        assert(links(g, current, *s));
                        assert(rank(*s) < cur_rank);
                        lemma_pow_increases(base, rank(*s), (cur_rank - 1) as nat);
                        lemma_weight_push(before, rank, base, *s);
                        assert((k + 1) * step == k * step + step) by (nonlinear_arith);
                    }
                    found.push(*s);
                    to_process.push(*s);
                }
                proof {
                    let seq = keys.unref();
                    let n = keys.len();
                    assert forall|s: usize| next@.contains(s) implies found@.contains(s) && exists|
                        j: int,
                    | 0 <= j < to_process.len() && to_process@[j] == s by {
                        assert(seq.to_set().contains(s));
                        let k = choose|k: int| 0 <= k < seq.len() && seq[k] == s;
                        assert(*keys[k] == s);
                        assert(found@[old_found.len() + k] == s);
                        assert(to_process@[popped.len() + k] == s);
                    }
                    // measure
                    lemma_weight_nonneg(popped, rank, base);
                    lemma_weight_push(popped, rank, base, current);
                    assert(popped.push(current) =~= old_stack);
                    if n > 0 {
                        let s0 = seq[0];
                        assert(seq.to_set().contains(s0));
                        assert(links(g, current, s0));
                        assert(cur_rank > 0);
                        assert(pow(base as int, cur_rank) == base * step) by {
                            vstd::arithmetic::power::lemma_pow_adds(
                                base as int,
                                1,
                                (cur_rank - 1) as nat,
                            );
                            vstd::arithmetic::power::lemma_pow1(base as int);
                        }
                        lemma_pow_positive(base as int, (cur_rank - 1) as nat);
                        assert(n <= d);
                        assert(n * step <= d * step) by (nonlinear_arith)
                            requires
                                n <= d,
                                step >= 0,
                        ;
                        assert(base * step == d * step + step) by (nonlinear_arith)
                            requires
                                base == d + 1,
                        ;
                    } else {
                        lemma_pow_positive(base as int, cur_rank);
                    }
                    assert(weight_sum(to_process@, rank, base) < weight_sum(old_stack, rank, base));
                    lemma_weight_nonneg(to_process@, rank, base);
                    // soundness of the new entries
                    assert forall|i: int| 0 <= i < found.len() implies #[trigger] reaches(
                        g,
                        start,
                        found@[i],
                    ) by {
                        if i < old_found.len() {
                            assert(found@[i] == old_found[i]);
                            assert(reaches(g, start, old_found[i]));
                        } else {
                            let k = i - old_found.len();
                            assert(*keys[k] == found@[i]);
                            assert(seq[k] == found@[i]);
                            assert(seq.to_set().contains(seq[k]));
                            if current == start {
                                lemma_link_reaches(g, start, found@[i]);
                            } else {
                                lemma_reaches_extend(g, start, current, found@[i]);
                            }
                        }
                    }
                    assert forall|i: int| 0 <= i < to_process.len() implies to_process@[i]
                        == start || #[trigger] reaches(g, start, to_process@[i]) by {
                        if i >= popped.len() {
                            let k = i - popped.len();
                            assert(*keys[k] == to_process@[i]);
                            assert(seq[k] == to_process@[i]);
                            assert(seq.to_set().contains(seq[k]));
                            if current == start {
                                lemma_link_reaches(g, start, to_process@[i]);
                            } else {
                                lemma_reaches_extend(g, start, current, to_process@[i]);
                            }
                        } else {
                            assert(old_stack[i] == to_process@[i]);
                        }
                    }
                    if tree {
                        assert(found@ =~= old_found + seq);
                        assert(to_process@ =~= popped + seq);
                        assert forall|k: int| 0 <= k < seq.len() implies #[trigger] links(g, current, seq[k]) by {
                            assert(seq.to_set().contains(seq[k]));
                        }
                        lemma_tree_step(g, start, old_found, old_stack, old_done, current, seq);
                    }
                    // completeness
                    assert forall|a: usize| reaches(g, start, a) implies found@.contains(a)
                        || exists|j: int|
                        0 <= j < to_process.len() && #[trigger] reaches(g, to_process@[j], a) by {
                        if old_found.contains(a) {
                            let i = choose|i: int| 0 <= i < old_found.len() && old_found[i] == a;
                            assert(found@[i] == a);
                        } else {
                            let j = choose|j: int|
                                0 <= j < old_stack.len() && #[trigger] reaches(g, old_stack[j], a);
                            if j < popped.len() {
                                assert(to_process@[j] == old_stack[j]);
                            } else {
                                lemma_reaches_split(g, current, a);
                                let s = choose|s: usize|
                                    #[trigger] links(g, current, s) && (s == a || reaches(g, s, a));
                                assert(next@.contains(s));
                                if s != a {
                                    let jj = choose|jj: int|
                                        0 <= jj < to_process.len() && to_process@[jj] == s;
                                    assert(reaches(g, to_process@[jj], a));
                                }
                            }
                        }
                    }
                }
            },
            None => {
                proof {
                    if tree {
                        assert(found@ =~= old_found + Seq::<usize>::empty());
                        assert(to_process@ =~= popped + Seq::<usize>::empty());
                        lemma_tree_step(g, start, old_found, old_stack, old_done, current, Seq::<usize>::empty());
                    }
                    assert(!g.contains_key(current));
                    lemma_weight_push(popped, rank, base, current);
                    assert(popped.push(current) =~= old_stack);
                    lemma_pow_positive(base as int, cur_rank);
                    lemma_weight_nonneg(popped, rank, base);
                    assert(weight_sum(to_process@, rank, base) < weight_sum(old_stack, rank, base));
                    lemma_weight_nonneg(to_process@, rank, base);
                    assert forall|i: int| 0 <= i < to_process.len() implies to_process@[i]
                        == start || #[trigger] reaches(g, start, to_process@[i]) by {
                        assert(old_stack[i] == to_process@[i]);
                    }
                    assert forall|a: usize| reaches(g, start, a) implies found@.contains(a)
                        || exists|j: int|
                        0 <= j < to_process.len() && #[trigger] reaches(g, to_process@[j], a) by {
                        if !found@.contains(a) {
                            let j = choose|j: int|
                                0 <= j < old_stack.len() && #[trigger] reaches(g, old_stack[j], a);
                            if j < popped.len() {
                                assert(to_process@[j] == old_stack[j]);
                            } else {
                                lemma_reaches_split(g, current, a);
                            }
                        }
                    }
                }
            },
        }
    }
    proof {
        assert forall|a: usize| found@.contains(a) implies reaches(g, start, a) by {
            let i = choose|i: int| 0 <= i < found.len() && found@[i] == a;
            assert(reaches(g, start, found@[i]));
        }
    }
    found
}

} // verus!

verus! {

/// Walks reverse when every link of `g` is a link of `h` taken backwards.
pub proof fn lemma_reaches_converse(
    g: Map<usize, Set<usize>>,
    h: Map<usize, Set<usize>>,
    from: usize,
    to: usize,
)
    requires
        forall|x: usize, y: usize| #[trigger] links(g, x, y) ==> links(h, y, x),
        reaches(g, from, to),
    ensures
        reaches(h, to, from),
{
    let p = choose|p: Seq<usize>| #[trigger] is_walk(g, p) && p[0] == from && p.last() == to;
    let q = p.reverse();
    assert forall|i: int| 0 <= i < q.len() - 1 implies #[trigger] step_ok(h, q, i) by {
        let j = p.len() - 2 - i;
        assert(step_ok(g, p, j));
        assert(q[i] == p[j + 1]);
        assert(q[i + 1] == p[j]);
    }
    assert(is_walk(h, q));
}

} // verus!
