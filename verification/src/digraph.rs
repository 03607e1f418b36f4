//! Directed graphs over node indices `0..n`, given as adjacency lists:
//! walks, reachability and cycles, with the facts the dependency graphs
//! rely on.

use vstd::prelude::*;

verus! {

/// There is an edge from `u` to `v`.
pub open spec fn edge(adj: Seq<Seq<usize>>, u: int, v: int) -> bool {
    0 <= u < adj.len() && 0 <= v < adj.len() && adj[u].contains(v as usize)
}

/// The `i`th step of `w` follows an edge.
pub open spec fn step(adj: Seq<Seq<usize>>, w: Seq<int>, i: int) -> bool {
    edge(adj, w[i], w[i + 1])
}

/// `w` is a walk: a non-empty sequence of nodes, each step along an edge.
pub open spec fn is_walk(adj: Seq<Seq<usize>>, w: Seq<int>) -> bool {
    &&& w.len() >= 1
    &&& 0 <= w[0] < adj.len()
    &&& forall|i: int| 0 <= i < w.len() - 1 ==> #[trigger] step(adj, w, i)
}

/// Some walk leads from `a` to `b` (possibly with no step, when `a == b`).
pub open spec fn reaches(adj: Seq<Seq<usize>>, a: int, b: int) -> bool {
    exists|w: Seq<int>| #[trigger] is_walk(adj, w) && w[0] == a && w.last() == b
}

/// Some walk of at least one step returns to where it started.
pub open spec fn has_cycle(adj: Seq<Seq<usize>>) -> bool {
    exists|w: Seq<int>| #[trigger] is_walk(adj, w) && w.len() >= 2 && w[0] == w.last()
}

/// The adjacency lists with an edge from `u` to `v` added (kept once).
pub open spec fn with_edge(adj: Seq<Seq<usize>>, u: int, v: int) -> Seq<Seq<usize>> {
    if adj[u].contains(v as usize) {
        adj
    } else {
        adj.update(u, adj[u].push(v as usize))
    }
}

/// Every node of a walk is a node of the graph.
pub proof fn lemma_walk_in_range(adj: Seq<Seq<usize>>, w: Seq<int>, i: int)
    requires
        is_walk(adj, w),
        0 <= i < w.len(),
    ensures
        0 <= w[i] < adj.len(),
{
    if i > 0 {
        assert(step(adj, w, i - 1));
    }
}

/// A single node is a walk.
pub proof fn lemma_reaches_self(adj: Seq<Seq<usize>>, a: int)
    requires
        0 <= a < adj.len(),
    ensures
        reaches(adj, a, a),
{
    let w = seq![a];
    assert(is_walk(adj, w));
}

/// An edge is a walk.
pub proof fn lemma_reaches_edge(adj: Seq<Seq<usize>>, u: int, v: int)
    requires
        edge(adj, u, v),
    ensures
        reaches(adj, u, v),
{
    let w = seq![u, v];
    assert(step(adj, w, 0));
    assert(is_walk(adj, w));
}

/// Two walks that meet can be joined.
pub proof fn lemma_walk_concat(adj: Seq<Seq<usize>>, w1: Seq<int>, w2: Seq<int>)
    requires
        is_walk(adj, w1),
        is_walk(adj, w2),
        w1.last() == w2[0],
    ensures
        is_walk(adj, w1 + w2.drop_first()),
        (w1 + w2.drop_first())[0] == w1[0],
        (w1 + w2.drop_first()).last() == w2.last(),
        (w1 + w2.drop_first()).len() == w1.len() + w2.len() - 1,
{
    let w = w1 + w2.drop_first();
    let n1 = w1.len();
    assert forall|i: int| 0 <= i < w.len() - 1 implies #[trigger] step(adj, w, i) by {
        if i < n1 - 1 {
            assert(step(adj, w1, i));
            assert(w[i] == w1[i] && w[i + 1] == w1[i + 1]);
        } else {
            let k = i - (n1 - 1);
            assert(step(adj, w2, k));
            if k == 0 {
                assert(w[i] == w1[n1 - 1]);
            } else {
                assert(w[i] == w2[k]);
            }
            assert(w[i + 1] == w2[k + 1]);
        }
    }
    if w2.len() == 1 {
        assert(w.last() == w1.last());
    } else {
        assert(w.last() == w2.last());
    }
}

/// Reachability is transitive.
pub proof fn lemma_reaches_trans(adj: Seq<Seq<usize>>, a: int, b: int, c: int)
    requires
        reaches(adj, a, b),
        reaches(adj, b, c),
    ensures
        reaches(adj, a, c),
{
    let w1 = choose|w: Seq<int>| #[trigger] is_walk(adj, w) && w[0] == a && w.last() == b;
    let w2 = choose|w: Seq<int>| #[trigger] is_walk(adj, w) && w[0] == b && w.last() == c;
    lemma_walk_concat(adj, w1, w2);
    let w = w1 + w2.drop_first();
    assert(is_walk(adj, w) && w[0] == a && w.last() == c);
}

/// Reachability extends along an edge.
pub proof fn lemma_reaches_push(adj: Seq<Seq<usize>>, a: int, u: int, v: int)
    requires
        reaches(adj, a, u),
        edge(adj, u, v),
    ensures
        reaches(adj, a, v),
{
    lemma_reaches_edge(adj, u, v);
    lemma_reaches_trans(adj, a, u, v);
}

/// The walk without its first node is still a walk.
pub proof fn lemma_walk_drop_first(adj: Seq<Seq<usize>>, w: Seq<int>)
    requires
        is_walk(adj, w),
        w.len() >= 2,
    ensures
        is_walk(adj, w.drop_first()),
        step(adj, w, 0),
{
    let r = w.drop_first();
    assert(step(adj, w, 0));
    assert forall|i: int| 0 <= i < r.len() - 1 implies #[trigger] step(adj, r, i) by {
        assert(step(adj, w, i + 1));
    }
}

/// The walk without its last node is still a walk.
pub proof fn lemma_walk_drop_last(adj: Seq<Seq<usize>>, w: Seq<int>)
    requires
        is_walk(adj, w),
        w.len() >= 2,
    ensures
        is_walk(adj, w.drop_last()),
        step(adj, w, w.len() - 2),
{
    let r = w.drop_last();
    assert(step(adj, w, w.len() - 2));
    assert forall|i: int| 0 <= i < r.len() - 1 implies #[trigger] step(adj, r, i) by {
        assert(step(adj, w, i));
    }
}

/// The set marked in `seen` holds the successors of each of its nodes.
pub open spec fn closed_under_edges(adj: Seq<Seq<usize>>, seen: Seq<bool>) -> bool {
    forall|u: int, v: int| 0 <= u < adj.len() && #[trigger] seen[u] && #[trigger] edge(adj, u, v) ==> seen[v]
}

/// A set closed under edges that holds the start of a walk holds its end.
pub proof fn lemma_closed_holds_walk_end(adj: Seq<Seq<usize>>, seen: Seq<bool>, w: Seq<int>)
    requires
        is_walk(adj, w),
        seen.len() == adj.len(),
        closed_under_edges(adj, seen),
        seen[w[0]],
    ensures
        seen[w.last()],
    decreases w.len(),
{
    if w.len() >= 2 {
        lemma_walk_drop_last(adj, w);
        lemma_closed_holds_walk_end(adj, seen, w.drop_last());
        let u = w[w.len() - 2];
        assert(w.drop_last().last() == u);
        assert(edge(adj, u, w.last()));
        lemma_walk_in_range(adj, w, w.len() - 2);
    }
}

/// Adding an edge keeps every old edge and adds only the new one.
pub proof fn lemma_with_edge(adj: Seq<Seq<usize>>, u: int, v: int)
    requires
        adj.len() <= usize::MAX,
        0 <= u < adj.len(),
        0 <= v < adj.len(),
    ensures
        with_edge(adj, u, v).len() == adj.len(),
        forall|a: int, b: int| #[trigger] edge(with_edge(adj, u, v), a, b) <==> (edge(adj, a, b) || (a == u && b == v)),
{
    let adj2 = with_edge(adj, u, v);
    assert forall|a: int, b: int| #[trigger] edge(adj2, a, b) <==> (edge(adj, a, b) || (a == u && b == v)) by {
        if !adj[u].contains(v as usize) {
            if a == u && 0 <= b < adj.len() {
                let l = adj[u].push(v as usize);
                if adj[u].contains(b as usize) {
                    let k = choose|k: int| 0 <= k < adj[u].len() && adj[u][k] == b as usize;
                    assert(l[k] == b as usize);
                }
                if l.contains(b as usize) && b != v {
                    let k = choose|k: int| 0 <= k < l.len() && l[k] == b as usize;
                    if k == adj[u].len() {
                        assert(l[k] == v as usize);
                        assert(b as usize == v as usize);
                    }
                    assert(adj[u][k] == b as usize);
                }
                if b == v {
                    assert(l[l.len() - 1] == v as usize);
                }
            }
        }
    }
}

/// A walk in a graph is a walk in any graph with at least its edges.
pub proof fn lemma_walk_monotone(adj: Seq<Seq<usize>>, adj2: Seq<Seq<usize>>, w: Seq<int>)
    requires
        is_walk(adj, w),
        adj2.len() == adj.len(),
        forall|a: int, b: int| edge(adj, a, b) ==> #[trigger] edge(adj2, a, b),
    ensures
        is_walk(adj2, w),
{
    assert forall|i: int| 0 <= i < w.len() - 1 implies #[trigger] step(adj2, w, i) by {
        assert(step(adj, w, i));
    }
}

/// A walk after adding the edge `p -> d` is an old walk, or its start reaches
/// `p` and `d` reaches its end in the old graph.
pub proof fn lemma_walk_with_edge(adj: Seq<Seq<usize>>, p: int, d: int, w: Seq<int>)
    requires
        adj.len() <= usize::MAX,
        0 <= p < adj.len(),
        0 <= d < adj.len(),
        is_walk(with_edge(adj, p, d), w),
    ensures
        is_walk(adj, w) || (reaches(adj, w[0], p) && reaches(adj, d, w.last())),
    decreases w.len(),
{
    let adj2 = with_edge(adj, p, d);
    lemma_with_edge(adj, p, d);
    if w.len() == 1 {
        assert(is_walk(adj, w));
    } else {
        lemma_walk_drop_first(adj2, w);
        let r = w.drop_first();
        lemma_walk_with_edge(adj, p, d, r);
        assert(r[0] == w[1] && r.last() == w.last());
        let w0 = w[0];
        let w1 = w[1];
        assert(edge(adj2, w0, w1));
        if edge(adj, w0, w1) {
            if is_walk(adj, r) {
                let first = seq![w0, w1];
                assert(step(adj, first, 0));
                assert(is_walk(adj, first));
                lemma_walk_concat(adj, first, r);
                assert(first + r.drop_first() =~= w);
            } else {
                lemma_reaches_edge(adj, w0, w1);
                lemma_reaches_trans(adj, w0, w1, p);
            }
        } else {
            assert(w0 == p && w1 == d);
            lemma_reaches_self(adj, p);
            if is_walk(adj, r) {
                assert(is_walk(adj, r) && r[0] == d && r.last() == w.last());
            }
        }
    }
}

/// In a graph without cycles, adding the edge `p -> d` creates a cycle
/// exactly when `d` already reaches `p`.
pub proof fn lemma_new_edge_cycle(adj: Seq<Seq<usize>>, p: int, d: int)
    requires
        adj.len() <= usize::MAX,
        0 <= p < adj.len(),
        0 <= d < adj.len(),
        !has_cycle(adj),
    ensures
        has_cycle(with_edge(adj, p, d)) <==> reaches(adj, d, p),
{
    let adj2 = with_edge(adj, p, d);
    lemma_with_edge(adj, p, d);
    if has_cycle(adj2) {
        let w = choose|w: Seq<int>| #[trigger] is_walk(adj2, w) && w.len() >= 2 && w[0] == w.last();
        lemma_walk_with_edge(adj, p, d, w);
        if is_walk(adj, w) {
            assert(has_cycle(adj));
        } else {
            lemma_reaches_trans(adj, d, w.last(), p);
        }
    }
    if reaches(adj, d, p) {
        let w = choose|w: Seq<int>| #[trigger] is_walk(adj, w) && w[0] == d && w.last() == p;
        lemma_walk_monotone(adj, adj2, w);
        let first = seq![p, d];
        assert(step(adj2, first, 0));
        assert(is_walk(adj2, first));
        lemma_walk_concat(adj2, first, w);
        let c = first + w.drop_first();
        assert(is_walk(adj2, c) && c.len() >= 2 && c[0] == c.last());
    }
}

/// A node that reaches `u`, followed by an edge from `u` back to it, is a cycle.
pub proof fn lemma_back_edge_cycle(adj: Seq<Seq<usize>>, v: int, u: int)
    requires
        reaches(adj, v, u),
        edge(adj, u, v),
    ensures
        has_cycle(adj),
{
    let w = choose|w: Seq<int>| #[trigger] is_walk(adj, w) && w[0] == v && w.last() == u;
    let e = seq![u, v];
    assert(step(adj, e, 0));
    assert(is_walk(adj, e));
    lemma_walk_concat(adj, w, e);
    let c = w + e.drop_first();
    assert(is_walk(adj, c) && c.len() >= 2 && c[0] == c.last());
}

/// The number of unmarked entries.
pub open spec fn count_unmarked(s: Seq<bool>) -> nat
    decreases s.len(),
{
    if s.len() == 0 {
        0
    } else {
        count_unmarked(s.drop_last()) + if s.last() { 0nat } else { 1nat }
    }
}

/// Marking more entries never raises the count, and marking a new one lowers it.
pub proof fn lemma_count_unmarked_monotone(s1: Seq<bool>, s2: Seq<bool>)
    requires
        s1.len() == s2.len(),
        forall|i: int| 0 <= i < s1.len() && #[trigger] s1[i] ==> s2[i],
    ensures
        count_unmarked(s2) <= count_unmarked(s1),
        (exists|i: int| 0 <= i < s1.len() && !s1[i] && #[trigger] s2[i]) ==> count_unmarked(s2) < count_unmarked(s1),
    decreases s1.len(),
{
    if s1.len() > 0 {
        let a = s1.drop_last();
        let b = s2.drop_last();
        assert forall|i: int| 0 <= i < a.len() && #[trigger] a[i] implies b[i] by {
            assert(s1[i]);
        }
        lemma_count_unmarked_monotone(a, b);
        if exists|i: int| 0 <= i < s1.len() && !s1[i] && #[trigger] s2[i] {
            let i = choose|i: int| 0 <= i < s1.len() && !s1[i] && #[trigger] s2[i];
            if i < a.len() {
                assert(!a[i] && b[i]);
            }
        }
    }
}

} // verus!
