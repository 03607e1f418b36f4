//! The graph shared by both dependency graphs: packages as nodes, with an
//! edge from each package to each package it depends on. It never holds a
//! cycle.

use vstd::prelude::*;

use crate::digraph::{
    count_unmarked, closed_under_edges, edge, has_cycle, lemma_back_edge_cycle,
    lemma_closed_holds_walk_end, lemma_count_unmarked_monotone, lemma_new_edge_cycle,
    lemma_reaches_edge, lemma_reaches_push, lemma_reaches_self, lemma_reaches_trans,
    lemma_with_edge, reaches, step, with_edge, is_walk,
};
use crate::domain::package::Package;
use crate::text::str_eq;

verus! {

/// Packages with their dependency edges, by position.
pub struct PackageGraph {
    nodes: Vec<Package>,
    edges: Vec<Vec<usize>>,
}

/// A sequence of distinct positions, each below `n`, that lists every position below `n`.
pub open spec fn is_permutation(order: Seq<usize>, n: nat) -> bool {
    &&& order.len() == n
    &&& order.no_duplicates()
    &&& forall|k: int| 0 <= k < order.len() ==> (#[trigger] order[k] as int) < n
}

/// Each node of `order` comes after every node it has an edge to.
pub open spec fn is_topological(adj: Seq<Seq<usize>>, order: Seq<usize>) -> bool {
    forall|k: int, v: int| 0 <= k < order.len() && #[trigger] edge(adj, order[k] as int, v) ==> order.take(k).contains(v as usize)
}

/// The state of the depth-first search: `visited` marks the nodes reached so
/// far; the finished ones are in `order`, after their successors; the others
/// are the nodes `anc` on the current search path.
pub open spec fn dfs_inv(adj: Seq<Seq<usize>>, visited: Seq<bool>, order: Seq<usize>, anc: Set<int>) -> bool {
    &&& visited.len() == adj.len()
    &&& order.no_duplicates()
    &&& forall|k: int| 0 <= k < order.len() ==> (#[trigger] order[k] as int) < adj.len() && visited[order[k] as int]
    &&& forall|x: int| 0 <= x < adj.len() && #[trigger] visited[x] ==> order.contains(x as usize) || anc.contains(x)
    &&& forall|x: int| #[trigger] anc.contains(x) ==> 0 <= x < adj.len() && visited[x] && !order.contains(x as usize)
    &&& is_topological(adj, order)
}

/// What is in a sequence stays in any sequence that extends it.
proof fn lemma_prefix_contains(s1: Seq<usize>, s2: Seq<usize>, x: usize)
    requires
        s2.len() >= s1.len(),
        s2.take(s1.len() as int) == s1,
        s1.contains(x),
    ensures
        s2.contains(x),
{
    let k = choose|k: int| 0 <= k < s1.len() && s1[k] == x;
    assert(s2.take(s1.len() as int)[k] == x);
}

/// A duplicate-free sequence of values below `n` that holds each of them has length `n`.
proof fn lemma_permutation_len(order: Seq<usize>, n: nat)
    requires
        order.no_duplicates(),
        forall|k: int| 0 <= k < order.len() ==> (#[trigger] order[k] as int) < n,
        forall|x: int| 0 <= x < n ==> #[trigger] order.contains(x as usize),
        n <= usize::MAX + 1,
    ensures
        order.len() == n,
{
    let full = Seq::new(n, |i: int| i as usize);
    assert(full.no_duplicates()) by {
        assert forall|i: int, j: int| 0 <= i < full.len() && 0 <= j < full.len() && i != j implies full[i] != full[j] by {}
    }
    assert(full.to_set() =~= order.to_set()) by {
        assert forall|x: usize| full.to_set().contains(x) <==> order.to_set().contains(x) by {
            if full.to_set().contains(x) {
                let i = choose|i: int| 0 <= i < full.len() && full[i] == x;
                assert(order.contains(i as usize));
            }
            if order.to_set().contains(x) {
                let k = choose|k: int| 0 <= k < order.len() && order[k] == x;
                assert(full[x as int] == x);
            }
        }
    }
    full.unique_seq_to_set();
    order.unique_seq_to_set();
}

impl PackageGraph {
    /// The packages, by position.
    pub closed spec fn packages(&self) -> Seq<Package> {
        self.nodes@
    }

    /// The adjacency lists, by position.
    pub closed spec fn adj(&self) -> Seq<Seq<usize>> {
        self.edges@.map_values(|e: Vec<usize>| e@)
    }

    /// The package names, by position.
    pub open spec fn names(&self) -> Seq<Seq<char>> {
        self.packages().map_values(|p: Package| p.name@)
    }

    /// The graph is well formed: one adjacency list per package, distinct
    /// names, edges between existing positions, each edge kept once, and no cycle.
    pub open spec fn wf(&self) -> bool {
        &&& self.packages().len() == self.adj().len()
        &&& self.adj().len() < usize::MAX
        &&& forall|i: int, j: int| 0 <= i < j < self.names().len() ==> (#[trigger] self.names()[i]) != (#[trigger] self.names()[j])
        &&& forall|u: int| 0 <= u < self.adj().len() ==> (#[trigger] self.adj()[u]).no_duplicates()
        &&& forall|u: int, k: int| 0 <= u < self.adj().len() && 0 <= k < self.adj()[u].len() ==> (#[trigger] self.adj()[u][k] as int) < self.adj().len()
        &&& !has_cycle(self.adj())
    }

    /// The position of the package named `name`, if any.
    pub open spec fn position(&self, name: Seq<char>) -> Option<int> {
        if exists|i: int| 0 <= i < self.names().len() && self.names()[i] == name {
            Some(choose|i: int| 0 <= i < self.names().len() && self.names()[i] == name)
        } else {
            None
        }
    }

    /// An empty graph.
    pub fn new() -> (r: Self)
        ensures
            r.wf(),
            r.packages().len() == 0,
    {
        let r = PackageGraph { nodes: Vec::new(), edges: Vec::new() };
        assert(r.adj() =~= Seq::<Seq<usize>>::empty());
        assert(!has_cycle(r.adj())) by {
            if has_cycle(r.adj()) {
                let w = choose|w: Seq<int>| #[trigger] is_walk(r.adj(), w) && w.len() >= 2 && w[0] == w.last();
            }
        }
        r
    }

    /// The number of packages.
    pub fn len(&self) -> (r: usize)
        requires
            self.wf(),
        ensures
            r == self.packages().len(),
    {
        self.nodes.len()
    }

    /// The package at position `i`.
    pub fn node(&self, i: usize) -> (r: &Package)
        requires
            i < self.packages().len(),
        ensures
            *r == self.packages()[i as int],
    {
        &self.nodes[i]
    }

    /// The position of the package named `name`, if any.
    pub fn find(&self, name: &str) -> (r: Option<usize>)
        requires
            self.wf(),
        ensures
            r == match self.position(name@) {
                Some(i) => Some(i as usize),
                None => None::<usize>,
            },
            r matches Some(i) ==> i < self.packages().len() && self.names()[i as int] == name@,
    {
        let mut i: usize = 0;
        while i < self.nodes.len()
            invariant
                self.wf(),
                i <= self.nodes@.len(),
                forall|j: int| 0 <= j < i ==> self.names()[j] != name@,
            decreases self.nodes.len() - i,
        {
            if str_eq(self.nodes[i].name.as_str(), name) {
                assert(self.names()[i as int] == name@);
                let ghost c = choose|c: int| 0 <= c < self.names().len() && self.names()[c] == name@;
                assert(c == i) by {
                    if c != i {
                        if c < i {
                            assert(self.names()[c] != name@);
                        } else {
                            assert(self.names()[i as int] != self.names()[c]);
                        }
                    }
                }
                return Some(i);
            }
            i = i + 1;
        }
        None
    }

    /// The names of all packages, in position order.
    pub fn package_names(&self) -> (r: Vec<String>)
        ensures
            r@.map_values(|s: String| s@) == self.names(),
    {
        let mut r: Vec<String> = Vec::new();
        let mut i: usize = 0;
        while i < self.nodes.len()
            invariant
                i <= self.nodes@.len(),
                r@.len() == i,
                forall|j: int| 0 <= j < i ==> (#[trigger] r@[j])@ == self.names()[j],
            decreases self.nodes.len() - i,
        {
            r.push(self.nodes[i].name.clone());
            i = i + 1;
        }
        assert(r@.map_values(|s: String| s@) =~= self.names());
        r
    }

    /// Add a package under a new name, with no edges.
    pub fn push_node(&mut self, p: Package)
        requires
            old(self).wf(),
            old(self).position(p.name@).is_none(),
            old(self).packages().len() + 1 < usize::MAX,
        ensures
            final(self).wf(),
            final(self).packages() == old(self).packages().push(p),
            final(self).adj() == old(self).adj().push(Seq::<usize>::empty()),
    {
        let ghost old_adj = self.adj();
        let ghost pname = p.name@;
        self.nodes.push(p);
        self.edges.push(Vec::new());
        let ghost adj = self.adj();
        assert(adj =~= old_adj.push(Seq::<usize>::empty()));
        assert forall|i: int, j: int| 0 <= i < j < self.names().len() implies (#[trigger] self.names()[i]) != (#[trigger] self.names()[j]) by {
            if j == self.names().len() - 1 {
                assert(old(self).names()[i] == self.names()[i]);
                assert(!(0 <= i < old(self).names().len() && old(self).names()[i] == pname));
            } else {
                assert(old(self).names()[i] != old(self).names()[j]);
            }
        }
        assert forall|a: int, b: int| #[trigger] edge(adj, a, b) implies edge(old_adj, a, b) by {
            if a == adj.len() - 1 {
                assert(adj[a] =~= Seq::<usize>::empty());
            }
        }
        assert(!has_cycle(adj)) by {
            if has_cycle(adj) {
                let w = choose|w: Seq<int>| #[trigger] is_walk(adj, w) && w.len() >= 2 && w[0] == w.last();
                assert(step(adj, w, 0));
                assert(is_walk(old_adj, w)) by {
                    assert(0 <= w[0] < old_adj.len()) by {
                        assert(edge(old_adj, w[0], w[1]));
                    }
                    assert forall|i: int| 0 <= i < w.len() - 1 implies #[trigger] step(old_adj, w, i) by {
                        assert(step(adj, w, i));
                    }
                }
            }
        }
    }

    /// Replace the package at position `i` by one with the same name.
    pub fn replace_node(&mut self, i: usize, p: Package)
        requires
            old(self).wf(),
            i < old(self).packages().len(),
            p.name@ == old(self).names()[i as int],
        ensures
            final(self).wf(),
            final(self).packages() == old(self).packages().update(i as int, p),
            final(self).adj() == old(self).adj(),
    {
        self.nodes.set(i, p);
        assert(self.names() =~= old(self).names());
    }

    /// The nodes that `start` reaches.
    pub fn reachable_from(&self, start: usize) -> (r: Vec<bool>)
        requires
            self.wf(),
            start < self.packages().len(),
        ensures
            r@.len() == self.adj().len(),
            forall|v: int| 0 <= v < self.adj().len() ==> (#[trigger] r@[v] <==> reaches(self.adj(), start as int, v)),
    {
        let n = self.edges.len();
        let ghost adj = self.adj();
        let mut seen: Vec<bool> = Vec::new();
        let mut i: usize = 0;
        while i < n
            invariant
                n == adj.len(),
                i <= n,
                seen@.len() == i,
                forall|j: int| 0 <= j < i ==> !(#[trigger] seen@[j]),
            decreases n - i,
        {
            seen.push(false);
            i = i + 1;
        }
        seen.set(start, true);
        proof {
            lemma_reaches_self(adj, start as int);
        }
        let mut stack: Vec<usize> = Vec::new();
        stack.push(start);
        assert(stack@[0] == start);
        assert forall|u: int, v: int| 0 <= u < n && #[trigger] seen@[u] && !stack@.contains(u as usize) && #[trigger] edge(adj, u, v) implies seen@[v] by {
            if u != start as int {
                assert(!seen@[u]);
            }
        }
        while stack.len() > 0
            invariant
                self.wf(),
                adj == self.adj(),
                n == adj.len(),
                seen@.len() == n,
                seen@[start as int],
                stack@.no_duplicates(),
                forall|k: int| 0 <= k < stack@.len() ==> (#[trigger] stack@[k] as int) < n && seen@[stack@[k] as int],
                forall|v: int| 0 <= v < n && #[trigger] seen@[v] ==> reaches(adj, start as int, v),
                forall|u: int, v: int| 0 <= u < n && #[trigger] seen@[u] && !stack@.contains(u as usize) && #[trigger] edge(adj, u, v) ==> seen@[v],
            decreases count_unmarked(seen@), stack@.len(),
        {
            let ghost stack_before_pop = stack@;
            let u = stack.pop().unwrap();
            let ghost seen_at_pop = seen@;
            let ghost stack_at_pop = stack@;
            assert(stack_before_pop =~= stack@.push(u));
            assert(!stack@.contains(u)) by {
                if stack@.contains(u) {
                    let q = choose|q: int| 0 <= q < stack@.len() && stack@[q] == u;
                    assert(stack_before_pop[q] == stack_before_pop[stack_before_pop.len() - 1]);
                }
            }
            assert forall|a: int, v: int| 0 <= a < n && a != u && #[trigger] seen@[a] && !stack@.contains(a as usize) && #[trigger] edge(adj, a, v) implies seen@[v] by {
                if stack_before_pop.contains(a as usize) {
                    let q = choose|q: int| 0 <= q < stack_before_pop.len() && stack_before_pop[q] == a as usize;
                    if q < stack@.len() {
                        assert(stack@[q] == a as usize);
                    }
                }
            }
            let list = &self.edges[u];
            assert(list@ == adj[u as int]);
            let mut k: usize = 0;
            while k < list.len()
                invariant
                    self.wf(),
                    adj == self.adj(),
                    n == adj.len(),
                    u < n,
                    list@ == adj[u as int],
                    k <= list@.len(),
                    seen@.len() == n,
                    seen_at_pop.len() == n,
                    seen@[start as int],
                    seen@[u as int],
                    !stack@.contains(u),
                    stack@.no_duplicates(),
                    stack@.len() >= stack_at_pop.len(),
                    stack@.len() > stack_at_pop.len() ==> count_unmarked(seen@) < count_unmarked(seen_at_pop),
                    forall|x: int| 0 <= x < n && #[trigger] seen_at_pop[x] ==> seen@[x],
                    forall|q: int| 0 <= q < stack@.len() ==> (#[trigger] stack@[q] as int) < n && seen@[stack@[q] as int],
                    forall|v: int| 0 <= v < n && #[trigger] seen@[v] ==> reaches(adj, start as int, v),
                    forall|j: int| 0 <= j < k ==> seen@[#[trigger] list@[j] as int],
                    forall|a: int, v: int| 0 <= a < n && a != u && #[trigger] seen@[a] && !stack@.contains(a as usize) && #[trigger] edge(adj, a, v) ==> seen@[v],
                decreases list@.len() - k,
            {
                let v = list[k];
                assert(v < n);
                if !seen[v] {
                    let ghost before = seen@;
                    seen.set(v, true);
                    proof {
                        assert(edge(adj, u as int, v as int));
                        lemma_reaches_push(adj, start as int, u as int, v as int);
                        assert(!seen_at_pop[v as int]);
                        assert(!seen_at_pop[v as int] && seen@[v as int]);
                        lemma_count_unmarked_monotone(seen_at_pop, seen@);
                    }
                    let ghost st = stack@;
                    stack.push(v);
                    assert(stack@[stack@.len() - 1] == v);
                    assert(stack@.no_duplicates()) by {
                        assert forall|a: int, b: int| 0 <= a < b < stack@.len() implies stack@[a] != stack@[b] by {
                            if b == stack@.len() - 1 {
                                assert(seen@[st[a] as int]);
                                assert(before[st[a] as int]);
                            } else {
                                assert(st[a] != st[b]);
                            }
                        }
                    }
                    assert forall|a: int, w: int| 0 <= a < n && a != u && #[trigger] seen@[a] && !stack@.contains(a as usize) && #[trigger] edge(adj, a, w) implies seen@[w] by {
                        assert(a != v);
                        assert(before[a]);
                        assert(!st.contains(a as usize)) by {
                            if st.contains(a as usize) {
                                let q = choose|q: int| 0 <= q < st.len() && st[q] == a as usize;
                                assert(stack@[q] == a as usize);
                            }
                        }
                    }
                }
                k = k + 1;
            }
            assert forall|a: int, w: int| 0 <= a < n && #[trigger] seen@[a] && !stack@.contains(a as usize) && #[trigger] edge(adj, a, w) implies seen@[w] by {
                if a == u {
                    let j = choose|j: int| 0 <= j < list@.len() && list@[j] == w as usize;
                    assert(seen@[list@[j] as int]);
                }
            }
            proof {
                lemma_count_unmarked_monotone(seen_at_pop, seen@);
            }
        }
        assert forall|v: int| 0 <= v < n implies (#[trigger] seen@[v] <==> reaches(adj, start as int, v)) by {
            if reaches(adj, start as int, v) {
                let w = choose|w: Seq<int>| #[trigger] is_walk(adj, w) && w[0] == start as int && w.last() == v;
                assert(closed_under_edges(adj, seen@)) by {
                    assert forall|a: int, b: int| 0 <= a < adj.len() && #[trigger] seen@[a] && #[trigger] edge(adj, a, b) implies seen@[b] by {
                        assert(!stack@.contains(a as usize));
                    }
                }
                lemma_closed_holds_walk_end(adj, seen@, w);
            }
        }
        seen
    }

    /// Whether the package at `from` depends, directly or not, on the one at `to`
    /// (a package reaches itself).
    pub fn reaches_exec(&self, from: usize, to: usize) -> (r: bool)
        requires
            self.wf(),
            from < self.packages().len(),
            to < self.packages().len(),
        ensures
            r == reaches(self.adj(), from as int, to as int),
    {
        let seen = self.reachable_from(from);
        seen[to]
    }

    /// Add an edge from `u` to `v`, which must not close a cycle.
    pub fn add_edge(&mut self, u: usize, v: usize)
        requires
            old(self).wf(),
            u < old(self).packages().len(),
            v < old(self).packages().len(),
            !reaches(old(self).adj(), v as int, u as int),
        ensures
            final(self).wf(),
            final(self).packages() == old(self).packages(),
            final(self).adj() == with_edge(old(self).adj(), u as int, v as int),
    {
        let ghost adj = self.adj();
        proof {
            lemma_with_edge(adj, u as int, v as int);
            lemma_new_edge_cycle(adj, u as int, v as int);
        }
        let mut list: Vec<usize> = Vec::new();
        self.edges.set_and_swap(u, &mut list);
        assert(list@ == adj[u as int]);
        let mut present = false;
        let mut k: usize = 0;
        while k < list.len()
            invariant
                k <= list@.len(),
                present == list@.take(k as int).contains(v),
            decreases list@.len() - k,
        {
            assert(list@.take(k + 1) =~= list@.take(k as int).push(list@[k as int]));
            if list[k] == v {
                present = true;
                assert(list@.take(k + 1)[k as int] == v);
            } else {
                assert(list@.take(k + 1).contains(v) ==> list@.take(k as int).contains(v)) by {
                    let t1 = list@.take(k + 1);
                    if t1.contains(v) {
                        let q = choose|q: int| 0 <= q < t1.len() && t1[q] == v;
                        assert(list@.take(k as int)[q] == v);
                    }
                }
                assert(list@.take(k as int).contains(v) ==> list@.take(k + 1).contains(v)) by {
                    let t0 = list@.take(k as int);
                    if t0.contains(v) {
                        let q = choose|q: int| 0 <= q < t0.len() && t0[q] == v;
                        assert(list@.take(k + 1)[q] == v);
                    }
                }
            }
            k = k + 1;
        }
        assert(list@.take(list@.len() as int) =~= list@);
        if !present {
            let ghost before = list@;
            list.push(v);
            assert(list@.no_duplicates()) by {
                assert forall|a: int, b: int| 0 <= a < b < list@.len() implies list@[a] != list@[b] by {
                    if b == list@.len() - 1 {
                        assert(before[a] != v);
                    } else {
                        assert(before[a] != before[b]);
                    }
                }
            }
        }
        let ghost newlist = list@;
        self.edges.set(u, list);
        assert(self.adj() =~= with_edge(adj, u as int, v as int));
        proof {
            let a2 = self.adj();
            assert(!has_cycle(a2));
            assert forall|x: int| 0 <= x < a2.len() implies (#[trigger] a2[x]).no_duplicates() by {
                if x != u as int {
                    assert(a2[x] == adj[x]);
                }
            }
            assert forall|x: int, q: int| 0 <= x < a2.len() && 0 <= q < a2[x].len() implies (#[trigger] a2[x][q] as int) < a2.len() by {
                if x != u as int {
                    assert(a2[x] == adj[x]);
                } else if q < adj[u as int].len() {
                    assert(a2[x][q] == adj[x][q]);
                }
            }
            assert(self.names() =~= old(self).names());
        }
    }

    /// Depth-first search from `u`, appending `u` and every unvisited node it
    /// reaches to `order`, each after its successors.
    fn visit(&self, u: usize, visited: &mut Vec<bool>, order: &mut Vec<usize>, Ghost(anc): Ghost<Set<int>>)
        requires
            self.wf(),
            u < self.adj().len(),
            !old(visited)@[u as int],
            dfs_inv(self.adj(), old(visited)@, old(order)@, anc),
            forall|x: int| #[trigger] anc.contains(x) ==> reaches(self.adj(), x, u as int),
        ensures
            dfs_inv(self.adj(), final(visited)@, final(order)@, anc),
            final(visited)@[u as int],
            final(order)@.contains(u),
            final(order)@.len() >= old(order)@.len(),
            final(order)@.take(old(order)@.len() as int) == old(order)@,
            forall|x: int| 0 <= x < self.adj().len() && #[trigger] old(visited)@[x] ==> final(visited)@[x],
        decreases count_unmarked(old(visited)@),
    {
        let ghost adj = self.adj();
        let ghost n = adj.len();
        let ghost visited0 = visited@;
        let ghost order0 = order@;
        visited.set(u, true);
        let ghost anc2 = anc.insert(u as int);
        proof {
            assert(!order0.contains(u)) by {
                if order0.contains(u) {
                    let k = choose|k: int| 0 <= k < order0.len() && order0[k] == u;
                    assert(visited0[order0[k] as int]);
                }
            }
            assert(!anc.contains(u as int));
            assert(visited0[u as int] == false && visited@[u as int]);
            lemma_count_unmarked_monotone(visited0, visited@);
            lemma_reaches_self(adj, u as int);
        }
        assert(dfs_inv(adj, visited@, order@, anc2));
        let list = &self.edges[u];
        assert(list@ == adj[u as int]);
        let mut k: usize = 0;
        while k < list.len()
            invariant
                self.wf(),
                adj == self.adj(),
                n == adj.len(),
                u < n,
                list@ == adj[u as int],
                k <= list@.len(),
                anc2 == anc.insert(u as int),
                !anc.contains(u as int),
                forall|x: int| #[trigger] anc.contains(x) ==> reaches(adj, x, u as int),
                dfs_inv(adj, visited@, order@, anc2),
                visited@[u as int],
                order@.len() >= order0.len(),
                order@.take(order0.len() as int) == order0,
                forall|x: int| 0 <= x < n && #[trigger] visited0[x] ==> visited@[x],
                visited0.len() == n,
                visited0 == old(visited)@,
                count_unmarked(visited@) < count_unmarked(visited0),
                forall|j: int| 0 <= j < k ==> order@.contains(#[trigger] list@[j]),
            decreases list@.len() - k,
        {
            let v = list[k];
            if !visited[v] {
                let ghost vis_before = visited@;
                let ghost ord_before = order@;
                proof {
                    assert(edge(adj, u as int, v as int));
                    assert forall|x: int| #[trigger] anc2.contains(x) implies reaches(adj, x, v as int) by {
                        if x == u as int {
                            lemma_reaches_edge(adj, u as int, v as int);
                        } else {
                            lemma_reaches_push(adj, x, u as int, v as int);
                        }
                    }
                }
                assert(visited0 == old(visited)@);
                assert(count_unmarked(visited@) < count_unmarked(old(visited)@));
                self.visit(v, visited, order, Ghost(anc2));
                proof {
                    assert forall|j: int| 0 <= j < k + 1 implies order@.contains(#[trigger] list@[j]) by {
                        if j < k {
                            lemma_prefix_contains(ord_before, order@, list@[j]);
                        }
                    }
                    assert(order@.take(order0.len() as int) =~= order0) by {
                        assert(order@.take(ord_before.len() as int) == ord_before);
                        assert forall|i: int| 0 <= i < order0.len() implies order@[i] == order0[i] by {
                            assert(ord_before.take(order0.len() as int)[i] == order0[i]);
                            assert(order@.take(ord_before.len() as int)[i] == ord_before[i]);
                        }
                    }
                    lemma_count_unmarked_monotone(vis_before, visited@);
                }
            } else {
                proof {
                    if !order@.contains(v) {
                        assert(anc2.contains(v as int));
                        if v as int == u as int {
                            lemma_reaches_self(adj, u as int);
                        }
                        assert(reaches(adj, v as int, u as int));
                        assert(edge(adj, u as int, v as int));
                        lemma_back_edge_cycle(adj, v as int, u as int);
                    }
                }
            }
            k = k + 1;
        }
        let ghost ord_before = order@;
        order.push(u);
        proof {
            let ord = order@;
            assert(ord.take(ord_before.len() as int) =~= ord_before);
            assert(!ord_before.contains(u));
            assert(ord.no_duplicates()) by {
                assert forall|a: int, b: int| 0 <= a < b < ord.len() implies ord[a] != ord[b] by {
                    if b == ord.len() - 1 {
                        assert(ord_before[a] != u) by {
                            if ord_before[a] == u {
                                assert(ord_before.contains(u));
                            }
                        }
                    } else {
                        assert(ord_before[a] != ord_before[b]);
                    }
                }
            }
            assert forall|x: int| 0 <= x < n && #[trigger] visited@[x] implies ord.contains(x as usize) || anc.contains(x) by {
                if x == u as int {
                    assert(ord[ord.len() - 1] == u);
                } else if ord_before.contains(x as usize) {
                    lemma_prefix_contains(ord_before, ord, x as usize);
                }
            }
            assert forall|x: int| #[trigger] anc.contains(x) implies 0 <= x < n && visited@[x] && !ord.contains(x as usize) by {
                assert(anc2.contains(x));
                if ord.contains(x as usize) {
                    let q = choose|q: int| 0 <= q < ord.len() && ord[q] == x as usize;
                    if q < ord_before.len() {
                        assert(ord_before[q] == x as usize);
                    } else {
                        assert(x == u as int);
                    }
                }
            }
            assert forall|k2: int, v: int| 0 <= k2 < ord.len() && #[trigger] edge(adj, ord[k2] as int, v) implies ord.take(k2).contains(v as usize) by {
                if k2 < ord_before.len() {
                    assert(ord[k2] == ord_before[k2]);
                    assert(ord.take(k2) =~= ord_before.take(k2));
                } else {
                    assert(ord[k2] == u);
                    assert(adj[u as int].contains(v as usize));
                    let j = choose|j: int| 0 <= j < list@.len() && list@[j] == v as usize;
                    assert(ord_before.contains(list@[j]));
                    assert(ord.take(k2) =~= ord_before);
                }
            }
            assert forall|q: int| 0 <= q < ord.len() implies (#[trigger] ord[q] as int) < n && visited@[ord[q] as int] by {
                if q < ord_before.len() {
                    assert(ord[q] == ord_before[q]);
                }
            }
            assert(ord[ord.len() - 1] == u);
            assert(ord.take(order0.len() as int) =~= order0) by {
                assert forall|i: int| 0 <= i < order0.len() implies ord[i] == order0[i] by {
                    assert(ord_before.take(order0.len() as int)[i] == order0[i]);
                }
            }
        }
    }

    /// The positions of all packages, each after every package it has an edge to.
    pub fn topological_order(&self) -> (r: Vec<usize>)
        requires
            self.wf(),
        ensures
            is_permutation(r@, self.adj().len()),
            is_topological(self.adj(), r@),
    {
        let n = self.edges.len();
        let ghost adj = self.adj();
        let mut visited: Vec<bool> = Vec::new();
        let mut i: usize = 0;
        while i < n
            invariant
                n == adj.len(),
                i <= n,
                visited@.len() == i,
                forall|j: int| 0 <= j < i ==> !(#[trigger] visited@[j]),
            decreases n - i,
        {
            visited.push(false);
            i = i + 1;
        }
        let mut order: Vec<usize> = Vec::new();
        assert(dfs_inv(adj, visited@, order@, Set::<int>::empty()));
        let mut i: usize = 0;
        while i < n
            invariant
                self.wf(),
                adj == self.adj(),
                n == adj.len(),
                i <= n,
                dfs_inv(adj, visited@, order@, Set::<int>::empty()),
                forall|j: int| 0 <= j < i ==> #[trigger] visited@[j],
            decreases n - i,
        {
            if !visited[i] {
                let ghost vis_before = visited@;
                self.visit(i, &mut visited, &mut order, Ghost(Set::<int>::empty()));
                assert forall|j: int| 0 <= j < i + 1 implies #[trigger] visited@[j] by {
                    if j < i {
                        assert(vis_before[j]);
                    }
                }
            }
            i = i + 1;
        }
        proof {
            assert forall|x: int| 0 <= x < n implies #[trigger] order@.contains(x as usize) by {
                assert(visited@[x]);
            }
            lemma_permutation_len(order@, n as nat);
        }
        order
    }
}

} // verus!
