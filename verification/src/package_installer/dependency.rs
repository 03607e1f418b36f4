//! Resolving a package's dependencies into the order in which to install
//! them: every dependency before the packages that need it.

use vstd::prelude::*;

use crate::config::Config;
use crate::digraph::{edge, is_walk, lemma_reaches_push, lemma_reaches_self, lemma_with_edge, reaches, step, with_edge};
use crate::domain::dependency::{installation_order_of, DependencyGraph, DependencyGraphError};
use crate::domain::package::{copy_package, copy_strings, map_has_key, map_lookup, same_package, strings_view, Package};
use crate::package_graph::{is_permutation, is_topological};
use crate::ports::package_repo::{answered_get, repo_error_text, PackageRepoError, PackageRepository};
use crate::text::{concat2, join_strings, str_eq};

verus! {

/// Errors of dependency resolution.
#[derive(Debug)]
pub enum DependencyResolverError {
    PackageNotFound(String),
    CircularDependency(String),
    MultiplePackagesFound(String),
    RepoError(PackageRepoError),
    GraphError(DependencyGraphError),
    EnvironmentNotSupported(String, String),
}

/// The message of a dependency graph error.
pub open spec fn graph_error_text(e: DependencyGraphError) -> Seq<char> {
    match e {
        DependencyGraphError::PackageNotFound(n) => "Package not found: "@ + n@,
        DependencyGraphError::CircularDependency(m, _) => "Circular dependency detected: "@ + m@,
        DependencyGraphError::InvalidDependency(m) => "Invalid dependency: "@ + m@,
    }
}

/// The message of a resolution error.
pub open spec fn resolver_error_text(e: DependencyResolverError) -> Seq<char> {
    match e {
        DependencyResolverError::PackageNotFound(n) => "Package not found: "@ + n@,
        DependencyResolverError::CircularDependency(m) => "Circular dependency detected: "@ + m@,
        DependencyResolverError::MultiplePackagesFound(n) => "Multiple packages found with name: "@ + n@,
        DependencyResolverError::RepoError(r) => "Repository error: "@ + repo_error_text(r),
        DependencyResolverError::GraphError(g) => "Dependency graph error: "@ + graph_error_text(g),
        DependencyResolverError::EnvironmentNotSupported(env, name) => "Environment "@ + env@ + " not supported by package "@ + name@,
    }
}

impl DependencyResolverError {
    /// The error's message.
    pub fn to_string(&self) -> (r: String)
        ensures
            r@ == resolver_error_text(*self),
    {
        match self {
            DependencyResolverError::PackageNotFound(n) => concat2("Package not found: ", n.as_str()),
            DependencyResolverError::CircularDependency(m) => concat2("Circular dependency detected: ", m.as_str()),
            DependencyResolverError::MultiplePackagesFound(n) => concat2("Multiple packages found with name: ", n.as_str()),
            DependencyResolverError::RepoError(r) => {
                let t = r.to_string();
                concat2("Repository error: ", t.as_str())
            },
            DependencyResolverError::GraphError(g) => {
                let t = g.to_string();
                concat2("Dependency graph error: ", t.as_str())
            },
            DependencyResolverError::EnvironmentNotSupported(env, name) => {
                let mut m = concat2("Environment ", env.as_str());
                m.append(" not supported by package ");
                m.append(name.as_str());
                m
            },
        }
    }
}

/// The package has a configuration for the (non-empty) environment.
pub open spec fn supports(p: Package, env: Seq<char>) -> bool {
    env.len() > 0 && map_has_key(p.environments@, env)
}

/// The package's dependencies in the environment.
pub open spec fn env_deps(p: Package, env: Seq<char>) -> Seq<Seq<char>> {
    match map_lookup(p.environments@, env) {
        Some(v) => v.dependencies,
        None => Seq::empty(),
    }
}

/// Some package before position `k` has the name `d`.
pub open spec fn named_before(pkgs: Seq<Package>, k: int, d: Seq<char>) -> bool {
    exists|j: int| 0 <= j < k && #[trigger] pkgs[j].name@ == d
}

/// Every dependency of each package is the name of a package that comes before it.
pub open spec fn dependencies_first(pkgs: Seq<Package>, env: Seq<char>) -> bool {
    forall|k: int, x: int|
        #![trigger env_deps(pkgs[k], env)[x]]
        0 <= k < pkgs.len() && 0 <= x < env_deps(pkgs[k], env).len() ==> named_before(pkgs, k, env_deps(pkgs[k], env)[x])
}

/// No two packages share a name.
pub open spec fn distinct_names(pkgs: Seq<Package>) -> bool {
    forall|i: int, j: int| 0 <= i < j < pkgs.len() ==> (#[trigger] pkgs[i]).name@ != (#[trigger] pkgs[j]).name@
}

/// The packages fetched so far, by the name they were asked for.
spec fn cache_map(c: Seq<(String, Package)>) -> Map<Seq<char>, Package>
    decreases c.len(),
{
    if c.len() == 0 {
        Map::empty()
    } else {
        cache_map(c.drop_last()).insert(c.last().0@, c.last().1)
    }
}

/// `m2` keeps every entry of `m1`.
spec fn keeps(m1: Map<Seq<char>, Package>, m2: Map<Seq<char>, Package>) -> bool {
    forall|k: Seq<char>| #[trigger] m1.contains_key(k) ==> m2.contains_key(k) && m2[k] == m1[k]
}

/// The resolver's error for an error of the repository.
pub open spec fn resolver_error_of(e: PackageRepoError) -> DependencyResolverError {
    match e {
        PackageRepoError::PackageNotFound(n) => DependencyResolverError::PackageNotFound(n),
        PackageRepoError::MultiplePackagesFound(n) => DependencyResolverError::MultiplePackagesFound(n),
        _ => DependencyResolverError::RepoError(e),
    }
}

/// Each package remembered is the package the repository answered for its name.
spec fn cache_answered<R: PackageRepository>(repo: &R, c: Seq<(String, Package)>) -> bool {
    forall|j: int| 0 <= j < c.len() ==> entry_answered(repo, #[trigger] c[j])
}

/// The remembered package is the package the repository answered for its name.
spec fn entry_answered<R: PackageRepository>(repo: &R, e: (String, Package)) -> bool {
    exists|q: Package| #[trigger] answered_get(repo, e.0@, Ok(q)) && same_package(q, e.1)
}

/// Remembering a package the repository answered keeps every remembered
/// package an answer of the repository.
proof fn lemma_cache_push<R: PackageRepository>(repo: &R, c: Seq<(String, Package)>, e: (String, Package), q: Package)
    requires
        cache_answered(repo, c),
        answered_get(repo, e.0@, Ok(q)),
        same_package(q, e.1),
    ensures
        cache_answered(repo, c.push(e)),
{
    let d = c.push(e);
    assert(entry_answered(repo, e));
    assert forall|j: int| 0 <= j < d.len() implies entry_answered(repo, #[trigger] d[j]) by {
        if j < c.len() {
            assert(d[j] == c[j]);
        } else {
            assert(d[j] == e);
        }
    }
}

/// An order of `n` positions without repeats holds every position.
proof fn lemma_permutation_covers(order: Seq<usize>, n: nat, x: int)
    requires
        is_permutation(order, n),
        0 <= x < n,
        n <= usize::MAX,
    ensures
        order.contains(x as usize),
{
    if !order.contains(x as usize) {
        let full = Seq::new(n, |i: int| i as usize);
        assert(full.no_duplicates()) by {
            assert forall|i: int, j: int| 0 <= i < full.len() && 0 <= j < full.len() && i != j implies full[i] != full[j] by {}
        }
        full.unique_seq_to_set();
        order.unique_seq_to_set();
        let rest = full.to_set().remove(x as usize);
        assert(full[x] == x as usize);
        assert(order.to_set().subset_of(rest)) by {
            assert forall|y: usize| order.to_set().contains(y) implies rest.contains(y) by {
                let k = choose|k: int| 0 <= k < order.len() && order[k] == y;
                assert(full[y as int] == y);
            }
        }
        vstd::set_lib::lemma_len_subset(order.to_set(), rest);
    }
}

/// The package supports the environment and the graph has an edge from it
/// to each of its dependencies.
spec fn complete(g: DependencyGraph, p: Package, env: Seq<char>) -> bool {
    &&& supports(p, env)
    &&& forall|x: int| 0 <= x < env_deps(p, env).len() ==> #[trigger] g.depends_on(p.name@, env_deps(p, env)[x])
}

/// Each package of the graph is complete, or is the package fetched for one
/// of the names still being worked on.
spec fn accounted(g: DependencyGraph, m: Map<Seq<char>, Package>, pending: Set<Seq<char>>, env: Seq<char>) -> bool {
    forall|i: int| 0 <= i < g.packages().len() ==> complete(g, #[trigger] g.packages()[i], env) || exists|r: Seq<char>|
        pending.contains(r) && m.contains_key(r) && same_package(m[r], g.packages()[i])
}

/// `g2` keeps the packages of `g1`, in place, and its dependencies.
spec fn grows(g1: DependencyGraph, g2: DependencyGraph) -> bool {
    &&& g1.packages().len() <= g2.packages().len()
    &&& forall|i: int| 0 <= i < g1.packages().len() ==> #[trigger] g2.packages()[i] == g1.packages()[i]
    &&& forall|a: Seq<char>| (#[trigger] g1.position(a)) is Some ==> g2.position(a) == g1.position(a)
    &&& forall|a: Seq<char>, b: Seq<char>| #[trigger] g1.depends_on(a, b) ==> g2.depends_on(a, b)
}

proof fn lemma_cache_found(c: Seq<(String, Package)>, i: int, k: Seq<char>)
    requires
        0 <= i < c.len(),
        c[i].0@ == k,
        forall|j: int| i < j < c.len() ==> (#[trigger] c[j]).0@ != k,
    ensures
        cache_map(c).contains_key(k),
        cache_map(c)[k] == c[i].1,
    decreases c.len(),
{
    if i < c.len() - 1 {
        assert(c.last() == c[c.len() - 1]);
        lemma_cache_found(c.drop_last(), i, k);
    }
}

proof fn lemma_cache_absent(c: Seq<(String, Package)>, k: Seq<char>)
    requires
        forall|j: int| 0 <= j < c.len() ==> (#[trigger] c[j]).0@ != k,
    ensures
        !cache_map(c).contains_key(k),
    decreases c.len(),
{
    if c.len() > 0 {
        assert(c.last() == c[c.len() - 1]);
        lemma_cache_absent(c.drop_last(), k);
    }
}

/// In a graph whose names are distinct, a name's position is where it stands.
proof fn lemma_position(g: DependencyGraph, a: Seq<char>, i: int)
    requires
        g.indexed(),
        0 <= i < g.packages().len(),
        g.packages()[i].name@ == a,
    ensures
        g.position(a) == Some(i),
{
    assert(g.names()[i] == a);
    let c = choose|c: int| 0 <= c < g.names().len() && g.names()[c] == a;
    if c != i {
        if c < i {
            assert(g.names()[c] != g.names()[i]);
        } else {
            assert(g.names()[i] != g.names()[c]);
        }
    }
}

/// The repository names each package it answers with the name it was asked for.
pub open spec fn answers_named<R: PackageRepository>(repo: &R) -> bool {
    forall|n: Seq<char>, p: Package| #[trigger] answered_get(repo, n, Ok(p)) ==> p.name@ == n
}

/// `b` is among the dependencies, in the environment, of a package the
/// repository answered for `a`.
pub open spec fn answered_dep<R: PackageRepository>(repo: &R, env: Seq<char>, a: Seq<char>, b: Seq<char>) -> bool {
    exists|q: Package| #[trigger] answered_get(repo, a, Ok(q)) && env_deps(q, env).contains(b)
}

/// Each name of `w` is an answered dependency of the name before it.
pub open spec fn answer_chain<R: PackageRepository>(repo: &R, env: Seq<char>, w: Seq<Seq<char>>) -> bool {
    &&& w.len() >= 1
    &&& forall|i: int| 0 <= i < w.len() - 1 ==> #[trigger] answered_dep(repo, env, w[i], w[i + 1])
}

/// `n` is reached from `root` through the dependencies of the answered packages.
pub open spec fn reached<R: PackageRepository>(repo: &R, env: Seq<char>, root: Seq<char>, n: Seq<char>) -> bool {
    exists|w: Seq<Seq<char>>| #[trigger] answer_chain(repo, env, w) && w[0] == root && w.last() == n
}

/// A name reached from `root` is reached again from itself: the answered
/// dependencies have a cycle.
pub open spec fn answer_cycle<R: PackageRepository>(repo: &R, env: Seq<char>, root: Seq<char>) -> bool {
    exists|w: Seq<Seq<char>>| #[trigger] answer_chain(repo, env, w) && w.len() >= 2 && w[0] == w.last() && reached(repo, env, root, w[0])
}

/// Every name reached from `root` is answered only with packages that
/// support the environment.
pub open spec fn well_answered<R: PackageRepository>(repo: &R, env: Seq<char>, root: Seq<char>) -> bool {
    forall|n: Seq<char>, a: Result<Package, PackageRepoError>|
        reached(repo, env, root, n) && #[trigger] answered_get(repo, n, a) ==> (a matches Ok(q) && supports(q, env))
}

/// The error of a resolution from `root` is explained by the answers: a
/// cycle among the answered dependencies, a reached name answered with an
/// error or with a package that lacks the environment; or the graph grew too
/// large.
pub open spec fn error_explained<R: PackageRepository>(repo: &R, env: Seq<char>, root: Seq<char>, e: DependencyResolverError) -> bool {
    match e {
        DependencyResolverError::CircularDependency(_) => answer_cycle(repo, env, root),
        DependencyResolverError::EnvironmentNotSupported(_, _) => exists|n: Seq<char>, q: Package|
            reached(repo, env, root, n) && #[trigger] answered_get(repo, n, Ok(q)) && !supports(q, env),
        DependencyResolverError::GraphError(g) => (g matches DependencyGraphError::InvalidDependency(m) && m@ == "too many packages"@)
            || (g is CircularDependency && answer_cycle(repo, env, root)),
        _ => exists|n: Seq<char>, a: PackageRepoError| reached(repo, env, root, n) && #[trigger] answered_get(repo, n, Err(a))
            && e == resolver_error_of(a),
    }
}

/// Every dependency in the graph is an answered dependency.
spec fn edges_answered<R: PackageRepository>(g: DependencyGraph, repo: &R, env: Seq<char>) -> bool {
    forall|a: Seq<char>, b: Seq<char>| #[trigger] g.depends_on(a, b) ==> answered_dep(repo, env, a, b)
}

/// Every package of the graph is a package the repository answered for its
/// name, and its name is reached from `root`.
spec fn nodes_answered<R: PackageRepository>(g: DependencyGraph, repo: &R, env: Seq<char>, root: Seq<char>) -> bool {
    forall|i: int| 0 <= i < g.packages().len() ==> {
        &&& exists|q: Package| #[trigger] answered_get(repo, g.packages()[i].name@, Ok(q)) && same_package(g.packages()[i], q)
        &&& reached(repo, env, root, #[trigger] g.packages()[i].name@)
    }
}

/// A stretch of a chain is a chain.
proof fn lemma_chain_subrange<R: PackageRepository>(repo: &R, env: Seq<char>, w: Seq<Seq<char>>, i: int, j: int)
    requires
        answer_chain(repo, env, w),
        0 <= i < j <= w.len(),
    ensures
        answer_chain(repo, env, w.subrange(i, j)),
{
    let t = w.subrange(i, j);
    assert forall|k: int| 0 <= k < t.len() - 1 implies #[trigger] answered_dep(repo, env, t[k], t[k + 1]) by {
        assert(answered_dep(repo, env, w[i + k], w[i + k + 1]));
    }
}

/// A step of a chain is an answered dependency.
proof fn lemma_chain_step<R: PackageRepository>(repo: &R, env: Seq<char>, w: Seq<Seq<char>>, i: int)
    requires
        answer_chain(repo, env, w),
        0 <= i < w.len() - 1,
    ensures
        answered_dep(repo, env, w[i], w[i + 1]),
{
}

/// A chain followed by an answered dependency of its last name is a chain.
proof fn lemma_chain_push<R: PackageRepository>(repo: &R, env: Seq<char>, w: Seq<Seq<char>>, b: Seq<char>)
    requires
        answer_chain(repo, env, w),
        answered_dep(repo, env, w.last(), b),
    ensures
        answer_chain(repo, env, w.push(b)),
{
    let t = w.push(b);
    assert forall|k: int| 0 <= k < t.len() - 1 implies #[trigger] answered_dep(repo, env, t[k], t[k + 1]) by {
        if k < w.len() - 1 {
            assert(answered_dep(repo, env, w[k], w[k + 1]));
        }
    }
}

/// The names of the packages along a walk of the graph.
spec fn walk_names(g: DependencyGraph, w: Seq<int>) -> Seq<Seq<char>> {
    Seq::new(w.len(), |k: int| g.packages()[w[k]].name@)
}

/// A package added to the graph that the repository answered for its name,
/// under a reached name, keeps every package answered and reached.
proof fn lemma_nodes_push<R: PackageRepository>(
    g1: DependencyGraph,
    g2: DependencyGraph,
    p: Package,
    q: Package,
    repo: &R,
    env: Seq<char>,
    root: Seq<char>,
)
    requires
        nodes_answered(g1, repo, env, root),
        g2.packages() == g1.packages().push(p),
        answered_get(repo, p.name@, Ok(q)),
        same_package(p, q),
        reached(repo, env, root, p.name@),
    ensures
        nodes_answered(g2, repo, env, root),
{
    assert forall|j: int| 0 <= j < g2.packages().len() implies {
        &&& exists|x: Package| #[trigger] answered_get(repo, g2.packages()[j].name@, Ok(x)) && same_package(g2.packages()[j], x)
        &&& reached(repo, env, root, #[trigger] g2.packages()[j].name@)
    } by {
        if j < g1.packages().len() {
            assert(g2.packages()[j] == g1.packages()[j]);
        } else {
            assert(g2.packages()[j] == p);
        }
    }
}

/// A walk of the graph, whose dependencies are answered ones, spells a chain.
proof fn lemma_walk_chain<R: PackageRepository>(g: DependencyGraph, repo: &R, env: Seq<char>, w: Seq<int>)
    requires
        g.indexed(),
        edges_answered(g, repo, env),
        is_walk(g.adj(), w),
    ensures
        answer_chain(repo, env, walk_names(g, w)),
{
    let t = walk_names(g, w);
    assert forall|k: int| 0 <= k < t.len() - 1 implies #[trigger] answered_dep(repo, env, t[k], t[k + 1]) by {
        assert(step(g.adj(), w, k));
        let a = g.packages()[w[k]].name@;
        let b = g.packages()[w[k + 1]].name@;
        lemma_position(g, a, w[k]);
        lemma_position(g, b, w[k + 1]);
        assert(g.depends_on(a, b));
    }
}

/// A package added with no dependencies adds no dependency between names.
proof fn lemma_push_depends(g1: DependencyGraph, g2: DependencyGraph, p: Package)
    requires
        g1.indexed(),
        g2.indexed(),
        g2.packages() == g1.packages().push(p),
        g2.adj() == g1.adj().push(Seq::<usize>::empty()),
    ensures
        forall|a: Seq<char>, b: Seq<char>| #[trigger] g2.depends_on(a, b) ==> g1.depends_on(a, b),
{
    let n = g1.packages().len() as int;
    assert forall|a: Seq<char>, b: Seq<char>| #[trigger] g2.depends_on(a, b) implies g1.depends_on(a, b) by {
        let i = g2.position(a).unwrap();
        let j = g2.position(b).unwrap();
        lemma_position(g2, a, i);
        lemma_position(g2, b, j);
        assert(edge(g2.adj(), i, j));
        assert(i != n);
        assert(g2.adj()[i] == g1.adj()[i]);
        assert(g1.adj()[i].contains(j as usize));
        let k = choose|k: int| 0 <= k < g1.adj()[i].len() && g1.adj()[i][k] == j as usize;
        assert((g1.adj()[i][k] as int) < g1.adj().len());
        assert(j != n);
        assert(g1.names()[i] == a);
        assert(g1.names()[j] == b);
        lemma_position(g1, a, i);
        lemma_position(g1, b, j);
    }
}

/// An added dependency between two names is the only new one.
proof fn lemma_edge_depends(g1: DependencyGraph, g2: DependencyGraph, a0: Seq<char>, b0: Seq<char>)
    requires
        g1.indexed(),
        g1.position(a0) is Some,
        g1.position(b0) is Some,
        g2.packages() == g1.packages(),
        g2.adj() == with_edge(g1.adj(), g1.position(a0).unwrap(), g1.position(b0).unwrap()),
    ensures
        forall|a: Seq<char>, b: Seq<char>| #[trigger] g2.depends_on(a, b) ==> g1.depends_on(a, b) || (a == a0 && b == b0),
{
    let p = g1.position(a0).unwrap();
    let d = g1.position(b0).unwrap();
    lemma_with_edge(g1.adj(), p, d);
    assert(g2.names() =~= g1.names());
    assert forall|a: Seq<char>, b: Seq<char>| #[trigger] g2.depends_on(a, b) implies g1.depends_on(a, b) || (a == a0 && b == b0) by {
        let i = g2.position(a).unwrap();
        let j = g2.position(b).unwrap();
        if !(edge(g1.adj(), i, j)) {
            assert(i == p && j == d);
            lemma_position(g1, a0, p);
            lemma_position(g1, b0, d);
            assert(g1.names()[i] == a);
            assert(g1.names()[j] == b);
        }
    }
}

/// Every package of the graph is reached from the first one.
spec fn rooted(g: DependencyGraph) -> bool {
    forall|i: int| 0 <= i < g.packages().len() ==> #[trigger] reaches(g.adj(), 0, i)
}

/// A walk stays a walk in a graph that keeps its edges.
proof fn lemma_reaches_grow(adj: Seq<Seq<usize>>, adj2: Seq<Seq<usize>>, a: int, b: int)
    requires
        reaches(adj, a, b),
        adj.len() <= adj2.len(),
        forall|x: int, y: int| edge(adj, x, y) ==> #[trigger] edge(adj2, x, y),
    ensures
        reaches(adj2, a, b),
{
    let w = choose|w: Seq<int>| #[trigger] is_walk(adj, w) && w[0] == a && w.last() == b;
    assert forall|i: int| 0 <= i < w.len() - 1 implies #[trigger] step(adj2, w, i) by {
        assert(step(adj, w, i));
    }
    assert(is_walk(adj2, w));
}

/// Rootedness carries over to a graph that keeps the edges and adds no package.
proof fn lemma_rooted_grow(g1: DependencyGraph, g2: DependencyGraph)
    requires
        rooted(g1),
        g1.packages().len() == g2.packages().len(),
        g1.adj().len() <= g2.adj().len(),
        forall|x: int, y: int| edge(g1.adj(), x, y) ==> #[trigger] edge(g2.adj(), x, y),
    ensures
        rooted(g2),
{
    assert forall|i: int| 0 <= i < g2.packages().len() implies #[trigger] reaches(g2.adj(), 0, i) by {
        assert(reaches(g1.adj(), 0, i));
        lemma_reaches_grow(g1.adj(), g2.adj(), 0, i);
    }
}

/// In a topological order, the end of a walk of at least one step comes
/// before its start.
proof fn lemma_walk_order(adj: Seq<Seq<usize>>, perm: Seq<usize>, w: Seq<int>, k: int)
    requires
        is_topological(adj, perm),
        adj.len() <= usize::MAX,
        is_walk(adj, w),
        w.len() >= 2,
        0 <= k < perm.len(),
        perm[k] as int == w[0],
    ensures
        exists|j: int| 0 <= j < k && perm[j] as int == w.last(),
    decreases w.len(),
{
    assert(step(adj, w, 0));
    assert(edge(adj, perm[k] as int, w[1]));
    assert(perm.take(k).contains(w[1] as usize));
    let j1 = choose|j: int| 0 <= j < perm.take(k).len() && perm.take(k)[j] == w[1] as usize;
    assert(perm[j1] == w[1] as usize);
    assert(perm[j1] as int == w[1]);
    if w.len() > 2 {
        let t = w.drop_first();
        assert forall|i: int| 0 <= i < t.len() - 1 implies #[trigger] step(adj, t, i) by {
            assert(step(adj, w, i + 1));
        }
        assert(0 <= w[1]);
        assert(is_walk(adj, t));
        lemma_walk_order(adj, perm, t, j1);
        let j = choose|j: int| 0 <= j < j1 && perm[j] as int == t.last();
        assert(perm[j] as int == w.last());
    } else {
        assert(w.last() == w[1]);
    }
}

/// A package added under a new name keeps everything the graph had.
proof fn lemma_push_grows(g1: DependencyGraph, g2: DependencyGraph, p: Package)
    requires
        g1.indexed(),
        g2.indexed(),
        g2.packages() == g1.packages().push(p),
        g2.adj() == g1.adj().push(Seq::<usize>::empty()),
    ensures
        grows(g1, g2),
        g2.position(p.name@) == Some(g1.packages().len() as int),
{
    assert forall|a: Seq<char>, b: Seq<char>| #[trigger] g1.depends_on(a, b) implies g2.depends_on(a, b) by {
        let i = g1.position(a).unwrap();
        let j = g1.position(b).unwrap();
        lemma_position(g2, a, i);
        lemma_position(g2, b, j);
        assert(g2.adj()[i] == g1.adj()[i]);
    }
    assert forall|a: Seq<char>| (#[trigger] g1.position(a)) is Some implies g2.position(a) == g1.position(a) by {
        lemma_position(g2, a, g1.position(a).unwrap());
    }
    lemma_position(g2, p.name@, g1.packages().len() as int);
}

/// A dependency added between two packages keeps everything the graph had, and holds.
proof fn lemma_edge_grows(g1: DependencyGraph, g2: DependencyGraph, a: Seq<char>, b: Seq<char>)
    requires
        g1.indexed(),
        g1.position(a) is Some,
        g1.position(b) is Some,
        g2.packages() == g1.packages(),
        g2.adj() == with_edge(g1.adj(), g1.position(a).unwrap(), g1.position(b).unwrap()),
    ensures
        grows(g1, g2),
        g2.depends_on(a, b),
{
    let p = g1.position(a).unwrap();
    let d = g1.position(b).unwrap();
    assert(g2.names() =~= g1.names());
    lemma_with_edge(g1.adj(), p, d);
    assert forall|x: Seq<char>, y: Seq<char>| #[trigger] g1.depends_on(x, y) implies g2.depends_on(x, y) by {
        let i = g1.position(x).unwrap();
        let j = g1.position(y).unwrap();
        assert(edge(g2.adj(), i, j));
    }
    assert(edge(g2.adj(), p, d));
}

/// Completeness carries over to a larger graph.
proof fn lemma_complete_grows(g1: DependencyGraph, g2: DependencyGraph, p: Package, env: Seq<char>)
    requires
        grows(g1, g2),
        complete(g1, p, env),
    ensures
        complete(g2, p, env),
{
    assert forall|x: int| 0 <= x < env_deps(p, env).len() implies #[trigger] g2.depends_on(p.name@, env_deps(p, env)[x]) by {
        assert(g1.depends_on(p.name@, env_deps(p, env)[x]));
    }
}

/// Accounting carries over to a larger graph whose new packages are accounted for.
proof fn lemma_accounted_grows(
    g1: DependencyGraph,
    g2: DependencyGraph,
    m1: Map<Seq<char>, Package>,
    m2: Map<Seq<char>, Package>,
    p1: Set<Seq<char>>,
    p2: Set<Seq<char>>,
    env: Seq<char>,
)
    requires
        grows(g1, g2),
        keeps(m1, m2),
        p1.subset_of(p2),
        accounted(g1, m1, p1, env),
        forall|i: int| g1.packages().len() <= i < g2.packages().len() ==> complete(g2, #[trigger] g2.packages()[i], env) || exists|r: Seq<char>|
            p2.contains(r) && m2.contains_key(r) && same_package(m2[r], g2.packages()[i]),
    ensures
        accounted(g2, m2, p2, env),
{
    assert forall|i: int| 0 <= i < g2.packages().len() implies complete(g2, #[trigger] g2.packages()[i], env) || exists|r: Seq<char>|
        p2.contains(r) && m2.contains_key(r) && same_package(m2[r], g2.packages()[i]) by {
        if i < g1.packages().len() {
            assert(g2.packages()[i] == g1.packages()[i]);
            if complete(g1, g1.packages()[i], env) {
                lemma_complete_grows(g1, g2, g1.packages()[i], env);
            } else {
                let r = choose|r: Seq<char>| p1.contains(r) && m1.contains_key(r) && same_package(m1[r], g1.packages()[i]);
                assert(p2.contains(r) && m2.contains_key(r) && same_package(m2[r], g2.packages()[i]));
            }
        }
    }
}

/// Resolves dependencies through a package repository, for the configured environment.
pub struct DependencyResolver<'a, R: PackageRepository> {
    package_repo: &'a R,
    config: &'a Config,
}

/// The resolver's error for a repository error.
fn repo_error(e: PackageRepoError) -> (r: DependencyResolverError)
    ensures
        r == resolver_error_of(e),
        e matches PackageRepoError::PackageNotFound(n) ==> r == DependencyResolverError::PackageNotFound(n),
        e matches PackageRepoError::MultiplePackagesFound(n) ==> r == DependencyResolverError::MultiplePackagesFound(n),
        !(e is PackageNotFound) && !(e is MultiplePackagesFound) ==> r == DependencyResolverError::RepoError(e),
{
    match e {
        PackageRepoError::PackageNotFound(n) => DependencyResolverError::PackageNotFound(n),
        PackageRepoError::MultiplePackagesFound(n) => DependencyResolverError::MultiplePackagesFound(n),
        other => DependencyResolverError::RepoError(other),
    }
}

/// Whether the graph has a package with the name.
fn graph_has(graph: &DependencyGraph, name: &str) -> (r: bool)
    ensures
        r == (graph.position(name@) is Some),
{
    let names = graph.get_package_names();
    let mut i: usize = 0;
    while i < names.len()
        invariant
            i <= names.len(),
            names@.map_values(|s: String| s@) == graph.names(),
            forall|j: int| 0 <= j < i ==> graph.names()[j] != name@,
        decreases names.len() - i,
    {
        assert(names@.map_values(|s: String| s@)[i as int] == names@[i as int]@);
        if str_eq(names[i].as_str(), name) {
            assert(graph.names()[i as int] == name@);
            return true;
        }
        i = i + 1;
    }
    false
}

impl<'a, R: PackageRepository> DependencyResolver<'a, R> {
    /// The configuration the resolver works with.
    pub closed spec fn config(&self) -> Config {
        *self.config
    }

    /// The repository the resolver asks.
    pub closed spec fn repository(&self) -> &'a R {
        self.package_repo
    }

    /// A resolver over the repository, for the configuration.
    pub fn new(package_repo: &'a R, config: &'a Config) -> (r: Self)
        ensures
            r.config() == *config,
            r.repository() == package_repo,
    {
        DependencyResolver { package_repo, config }
    }

    /// Add the package named `package_name` and, recursively, its
    /// dependencies to the graph, with an edge from each package to each of
    /// its dependencies. `visited` holds the names on the way here; it gets
    /// this name added. A name already on the way closes a cycle.
    fn build_dependency_graph(
        &self,
        graph: &mut DependencyGraph,
        package_name: &str,
        visited: &mut Vec<String>,
        cache: &mut Vec<(String, Package)>,
        Ghost(root): Ghost<Seq<char>>,
    ) -> (r: Result<(), DependencyResolverError>)
        requires
            cache_answered(self.repository(), old(cache)@),
            answer_chain(self.repository(), self.config().environment@, strings_view(old(visited)@).push(package_name@)),
            strings_view(old(visited)@).push(package_name@)[0] == root,
            answers_named(self.repository()) ==> edges_answered(*old(graph), self.repository(), self.config().environment@)
                && nodes_answered(*old(graph), self.repository(), self.config().environment@, root),
            old(graph).indexed(),
            accounted(*old(graph), cache_map(old(cache)@), strings_view(old(visited)@).to_set().insert(package_name@), self.config().environment@),
            strings_view(old(visited)@).no_duplicates(),
            forall|k: int| 1 <= k < old(visited)@.len() ==> (#[trigger] old(graph).position(old(visited)@[k]@)) is Some,
            old(visited)@.len() > 0 ==> old(graph).position(package_name@) is Some,
            old(visited)@.len() == 0 ==> old(graph).packages().len() == 0,
            answers_named(self.repository()) ==> rooted(*old(graph)),
        ensures
            r is Ok ==> {
                &&& final(graph).indexed()
                &&& grows(*old(graph), *final(graph))
                &&& keeps(cache_map(old(cache)@), cache_map(final(cache)@))
                &&& cache_map(final(cache)@).contains_key(package_name@)
                &&& complete(*final(graph), cache_map(final(cache)@)[package_name@], self.config().environment@)
                &&& final(graph).position(cache_map(final(cache)@)[package_name@].name@) is Some
                &&& accounted(*final(graph), cache_map(final(cache)@), strings_view(old(visited)@).to_set(), self.config().environment@)
                &&& final(visited)@ == old(visited)@.push(final(visited)@.last())
                &&& final(visited)@.last()@ == package_name@
                &&& answers_named(self.repository()) ==> rooted(*final(graph))
                &&& old(graph).packages().len() == 0 ==> final(graph).packages().len() > 0
                    && final(graph).packages()[0].name@ == cache_map(final(cache)@)[package_name@].name@
                &&& answers_named(self.repository()) ==> edges_answered(*final(graph), self.repository(), self.config().environment@)
                    && nodes_answered(*final(graph), self.repository(), self.config().environment@, root)
            },
            r matches Err(DependencyResolverError::EnvironmentNotSupported(e, _)) ==> e@ == self.config().environment@,
            r matches Err(e) ==> (answers_named(self.repository()) ==> error_explained(self.repository(), self.config().environment@, root, e)),
            cache_answered(self.repository(), final(cache)@),
        decreases usize::MAX - old(visited)@.len(),
    {
        let ghost env = self.config().environment@;
        let ghost repo = self.repository();
        let ghost g0 = *graph;
        let ghost v0 = strings_view(visited@);
        let ghost c = v0.push(package_name@);
        proof {
            assert(answer_chain(repo, env, c));
            assert(reached(repo, env, root, package_name@)) by {
                assert(c[0] == root && c.last() == package_name@);
            }
        }
        let mut k: usize = 0;
        while k < visited.len()
            invariant
                k <= visited.len(),
                cache_answered(self.repository(), cache@),
                repo == self.repository(),
                env == self.config().environment@,
                v0 == strings_view(visited@),
                c == v0.push(package_name@),
                answer_chain(repo, env, c),
                c[0] == root,
                forall|j: int| 0 <= j < k ==> (#[trigger] visited@[j])@ != package_name@,
            decreases visited.len() - k,
        {
            if str_eq(visited[k].as_str(), package_name) {
                proof {
                    let n = c.len() as int;
                    let w = c.subrange(k as int, n);
                    lemma_chain_subrange(repo, env, c, k as int, n);
                    let pre = c.subrange(0, k + 1);
                    lemma_chain_subrange(repo, env, c, 0, k + 1);
                    assert(c[k as int] == visited@[k as int]@);
                    assert(pre[0] == root && pre.last() == w[0]);
                    assert(reached(repo, env, root, w[0]));
                    assert(w[0] == w.last());
                    assert(answer_cycle(repo, env, root));
                }
                let path = join_strings(visited, " -> ");
                let mut message = concat2("Circular dependency detected: ", path.as_str());
                message.append(" -> ");
                message.append(package_name);
                return Err(DependencyResolverError::CircularDependency(message));
            }
            k = k + 1;
        }
        assert(!v0.contains(package_name@));
        let package = match self.fetch(package_name, cache) {
            Ok(p) => p,
            Err(e) => {
                proof {
                    let a = choose|a: PackageRepoError| #[trigger] answered_get(repo, package_name@, Err(a)) && e == resolver_error_of(a);
                    assert(answered_get(repo, package_name@, Err(a)));
                }
                return Err(e);
            },
        };
        let ghost q0 = choose|q: Package| #[trigger] answered_get(repo, package_name@, Ok(q)) && same_package(package, q);
        proof {
            assert(answered_get(repo, package_name@, Ok(q0)));
        }
        let env_config = match self.config.resolve_environment(&package) {
            Ok(c) => c,
            Err(_) => {
                proof {
                    assert(!supports(package, env));
                    assert(!supports(q0, env));
                }
                return Err(DependencyResolverError::EnvironmentNotSupported(self.config.environment.clone(), package.name.clone()));
            },
        };
        let deps = copy_strings(&env_config.dependencies);
        assert(strings_view(deps@) == env_deps(package, env));
        let ghost named = answers_named(self.repository());
        proof {
            if named {
                let q = choose|q: Package| #[trigger] answered_get(self.repository(), package_name@, Ok(q)) && same_package(package, q);
                assert(package.name@ == package_name@);
            }
        }
        let ghost m1 = cache_map(cache@);
        let ghost pend = v0.to_set().insert(package_name@);
        if !graph_has(graph, package.name.as_str()) {
            if graph.len() >= usize::MAX - 3 {
                return Err(DependencyResolverError::GraphError(DependencyGraphError::InvalidDependency(String::from_str("too many packages"))));
            }
            let ghost before = *graph;
            match graph.add_node(copy_package(&package)) {
                Ok(()) => {},
                Err(e) => {
                    return Err(DependencyResolverError::GraphError(e));
                },
            }
            proof {
                lemma_push_grows(before, *graph, graph.packages().last());
                let n = before.packages().len() as int;
                assert(pend.contains(package_name@) && m1.contains_key(package_name@) && same_package(m1[package_name@], graph.packages()[n]));
                lemma_accounted_grows(before, *graph, cache_map(old(cache)@), m1, pend, pend, env);
                if named {
                    assert(before.packages().len() == 0);
                    lemma_reaches_self(graph.adj(), 0);
                    assert(rooted(*graph));
                }
            }
        } else {
            proof {
                lemma_accounted_grows(*graph, *graph, cache_map(old(cache)@), m1, pend, pend, env);
            }
        }
        visited.push(String::from_str(package_name));
        proof {
            assert(strings_view(visited@) =~= v0.push(package_name@));
            assert forall|k: int| 1 <= k < visited@.len() implies (#[trigger] graph.position(visited@[k]@)) is Some by {
                if k < old(visited)@.len() {
                    assert(visited@[k] == old(visited)@[k]);
                    assert(g0.position(old(visited)@[k]@) is Some);
                } else {
                    assert(visited@[k]@ == package_name@);
                    assert(g0.position(package_name@) is Some);
                }
            }
        }
        let ghost first = graph.packages()[0];
        proof {
            if g0.packages().len() == 0 {
                assert(first.name@ == package.name@);
            }
        }
        let mut i: usize = 0;
        while i < deps.len()
            invariant
                i <= deps.len(),
                named == answers_named(self.repository()),
                named ==> rooted(*graph),
                repo == self.repository(),
                c == v0.push(package_name@),
                answer_chain(repo, env, c),
                c[0] == root,
                reached(repo, env, root, package_name@),
                answered_get(repo, package_name@, Ok(q0)),
                same_package(package, q0),
                named ==> edges_answered(*graph, repo, env) && nodes_answered(*graph, repo, env, root),
                graph.packages().len() > 0,
                graph.packages()[0] == first,
                g0.packages().len() == 0 ==> first.name@ == package.name@,
                strings_view(deps@) == env_deps(package, env),
                cache_answered(self.repository(), cache@),
                env == self.config().environment@,
                supports(package, env),
                graph.indexed(),
                grows(g0, *graph),
                keeps(cache_map(old(cache)@), cache_map(cache@)),
                cache_map(cache@).contains_key(package_name@),
                same_package(package, cache_map(cache@)[package_name@]),
                graph.position(package.name@) is Some,
                forall|x: int| 0 <= x < i ==> #[trigger] graph.depends_on(package.name@, env_deps(package, env)[x]),
                accounted(*graph, cache_map(cache@), pend, env),
                pend == v0.to_set().insert(package_name@),
                visited@ == old(visited)@.push(visited@.last()),
                visited@.last()@ == package_name@,
                strings_view(visited@) == v0.push(package_name@),
                v0 == strings_view(old(visited)@),
                v0.no_duplicates(),
                !v0.contains(package_name@),
                forall|k: int| 1 <= k < visited@.len() ==> (#[trigger] graph.position(visited@[k]@)) is Some,
            decreases deps.len() - i,
        {
            let dep_name = deps[i].as_str();
            assert(dep_name@ == env_deps(package, env)[i as int]);
            let ghost ga = *graph;
            let ghost ma = cache_map(cache@);
            proof {
                assert(env_deps(q0, env) == env_deps(package, env));
                assert(env_deps(q0, env)[i as int] == dep_name@);
                assert(env_deps(q0, env).contains(dep_name@));
                assert(answered_dep(repo, env, package_name@, dep_name@));
                lemma_chain_push(repo, env, c, dep_name@);
                let cd = c.push(dep_name@);
                assert(cd[0] == root && cd.last() == dep_name@);
                assert(reached(repo, env, root, dep_name@));
            }
            let dep_package = match self.fetch(dep_name, cache) {
                Ok(p) => p,
                Err(e) => {
                    proof {
                        let a = choose|a: PackageRepoError| #[trigger] answered_get(repo, dep_name@, Err(a)) && e == resolver_error_of(a);
                        assert(answered_get(repo, dep_name@, Err(a)));
                    }
                    return Err(e);
                },
            };
            let ghost qd = choose|q: Package| #[trigger] answered_get(repo, dep_name@, Ok(q)) && same_package(dep_package, q);
            proof {
                assert(answered_get(repo, dep_name@, Ok(qd)));
            }
            let ghost mb = cache_map(cache@);
            let ghost pend_d = pend.insert(dep_name@);
            proof {
                lemma_accounted_grows(ga, ga, ma, mb, pend, pend_d, env);
                if named {
                    let q = choose|q: Package| #[trigger] answered_get(self.repository(), dep_name@, Ok(q)) && same_package(dep_package, q);
                    assert(dep_package.name@ == dep_name@);
                }
            }
            if !graph_has(graph, dep_package.name.as_str()) {
                if graph.len() >= usize::MAX - 3 {
                    return Err(DependencyResolverError::GraphError(DependencyGraphError::InvalidDependency(String::from_str("too many packages"))));
                }
                let ghost before = *graph;
                match graph.add_node(dep_package) {
                    Ok(()) => {},
                    Err(e) => {
                        return Err(DependencyResolverError::GraphError(e));
                    },
                }
                proof {
                    lemma_push_grows(before, *graph, graph.packages().last());
                    let n = before.packages().len() as int;
                    assert(pend_d.contains(dep_name@) && mb.contains_key(dep_name@) && same_package(mb[dep_name@], graph.packages()[n]));
                    lemma_accounted_grows(before, *graph, mb, mb, pend_d, pend_d, env);
                    if named {
                        lemma_push_depends(before, *graph, graph.packages().last());
                        assert(edges_answered(*graph, repo, env));
                        assert(before == ga);
                        assert(graph.packages()[n] == dep_package);
                        lemma_nodes_push(before, *graph, dep_package, qd, repo, env, root);
                        assert(nodes_answered(*graph, repo, env, root));
                    }
                    assert forall|x: int, y: int| edge(before.adj(), x, y) implies #[trigger] edge(graph.adj(), x, y) by {
                        assert(graph.adj()[x] == before.adj()[x]);
                    }
                    if named {
                        assert forall|j: int| 0 <= j < before.packages().len() implies #[trigger] reaches(graph.adj(), 0, j) by {
                            assert(reaches(before.adj(), 0, j));
                            lemma_reaches_grow(before.adj(), graph.adj(), 0, j);
                        }
                    }
                }
            }
            let ghost gb = *graph;
            proof {
                if named {
                    assert(gb.position(package.name@) is Some) by {
                        assert(ga.position(package.name@) is Some);
                    }
                    assert(gb.position(dep_name@) is Some);
                }
            }
            match graph.add_dependency(package.name.as_str(), dep_name) {
                Ok(()) => {},
                Err(e) => {
                    proof {
                        if named {
                            let p = gb.position(package.name@).unwrap();
                            let d = gb.position(dep_name@).unwrap();
                            assert(reaches(gb.adj(), d, p));
                            let w = choose|w: Seq<int>| #[trigger] is_walk(gb.adj(), w) && w[0] == d && w.last() == p;
                            lemma_walk_chain(gb, repo, env, w);
                            let t = walk_names(gb, w);
                            assert(gb.names()[d] == dep_name@);
                            assert(gb.names()[p] == package.name@);
                            assert(t[0] == dep_name@);
                            assert(t.last() == package_name@);
                            let cyc = seq![package_name@] + t;
                            assert forall|k: int| 0 <= k < cyc.len() - 1 implies #[trigger] answered_dep(repo, env, cyc[k], cyc[k + 1]) by {
                                if k > 0 {
                                    assert(cyc[k] == t[k - 1]);
                                    assert(cyc[k + 1] == t[k]);
                                    lemma_chain_step(repo, env, t, k - 1);
                                } else {
                                    assert(cyc[0] == package_name@ && cyc[1] == t[0]);
                                }
                            }
                            assert(answer_chain(repo, env, cyc));
                            assert(cyc[0] == cyc.last());
                            assert(answer_cycle(repo, env, root));
                        }
                    }
                    return Err(DependencyResolverError::GraphError(e));
                },
            }
            proof {
                lemma_edge_grows(gb, *graph, package.name@, dep_name@);
                lemma_accounted_grows(gb, *graph, mb, mb, pend_d, pend_d, env);
                if named {
                    assert(edges_answered(gb, repo, env));
                    assert(nodes_answered(gb, repo, env, root));
                    lemma_edge_depends(gb, *graph, package.name@, dep_name@);
                    assert(edges_answered(*graph, repo, env));
                    assert(nodes_answered(*graph, repo, env, root)) by {
                        assert(graph.packages() == gb.packages());
                    }
                }
                assert(graph.packages()[0] == first);
                if named {
                    let pp = gb.position(package.name@).unwrap();
                    let dd = gb.position(dep_name@).unwrap();
                    lemma_with_edge(gb.adj(), pp, dd);
                    assert(ga.position(package.name@) is Some);
                    assert(pp < ga.packages().len()) by {
                        lemma_position(ga, package.name@, ga.position(package.name@).unwrap());
                    }
                    assert(reaches(ga.adj(), 0, pp));
                    assert forall|j: int| 0 <= j < ga.packages().len() implies #[trigger] reaches(gb.adj(), 0, j) by {
                        assert(reaches(ga.adj(), 0, j));
                        if gb.packages().len() > ga.packages().len() {
                        } else {
                            assert(gb == ga);
                        }
                    }
                    assert forall|j: int| 0 <= j < graph.packages().len() implies #[trigger] reaches(graph.adj(), 0, j) by {
                        if j < ga.packages().len() {
                            assert(reaches(gb.adj(), 0, j));
                            lemma_reaches_grow(gb.adj(), graph.adj(), 0, j);
                        } else {
                            let n = ga.packages().len() as int;
                            assert(j == n);
                            assert(gb.packages()[n].name@ == dep_name@);
                            lemma_position(gb, dep_name@, n);
                            assert(reaches(gb.adj(), 0, pp));
                            lemma_reaches_grow(gb.adj(), graph.adj(), 0, pp);
                            assert(edge(graph.adj(), pp, dd));
                            lemma_reaches_push(graph.adj(), 0, pp, dd);
                        }
                    }
                }
                assert forall|k: int| 1 <= k < visited@.len() implies (#[trigger] graph.position(visited@[k]@)) is Some by {
                    assert(ga.position(visited@[k]@) is Some);
                    assert(gb.position(visited@[k]@) is Some);
                }
                assert forall|x: int| 0 <= x < i implies #[trigger] graph.depends_on(package.name@, env_deps(package, env)[x]) by {
                    assert(ga.depends_on(package.name@, env_deps(package, env)[x]));
                    assert(gb.depends_on(package.name@, env_deps(package, env)[x]));
                }
            }
            let mut dep_visited = copy_strings(visited);
            proof {
                assert(dep_visited@.len() == dep_visited.len());
                assert(strings_view(dep_visited@).to_set().insert(dep_name@) =~= pend_d) by {
                    assert(strings_view(dep_visited@) == v0.push(package_name@));
                    assert forall|n: Seq<char>| #[trigger] pend_d.contains(n) implies strings_view(dep_visited@).to_set().insert(dep_name@).contains(n) by {
                        if v0.contains(n) {
                            let j = choose|j: int| 0 <= j < v0.len() && v0[j] == n;
                            assert(strings_view(dep_visited@)[j] == n);
                        }
                        if n == package_name@ {
                            assert(strings_view(dep_visited@)[v0.len() as int] == n);
                        }
                    }
                    assert forall|n: Seq<char>| #[trigger] strings_view(dep_visited@).to_set().insert(dep_name@).contains(n) implies pend_d.contains(n) by {
                        if n != dep_name@ {
                            let j = choose|j: int| 0 <= j < strings_view(dep_visited@).len() && strings_view(dep_visited@)[j] == n;
                            if j < v0.len() {
                                assert(v0[j] == n);
                            }
                        }
                    }
                }
                assert(strings_view(dep_visited@).no_duplicates()) by {
                    let sv = strings_view(dep_visited@);
                    assert forall|a: int, b: int| 0 <= a < sv.len() && 0 <= b < sv.len() && a != b implies sv[a] != sv[b] by {
                        if a < v0.len() && b < v0.len() {
                            assert(v0[a] != v0[b]);
                        } else if a < v0.len() {
                            assert(v0.contains(sv[a]));
                        } else if b < v0.len() {
                            assert(v0.contains(sv[b]));
                        }
                    }
                }
            }
            let ghost gc = *graph;
            let ghost dv = dep_visited@;
            let ghost mc = cache_map(cache@);
            match self.build_dependency_graph(graph, dep_name, &mut dep_visited, cache, Ghost(root)) {
                Ok(()) => {},
                Err(e) => {
                    return Err(e);
                },
            }
            proof {
                assert(strings_view(dv).to_set() =~= pend) by {
                    let sv = v0.push(package_name@);
                    assert forall|n: Seq<char>| #[trigger] pend.contains(n) implies sv.to_set().contains(n) by {
                        if v0.contains(n) {
                            let j = choose|j: int| 0 <= j < v0.len() && v0[j] == n;
                            assert(sv[j] == n);
                        } else {
                            assert(sv[v0.len() as int] == n);
                        }
                    }
                    assert forall|n: Seq<char>| #[trigger] sv.to_set().contains(n) implies pend.contains(n) by {
                        let j = choose|j: int| 0 <= j < sv.len() && sv[j] == n;
                        if j < v0.len() {
                            assert(v0[j] == n);
                        }
                    }
                }
                assert(graph.depends_on(package.name@, env_deps(package, env)[i as int]));
                assert forall|x: int| 0 <= x <= i implies #[trigger] graph.depends_on(package.name@, env_deps(package, env)[x]) by {
                    if x < i {
                        assert(gc.depends_on(package.name@, env_deps(package, env)[x]));
                    }
                }
                assert(graph.position(package.name@) is Some) by {
                    assert(gc.position(package.name@) is Some);
                }
                assert forall|k: int| 1 <= k < visited@.len() implies (#[trigger] graph.position(visited@[k]@)) is Some by {
                    assert(gc.position(visited@[k]@) is Some);
                }
            }
            i = i + 1;
        }
        proof {
            let m = cache_map(cache@);
            assert(complete(*graph, package, env));
            assert(complete(*graph, m[package_name@], env));
            assert forall|i: int| 0 <= i < graph.packages().len() implies complete(*graph, #[trigger] graph.packages()[i], env) || exists|r: Seq<char>|
                v0.to_set().contains(r) && m.contains_key(r) && same_package(m[r], graph.packages()[i]) by {
                if !complete(*graph, graph.packages()[i], env) {
                    let r = choose|r: Seq<char>| pend.contains(r) && m.contains_key(r) && same_package(m[r], graph.packages()[i]);
                    if r == package_name@ {
                        assert(complete(*graph, graph.packages()[i], env));
                    }
                }
            }
        }
        Ok(())
    }

    /// Resolve the dependencies of a package: the packages to install, each
    /// after the packages it depends on in the configured environment, each
    /// of them supporting that environment, none twice.
    pub fn resolve_dependencies(&self, package_name: &str) -> (r: Result<Vec<Package>, DependencyResolverError>)
        ensures
            exists|a: Result<Package, PackageRepoError>| #[trigger] answered_get(self.repository(), package_name@, a)
                && (a matches Err(e) ==> r == Err::<Vec<Package>, DependencyResolverError>(resolver_error_of(e)))
                && (r matches Ok(v) ==> a matches Ok(q) && exists|k: int| 0 <= k < v@.len() && (#[trigger] v@[k]).name@ == q.name@),
            answers_named(self.repository()) ==> (r matches Ok(v) ==> v@.last().name@ == package_name@),
            answers_named(self.repository()) ==> (r matches Ok(v) ==> forall|k: int| 0 <= k < v@.len() ==> {
                &&& exists|x: Package| #[trigger] answered_get(self.repository(), v@[k].name@, Ok(x)) && same_package(v@[k], x)
                &&& reached(self.repository(), self.config().environment@, package_name@, (#[trigger] v@[k]).name@)
            }),
            answers_named(self.repository()) ==> (r matches Err(e) ==> error_explained(self.repository(), self.config().environment@, package_name@, e)),
            answers_named(self.repository()) && well_answered(self.repository(), self.config().environment@, package_name@)
                && !answer_cycle(self.repository(), self.config().environment@, package_name@)
                ==> (r is Ok || (r matches Err(DependencyResolverError::GraphError(DependencyGraphError::InvalidDependency(m))) && m@ == "too many packages"@)),
            r matches Ok(pkgs) ==> {
                &&& pkgs@.len() > 0
                &&& distinct_names(pkgs@)
                &&& dependencies_first(pkgs@, self.config().environment@)
                &&& forall|k: int| 0 <= k < pkgs@.len() ==> supports(#[trigger] pkgs@[k], self.config().environment@)
            },
            r matches Err(DependencyResolverError::EnvironmentNotSupported(e, _)) ==> e@ == self.config().environment@,
    {
        let ghost env = self.config().environment@;
        let mut graph = DependencyGraph::default();
        let mut visited: Vec<String> = Vec::new();
        let mut cache: Vec<(String, Package)> = Vec::new();
        proof {
            assert(strings_view(visited@) =~= Seq::<Seq<char>>::empty());
        }
        let ghost repo = self.repository();
        proof {
            let c = seq![package_name@];
            assert(answer_chain(repo, env, c));
            assert(reached(repo, env, package_name@, package_name@)) by {
                assert(c[0] == package_name@ && c.last() == package_name@);
            }
        }
        let root = match self.fetch(package_name, &mut cache) {
            Ok(p) => p,
            Err(e) => {
                proof {
                    let a = choose|a: PackageRepoError| #[trigger] answered_get(repo, package_name@, Err(a)) && e == resolver_error_of(a);
                    assert(answered_get(repo, package_name@, Err(a)));
                }
                return Err(e);
            },
        };
        let ghost q = choose|q: Package| #[trigger] answered_get(self.repository(), package_name@, Ok(q)) && same_package(root, q);
        let ghost m1 = cache_map(cache@);
        proof {
            assert(answered_get(self.repository(), package_name@, Ok(q)));
            assert(accounted(graph, m1, strings_view(visited@).to_set().insert(package_name@), env)) by {
                assert(graph.packages().len() == 0);
            }
        }
        match self.build_dependency_graph(&mut graph, package_name, &mut visited, &mut cache, Ghost(package_name@)) {
            Ok(()) => {},
            Err(e) => {
                return Err(e);
            },
        }
        let installation_order = match graph.installation_order() {
            Ok(order) => order,
            Err(DependencyGraphError::CircularDependency(msg, path)) => {
                let p = join_strings(&path, " -> ");
                let mut message = concat2(msg.as_str(), " (path: ");
                message.append(p.as_str());
                message.append(")");
                return Err(DependencyResolverError::CircularDependency(message));
            },
            Err(e) => {
                return Err(DependencyResolverError::GraphError(e));
            },
        };
        let mut out: Vec<Package> = Vec::new();
        let mut i: usize = 0;
        while i < installation_order.len()
            invariant
                i <= installation_order.len(),
                out@.len() == i,
                forall|j: int| 0 <= j < i ==> same_package(#[trigger] out@[j], *installation_order@[j]),
            decreases installation_order.len() - i,
        {
            out.push(copy_package(installation_order[i]));
            i = i + 1;
        }
        proof {
            let pk = graph.packages();
            let adj = graph.adj();
            let o = installation_order@.map_values(|p: &Package| *p);
            let perm = choose|perm: Seq<usize>|
                #[trigger] is_permutation(perm, adj.len()) && is_topological(adj, perm) && o.len() == perm.len()
                    && forall|i: int| 0 <= i < o.len() ==> o[i] == pk[perm[i] as int];
            assert(strings_view(Seq::<String>::empty()).to_set() =~= Set::<Seq<char>>::empty());
            assert forall|i: int| 0 <= i < pk.len() implies complete(graph, #[trigger] pk[i], env) by {
                if !complete(graph, pk[i], env) {
                    let r = choose|r: Seq<char>| Set::<Seq<char>>::empty().contains(r) && cache_map(cache@).contains_key(r)
                        && same_package(cache_map(cache@)[r], pk[i]);
                }
            }
            assert forall|k: int| 0 <= k < out@.len() implies same_package(#[trigger] out@[k], pk[perm[k] as int])
                && 0 <= perm[k] < pk.len() by {
                assert(o[k] == *installation_order@[k]);
            }
            assert(out@.len() > 0) by {
                let root = cache_map(cache@)[package_name@];
                let j = graph.position(root.name@).unwrap();
                assert(perm.len() > 0) by {
                    assert(0 <= j < adj.len());
                }
            }
            assert(distinct_names(out@)) by {
                assert forall|a: int, b: int| 0 <= a < b < out@.len() implies (#[trigger] out@[a]).name@ != (#[trigger] out@[b]).name@ by {
                    assert(perm[a] != perm[b]);
                    let pa = perm[a] as int;
                    let pb = perm[b] as int;
                    assert(graph.names()[pa] == pk[pa].name@);
                    assert(graph.names()[pb] == pk[pb].name@);
                    if pa < pb {
                        assert(graph.names()[pa] != graph.names()[pb]);
                    } else {
                        assert(graph.names()[pb] != graph.names()[pa]);
                    }
                }
            }
            assert forall|k: int, x: int|
                #![trigger env_deps(out@[k], env)[x]]
                0 <= k < out@.len() && 0 <= x < env_deps(out@[k], env).len() implies named_before(out@, k, env_deps(out@[k], env)[x]) by {
                let i = perm[k] as int;
                let p = pk[i];
                let d = env_deps(out@[k], env)[x];
                assert(env_deps(p, env)[x] == d);
                assert(complete(graph, p, env));
                assert(graph.depends_on(p.name@, d));
                lemma_position(graph, p.name@, i);
                let t = graph.position(d).unwrap();
                assert(edge(adj, perm[k] as int, t));
                assert(perm.take(k).contains(t as usize));
                let kk = choose|kk: int| 0 <= kk < perm.take(k).len() && perm.take(k)[kk] == t as usize;
                assert(perm[kk] == t as usize);
                assert(graph.names()[t] == d);
                assert(out@[kk].name@ == pk[t].name@);
            }
            assert(dependencies_first(out@, env));
            if answers_named(self.repository()) {
                assert(q.name@ == package_name@);
                let rn = cache_map(cache@)[package_name@];
                assert(m1.contains_key(package_name@));
                assert(rn == m1[package_name@]);
                assert(pk[0].name@ == rn.name@);
                assert(adj.len() <= usize::MAX);
                lemma_permutation_covers(perm, adj.len(), 0);
                let k0 = choose|k: int| 0 <= k < perm.len() && perm[k] == 0usize;
                if k0 < perm.len() - 1 {
                    let v = perm[k0 + 1] as int;
                    assert(v != 0);
                    assert(reaches(adj, 0, v));
                    let w = choose|w: Seq<int>| #[trigger] is_walk(adj, w) && w[0] == 0 && w.last() == v;
                    assert(w.len() >= 2);
                    lemma_walk_order(adj, perm, w, k0);
                    let j = choose|j: int| 0 <= j < k0 && perm[j] as int == w.last();
                    assert(perm[j] == perm[k0 + 1]);
                    assert(false);
                }
                assert(out@.last() == out@[k0]);
                assert(out@[k0].name@ == pk[0].name@);
            }
            assert(out@.len() > 0 ==> exists|k: int| 0 <= k < out@.len() && (#[trigger] out@[k]).name@ == q.name@) by {
                let rn = cache_map(cache@)[package_name@];
                assert(m1.contains_key(package_name@));
                assert(rn == m1[package_name@]);
                let j = graph.position(rn.name@).unwrap();
                lemma_position(graph, rn.name@, j);
                lemma_permutation_covers(perm, adj.len(), j);
                let k = choose|k: int| 0 <= k < perm.len() && perm[k] == j as usize;
                assert(graph.names()[j] == pk[j].name@);
                assert(out@[k].name@ == q.name@);
            }
            assert forall|k: int| 0 <= k < out@.len() implies supports(#[trigger] out@[k], env) by {
                assert(complete(graph, pk[perm[k] as int], env));
            }
        }
        proof {
            let a = Ok::<Package, PackageRepoError>(q);
            assert(answered_get(self.repository(), package_name@, a));
            assert(exists|k: int| 0 <= k < out@.len() && (#[trigger] out@[k]).name@ == q.name@);
            let rr = Ok::<Vec<Package>, DependencyResolverError>(out);
            assert(rr matches Ok(v) ==> a matches Ok(q2) && exists|k: int| 0 <= k < v@.len() && (#[trigger] v@[k]).name@ == q2.name@);
            assert(a matches Err(e) ==> rr == Err::<Vec<Package>, DependencyResolverError>(resolver_error_of(e)));
        }
        Ok(out)
    }

    /// The package fetched for the name: asked of the repository the first
    /// time, and remembered for the rest of the resolution.
    fn fetch(&self, name: &str, cache: &mut Vec<(String, Package)>) -> (r: Result<Package, DependencyResolverError>)
        requires
            cache_answered(self.repository(), old(cache)@),
        ensures
            cache_answered(self.repository(), final(cache)@),
            r matches Ok(p) ==> exists|q: Package| #[trigger] answered_get(self.repository(), name@, Ok(q)) && same_package(p, q),
            r matches Err(e) ==> exists|a: PackageRepoError| #[trigger] answered_get(self.repository(), name@, Err(a)) && e == resolver_error_of(a),
            keeps(cache_map(old(cache)@), cache_map(final(cache)@)),
            r matches Ok(p) ==> cache_map(final(cache)@).contains_key(name@) && same_package(p, cache_map(final(cache)@)[name@]),
            r matches Err(e) ==> !(e is EnvironmentNotSupported),
    {
        let mut i: usize = cache.len();
        while i > 0
            invariant
                i <= cache.len(),
                forall|j: int| i <= j < cache@.len() ==> (#[trigger] cache@[j]).0@ != name@,
                cache_answered(self.repository(), cache@),
            decreases i,
        {
            if str_eq(cache[i - 1].0.as_str(), name) {
                proof {
                    lemma_cache_found(cache@, i - 1, name@);
                    assert(cache@[i - 1].0@ == name@);
                    assert(entry_answered(self.repository(), cache@[i - 1]));
                    let q = choose|q: Package| #[trigger] answered_get(self.repository(), cache@[i - 1].0@, Ok(q)) && same_package(q, cache@[i - 1].1);
                    assert(answered_get(self.repository(), name@, Ok(q)));
                }
                return Ok(copy_package(&cache[i - 1].1));
            }
            i = i - 1;
        }
        proof {
            lemma_cache_absent(cache@, name@);
        }
        let answer = self.package_repo.get_package(name);
        assert(self.repository() == self.package_repo);
        assert(answered_get(self.repository(), name@, answer));
        let package = match answer {
            Ok(p) => p,
            Err(e) => {
                return Err(repo_error(e));
            },
        };
        let stored = copy_package(&package);
        let ghost before = cache@;
        cache.push((String::from_str(name), stored));
        proof {
            assert(cache@.drop_last() =~= before);
            assert(cache@ =~= before.push(cache@.last()));
            lemma_cache_push(self.repository(), before, cache@.last(), package);
            assert(cache_answered(self.repository(), cache@));
        }
        Ok(package)
    }
}

} // verus!
