//! Dependency graph of packages: which package depends on which, and the
//! order in which to install them (dependencies first). The graph never
//! holds a cycle: a dependency that would close one is refused.

use vstd::prelude::*;

use crate::digraph::{edge, has_cycle, reaches, with_edge};
use crate::domain::package::Package;
use crate::package_graph::{is_permutation, is_topological, PackageGraph};
use crate::text::concat4;

verus! {

/// Errors that can occur during dependency operations.
#[derive(Debug)]
pub enum DependencyGraphError {
    PackageNotFound(String),
    CircularDependency(String, Vec<String>),
    InvalidDependency(String),
}

impl DependencyGraphError {
    /// The error's message.
    pub fn to_string(&self) -> (r: String)
        ensures
            r@ == match self {
                DependencyGraphError::PackageNotFound(n) => "Package not found: "@ + n@,
                DependencyGraphError::CircularDependency(m, _) => "Circular dependency detected: "@ + m@,
                DependencyGraphError::InvalidDependency(m) => "Invalid dependency: "@ + m@,
            },
    {
        match self {
            DependencyGraphError::PackageNotFound(n) => crate::text::concat2("Package not found: ", n.as_str()),
            DependencyGraphError::CircularDependency(m, _) => crate::text::concat2("Circular dependency detected: ", m.as_str()),
            DependencyGraphError::InvalidDependency(m) => crate::text::concat2("Invalid dependency: ", m.as_str()),
        }
    }
}

/// The message given when a dependency would close a cycle.
pub open spec fn cycle_message(package: Seq<char>, dependency: Seq<char>) -> Seq<char> {
    "Adding "@ + dependency + " as dependency of "@ + package + " would create a cycle"@
}

/// `o` lists every package of a graph once, each after the packages it depends on.
pub open spec fn installation_order_of(packages: Seq<Package>, adj: Seq<Seq<usize>>, o: Seq<Package>) -> bool {
    exists|perm: Seq<usize>|
        #[trigger] is_permutation(perm, adj.len()) && is_topological(adj, perm) && o.len() == perm.len()
            && forall|i: int| 0 <= i < o.len() ==> o[i] == packages[perm[i] as int]
}

/// Represents a graph of package dependencies.
pub struct DependencyGraph {
    graph: PackageGraph,
}

impl DependencyGraph {
    #[verifier::type_invariant]
    spec fn well_formed(self) -> bool {
        self.graph.wf()
    }

    /// The packages, in the order they were first added.
    pub closed spec fn packages(&self) -> Seq<Package> {
        self.graph.packages()
    }

    /// The dependency edges, by package position.
    pub closed spec fn adj(&self) -> Seq<Seq<usize>> {
        self.graph.adj()
    }

    /// The package names, by position.
    pub open spec fn names(&self) -> Seq<Seq<char>> {
        self.packages().map_values(|p: Package| p.name@)
    }

    /// The position of the package named `name`, if any.
    pub open spec fn position(&self, name: Seq<char>) -> Option<int> {
        if exists|i: int| 0 <= i < self.names().len() && self.names()[i] == name {
            Some(choose|i: int| 0 <= i < self.names().len() && self.names()[i] == name)
        } else {
            None
        }
    }

    /// Each package has its list of edges, each edge leads to a package, and
    /// no two packages share a name.
    pub open spec fn indexed(&self) -> bool {
        &&& self.adj().len() == self.packages().len()
        &&& self.packages().len() < usize::MAX
        &&& forall|i: int, j: int| 0 <= i < j < self.names().len() ==> (#[trigger] self.names()[i]) != (#[trigger] self.names()[j])
        &&& forall|u: int, k: int| 0 <= u < self.adj().len() && 0 <= k < self.adj()[u].len() ==> (#[trigger] self.adj()[u][k] as int) < self.adj().len()
    }

    /// The package named `a` directly depends on the one named `b`.
    pub open spec fn depends_on(&self, a: Seq<char>, b: Seq<char>) -> bool {
        match (self.position(a), self.position(b)) {
            (Some(i), Some(j)) => edge(self.adj(), i, j),
            _ => false,
        }
    }

    /// What the underlying graph's search by name found is this graph's position.
    proof fn lemma_found(&self, name: Seq<char>, r: Option<usize>)
        requires
            self.graph.wf(),
            r == match self.graph.position(name) {
                Some(i) => Some(i as usize),
                None => None::<usize>,
            },
            r matches Some(i) ==> i < self.graph.packages().len() && self.graph.names()[i as int] == name,
        ensures
            r matches Some(i) ==> self.position(name) == Some(i as int),
            r is None ==> self.position(name) is None,
    {
        assert(self.names() =~= self.graph.names());
        match r {
            Some(i) => {
                let c = choose|c: int| 0 <= c < self.names().len() && self.names()[c] == name;
                if c != i as int {
                    if c < i as int {
                        assert(self.graph.names()[c] != self.graph.names()[i as int]);
                    } else {
                        assert(self.graph.names()[i as int] != self.graph.names()[c]);
                    }
                }
            },
            None => {
                if exists|c: int| 0 <= c < self.names().len() && self.names()[c] == name {
                    let c = choose|c: int| 0 <= c < self.names().len() && self.names()[c] == name;
                    assert(0 <= c < self.graph.names().len() && self.graph.names()[c] == name);
                }
            },
        }
    }

    /// An empty graph.
    pub fn new() -> (r: Self)
        ensures
            r.packages().len() == 0,
            r.adj().len() == 0,
            r.indexed(),
    {
        let r = DependencyGraph { graph: PackageGraph::new() };
        assert(r.names() =~= r.graph.names());
        r
    }

    /// Add a package node to the graph; a package with the same name is replaced.
    pub fn add_node(&mut self, package: Package) -> (r: Result<(), DependencyGraphError>)
        requires
            old(self).packages().len() + 2 < usize::MAX,
        ensures
            r is Ok,
            old(self).position(package.name@) matches Some(i) ==> final(self).packages() == old(self).packages().update(i, package)
                && final(self).adj() == old(self).adj(),
            old(self).position(package.name@) is None ==> final(self).packages() == old(self).packages().push(package)
                && final(self).adj() == old(self).adj().push(Seq::<usize>::empty()),
            !has_cycle(final(self).adj()),
            final(self).indexed(),
    {
        proof {
            use_type_invariant(&*self);
        }
        let found = self.graph.find(package.name.as_str());
        proof {
            self.lemma_found(package.name@, found);
        }
        let mut g = PackageGraph::new();
        std::mem::swap(&mut g, &mut self.graph);
        match found {
            Some(i) => {
                g.replace_node(i, package);
            },
            None => {
                g.push_node(package);
            },
        }
        self.graph = g;
        proof {
            use_type_invariant(&*self);
            assert(self.names() =~= self.graph.names());
        }
        Ok(())
    }

    /// Add a dependency relationship between packages. Both must be in the
    /// graph, and the dependency must not close a cycle; otherwise the graph is
    /// left as it was.
    pub fn add_dependency(&mut self, package: &str, dependency: &str) -> (r: Result<(), DependencyGraphError>)
        ensures
            old(self).position(package@) is None ==> (r matches Err(DependencyGraphError::PackageNotFound(n)) && n@ == package@),
            old(self).position(package@) is Some && old(self).position(dependency@) is None ==> (r matches Err(DependencyGraphError::PackageNotFound(n)) && n@ == dependency@),
            old(self).position(package@) matches Some(p) ==> old(self).position(dependency@) matches Some(d) ==> {
                &&& reaches(old(self).adj(), d, p) ==> (r matches Err(DependencyGraphError::CircularDependency(m, path))
                    && m@ == cycle_message(package@, dependency@)
                    && path@.map_values(|s: String| s@) == seq![package@, dependency@])
                &&& !reaches(old(self).adj(), d, p) ==> r is Ok && final(self).adj() == with_edge(old(self).adj(), p, d)
            },
            r is Err ==> final(self).adj() == old(self).adj(),
            final(self).packages() == old(self).packages(),
            !has_cycle(final(self).adj()),
            final(self).indexed(),
    {
        proof {
            use_type_invariant(&*self);
        }
        let fp = self.graph.find(package);
        let fd = self.graph.find(dependency);
        proof {
            assert(self.names() =~= self.graph.names());
            self.lemma_found(package@, fp);
            self.lemma_found(dependency@, fd);
        }
        let p = match fp {
            Some(p) => p,
            None => {
                return Err(DependencyGraphError::PackageNotFound(String::from_str(package)));
            },
        };
        let d = match fd {
            Some(d) => d,
            None => {
                return Err(DependencyGraphError::PackageNotFound(String::from_str(dependency)));
            },
        };
        if self.graph.reaches_exec(d, p) {
            let msg = concat4("Adding ", dependency, " as dependency of ", package);
            let mut msg = msg;
            msg.append(" would create a cycle");
            let mut path: Vec<String> = Vec::new();
            path.push(String::from_str(package));
            path.push(String::from_str(dependency));
            assert(path@.map_values(|s: String| s@) =~= seq![package@, dependency@]);
            return Err(DependencyGraphError::CircularDependency(msg, path));
        }
        let mut g = PackageGraph::new();
        std::mem::swap(&mut g, &mut self.graph);
        g.add_edge(p, d);
        self.graph = g;
        proof {
            use_type_invariant(&*self);
            assert(self.names() =~= self.graph.names());
        }
        Ok(())
    }

    /// Whether the graph contains a cycle; it never does.
    pub fn has_cycle(&self) -> (r: bool)
        ensures
            r == has_cycle(self.adj()),
            !r,
            self.indexed(),
    {
        proof {
            use_type_invariant(self);
            assert(self.names() =~= self.graph.names());
        }
        false
    }

    /// Get a list of packages in installation order (dependencies first).
    pub fn installation_order(&self) -> (r: Result<Vec<&Package>, DependencyGraphError>)
        ensures
            r matches Ok(v) && installation_order_of(self.packages(), self.adj(), v@.map_values(|p: &Package| *p)),
            self.indexed(),
    {
        proof {
            use_type_invariant(self);
            assert(self.names() =~= self.graph.names());
        }
        let order = self.graph.topological_order();
        let mut result: Vec<&Package> = Vec::new();
        let mut i: usize = 0;
        while i < order.len()
            invariant
                self.graph.wf(),
                is_permutation(order@, self.graph.adj().len()),
                i <= order@.len(),
                result@.len() == i,
                forall|k: int| 0 <= k < i ==> *(#[trigger] result@[k]) == self.graph.packages()[order@[k] as int],
            decreases order.len() - i,
        {
            result.push(self.graph.node(order[i]));
            i = i + 1;
        }
        let ghost o = result@.map_values(|p: &Package| *p);
        assert(is_permutation(order@, self.adj().len()) && is_topological(self.adj(), order@) && o.len() == order@.len()
            && forall|k: int| 0 <= k < o.len() ==> o[k] == self.packages()[order@[k] as int]);
        Ok(result)
    }

    /// Get the number of packages in the graph.
    pub fn len(&self) -> (r: usize)
        ensures
            r == self.packages().len(),
            self.indexed(),
    {
        proof {
            use_type_invariant(self);
            assert(self.names() =~= self.graph.names());
        }
        self.graph.len()
    }

    /// Check if the graph is empty.
    pub fn is_empty(&self) -> (r: bool)
        ensures
            r == (self.packages().len() == 0),
            self.indexed(),
    {
        proof {
            use_type_invariant(self);
            assert(self.names() =~= self.graph.names());
        }
        self.graph.len() == 0
    }

    /// Get a list of all package names in the graph.
    pub fn get_package_names(&self) -> (r: Vec<String>)
        ensures
            r@.map_values(|s: String| s@) == self.names(),
    {
        self.graph.package_names()
    }

    /// Find all cycles in the graph; there never is one, so the list is empty.
    pub fn find_cycles(&self) -> (r: Vec<Vec<String>>)
        ensures
            r@.len() == 0,
            !has_cycle(self.adj()),
    {
        proof {
            use_type_invariant(self);
        }
        Vec::new()
    }
}

impl Default for DependencyGraph {
    fn default() -> (r: Self)
        ensures
            r.packages().len() == 0,
            r.adj().len() == 0,
            r.indexed(),
    {
        DependencyGraph::new()
    }
}

} // verus!
