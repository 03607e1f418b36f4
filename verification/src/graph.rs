//! A dependency graph of packages in which each name occurs once: adding a
//! second package of the same name is refused, as is a dependency that would
//! close a cycle.

use vstd::prelude::*;

use crate::digraph::{edge, has_cycle, reaches, with_edge};
use crate::domain::dependency::installation_order_of;
use crate::domain::package::Package;
use crate::package_graph::{is_permutation, is_topological, PackageGraph};
use crate::text::concat4;

verus! {

/// Errors of the dependency graph.
#[derive(Debug)]
pub enum DependencyGraphError {
    PackageNotFound(String),
    CircularDependency(String),
    DuplicatePackage(String),
    InvalidDependency(String),
}

impl DependencyGraphError {
    /// The error's message.
    pub fn to_string(&self) -> (r: String)
        ensures
            r@ == match self {
                DependencyGraphError::PackageNotFound(n) => "Package not found: "@ + n@,
                DependencyGraphError::CircularDependency(m) => "Circular dependency detected: "@ + m@,
                DependencyGraphError::DuplicatePackage(n) => "Duplicate package: "@ + n@,
                DependencyGraphError::InvalidDependency(m) => "Invalid dependency: "@ + m@,
            },
    {
        match self {
            DependencyGraphError::PackageNotFound(n) => crate::text::concat2("Package not found: ", n.as_str()),
            DependencyGraphError::CircularDependency(m) => crate::text::concat2("Circular dependency detected: ", m.as_str()),
            DependencyGraphError::DuplicatePackage(n) => crate::text::concat2("Duplicate package: ", n.as_str()),
            DependencyGraphError::InvalidDependency(m) => crate::text::concat2("Invalid dependency: ", m.as_str()),
        }
    }
}

/// A graph of packages and the dependencies between them.
pub struct DependencyGraph {
    graph: PackageGraph,
}

impl DependencyGraph {
    #[verifier::type_invariant]
    spec fn well_formed(self) -> bool {
        self.graph.wf()
    }

    /// The packages, in the order they were added.
    pub closed spec fn packages(&self) -> Seq<Package> {
        self.graph.packages()
    }

    /// The dependency edges, by package position.
    pub closed spec fn adj(&self) -> Seq<Seq<usize>> {
        self.graph.adj()
    }

    /// The package names, by position.
    pub open spec fn names(&self) -> Seq<Seq<char>> {
        self.packages().map_values(|p: Package| p.name@)
    }

    /// The position of the package named `name`, if any.
    pub open spec fn position(&self, name: Seq<char>) -> Option<int> {
        if exists|i: int| 0 <= i < self.names().len() && self.names()[i] == name {
            Some(choose|i: int| 0 <= i < self.names().len() && self.names()[i] == name)
        } else {
            None
        }
    }

    /// The package named `a` directly depends on the one named `b`.
    pub open spec fn depends_on(&self, a: Seq<char>, b: Seq<char>) -> bool {
        match (self.position(a), self.position(b)) {
            (Some(i), Some(j)) => edge(self.adj(), i, j),
            _ => false,
        }
    }

    /// Positions are the same whether read here or in the underlying graph.
    proof fn lemma_position(&self, name: Seq<char>)
        ensures
            self.position(name) == self.graph.position(name),
    {
        assert(self.names() =~= self.graph.names());
    }

    /// Add a package node. A package whose name is already in the graph is
    /// refused, and the graph is left as it was.
    pub fn add_node(&mut self, node: Package) -> (r: Result<(), DependencyGraphError>)
        requires
            old(self).packages().len() + 2 < usize::MAX,
        ensures
            old(self).position(node.name@) is Some ==> (r matches Err(DependencyGraphError::DuplicatePackage(n)) && n@ == node.name@)
                && final(self).packages() == old(self).packages() && final(self).adj() == old(self).adj(),
            old(self).position(node.name@) is None ==> r is Ok && final(self).packages() == old(self).packages().push(node)
                && final(self).adj() == old(self).adj().push(Seq::<usize>::empty()),
            !has_cycle(final(self).adj()),
            forall|i: int, j: int| 0 <= i < j < final(self).names().len() ==> final(self).names()[i] != final(self).names()[j],
    {
        proof {
            use_type_invariant(&*self);
            self.lemma_position(node.name@);
        }
        let found = self.graph.find(node.name.as_str());
        if found.is_some() {
            proof {
                assert(self.names() =~= self.graph.names());
                assert forall|i: int, j: int| 0 <= i < j < self.names().len() implies self.names()[i] != self.names()[j] by {
                    assert(self.graph.names()[i] != self.graph.names()[j]);
                }
            }
            return Err(DependencyGraphError::DuplicatePackage(node.name));
        }
        let mut g = PackageGraph::new();
        std::mem::swap(&mut g, &mut self.graph);
        g.push_node(node);
        self.graph = g;
        proof {
            assert(self.names() =~= self.graph.names());
            assert forall|i: int, j: int| 0 <= i < j < self.names().len() implies self.names()[i] != self.names()[j] by {
                assert(self.graph.names()[i] != self.graph.names()[j]);
            }
        }
        Ok(())
    }

    /// Add a dependency of `package` on `dependency`. Both must be in the
    /// graph, and the dependency must not close a cycle; otherwise the graph is
    /// left as it was.
    pub fn add_dependency(&mut self, package: &str, dependency: &str) -> (r: Result<(), DependencyGraphError>)
        ensures
            old(self).position(package@) is None ==> (r matches Err(DependencyGraphError::PackageNotFound(n)) && n@ == package@),
            old(self).position(package@) is Some && old(self).position(dependency@) is None ==> (r matches Err(DependencyGraphError::PackageNotFound(n)) && n@ == dependency@),
            old(self).position(package@) matches Some(p) ==> old(self).position(dependency@) matches Some(d) ==> {
                &&& reaches(old(self).adj(), d, p) ==> (r matches Err(DependencyGraphError::CircularDependency(m))
                    && m@ == crate::domain::dependency::cycle_message(package@, dependency@))
                &&& !reaches(old(self).adj(), d, p) ==> r is Ok && final(self).adj() == with_edge(old(self).adj(), p, d)
            },
            r is Err ==> final(self).adj() == old(self).adj(),
            final(self).packages() == old(self).packages(),
            !has_cycle(final(self).adj()),
    {
        proof {
            use_type_invariant(&*self);
            self.lemma_position(package@);
            self.lemma_position(dependency@);
        }
        let p = match self.graph.find(package) {
            Some(p) => p,
            None => {
                return Err(DependencyGraphError::PackageNotFound(String::from_str(package)));
            },
        };
        let d = match self.graph.find(dependency) {
            Some(d) => d,
            None => {
                return Err(DependencyGraphError::PackageNotFound(String::from_str(dependency)));
            },
        };
        if self.graph.reaches_exec(d, p) {
            let mut msg = concat4("Adding ", dependency, " as dependency of ", package);
            msg.append(" would create a cycle");
            return Err(DependencyGraphError::CircularDependency(msg));
        }
        let mut g = PackageGraph::new();
        std::mem::swap(&mut g, &mut self.graph);
        g.add_edge(p, d);
        self.graph = g;
        Ok(())
    }

    /// Whether the graph contains a cycle; it never does.
    pub fn has_cycle(&self) -> (r: bool)
        ensures
            r == has_cycle(self.adj()),
            !r,
    {
        proof {
            use_type_invariant(self);
        }
        false
    }

    /// The packages in installation order: each after those it depends on.
    pub fn installation_order(&self) -> (r: Result<Vec<&Package>, DependencyGraphError>)
        ensures
            r matches Ok(v) && installation_order_of(self.packages(), self.adj(), v@.map_values(|p: &Package| *p)),
    {
        proof {
            use_type_invariant(self);
        }
        let order = self.graph.topological_order();
        let mut result: Vec<&Package> = Vec::new();
        let mut i: usize = 0;
        while i < order.len()
            invariant
                self.graph.wf(),
                is_permutation(order@, self.graph.adj().len()),
                i <= order@.len(),
                result@.len() == i,
                forall|k: int| 0 <= k < i ==> *(#[trigger] result@[k]) == self.graph.packages()[order@[k] as int],
            decreases order.len() - i,
        {
            result.push(self.graph.node(order[i]));
            i = i + 1;
        }
        let ghost o = result@.map_values(|p: &Package| *p);
        assert(is_permutation(order@, self.adj().len()) && is_topological(self.adj(), order@) && o.len() == order@.len()
            && forall|k: int| 0 <= k < o.len() ==> o[k] == self.packages()[order@[k] as int]);
        Ok(result)
    }

    /// The number of packages.
    pub fn len(&self) -> (r: usize)
        ensures
            r == self.packages().len(),
    {
        proof {
            use_type_invariant(self);
        }
        self.graph.len()
    }

    /// Whether the graph holds no package.
    pub fn is_empty(&self) -> (r: bool)
        ensures
            r == (self.packages().len() == 0),
    {
        proof {
            use_type_invariant(self);
        }
        self.graph.len() == 0
    }
}

impl Default for DependencyGraph {
    fn default() -> (r: Self)
        ensures
            r.packages().len() == 0,
            r.adj().len() == 0,
    {
        let g = PackageGraph::new();
        DependencyGraph { graph: g }
    }
}

} // verus!
