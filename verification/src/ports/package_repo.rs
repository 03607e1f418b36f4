//! Where packages come from: a repository that finds a package by name.

use vstd::prelude::*;

use crate::domain::package::{copy_package, same_package, Package};
use crate::text::{concat2, str_eq};

verus! {

/// Errors of a package repository.
#[derive(Debug, Clone)]
pub enum PackageRepoError {
    PackageNotFound(String),
    MultiplePackagesFound(String),
    ParseError(String),
    IoError(String),
    DirectoryNotFound(String),
}

/// The message of a repository error.
pub open spec fn repo_error_text(e: PackageRepoError) -> Seq<char> {
    match e {
        PackageRepoError::PackageNotFound(n) => "Package not found: "@ + n@,
        PackageRepoError::MultiplePackagesFound(n) => "Multiple packages found with name: "@ + n@,
        PackageRepoError::ParseError(m) => "Parse error: "@ + m@,
        PackageRepoError::IoError(m) => "IO error: "@ + m@,
        PackageRepoError::DirectoryNotFound(d) => "Directory does not exist: "@ + d@,
    }
}

impl PackageRepoError {
    /// The error's message.
    pub fn to_string(&self) -> (r: String)
        ensures
            r@ == repo_error_text(*self),
    {
        match self {
            PackageRepoError::PackageNotFound(n) => concat2("Package not found: ", n.as_str()),
            PackageRepoError::MultiplePackagesFound(n) => concat2("Multiple packages found with name: ", n.as_str()),
            PackageRepoError::ParseError(m) => concat2("Parse error: ", m.as_str()),
            PackageRepoError::IoError(m) => concat2("IO error: ", m.as_str()),
            PackageRepoError::DirectoryNotFound(d) => concat2("Directory does not exist: ", d.as_str()),
        }
    }
}

/// A source of packages, implemented by the application (over the package
/// directory) and by the in-memory repository below.
pub trait PackageRepository {
    /// Get a package by name.
    fn get_package(&self, name: &str) -> Result<Package, PackageRepoError>;

    /// List all available packages.
    fn list_packages(&self) -> Result<Vec<Package>, PackageRepoError>;

    /// Find the package files that match the given name.
    fn find_package_files(&self, name: &str) -> Result<Vec<String>, PackageRepoError>;
}

/// The repository gave `answer` when asked for the package named `name`.
pub open spec fn answered_get<R: PackageRepository>(repo: &R, name: Seq<char>, answer: Result<Package, PackageRepoError>) -> bool {
    exists|n: &str| n@ == name && #[trigger] call_ensures(R::get_package, (repo, n), answer)
}

/// An in-memory repository with a scripted answer for each name, for tests.
pub struct MockPackageRepository {
    answers: Vec<(String, Result<Package, PackageRepoError>)>,
}

/// The first scripted answer for `name`, if any.
pub open spec fn first_answer(answers: Seq<(Seq<char>, Result<Package, PackageRepoError>)>, name: Seq<char>) -> Option<Result<Package, PackageRepoError>>
    decreases answers.len(),
{
    if answers.len() == 0 {
        None
    } else if answers[0].0 == name {
        Some(answers[0].1)
    } else {
        first_answer(answers.drop_first(), name)
    }
}

/// `r` answers like `a`: the same package (by name and environments) or the same error.
pub open spec fn same_answer(r: Result<Package, PackageRepoError>, a: Result<Package, PackageRepoError>) -> bool {
    match (r, a) {
        (Ok(p), Ok(q)) => same_package(p, q),
        (Err(e), Err(f)) => repo_error_text(e) == repo_error_text(f) && e == f,
        _ => false,
    }
}

impl MockPackageRepository {
    /// The scripted answers, in the order they were added.
    pub closed spec fn answers(&self) -> Seq<(Seq<char>, Result<Package, PackageRepoError>)> {
        self.answers@.map_values(|a: (String, Result<Package, PackageRepoError>)| (a.0@, a.1))
    }

    /// A repository with no answers.
    pub fn new() -> (r: Self)
        ensures
            r.answers().len() == 0,
    {
        MockPackageRepository { answers: Vec::new() }
    }

    /// Answer `name` with the package.
    pub fn mock_get_package_ok(&mut self, name: &str, result: Package)
        ensures
            final(self).answers() == old(self).answers().push((name@, Ok::<Package, PackageRepoError>(result))),
    {
        self.answers.push((String::from_str(name), Ok(result)));
        assert(self.answers() =~= old(self).answers().push((name@, Ok::<Package, PackageRepoError>(result))));
    }

    /// Answer `name` with the error.
    pub fn mock_get_package_err(&mut self, name: &str, result: PackageRepoError)
        ensures
            final(self).answers() == old(self).answers().push((name@, Err::<Package, PackageRepoError>(result))),
    {
        self.answers.push((String::from_str(name), Err(result)));
        assert(self.answers() =~= old(self).answers().push((name@, Err::<Package, PackageRepoError>(result))));
    }
}

/// The packages of the successful answers, in the order they were added.
pub open spec fn ok_packages(answers: Seq<(Seq<char>, Result<Package, PackageRepoError>)>) -> Seq<Package>
    decreases answers.len(),
{
    if answers.len() == 0 {
        Seq::empty()
    } else {
        let rest = ok_packages(answers.drop_last());
        match answers.last().1 {
            Ok(p) => rest.push(p),
            Err(_) => rest,
        }
    }
}

/// `a` is a copy of `b`: the same name, environments, version, homepage,
/// description and path.
pub open spec fn copied_package(a: Package, b: Package) -> bool {
    &&& same_package(a, b)
    &&& a.version@ == b.version@
    &&& a.homepage == b.homepage
    &&& a.description == b.description
    &&& a.path@ == b.path@
}

/// A copy of a repository error.
fn copy_repo_error(e: &PackageRepoError) -> (r: PackageRepoError)
    ensures
        r == *e,
{
    match e {
        PackageRepoError::PackageNotFound(n) => PackageRepoError::PackageNotFound(n.clone()),
        PackageRepoError::MultiplePackagesFound(n) => PackageRepoError::MultiplePackagesFound(n.clone()),
        PackageRepoError::ParseError(m) => PackageRepoError::ParseError(m.clone()),
        PackageRepoError::IoError(m) => PackageRepoError::IoError(m.clone()),
        PackageRepoError::DirectoryNotFound(d) => PackageRepoError::DirectoryNotFound(d.clone()),
    }
}

impl PackageRepository for MockPackageRepository {
    /// The first scripted answer for the name; a name without one is not found.
    fn get_package(&self, name: &str) -> (r: Result<Package, PackageRepoError>)
        ensures
            match first_answer(self.answers(), name@) {
                Some(a) => same_answer(r, a),
                None => r matches Err(PackageRepoError::PackageNotFound(n)) && n@ == name@,
            },
    {
        let mut i: usize = 0;
        assert(self.answers().skip(0) =~= self.answers());
        while i < self.answers.len()
            invariant
                i <= self.answers.len(),
                first_answer(self.answers(), name@) == first_answer(self.answers().skip(i as int), name@),
            decreases self.answers.len() - i,
        {
            assert(self.answers().skip(i as int).drop_first() =~= self.answers().skip(i + 1));
            if str_eq(self.answers[i].0.as_str(), name) {
                return match &self.answers[i].1 {
                    Ok(p) => Ok(copy_package(p)),
                    Err(e) => Err(copy_repo_error(e)),
                };
            }
            i = i + 1;
        }
        Err(PackageRepoError::PackageNotFound(String::from_str(name)))
    }

    /// The packages of the successful answers, in order.
    fn list_packages(&self) -> (r: Result<Vec<Package>, PackageRepoError>)
        ensures
            r matches Ok(v) && v@.len() == ok_packages(self.answers()).len()
                && forall|i: int| 0 <= i < v@.len() ==> copied_package(#[trigger] v@[i], ok_packages(self.answers())[i]),
    {
        let mut out: Vec<Package> = Vec::new();
        let mut i: usize = 0;
        assert(self.answers().take(0) =~= Seq::<(Seq<char>, Result<Package, PackageRepoError>)>::empty());
        while i < self.answers.len()
            invariant
                i <= self.answers.len(),
                self.answers().len() == self.answers.len(),
                out@.len() == ok_packages(self.answers().take(i as int)).len(),
                forall|j: int| 0 <= j < out@.len() ==> copied_package(#[trigger] out@[j], ok_packages(self.answers().take(i as int))[j]),
            decreases self.answers.len() - i,
        {
            let ghost before = out@;
            let ghost t = self.answers().take(i + 1);
            assert(t.drop_last() =~= self.answers().take(i as int));
            assert(t.last() == self.answers()[i as int]);
            if let Ok(p) = &self.answers[i].1 {
                out.push(copy_package(p));
                assert forall|j: int| 0 <= j < out@.len() implies copied_package(#[trigger] out@[j], ok_packages(t)[j]) by {
                    if j < before.len() {
                        assert(out@[j] == before[j]);
                    }
                }
            }
            i = i + 1;
        }
        assert(self.answers().take(i as int) =~= self.answers());
        Ok(out)
    }

    /// In memory there are no files.
    fn find_package_files(&self, name: &str) -> (r: Result<Vec<String>, PackageRepoError>)
        ensures
            r matches Ok(v) && v@.len() == 0,
    {
        Ok(Vec::new())
    }
}

} // verus!
