//! The package directory: which files hold a package, found through a file
//! system. Reading a package file into a package is the application's work.

use vstd::prelude::*;

use crate::filesystem::{answered_exists, answered_list, fs_error_text, FileSystem, FileSystemError};
use crate::ports::package_repo::PackageRepoError;
use crate::text::{concat2, concat3, str_eq};

verus! {

/// `dir` and `file` joined into one path: an absolute `file` stands alone,
/// an empty `dir` adds nothing, and one `/` separates the two.
pub open spec fn join_path(dir: Seq<char>, file: Seq<char>) -> Seq<char> {
    if file.len() > 0 && file[0] == '/' {
        file
    } else if dir.len() == 0 {
        file
    } else if dir.last() == '/' {
        dir + file
    } else {
        dir + "/"@ + file
    }
}

/// Join a directory and a file name into one path.
pub fn join_paths(dir: &str, file: &str) -> (r: String)
    ensures
        r@ == join_path(dir@, file@),
{
    proof {
        reveal_strlit("/");
    }
    let f = file.unicode_len();
    if f > 0 && file.get_char(0) == '/' {
        return String::from_str(file);
    }
    let d = dir.unicode_len();
    if d == 0 {
        String::from_str(file)
    } else if dir.get_char(d - 1) == '/' {
        concat2(dir, file)
    } else {
        concat3(dir, "/", file)
    }
}

/// The position of the last `c` in `p`, or -1 when there is none.
pub open spec fn last_index(p: Seq<char>, c: char) -> int
    decreases p.len(),
{
    if p.len() == 0 {
        -1
    } else if p.last() == c {
        p.len() - 1
    } else {
        last_index(p.drop_last(), c)
    }
}

proof fn lemma_last_index(p: Seq<char>, c: char)
    ensures
        -1 <= last_index(p, c) < p.len(),
        last_index(p, c) >= 0 ==> p[last_index(p, c)] == c,
        forall|j: int| last_index(p, c) < j < p.len() ==> p[j] != c,
    decreases p.len(),
{
    if p.len() > 0 && p.last() != c {
        lemma_last_index(p.drop_last(), c);
        assert forall|j: int| last_index(p, c) < j < p.len() implies p[j] != c by {
            if j < p.len() - 1 {
                assert(p.drop_last()[j] == p[j]);
            }
        }
    }
}

/// The last component of a path: what follows its last `/`.
pub open spec fn file_name(p: Seq<char>) -> Seq<char> {
    p.subrange(last_index(p, '/') + 1, p.len() as int)
}

/// The extension of a path: what follows the last `.` of its file name,
/// when that `.` is not the name's first character.
pub open spec fn extension(p: Seq<char>) -> Option<Seq<char>> {
    let f = file_name(p);
    if last_index(f, '.') <= 0 {
        None
    } else {
        Some(f.subrange(last_index(f, '.') + 1, f.len() as int))
    }
}

/// The code of a character, with ASCII letters in lower case.
pub open spec fn ascii_lower(c: char) -> u32 {
    if 'A' <= c && c <= 'Z' {
        (c as u32 + 32) as u32
    } else {
        c as u32
    }
}

/// `s` equals the lower-case ASCII word `w`, ignoring the case of ASCII letters.
pub open spec fn equals_ignoring_case(s: Seq<char>, w: Seq<char>) -> bool {
    s.len() == w.len() && forall|i: int| 0 <= i < s.len() ==> #[trigger] ascii_lower(s[i]) == w[i] as u32
}

/// A path is a YAML file: its extension is `yaml` or `yml`, in any case.
pub open spec fn is_yaml_path(p: Seq<char>) -> bool {
    match extension(p) {
        Some(e) => equals_ignoring_case(e, "yaml"@) || equals_ignoring_case(e, "yml"@),
        None => false,
    }
}

/// The index of the last `c` in `s`, if any.
fn last_index_of(s: &str, c: char) -> (r: Option<usize>)
    ensures
        match r {
            Some(i) => i == last_index(s@, c),
            None => last_index(s@, c) == -1,
        },
{
    proof {
        lemma_last_index(s@, c);
    }
    let n = s.unicode_len();
    let mut i: usize = n;
    while i > 0 && s.get_char(i - 1) != c
        invariant
            i <= n,
            n == s@.len(),
            forall|j: int| i <= j < n ==> s@[j] != c,
        decreases i,
    {
        i = i - 1;
    }
    if i == 0 {
        None
    } else {
        Some(i - 1)
    }
}

/// Whether `s` equals the lower-case ASCII word `w`, ignoring case.
fn same_ignoring_case(s: &str, w: &str) -> (r: bool)
    ensures
        r == equals_ignoring_case(s@, w@),
{
    let n = s.unicode_len();
    if n != w.unicode_len() {
        return false;
    }
    let mut i: usize = 0;
    while i < n
        invariant
            i <= n,
            n == s@.len(),
            n == w@.len(),
            forall|j: int| 0 <= j < i ==> #[trigger] ascii_lower(s@[j]) == w@[j] as u32,
        decreases n - i,
    {
        let c = s.get_char(i);
        let l: u32 = if 'A' <= c && c <= 'Z' { (c as u32) + 32 } else { c as u32 };
        assert(l == ascii_lower(c));
        if l != w.get_char(i) as u32 {
            return false;
        }
        i = i + 1;
    }
    true
}

/// The file name of a path without its extension.
pub open spec fn file_stem(p: Seq<char>) -> Seq<char> {
    let f = file_name(p);
    if last_index(f, '.') <= 0 {
        f
    } else {
        f.subrange(0, last_index(f, '.'))
    }
}

/// The file name of a path without its extension.
pub fn file_stem_of(path: &str) -> (r: String)
    ensures
        r@ == file_stem(path@),
{
    proof {
        lemma_last_index(path@, '/');
    }
    let n = path.unicode_len();
    let start: usize = match last_index_of(path, '/') {
        Some(i) => i + 1,
        None => 0,
    };
    let name = path.substring_char(start, n);
    proof {
        lemma_last_index(name@, '.');
    }
    match last_index_of(name, '.') {
        Some(d) => {
            if d == 0 {
                crate::text::to_string(name)
            } else {
                crate::text::to_string(name.substring_char(0, d))
            }
        },
        None => crate::text::to_string(name),
    }
}

/// Whether the path names a YAML file (`.yaml` or `.yml`, in any case).
pub fn is_yaml_file(path: &str) -> (r: bool)
    ensures
        r == is_yaml_path(path@),
{
    let n = path.unicode_len();
    proof {
        lemma_last_index(path@, '/');
    }
    let start: usize = match last_index_of(path, '/') {
        Some(s) => s + 1,
        None => 0,
    };
    let name = path.substring_char(start, n);
    assert(name@ == file_name(path@));
    proof {
        lemma_last_index(name@, '.');
    }
    let d: usize = match last_index_of(name, '.') {
        Some(d) => d,
        None => {
            return false;
        },
    };
    if d == 0 {
        return false;
    }
    let ext = name.substring_char(d + 1, name.unicode_len());
    proof {
        reveal_strlit("yaml");
        reveal_strlit("yml");
    }
    same_ignoring_case(ext, "yaml") || same_ignoring_case(ext, "yml")
}

/// The YAML files among the paths, in order.
pub open spec fn yaml_filter(paths: Seq<Seq<char>>) -> Seq<Seq<char>>
    decreases paths.len(),
{
    if paths.len() == 0 {
        Seq::empty()
    } else if is_yaml_path(paths.last()) {
        yaml_filter(paths.drop_last()).push(paths.last())
    } else {
        yaml_filter(paths.drop_last())
    }
}

/// The YAML files among the paths, in order.
pub fn yaml_files(paths: &Vec<String>) -> (r: Vec<String>)
    ensures
        r@.map_values(|s: String| s@) == yaml_filter(paths@.map_values(|s: String| s@)),
{
    let ghost v = paths@.map_values(|s: String| s@);
    let mut out: Vec<String> = Vec::new();
    let mut i: usize = 0;
    while i < paths.len()
        invariant
            i <= paths.len(),
            v == paths@.map_values(|s: String| s@),
            out@.map_values(|s: String| s@) == yaml_filter(v.take(i as int)),
        decreases paths.len() - i,
    {
        assert(v.take(i + 1).drop_last() =~= v.take(i as int));
        assert(v.take(i + 1).last() == paths@[i as int]@);
        let ghost before = out@;
        if is_yaml_file(paths[i].as_str()) {
            out.push(paths[i].clone());
            assert(out@.map_values(|s: String| s@) =~= before.map_values(|s: String| s@).push(paths@[i as int]@));
        }
        i = i + 1;
    }
    assert(v.take(i as int) =~= v);
    out
}

/// The files a package named `name` may be in: `name.yaml`, then `name.yml`.
pub open spec fn candidate_files(dir: Seq<char>, name: Seq<char>) -> Seq<Seq<char>> {
    seq![join_path(dir, name + ".yaml"@), join_path(dir, name + ".yml"@)]
}

/// Of two candidate paths, those the answers say exist, in order.
pub open spec fn existing_of(c: Seq<Seq<char>>, first: bool, second: bool) -> Seq<Seq<char>> {
    (if first { seq![c[0]] } else { Seq::empty() }) + (if second { seq![c[1]] } else { Seq::empty() })
}

/// The package file among those found for `name`: none is not found, more
/// than one is ambiguous.
pub fn choose_package_file(name: &str, files: Vec<String>) -> (r: Result<String, PackageRepoError>)
    ensures
        files@.len() == 0 ==> (r matches Err(PackageRepoError::PackageNotFound(n)) && n@ == name@),
        files@.len() > 1 ==> (r matches Err(PackageRepoError::MultiplePackagesFound(n)) && n@ == name@),
        files@.len() == 1 ==> (r matches Ok(f) && f@ == files@[0]@),
{
    if files.len() == 0 {
        return Err(PackageRepoError::PackageNotFound(String::from_str(name)));
    }
    if files.len() > 1 {
        return Err(PackageRepoError::MultiplePackagesFound(String::from_str(name)));
    }
    Ok(files[0].clone())
}

/// The packages in a directory, reached through a file system.
pub struct PackageRepository<'a, F: FileSystem> {
    fs: &'a F,
    package_dir: String,
}

impl<'a, F: FileSystem> PackageRepository<'a, F> {
    /// The package directory.
    pub closed spec fn dir(&self) -> Seq<char> {
        self.package_dir@
    }

    /// The file system the repository reads.
    pub closed spec fn file_system(&self) -> &'a F {
        self.fs
    }

    /// A repository over the directory.
    pub fn new(fs: &'a F, package_dir: &str) -> (r: Self)
        ensures
            r.dir() == package_dir@,
            r.file_system() == fs,
    {
        PackageRepository { fs, package_dir: String::from_str(package_dir) }
    }

    /// The package directory.
    pub fn package_dir(&self) -> (r: &str)
        ensures
            r@ == self.dir(),
    {
        self.package_dir.as_str()
    }

    /// The files for the package named `name` that exist: `name.yaml` and
    /// `name.yml` in the package directory, in that order; an error when the
    /// directory does not exist.
    pub fn find_package_files(&self, name: &str) -> (r: Result<Vec<String>, PackageRepoError>)
        ensures
            r matches Err(e) ==> (e matches PackageRepoError::DirectoryNotFound(d) && d@ == self.dir())
                && answered_exists(self.file_system(), self.dir(), false),
            r matches Ok(v) ==> answered_exists(self.file_system(), self.dir(), true) && exists|a: bool, b: bool|
                #![trigger answered_exists(self.file_system(), candidate_files(self.dir(), name@)[0], a), answered_exists(self.file_system(), candidate_files(self.dir(), name@)[1], b)]
                answered_exists(self.file_system(), candidate_files(self.dir(), name@)[0], a)
                && answered_exists(self.file_system(), candidate_files(self.dir(), name@)[1], b)
                && v@.map_values(|s: String| s@) == existing_of(candidate_files(self.dir(), name@), a, b),
    {
        let dir_exists = self.fs.path_exists(self.package_dir.as_str());
        assert(answered_exists(self.fs, self.dir(), dir_exists));
        if !dir_exists {
            return Err(PackageRepoError::DirectoryNotFound(self.package_dir.clone()));
        }
        let yaml_name = concat2(name, ".yaml");
        let yml_name = concat2(name, ".yml");
        let yaml_path = join_paths(self.package_dir.as_str(), yaml_name.as_str());
        let yml_path = join_paths(self.package_dir.as_str(), yml_name.as_str());
        let mut result: Vec<String> = Vec::new();
        let ghost c = candidate_files(self.dir(), name@);
        let a = self.fs.path_exists(yaml_path.as_str());
        assert(answered_exists(self.fs, c[0], a));
        let b = self.fs.path_exists(yml_path.as_str());
        assert(answered_exists(self.fs, c[1], b));
        if a {
            result.push(yaml_path);
        }
        if b {
            result.push(yml_path);
        }
        assert(result@.map_values(|s: String| s@) =~= existing_of(c, a, b));
        assert(self.file_system() == self.fs);
        assert(answered_exists(self.file_system(), candidate_files(self.dir(), name@)[0], a)
            && answered_exists(self.file_system(), candidate_files(self.dir(), name@)[1], b)
            && result@.map_values(|s: String| s@) == existing_of(candidate_files(self.dir(), name@), a, b));
        Ok(result)
    }

    /// The file that holds the package named `name`: the one file found for
    /// it; none is not found, two are ambiguous.
    pub fn package_file(&self, name: &str) -> (r: Result<String, PackageRepoError>)
        ensures
            r matches Err(e) ==> (e matches PackageRepoError::DirectoryNotFound(d) && d@ == self.dir())
                || (e matches PackageRepoError::PackageNotFound(n) && n@ == name@)
                || (e matches PackageRepoError::MultiplePackagesFound(n) && n@ == name@),
            r matches Ok(f) ==> f@ == candidate_files(self.dir(), name@)[0] || f@ == candidate_files(self.dir(), name@)[1],
    {
        let files = match self.find_package_files(name) {
            Ok(v) => v,
            Err(e) => {
                return Err(e);
            },
        };
        let ghost w = files@.map_values(|s: String| s@);
        proof {
            if files@.len() == 1 {
                assert(w[0] == files@[0]@);
            }
        }
        choose_package_file(name, files)
    }

    /// The YAML files in a directory, in the order the file system lists them.
    pub fn list_yaml_files(&self, dir: &str) -> (r: Result<Vec<String>, PackageRepoError>)
        ensures
            r matches Err(e) ==> e matches PackageRepoError::IoError(m) && exists|fe: FileSystemError|
                #[trigger] answered_list(self.file_system(), dir@, Err(fe)) && m@ == fs_error_text(fe),
            r matches Ok(v) ==> exists|entries: Vec<String>|
                #[trigger] answered_list(self.file_system(), dir@, Ok(entries))
                && yaml_filter(entries@.map_values(|s: String| s@)) == v@.map_values(|s: String| s@),
    {
        let listed = self.fs.list_directory(dir);
        assert(answered_list(self.fs, dir@, listed));
        assert(self.file_system() == self.fs);
        let entries = match listed {
            Ok(v) => v,
            Err(e) => {
                return Err(PackageRepoError::IoError(e.to_string()));
            },
        };
        let r = yaml_files(&entries);
        Ok(r)
    }

    /// The package files of the directory: its YAML files; an error when the
    /// directory does not exist. Reading each file is the application's.
    pub fn package_files(&self) -> (r: Result<Vec<String>, PackageRepoError>)
        ensures
            r matches Err(e) ==> (e matches PackageRepoError::DirectoryNotFound(d) && d@ == self.dir()
                && answered_exists(self.file_system(), self.dir(), false))
                || (e matches PackageRepoError::IoError(m) && answered_exists(self.file_system(), self.dir(), true)
                    && exists|fe: FileSystemError| #[trigger] answered_list(self.file_system(), self.dir(), Err(fe)) && m@ == fs_error_text(fe)),
            r matches Ok(v) ==> answered_exists(self.file_system(), self.dir(), true) && exists|entries: Vec<String>|
                #[trigger] answered_list(self.file_system(), self.dir(), Ok(entries))
                && yaml_filter(entries@.map_values(|s: String| s@)) == v@.map_values(|s: String| s@),
            r matches Ok(v) ==> forall|i: int| 0 <= i < v@.len() ==> is_yaml_path(#[trigger] v@[i]@),
    {
        let dir_exists = self.fs.path_exists(self.package_dir.as_str());
        assert(answered_exists(self.fs, self.dir(), dir_exists));
        assert(self.file_system() == self.fs);
        if !dir_exists {
            return Err(PackageRepoError::DirectoryNotFound(self.package_dir.clone()));
        }
        let r = self.list_yaml_files(self.package_dir.as_str());
        proof {
            if let Ok(v) = &r {
                let e = choose|entries: Vec<String>| #[trigger] answered_list(self.file_system(), self.dir(), Ok(entries))
                    && yaml_filter(entries@.map_values(|s: String| s@)) == v@.map_values(|s: String| s@);
                lemma_yaml_filter(e@.map_values(|s: String| s@));
                assert forall|i: int| 0 <= i < v@.len() implies is_yaml_path(#[trigger] v@[i]@) by {
                    assert(v@.map_values(|s: String| s@)[i] == v@[i]@);
                }
            }
        }
        r
    }
}

/// Everything the filter keeps is a YAML file.
proof fn lemma_yaml_filter(p: Seq<Seq<char>>)
    ensures
        forall|i: int| 0 <= i < yaml_filter(p).len() ==> is_yaml_path(#[trigger] yaml_filter(p)[i]),
    decreases p.len(),
{
    if p.len() > 0 {
        lemma_yaml_filter(p.drop_last());
        let q = yaml_filter(p.drop_last());
        assert forall|i: int| 0 <= i < yaml_filter(p).len() implies is_yaml_path(#[trigger] yaml_filter(p)[i]) by {
            if i < q.len() {
                assert(yaml_filter(p)[i] == q[i]);
            }
        }
    }
}

} // verus!
