//! The file system as the library sees it: reading files, testing paths and
//! listing directories, with an in-memory file system for tests. The real
//! file system is the application's.

use vstd::prelude::*;

use crate::text::{concat2, str_eq};

verus! {

/// Errors of file system operations.
#[derive(Debug, Clone)]
pub enum FileSystemError {
    IoError(String),
    PathNotFound(String),
    InvalidPath(String),
    PermissionDenied(String),
}

/// The message of a file system error.
pub open spec fn fs_error_text(e: FileSystemError) -> Seq<char> {
    match e {
        FileSystemError::IoError(m) => "IO error: "@ + m@,
        FileSystemError::PathNotFound(p) => "Path not found: "@ + p@,
        FileSystemError::InvalidPath(p) => "Invalid path: "@ + p@,
        FileSystemError::PermissionDenied(p) => "Permission denied: "@ + p@,
    }
}

impl FileSystemError {
    /// The error's message.
    pub fn to_string(&self) -> (r: String)
        ensures
            r@ == fs_error_text(*self),
    {
        match self {
            FileSystemError::IoError(m) => concat2("IO error: ", m.as_str()),
            FileSystemError::PathNotFound(p) => concat2("Path not found: ", p.as_str()),
            FileSystemError::InvalidPath(p) => concat2("Invalid path: ", p.as_str()),
            FileSystemError::PermissionDenied(p) => concat2("Permission denied: ", p.as_str()),
        }
    }
}

/// File system operations, implemented by the application over the real
/// file system and by the in-memory file system below.
pub trait FileSystem {
    /// Read a file and return its contents.
    fn read_file(&self, path: &str) -> Result<String, FileSystemError>;

    /// Check if a path exists.
    fn path_exists(&self, path: &str) -> bool;

    /// Expand a path (such as `~` to the home directory).
    fn expand_path(&self, path: &str) -> Result<String, FileSystemError>;

    /// List the contents of a directory.
    fn list_directory(&self, path: &str) -> Result<Vec<String>, FileSystemError>;

    /// The canonical form of a path.
    fn canonicalize(&self, path: &str) -> Result<String, FileSystemError>;

    /// The user's configuration directory.
    fn config_dir(&self) -> Result<String, FileSystemError>;
}

/// The file system answered `answer` when asked whether `path` exists.
pub open spec fn answered_exists<F: FileSystem>(fs: &F, path: Seq<char>, answer: bool) -> bool {
    exists|p: &str| p@ == path && #[trigger] call_ensures(F::path_exists, (fs, p), answer)
}

/// The file system gave `answer` when asked for the contents of the file at `path`.
pub open spec fn answered_read<F: FileSystem>(fs: &F, path: Seq<char>, answer: Result<String, FileSystemError>) -> bool {
    exists|p: &str| p@ == path && #[trigger] call_ensures(F::read_file, (fs, p), answer)
}

/// The file system gave `answer` when asked to expand the path `path`.
pub open spec fn answered_expand<F: FileSystem>(fs: &F, path: Seq<char>, answer: Result<String, FileSystemError>) -> bool {
    exists|p: &str| p@ == path && #[trigger] call_ensures(F::expand_path, (fs, p), answer)
}

/// The file system gave `answer` when asked to list the directory at `path`.
pub open spec fn answered_list<F: FileSystem>(fs: &F, path: Seq<char>, answer: Result<Vec<String>, FileSystemError>) -> bool {
    exists|p: &str| p@ == path && #[trigger] call_ensures(F::list_directory, (fs, p), answer)
}

/// The file system gave `answer` when asked for the configuration directory.
pub open spec fn answered_config_dir<F: FileSystem>(fs: &F, answer: Result<String, FileSystemError>) -> bool {
    call_ensures(F::config_dir, (fs,), answer)
}

/// The position of the last `/` in `p`, or -1 when there is none.
pub open spec fn last_slash(p: Seq<char>) -> int
    decreases p.len(),
{
    if p.len() == 0 {
        -1
    } else if p.last() == '/' {
        p.len() - 1
    } else {
        last_slash(p.drop_last())
    }
}

/// The directory a path is in: what comes before its last `/` (a trailing
/// `/` aside), the root for a path right under it, and the empty path for a
/// bare name; none for the root itself and the empty path. Paths are taken
/// as written: `.` and repeated separators are not normalised.
pub open spec fn parent_path(p: Seq<char>) -> Option<Seq<char>> {
    let t = if p.len() > 0 && p.last() == '/' { p.drop_last() } else { p };
    if p.len() == 0 || t.len() == 0 {
        None
    } else if last_slash(t) < 0 {
        Some(Seq::empty())
    } else if last_slash(t) == 0 {
        Some(seq!['/'])
    } else {
        Some(t.subrange(0, last_slash(t)))
    }
}

proof fn lemma_last_slash(p: Seq<char>)
    ensures
        -1 <= last_slash(p) < p.len(),
        last_slash(p) >= 0 ==> p[last_slash(p)] == '/',
        forall|j: int| last_slash(p) < j < p.len() ==> p[j] != '/',
    decreases p.len(),
{
    if p.len() > 0 && p.last() != '/' {
        lemma_last_slash(p.drop_last());
        assert forall|j: int| last_slash(p) < j < p.len() implies p[j] != '/' by {
            if j < p.len() - 1 {
                assert(p.drop_last()[j] == p[j]);
            }
        }
    }
}

/// The directory a path is in (see `parent_path`).
pub fn parent(p: &str) -> (r: Option<String>)
    ensures
        match parent_path(p@) {
            Some(d) => r matches Some(s) && s@ == d,
            None => r is None,
        },
{
    let n = p.unicode_len();
    if n == 0 {
        return None;
    }
    let t = if p.get_char(n - 1) == '/' { p.substring_char(0, n - 1) } else { p.substring_char(0, n) };
    proof {
        assert(p@.subrange(0, n as int) =~= p@);
        assert(p@.subrange(0, n - 1) =~= p@.drop_last());
    }
    let m = t.unicode_len();
    if m == 0 {
        return None;
    }
    let mut i: usize = m;
    while i > 0 && t.get_char(i - 1) != '/'
        invariant
            i <= m,
            m == t@.len(),
            forall|j: int| i <= j < m ==> t@[j] != '/',
        decreases i,
    {
        i = i - 1;
    }
    proof {
        lemma_last_slash(t@);
    }
    if i == 0 {
        assert(last_slash(t@) < 0);
        Some(String::new())
    } else if i == 1 {
        assert(last_slash(t@) == 0);
        proof {
            reveal_strlit("/");
        }
        assert("/"@ =~= seq!['/']);
        Some(String::from_str("/"))
    } else {
        assert(last_slash(t@) == i - 1);
        Some(String::from_str(t.substring_char(0, i - 1)))
    }
}

/// The first entry for `key`.
pub open spec fn entry_for(entries: Seq<(Seq<char>, Seq<char>)>, key: Seq<char>) -> Option<Seq<char>>
    decreases entries.len(),
{
    if entries.len() == 0 {
        None
    } else if entries[0].0 == key {
        Some(entries[0].1)
    } else {
        entry_for(entries.drop_first(), key)
    }
}

/// The paths among the entries' keys that are directly in `dir`, in order.
pub open spec fn children(entries: Seq<(Seq<char>, Seq<char>)>, dir: Seq<char>) -> Seq<Seq<char>>
    decreases entries.len(),
{
    if entries.len() == 0 {
        Seq::empty()
    } else {
        let rest = children(entries.drop_last(), dir);
        if parent_path(entries.last().0) == Some(dir) {
            rest.push(entries.last().0)
        } else {
            rest
        }
    }
}

/// An in-memory file system: files with their contents, and the paths that
/// exist (files and directories).
pub struct MockFileSystem {
    files: Vec<(String, String)>,
    existing_paths: Vec<String>,
    config_dir: Option<String>,
}

impl MockFileSystem {
    /// The files and their contents, in the order they were first added.
    pub closed spec fn files(&self) -> Seq<(Seq<char>, Seq<char>)> {
        self.files@.map_values(|f: (String, String)| (f.0@, f.1@))
    }

    /// The paths that exist, in the order they were added.
    pub closed spec fn existing(&self) -> Seq<Seq<char>> {
        self.existing_paths@.map_values(|p: String| p@)
    }

    /// The configuration directory, when one was set.
    pub closed spec fn configured_dir(&self) -> Option<Seq<char>> {
        match self.config_dir {
            Some(d) => Some(d@),
            None => None,
        }
    }

    /// An empty file system.
    pub fn new() -> (r: Self)
        ensures
            r.files().len() == 0,
            r.existing().len() == 0,
            r.configured_dir() is None,
    {
        MockFileSystem { files: Vec::new(), existing_paths: Vec::new(), config_dir: None }
    }

    /// Whether the path was added as existing.
    fn has_path(&self, path: &str) -> (r: bool)
        ensures
            r == self.existing().contains(path@),
    {
        let mut i: usize = 0;
        while i < self.existing_paths.len()
            invariant
                i <= self.existing_paths.len(),
                forall|j: int| 0 <= j < i ==> self.existing()[j] != path@,
            decreases self.existing_paths.len() - i,
        {
            if str_eq(self.existing_paths[i].as_str(), path) {
                assert(self.existing()[i as int] == path@);
                return true;
            }
            i = i + 1;
        }
        false
    }

    /// Add a file with its contents (replacing an earlier one at the path);
    /// the path, and its directory, then exist.
    pub fn add_file(&mut self, path: &str, content: &str)
        ensures
            forall|k: Seq<char>| #[trigger] entry_for(final(self).files(), k) == if k == path@ {
                Some(content@)
            } else {
                entry_for(old(self).files(), k)
            },
            match parent_path(path@) {
                Some(d) => final(self).existing() == if old(self).existing().push(path@).contains(d) {
                    old(self).existing().push(path@)
                } else {
                    old(self).existing().push(path@).push(d)
                },
                None => final(self).existing() == old(self).existing().push(path@),
            },
            final(self).configured_dir() == old(self).configured_dir(),
    {
        self.insert_file(path, content);
        let mut paths: Vec<String> = Vec::new();
        std::mem::swap(&mut paths, &mut self.existing_paths);
        paths.push(String::from_str(path));
        self.existing_paths = paths;
        proof {
            assert(self.existing() =~= old(self).existing().push(path@));
        }
        match parent(path) {
            Some(dir) => {
                if !self.has_path(dir.as_str()) {
                    let ghost before = self.existing();
                    let mut paths: Vec<String> = Vec::new();
                    std::mem::swap(&mut paths, &mut self.existing_paths);
                    paths.push(dir);
                    self.existing_paths = paths;
                    proof {
                        assert(self.existing() =~= before.push(parent_path(path@).unwrap()));
                    }
                }
            },
            None => {},
        }
    }

    /// Put the contents at the path, replacing what was there.
    fn insert_file(&mut self, path: &str, content: &str)
        ensures
            forall|k: Seq<char>| #[trigger] entry_for(final(self).files(), k) == if k == path@ {
                Some(content@)
            } else {
                entry_for(old(self).files(), k)
            },
            final(self).existing() == old(self).existing(),
            final(self).configured_dir() == old(self).configured_dir(),
    {
        let mut i: usize = 0;
        while i < self.files.len()
            invariant
                i <= self.files.len(),
                forall|j: int| 0 <= j < i ==> self.files()[j].0 != path@,
                self.files() == old(self).files(),
                self.existing() == old(self).existing(),
                self.configured_dir() == old(self).configured_dir(),
            decreases self.files.len() - i,
        {
            if str_eq(self.files[i].0.as_str(), path) {
                let ghost before = self.files();
                let mut files: Vec<(String, String)> = Vec::new();
                std::mem::swap(&mut files, &mut self.files);
                files.set(i, (String::from_str(path), String::from_str(content)));
                self.files = files;
                proof {
                    assert(self.files() =~= before.update(i as int, (path@, content@)));
                    lemma_entry_update(before, i as int, path@, content@);
                }
                return;
            }
            i = i + 1;
        }
        let ghost before = self.files();
        let mut files: Vec<(String, String)> = Vec::new();
        std::mem::swap(&mut files, &mut self.files);
        files.push((String::from_str(path), String::from_str(content)));
        self.files = files;
        proof {
            assert(self.files() =~= before.push((path@, content@)));
            lemma_entry_push(before, path@, content@);
        }
    }

    /// Add a path that exists.
    pub fn add_existing_path(&mut self, path: &str)
        ensures
            final(self).existing() == old(self).existing().push(path@),
            final(self).files() == old(self).files(),
            final(self).configured_dir() == old(self).configured_dir(),
    {
        let mut paths: Vec<String> = Vec::new();
        std::mem::swap(&mut paths, &mut self.existing_paths);
        paths.push(String::from_str(path));
        self.existing_paths = paths;
        assert(self.existing() =~= old(self).existing().push(path@));
    }

    /// Set the configuration directory.
    pub fn mock_config_dir(&mut self, path: &str)
        ensures
            final(self).configured_dir() == Some(path@),
            final(self).files() == old(self).files(),
            final(self).existing() == old(self).existing(),
    {
        self.config_dir = Some(String::from_str(path));
    }
}

/// Replacing the first entry for a key changes only what that key finds.
proof fn lemma_entry_update(e: Seq<(Seq<char>, Seq<char>)>, i: int, key: Seq<char>, v: Seq<char>)
    requires
        0 <= i < e.len(),
        e[i].0 == key,
        forall|j: int| 0 <= j < i ==> e[j].0 != key,
    ensures
        forall|k: Seq<char>| #[trigger] entry_for(e.update(i, (key, v)), k) == if k == key { Some(v) } else { entry_for(e, k) },
    decreases i,
{
    let u = e.update(i, (key, v));
    if i == 0 {
        assert(u.drop_first() =~= e.drop_first());
        assert forall|k: Seq<char>| #[trigger] entry_for(u, k) == if k == key { Some(v) } else { entry_for(e, k) } by {
            assert(u[0] == (key, v));
        }
    } else {
        lemma_entry_update(e.drop_first(), i - 1, key, v);
        assert(u.drop_first() =~= e.drop_first().update(i - 1, (key, v)));
        assert(u[0] == e[0]);
        assert forall|k: Seq<char>| #[trigger] entry_for(u, k) == if k == key { Some(v) } else { entry_for(e, k) } by {
            assert(entry_for(e.drop_first().update(i - 1, (key, v)), k) == if k == key { Some(v) } else { entry_for(e.drop_first(), k) });
        }
    }
}

/// A key with no entry, added at the end, is found; the others are unchanged.
proof fn lemma_entry_push(e: Seq<(Seq<char>, Seq<char>)>, key: Seq<char>, v: Seq<char>)
    requires
        forall|j: int| 0 <= j < e.len() ==> e[j].0 != key,
    ensures
        forall|k: Seq<char>| #[trigger] entry_for(e.push((key, v)), k) == if k == key { Some(v) } else { entry_for(e, k) },
    decreases e.len(),
{
    let u = e.push((key, v));
    if e.len() > 0 {
        lemma_entry_push(e.drop_first(), key, v);
        assert(u.drop_first() =~= e.drop_first().push((key, v)));
        assert(u[0] == e[0]);
        assert forall|k: Seq<char>| #[trigger] entry_for(u, k) == if k == key { Some(v) } else { entry_for(e, k) } by {
            assert(entry_for(e.drop_first().push((key, v)), k) == if k == key { Some(v) } else { entry_for(e.drop_first(), k) });
        }
    } else {
        assert(u.drop_first() =~= e);
        assert forall|k: Seq<char>| #[trigger] entry_for(u, k) == if k == key { Some(v) } else { entry_for(e, k) } by {
            assert(u[0] == (key, v));
            assert(entry_for(u.drop_first(), k) is None);
        }
    }
}

/// Helpers to fill an in-memory file system.
pub trait MockFileSystemExt {
    /// Add a file with its contents.
    fn add_file(&mut self, path: &str, content: &str);

    /// Add a path that exists.
    fn add_existing_path(&mut self, path: &str);
}

impl MockFileSystemExt for MockFileSystem {
    /// As `MockFileSystem::add_file`.
    fn add_file(&mut self, path: &str, content: &str)
        ensures
            forall|k: Seq<char>| #[trigger] entry_for(final(self).files(), k) == if k == path@ {
                Some(content@)
            } else {
                entry_for(old(self).files(), k)
            },
    {
        MockFileSystem::add_file(self, path, content)
    }

    /// As `MockFileSystem::add_existing_path`.
    fn add_existing_path(&mut self, path: &str)
        ensures
            final(self).existing() == old(self).existing().push(path@),
    {
        MockFileSystem::add_existing_path(self, path)
    }
}

impl FileSystem for MockFileSystem {
    /// The contents of the file at the path.
    fn read_file(&self, path: &str) -> (r: Result<String, FileSystemError>)
        ensures
            match entry_for(self.files(), path@) {
                Some(c) => r matches Ok(s) && s@ == c,
                None => r matches Err(FileSystemError::PathNotFound(p)) && p@ == path@,
            },
    {
        let mut i: usize = 0;
        assert(self.files().skip(0) =~= self.files());
        while i < self.files.len()
            invariant
                i <= self.files.len(),
                entry_for(self.files(), path@) == entry_for(self.files().skip(i as int), path@),
            decreases self.files.len() - i,
        {
            assert(self.files().skip(i as int).drop_first() =~= self.files().skip(i + 1));
            if str_eq(self.files[i].0.as_str(), path) {
                return Ok(self.files[i].1.clone());
            }
            i = i + 1;
        }
        Err(FileSystemError::PathNotFound(String::from_str(path)))
    }

    /// Whether the path was added.
    fn path_exists(&self, path: &str) -> (r: bool)
        ensures
            r == self.existing().contains(path@),
    {
        self.has_path(path)
    }

    /// Paths are kept as they are.
    fn expand_path(&self, path: &str) -> (r: Result<String, FileSystemError>)
        ensures
            r matches Ok(s) && s@ == path@,
    {
        Ok(String::from_str(path))
    }

    /// The files directly in the directory, which must exist.
    fn list_directory(&self, path: &str) -> (r: Result<Vec<String>, FileSystemError>)
        ensures
            !self.existing().contains(path@) ==> (r matches Err(FileSystemError::PathNotFound(p)) && p@ == path@),
            self.existing().contains(path@) ==> (r matches Ok(v) && v@.map_values(|s: String| s@) == children(self.files(), path@)),
    {
        if !self.has_path(path) {
            return Err(FileSystemError::PathNotFound(String::from_str(path)));
        }
        let mut out: Vec<String> = Vec::new();
        let mut i: usize = 0;
        while i < self.files.len()
            invariant
                i <= self.files.len(),
                out@.map_values(|s: String| s@) == children(self.files().take(i as int), path@),
            decreases self.files.len() - i,
        {
            let ghost before = out@;
            assert(self.files().take(i + 1).drop_last() =~= self.files().take(i as int));
            match parent(self.files[i].0.as_str()) {
                Some(d) => {
                    if str_eq(d.as_str(), path) {
                        out.push(self.files[i].0.clone());
                        assert(out@.map_values(|s: String| s@) =~= before.map_values(|s: String| s@).push(self.files[i as int].0@));
                    }
                },
                None => {},
            }
            i = i + 1;
        }
        assert(self.files().take(i as int) =~= self.files());
        Ok(out)
    }

    /// Paths are kept as they are.
    fn canonicalize(&self, path: &str) -> (r: Result<String, FileSystemError>)
        ensures
            r matches Ok(s) && s@ == path@,
    {
        Ok(String::from_str(path))
    }

    /// The configuration directory that was set; without one, it is not found.
    fn config_dir(&self) -> (r: Result<String, FileSystemError>)
        ensures
            match self.configured_dir() {
                Some(d) => r matches Ok(s) && s@ == d,
                None => r matches Err(FileSystemError::PathNotFound(p)) && p@ == "config directory"@,
            },
    {
        match &self.config_dir {
            Some(d) => Ok(d.clone()),
            None => Err(FileSystemError::PathNotFound(String::from_str("config directory"))),
        }
    }
}

} // verus!
