//! The package entity: a named, versioned package definition with one
//! configuration per environment, and the checks made on it.

use vstd::prelude::*;

use crate::bindings::{
    all_ascii, alphanumeric, is_alphanumeric, parse_url_scheme, regex_is_match,
    semver_pattern_matches, url_parse_outcome,
};
use crate::domain::validation::{
    error_issue, issues_view, opt_view, warning_issue, IssueView, ValidationErrorCategory,
    ValidationIssue,
};
use crate::text::{
    clone_opt, concat2, concat3, concat5, contains_char, contains_str, decimal, decimal_string,
    seq_contains_seq, str_eq,
};

verus! {

/// The abstract content of an environment configuration.
pub struct EnvView {
    pub install: Seq<char>,
    pub check: Option<Seq<char>>,
    pub dependencies: Seq<Seq<char>>,
}

/// The characters of each string in a sequence.
pub open spec fn strings_view(s: Seq<String>) -> Seq<Seq<char>> {
    s.map_values(|x: String| x@)
}

/// Configuration for a specific environment.
#[derive(Debug, Clone, PartialEq)]
pub struct EnvironmentConfig {
    /// Command to install the package
    pub install: String,
    /// Optional command to check if the package is already installed
    pub check: Option<String>,
    /// Dependencies that must be installed before this package
    pub dependencies: Vec<String>,
}

impl View for EnvironmentConfig {
    type V = EnvView;

    open spec fn view(&self) -> EnvView {
        EnvView {
            install: self.install@,
            check: opt_view(self.check),
            dependencies: strings_view(self.dependencies@),
        }
    }
}

/// A copy of a list of strings.
pub fn copy_strings(v: &Vec<String>) -> (r: Vec<String>)
    ensures
        r@ == v@,
        strings_view(r@) == strings_view(v@),
{
    let mut r: Vec<String> = Vec::new();
    let mut i: usize = 0;
    while i < v.len()
        invariant
            i <= v.len(),
            r@.len() == i,
            forall|j: int| 0 <= j < i ==> r@[j] == v@[j],
        decreases v.len() - i,
    {
        r.push(v[i].clone());
        i = i + 1;
    }
    assert(r@ =~= v@);
    r
}

impl EnvironmentConfig {
    /// A copy of this configuration.
    pub fn copy(&self) -> (r: Self)
        ensures
            r@ == self@,
    {
        EnvironmentConfig {
            install: self.install.clone(),
            check: clone_opt(&self.check),
            dependencies: copy_strings(&self.dependencies),
        }
    }
}

/// The entries of an environment map, as names and configurations.
pub type EnvEntries = Seq<(Seq<char>, EnvView)>;

/// Some entry of `m` has the name `k`.
pub open spec fn map_has_key(m: EnvEntries, k: Seq<char>) -> bool {
    exists|i: int| 0 <= i < m.len() && (#[trigger] m[i]).0 == k
}

/// `i` is the first entry of `m` with the name `k`.
pub open spec fn first_key_index(m: EnvEntries, k: Seq<char>, i: int) -> bool {
    0 <= i < m.len() && m[i].0 == k && forall|j: int| 0 <= j < i ==> (#[trigger] m[j]).0 != k
}

/// The index of the entry named `k` (meaningful when `map_has_key(m, k)`).
pub open spec fn map_key_index(m: EnvEntries, k: Seq<char>) -> int {
    choose|i: int| first_key_index(m, k, i)
}

/// The configuration named `k`, if any.
pub open spec fn map_lookup(m: EnvEntries, k: Seq<char>) -> Option<EnvView> {
    if map_has_key(m, k) {
        Some(m[map_key_index(m, k)].1)
    } else {
        None
    }
}

/// No two entries of `m` share a name.
pub open spec fn keys_distinct(m: EnvEntries) -> bool {
    forall|i: int, j: int| 0 <= i < j < m.len() ==> (#[trigger] m[i]).0 != (#[trigger] m[j]).0
}

/// When a name occurs, a first entry with that name exists and the lookup finds it.
pub proof fn lemma_first_key_index(m: EnvEntries, k: Seq<char>, i: int)
    requires
        0 <= i < m.len(),
        m[i].0 == k,
    ensures
        map_has_key(m, k),
        first_key_index(m, k, map_key_index(m, k)),
        map_key_index(m, k) <= i,
    decreases i,
{
    if exists|j: int| 0 <= j < i && (#[trigger] m[j]).0 == k {
        let j = choose|j: int| 0 <= j < i && (#[trigger] m[j]).0 == k;
        lemma_first_key_index(m, k, j);
    } else {
        assert(first_key_index(m, k, i));
    }
    let c = map_key_index(m, k);
    if c > i {
        assert(m[i].0 != k);
    }
}

/// A first index is unique.
pub proof fn lemma_first_key_index_unique(m: EnvEntries, k: Seq<char>, i: int, j: int)
    requires
        first_key_index(m, k, i),
        first_key_index(m, k, j),
    ensures
        i == j,
{
    if i < j {
        assert(m[i].0 != k);
    }
    if j < i {
        assert(m[j].0 != k);
    }
}

/// A map from environment names to their configurations. Names are unique;
/// entries keep the order in which their names were first inserted.
#[derive(Debug, PartialEq)]
pub struct EnvironmentMap {
    entries: Vec<(String, EnvironmentConfig)>,
}

impl View for EnvironmentMap {
    type V = EnvEntries;

    closed spec fn view(&self) -> EnvEntries {
        self.entries@.map_values(|e: (String, EnvironmentConfig)| (e.0@, e.1@))
    }
}

impl Clone for EnvironmentMap {
    fn clone(&self) -> (r: Self)
        ensures
            r@ == self@,
    {
        proof {
            use_type_invariant(self);
        }
        let mut entries: Vec<(String, EnvironmentConfig)> = Vec::new();
        let mut i: usize = 0;
        while i < self.entries.len()
            invariant
                i <= self.entries.len(),
                entries@.len() == i,
                forall|j: int| 0 <= j < i ==> (#[trigger] entries@[j]).0@ == self.entries@[j].0@ && entries@[j].1@ == self.entries@[j].1@,
            decreases self.entries.len() - i,
        {
            let e = &self.entries[i];
            entries.push((e.0.clone(), e.1.copy()));
            i = i + 1;
        }
        let ghost v = entries@.map_values(|e: (String, EnvironmentConfig)| (e.0@, e.1@));
        assert(v =~= self@);
        assert(keys_distinct(v));
        let r = EnvironmentMap { entries };
        r
    }
}

impl EnvironmentMap {
    #[verifier::type_invariant]
    spec fn names_unique(self) -> bool {
        keys_distinct(self@)
    }

    /// An empty map.
    pub fn new() -> (r: Self)
        ensures
            r@.len() == 0,
    {
        let r = EnvironmentMap { entries: Vec::new() };
        assert(r@ =~= Seq::<(Seq<char>, EnvView)>::empty());
        r
    }

    /// The number of environments.
    pub fn len(&self) -> (r: usize)
        ensures
            r == self@.len(),
    {
        self.entries.len()
    }

    /// Whether there is no environment.
    pub fn is_empty(&self) -> (r: bool)
        ensures
            r == (self@.len() == 0),
    {
        self.entries.len() == 0
    }

    /// The name of the `i`th environment.
    pub fn key_at(&self, i: usize) -> (r: &String)
        requires
            i < self@.len(),
        ensures
            r@ == self@[i as int].0,
    {
        &self.entries[i].0
    }

    /// The configuration of the `i`th environment.
    pub fn config_at(&self, i: usize) -> (r: &EnvironmentConfig)
        requires
            i < self@.len(),
        ensures
            r@ == self@[i as int].1,
    {
        &self.entries[i].1
    }

    /// The position of the environment named `key`, if any.
    fn find(&self, key: &str) -> (r: Option<usize>)
        ensures
            match r {
                Some(i) => first_key_index(self@, key@, i as int) && map_has_key(self@, key@)
                    && map_key_index(self@, key@) == i as int,
                None => !map_has_key(self@, key@),
            },
    {
        let mut i: usize = 0;
        while i < self.entries.len()
            invariant
                i <= self@.len(),
                self@.len() == self.entries@.len(),
                forall|j: int| 0 <= j < i ==> (#[trigger] self@[j]).0 != key@,
            decreases self.entries.len() - i,
        {
            if str_eq(self.entries[i].0.as_str(), key) {
                proof {
                    assert(self@[i as int].0 == key@);
                    assert(first_key_index(self@, key@, i as int));
                    lemma_first_key_index(self@, key@, i as int);
                    lemma_first_key_index_unique(self@, key@, i as int, map_key_index(self@, key@));
                }
                return Some(i);
            }
            i = i + 1;
        }
        None
    }

    /// Whether an environment named `key` exists.
    pub fn contains_key(&self, key: &str) -> (r: bool)
        ensures
            r == map_has_key(self@, key@),
    {
        self.find(key).is_some()
    }

    /// The configuration of the environment named `key`.
    pub fn get(&self, key: &str) -> (r: Option<&EnvironmentConfig>)
        ensures
            match r {
                Some(c) => map_lookup(self@, key@) == Some(c@),
                None => map_lookup(self@, key@).is_none(),
            },
    {
        match self.find(key) {
            Some(i) => Some(&self.entries[i].1),
            None => None,
        }
    }

    /// Insert or replace the environment named `key`; the replaced configuration
    /// is returned.
    pub fn insert(&mut self, key: String, value: EnvironmentConfig) -> (r: Option<EnvironmentConfig>)
        ensures
            map_has_key(old(self)@, key@) ==> final(self)@ == old(self)@.update(
                map_key_index(old(self)@, key@),
                (key@, value@),
            ),
            !map_has_key(old(self)@, key@) ==> final(self)@ == old(self)@.push((key@, value@)),
            match r {
                Some(c) => map_lookup(old(self)@, key@) == Some(c@),
                None => map_lookup(old(self)@, key@).is_none(),
            },
    {
        proof {
            use_type_invariant(&*self);
        }
        let found = self.find(key.as_str());
        let mut entries: Vec<(String, EnvironmentConfig)> = Vec::new();
        std::mem::swap(&mut entries, &mut self.entries);
        let ghost before = entries@;
        let ghost kv = key@;
        let ghost vv = value@;
        let result = match found {
            Some(i) => {
                let mut pair = (key, value);
                entries.set_and_swap(i, &mut pair);
                Some(pair.1)
            },
            None => {
                entries.push((key, value));
                None
            },
        };
        let ghost after = entries@.map_values(|e: (String, EnvironmentConfig)| (e.0@, e.1@));
        let ghost old_view = before.map_values(|e: (String, EnvironmentConfig)| (e.0@, e.1@));
        proof {
            match found {
                Some(i) => {
                    assert(after =~= old_view.update(i as int, (kv, vv)));
                    assert forall|a: int, b: int| 0 <= a < b < after.len() implies (#[trigger] after[a]).0 != (#[trigger] after[b]).0 by {
                        if a != i && b != i {
                            assert(old_view[a].0 != old_view[b].0);
                        } else if a == i {
                            assert(old_view[a].0 != old_view[b].0);
                        } else {
                            assert(old_view[a].0 != old_view[b].0);
                        }
                    }
                },
                None => {
                    assert(after =~= old_view.push((kv, vv)));
                    assert forall|a: int, b: int| 0 <= a < b < after.len() implies (#[trigger] after[a]).0 != (#[trigger] after[b]).0 by {
                        if b < old_view.len() {
                            assert(old_view[a].0 != old_view[b].0);
                        } else {
                            assert(old_view[a].0 != kv);
                        }
                    }
                },
            }
        }
        self.entries = entries;
        result
    }
}


/// Core package entity representing a package definition.
#[derive(Debug, Clone, PartialEq)]
pub struct Package {
    /// Package name
    pub name: String,
    /// Package version (for the package file, not the underlying package)
    pub version: String,
    /// Optional homepage URL
    pub homepage: Option<String>,
    /// Optional package description
    pub description: Option<String>,
    /// Map of environment configurations
    pub environments: EnvironmentMap,
    /// Path to the package file
    pub path: String,
}

/// Two packages with the same name and the same environments.
pub open spec fn same_package(a: Package, b: Package) -> bool {
    a.name@ == b.name@ && a.environments@ == b.environments@
}

/// A copy of a package.
pub(crate) fn copy_package(p: &Package) -> (r: Package)
    ensures
        same_package(r, *p),
        r.version@ == p.version@,
        r.homepage == p.homepage,
        r.description == p.description,
        r.path@ == p.path@,
{
    Package {
        name: p.name.clone(),
        version: p.version.clone(),
        homepage: clone_opt(&p.homepage),
        description: clone_opt(&p.description),
        environments: p.environments.clone(),
        path: p.path.clone(),
    }
}

/// Errors related to package validation.
#[derive(Debug, Clone, PartialEq)]
pub enum PackageValidationError {
    MissingField(String),
    EmptyField(String),
    EnvironmentNotSupported(String),
    YamlParseError(String),
    FileSystemError(String),
}

impl PackageValidationError {
    /// The error's message.
    pub fn to_string(&self) -> (r: String)
        ensures
            r@ == package_validation_error_text(*self),
    {
        match self {
            PackageValidationError::MissingField(f) => concat2("Missing required field: ", f.as_str()),
            PackageValidationError::EmptyField(f) => concat2("Empty field: ", f.as_str()),
            PackageValidationError::EnvironmentNotSupported(e) => concat3("Environment '", e.as_str(), "' not supported by package"),
            PackageValidationError::YamlParseError(e) => concat2("YAML parsing error: ", e.as_str()),
            PackageValidationError::FileSystemError(e) => concat2("File system error: ", e.as_str()),
        }
    }
}

/// The message of a package validation error.
pub open spec fn package_validation_error_text(e: PackageValidationError) -> Seq<char> {
    match e {
        PackageValidationError::MissingField(f) => "Missing required field: "@ + f@,
        PackageValidationError::EmptyField(f) => "Empty field: "@ + f@,
        PackageValidationError::EnvironmentNotSupported(n) => "Environment '"@ + n@ + "' not supported by package"@,
        PackageValidationError::YamlParseError(m) => "YAML parsing error: "@ + m@,
        PackageValidationError::FileSystemError(m) => "File system error: "@ + m@,
    }
}

/// `name` is non-empty and made only of alphanumeric characters, hyphens and underscores.
pub open spec fn valid_package_name(name: Seq<char>) -> bool {
    name.len() > 0 && forall|i: int| 0 <= i < name.len() ==> (alphanumeric(#[trigger] name[i]) || name[i] == '-' || name[i] == '_')
}

/// The issues about the name, version and presence of environments.
pub open spec fn required_issues(
    name: Seq<char>,
    name_ok: bool,
    version: Seq<char>,
    version_ok: bool,
    has_environments: bool,
) -> Seq<IssueView> {
    let n = if name.len() == 0 {
        seq![error_issue(ValidationErrorCategory::RequiredField, "name"@, "Package name is required"@, "Add 'name: your-package-name' to the package file."@)]
    } else if !name_ok {
        seq![error_issue(ValidationErrorCategory::InvalidValue, "name"@, "Package name contains invalid characters"@, "Use only alphanumeric characters, hyphens, and underscores."@)]
    } else {
        Seq::<IssueView>::empty()
    };
    let v = if version.len() == 0 {
        seq![error_issue(ValidationErrorCategory::RequiredField, "version"@, "Package version is required"@, "Add 'version: \"0.1.0\"' to the package file."@)]
    } else if !version_ok {
        seq![warning_issue(ValidationErrorCategory::InvalidValue, "version"@, "Package version should follow semantic versioning"@, "Consider using a semantic version like '1.0.0'."@)]
    } else {
        Seq::<IssueView>::empty()
    };
    let e = if !has_environments {
        seq![error_issue(ValidationErrorCategory::RequiredField, "environments"@, "At least one environment must be defined"@, "Add an 'environments' section with at least one environment."@)]
    } else {
        Seq::<IssueView>::empty()
    };
    n + v + e
}

/// The issues about the homepage, given what parsing it as a URL gave.
pub open spec fn url_issues_spec(outcome: Result<Seq<char>, Seq<char>>) -> Seq<IssueView> {
    match outcome {
        Ok(scheme) => if scheme != "http"@ && scheme != "https"@ {
            seq![warning_issue(ValidationErrorCategory::UrlFormat, "homepage"@, "URL should use http or https scheme, found: "@ + scheme, "Use https:// prefix for the URL."@)]
        } else {
            Seq::<IssueView>::empty()
        },
        Err(e) => seq![error_issue(ValidationErrorCategory::UrlFormat, "homepage"@, "Invalid URL format: "@ + e, "Provide a valid URL with http:// or https:// prefix."@)],
    }
}

/// The field name of an environment's install command.
pub open spec fn install_field(env: Seq<char>) -> Seq<char> {
    "environments."@ + env + ".install"@
}

/// The field name of an environment's check command.
pub open spec fn check_field(env: Seq<char>) -> Seq<char> {
    "environments."@ + env + ".check"@
}

/// The field name of an environment's `i`th dependency.
pub open spec fn dependency_field(env: Seq<char>, i: nat) -> Seq<char> {
    "environments."@ + env + ".dependencies["@ + decimal(i) + "]"@
}

/// The issues about empty dependency names of one environment.
pub open spec fn dependency_issues(env: Seq<char>, deps: Seq<Seq<char>>) -> Seq<IssueView>
    decreases deps.len(),
{
    if deps.len() == 0 {
        Seq::empty()
    } else {
        dependency_issues(env, deps.drop_last()) + if deps.last().len() == 0 {
            seq![error_issue(ValidationErrorCategory::InvalidValue, dependency_field(env, (deps.len() - 1) as nat), "Dependency name cannot be empty"@, "Remove the empty dependency or provide a valid name."@)]
        } else {
            Seq::<IssueView>::empty()
        }
    }
}

/// The issues about one environment's install command and dependencies.
pub open spec fn one_environment_issues(env: Seq<char>, cfg: EnvView) -> Seq<IssueView> {
    (if cfg.install.len() == 0 {
        seq![error_issue(ValidationErrorCategory::RequiredField, install_field(env), "Install command is required"@, "Add an install command like 'brew install package-name'."@)]
    } else {
        Seq::<IssueView>::empty()
    }) + dependency_issues(env, cfg.dependencies)
}

/// The issues of each environment, in order.
pub open spec fn each_environment_issues(m: EnvEntries) -> Seq<IssueView>
    decreases m.len(),
{
    if m.len() == 0 {
        Seq::empty()
    } else {
        each_environment_issues(m.drop_last()) + one_environment_issues(m.last().0, m.last().1)
    }
}

/// The warning given when the current environment is not configured.
pub open spec fn missing_environment_issue(current: Seq<char>) -> IssueView {
    warning_issue(
        ValidationErrorCategory::Environment,
        "environments"@,
        "Current environment '"@ + current + "' is not configured"@,
        "Add an environment section for '"@ + current + "' if needed for this environment."@,
    )
}

/// The issues about the environments section.
pub open spec fn environment_issues(m: EnvEntries, current: Seq<char>) -> Seq<IssueView> {
    if m.len() == 0 {
        Seq::empty()
    } else {
        (if current.len() > 0 && !map_has_key(m, current) {
            seq![missing_environment_issue(current)]
        } else {
            Seq::<IssueView>::empty()
        }) + each_environment_issues(m)
    }
}

/// The quote state after scanning `s`: (inside single quotes, inside double quotes).
pub open spec fn quote_state(s: Seq<char>) -> (bool, bool)
    decreases s.len(),
{
    if s.len() == 0 {
        (false, false)
    } else {
        let prev = quote_state(s.drop_last());
        let c = s.last();
        if c == '\'' && !prev.1 {
            (!prev.0, prev.1)
        } else if c == '"' && !prev.0 {
            (prev.0, !prev.1)
        } else {
            prev
        }
    }
}

/// The number of times `c` occurs in `s`.
pub open spec fn char_count(s: Seq<char>, c: char) -> nat
    decreases s.len(),
{
    if s.len() == 0 {
        0
    } else {
        char_count(s.drop_last(), c) + if s.last() == c { 1nat } else { 0nat }
    }
}

/// The number of single quotes of `s` that stand outside a double-quoted
/// stretch: those before which the scan is not inside double quotes.
pub open spec fn single_quotes_outside_double(s: Seq<char>) -> nat
    decreases s.len(),
{
    if s.len() == 0 {
        0
    } else {
        single_quotes_outside_double(s.drop_last())
            + if s.last() == '\'' && !quote_state(s.drop_last()).1 { 1nat } else { 0nat }
    }
}

/// The number of double quotes of `s` that stand outside a single-quoted
/// stretch: those before which the scan is not inside single quotes.
pub open spec fn double_quotes_outside_single(s: Seq<char>) -> nat
    decreases s.len(),
{
    if s.len() == 0 {
        0
    } else {
        double_quotes_outside_single(s.drop_last())
            + if s.last() == '"' && !quote_state(s.drop_last()).0 { 1nat } else { 0nat }
    }
}

/// Each quote outside the other kind of quotes opens or closes a quoted
/// stretch: after scanning, the scan is inside single quotes exactly when an
/// odd number of single quotes stood outside double quotes, and inside
/// double quotes exactly when an odd number of double quotes stood outside
/// single quotes.
pub proof fn law_quote_parity(s: Seq<char>)
    ensures
        quote_state(s).0 <==> single_quotes_outside_double(s) % 2 == 1,
        quote_state(s).1 <==> double_quotes_outside_single(s) % 2 == 1,
    decreases s.len(),
{
    if s.len() > 0 {
        law_quote_parity(s.drop_last());
    }
}

/// In a command without double quotes every single quote opens or closes a
/// quoted stretch: the command ends inside single quotes exactly when it has
/// an odd number of them, and never inside double quotes. Likewise for
/// double quotes in a command without single quotes.
pub proof fn law_one_kind_of_quote(s: Seq<char>)
    ensures
        !s.contains('"') ==> quote_state(s) == (char_count(s, '\'') % 2 == 1, false),
        !s.contains('\'') ==> quote_state(s) == (false, char_count(s, '"') % 2 == 1),
    decreases s.len(),
{
    if s.len() > 0 {
        let t = s.drop_last();
        law_one_kind_of_quote(t);
        if !s.contains('"') {
            assert forall|i: int| 0 <= i < t.len() implies t[i] != '"' by {
                assert(s[i] == t[i]);
            }
            assert(s[s.len() - 1] == s.last());
        }
        if !s.contains('\'') {
            assert forall|i: int| 0 <= i < t.len() implies t[i] != '\'' by {
                assert(s[i] == t[i]);
            }
            assert(s[s.len() - 1] == s.last());
        }
    }
}

/// The warning for one redirection operator, when the command uses it
/// followed by a space but never by an absolute or home-relative path.
pub open spec fn redirect_issues(
    cmd: Seq<char>,
    field: Seq<char>,
    op: Seq<char>,
    spaced: Seq<char>,
    slash: Seq<char>,
    tilde: Seq<char>,
) -> Seq<IssueView> {
    if seq_contains_seq(cmd, spaced) && !seq_contains_seq(cmd, slash) && !seq_contains_seq(cmd, tilde) {
        seq![warning_issue(ValidationErrorCategory::CommandSyntax, field, "Potential invalid redirection with "@ + op, "Ensure the redirection path is valid and absolute."@)]
    } else {
        Seq::<IssueView>::empty()
    }
}

/// The errors for quotes that a single shell command leaves open.
pub open spec fn quote_issues(cmd: Seq<char>, field: Seq<char>) -> Seq<IssueView> {
    let q = quote_state(cmd);
    (if q.0 {
        seq![error_issue(ValidationErrorCategory::CommandSyntax, field, "Unmatched single quote in command"@, "Add a closing single quote (') to the command."@)]
    } else {
        Seq::<IssueView>::empty()
    }) + (if q.1 {
        seq![error_issue(ValidationErrorCategory::CommandSyntax, field, "Unmatched double quote in command"@, "Add a closing double quote (\") to the command."@)]
    } else {
        Seq::<IssueView>::empty()
    })
}

/// The issues about the operators of a single shell command: duplicate
/// pipes, redirections to relative paths and backticks.
pub open spec fn operator_issues(cmd: Seq<char>, field: Seq<char>) -> Seq<IssueView> {
    (if seq_contains_seq(cmd, "| |"@) {
        seq![error_issue(ValidationErrorCategory::CommandSyntax, field, "Invalid pipe usage in command"@, "Remove duplicate pipe symbols."@)]
    } else {
        Seq::<IssueView>::empty()
    }) + redirect_issues(cmd, field, ">"@, "> "@, "> /"@, "> ~/"@)
        + redirect_issues(cmd, field, ">>"@, ">> "@, ">> /"@, ">> ~/"@)
        + redirect_issues(cmd, field, "<"@, "< "@, "< /"@, "< ~/"@)
        + (if cmd.contains('`') {
        seq![warning_issue(ValidationErrorCategory::CommandSyntax, field, "Contains command substitution with backticks"@, "Consider using $() for command substitution instead of backticks."@)]
    } else {
        Seq::<IssueView>::empty()
    })
}

/// The syntax issues of a single shell command.
pub open spec fn command_issues(cmd: Seq<char>, field: Seq<char>) -> Seq<IssueView> {
    quote_issues(cmd, field) + operator_issues(cmd, field)
}

/// Whether an issue among `issues` carries the message `m`.
pub open spec fn has_message(issues: Seq<IssueView>, m: Seq<char>) -> bool {
    exists|i: int| 0 <= i < issues.len() && #[trigger] issues[i].message == m
}

/// Every message among `issues` starts otherwise than with a `U`.
spec fn no_message_starts_with_u(issues: Seq<IssueView>) -> bool {
    forall|i: int| 0 <= i < issues.len() ==> (#[trigger] issues[i]).message.len() > 0 && issues[i].message[0] != 'U'
}

proof fn lemma_no_u_concat(a: Seq<IssueView>, b: Seq<IssueView>)
    requires
        no_message_starts_with_u(a),
        no_message_starts_with_u(b),
    ensures
        no_message_starts_with_u(a + b),
{
    assert forall|i: int| 0 <= i < (a + b).len() implies (#[trigger] (a + b)[i]).message.len() > 0 && (a + b)[i].message[0] != 'U' by {
        if i < a.len() {
            assert((a + b)[i] == a[i]);
        } else {
            assert((a + b)[i] == b[i - a.len()]);
        }
    }
}

proof fn lemma_redirect_messages(cmd: Seq<char>, field: Seq<char>, op: Seq<char>, spaced: Seq<char>, slash: Seq<char>, tilde: Seq<char>)
    ensures
        no_message_starts_with_u(redirect_issues(cmd, field, op, spaced, slash, tilde)),
{
    reveal_strlit("Potential invalid redirection with ");
    let p = "Potential invalid redirection with "@;
    assert((p + op)[0] == 'P');
}

/// No operator issue carries a message of an open quote.
proof fn lemma_operator_messages(cmd: Seq<char>, field: Seq<char>)
    ensures
        no_message_starts_with_u(operator_issues(cmd, field)),
{
    reveal_strlit("Invalid pipe usage in command");
    reveal_strlit("Contains command substitution with backticks");
    let pipe = if seq_contains_seq(cmd, "| |"@) {
        seq![error_issue(ValidationErrorCategory::CommandSyntax, field, "Invalid pipe usage in command"@, "Remove duplicate pipe symbols."@)]
    } else {
        Seq::<IssueView>::empty()
    };
    let r1 = redirect_issues(cmd, field, ">"@, "> "@, "> /"@, "> ~/"@);
    let r2 = redirect_issues(cmd, field, ">>"@, ">> "@, ">> /"@, ">> ~/"@);
    let r3 = redirect_issues(cmd, field, "<"@, "< "@, "< /"@, "< ~/"@);
    let tick = if cmd.contains('`') {
        seq![warning_issue(ValidationErrorCategory::CommandSyntax, field, "Contains command substitution with backticks"@, "Consider using $() for command substitution instead of backticks."@)]
    } else {
        Seq::<IssueView>::empty()
    };
    lemma_redirect_messages(cmd, field, ">"@, "> "@, "> /"@, "> ~/"@);
    lemma_redirect_messages(cmd, field, ">>"@, ">> "@, ">> /"@, ">> ~/"@);
    lemma_redirect_messages(cmd, field, "<"@, "< "@, "< /"@, "< ~/"@);
    assert(no_message_starts_with_u(pipe));
    assert(no_message_starts_with_u(tick));
    lemma_no_u_concat(pipe, r1);
    lemma_no_u_concat(pipe + r1, r2);
    lemma_no_u_concat(pipe + r1 + r2, r3);
    lemma_no_u_concat(pipe + r1 + r2 + r3, tick);
}

/// A command without double quotes is reported for an unmatched single
/// quote exactly when it holds an odd number of single quotes: a balanced
/// pair, as in `echo 'hello'`, is never reported. Likewise a command without
/// single quotes is reported for an unmatched double quote exactly when it
/// holds an odd number of double quotes.
pub proof fn law_unmatched_quote_reported_when_odd(cmd: Seq<char>, field: Seq<char>)
    ensures
        !cmd.contains('"') ==> (has_message(command_issues(cmd, field), "Unmatched single quote in command"@)
            <==> char_count(cmd, '\'') % 2 == 1),
        !cmd.contains('\'') ==> (has_message(command_issues(cmd, field), "Unmatched double quote in command"@)
            <==> char_count(cmd, '"') % 2 == 1),
{
    law_one_kind_of_quote(cmd);
    lemma_operator_messages(cmd, field);
    reveal_strlit("Unmatched single quote in command");
    reveal_strlit("Unmatched double quote in command");
    let issues = command_issues(cmd, field);
    let head = quote_issues(cmd, field);
    let tail = operator_issues(cmd, field);
    let q = quote_state(cmd);
    let single = "Unmatched single quote in command"@;
    let double = "Unmatched double quote in command"@;
    assert(single[0] == 'U' && double[0] == 'U' && single[10] != double[10]);
    assert forall|i: int| 0 <= i < issues.len() && i >= head.len()
        implies #[trigger] issues[i].message != single && issues[i].message != double by {
        assert(issues[i] == tail[i - head.len()]);
    }
    if q.0 {
        assert(issues[0].message == single);
    }
    if q.1 && !q.0 {
        assert(issues[0].message == double);
    }
    if !q.0 {
        if has_message(issues, single) {
            let i = choose|i: int| 0 <= i < issues.len() && #[trigger] issues[i].message == single;
            if i < head.len() {
                assert(issues[i] == head[i]);
            }
        }
    }
    if !q.1 {
        if has_message(issues, double) {
            let i = choose|i: int| 0 <= i < issues.len() && #[trigger] issues[i].message == double;
            if i < head.len() {
                assert(issues[i] == head[i]);
            }
        }
    }
}

/// The syntax issues of one environment's install and check commands.
pub open spec fn one_environment_command_issues(env: Seq<char>, cfg: EnvView) -> Seq<IssueView> {
    command_issues(cfg.install, install_field(env)) + match cfg.check {
        Some(c) => command_issues(c, check_field(env)),
        None => Seq::<IssueView>::empty(),
    }
}

/// The syntax issues of every environment's commands, in order.
pub open spec fn command_syntax_issues(m: EnvEntries) -> Seq<IssueView>
    decreases m.len(),
{
    if m.len() == 0 {
        Seq::empty()
    } else {
        command_syntax_issues(m.drop_last()) + one_environment_command_issues(m.last().0, m.last().1)
    }
}

/// Appends `b` to `a`, keeping the issue views in order.
pub(crate) fn append_issues(a: &mut Vec<ValidationIssue>, b: Vec<ValidationIssue>)
    ensures
        issues_view(final(a)@) == issues_view(old(a)@) + issues_view(b@),
{
    let mut b = b;
    let ghost av = old(a)@;
    let ghost bv = b@;
    a.append(&mut b);
    assert(issues_view(av + bv) =~= issues_view(av) + issues_view(bv));
}

/// Pushes one issue, keeping the issue views in order.
pub(crate) fn push_issue(a: &mut Vec<ValidationIssue>, i: ValidationIssue)
    ensures
        issues_view(final(a)@) == issues_view(old(a)@).push(i@),
{
    let ghost av = old(a)@;
    a.push(i);
    assert(issues_view(av.push(i)) =~= issues_view(av).push(i@));
}

/// Scans `s` for unmatched quotes.
fn scan_quotes(s: &str) -> (r: (bool, bool))
    ensures
        r == quote_state(s@),
{
    let n = s.unicode_len();
    let mut in_single = false;
    let mut in_double = false;
    let mut i: usize = 0;
    while i < n
        invariant
            n == s@.len(),
            i <= n,
            (in_single, in_double) == quote_state(s@.take(i as int)),
        decreases n - i,
    {
        let c = s.get_char(i);
        assert(s@.take(i + 1).drop_last() =~= s@.take(i as int));
        if c == '\'' && !in_double {
            in_single = !in_single;
        } else if c == '"' && !in_single {
            in_double = !in_double;
        }
        i = i + 1;
    }
    assert(s@.take(n as int) =~= s@);
    (in_single, in_double)
}

/// Checks the operators of a command, appending what `operator_issues` lists.
fn operator_checks(out: &mut Vec<ValidationIssue>, cmd: &str, field: &str)
    ensures
        issues_view(final(out)@) == issues_view(old(out)@) + operator_issues(cmd@, field@),
{
    let ghost start = issues_view(out@);
    if contains_str(cmd, "| |") {
        push_issue(out, ValidationIssue::error(
            ValidationErrorCategory::CommandSyntax,
            field,
            "Invalid pipe usage in command",
            None,
            Some("Remove duplicate pipe symbols."),
        ));
    }
    redirect_check(out, cmd, field, ">", "> ", "> /", "> ~/");
    redirect_check(out, cmd, field, ">>", ">> ", ">> /", ">> ~/");
    redirect_check(out, cmd, field, "<", "< ", "< /", "< ~/");
    if contains_char(cmd, '`') {
        push_issue(out, ValidationIssue::warning(
            ValidationErrorCategory::CommandSyntax,
            field,
            "Contains command substitution with backticks",
            None,
            Some("Consider using $() for command substitution instead of backticks."),
        ));
    }
    assert(issues_view(out@) =~= start + operator_issues(cmd@, field@));
}

fn redirect_check(
    out: &mut Vec<ValidationIssue>,
    cmd: &str,
    field: &str,
    op: &str,
    spaced: &str,
    slash: &str,
    tilde: &str,
)
    ensures
        issues_view(final(out)@) == issues_view(old(out)@) + redirect_issues(cmd@, field@, op@, spaced@, slash@, tilde@),
{
    if contains_str(cmd, spaced) && !contains_str(cmd, slash) && !contains_str(cmd, tilde) {
        let msg = concat2("Potential invalid redirection with ", op);
        push_issue(out, ValidationIssue::warning(
            ValidationErrorCategory::CommandSyntax,
            field,
            msg.as_str(),
            None,
            Some("Ensure the redirection path is valid and absolute."),
        ));
    } else {
        assert(issues_view(out@) =~= issues_view(out@) + Seq::<IssueView>::empty());
    }
}

/// Checks that every package name character is alphanumeric, `-` or `_`.
fn name_chars_ok(name: &str) -> (r: bool)
    ensures
        r == (forall|i: int| 0 <= i < name@.len() ==> (alphanumeric(#[trigger] name@[i]) || name@[i] == '-' || name@[i] == '_')),
{
    let n = name.unicode_len();
    let mut i: usize = 0;
    while i < n
        invariant
            n == name@.len(),
            i <= n,
            forall|j: int| 0 <= j < i ==> (alphanumeric(#[trigger] name@[j]) || name@[j] == '-' || name@[j] == '_'),
        decreases n - i,
    {
        let c = name.get_char(i);
        if !(is_alphanumeric(c) || c == '-' || c == '_') {
            return false;
        }
        i = i + 1;
    }
    true
}

impl Package {
    /// Create a new package with the specified attributes.
    pub fn new(
        name: String,
        version: String,
        homepage: Option<String>,
        description: Option<String>,
        environments: EnvironmentMap,
        path: String,
    ) -> (r: Self)
        ensures
            r.name == name,
            r.version == version,
            r.homepage == homepage,
            r.description == description,
            r.environments == environments,
            r.path == path,
    {
        Package { name, version, homepage, description, environments, path }
    }

    /// Resolve an environment configuration by name.
    pub fn resolve_environment(&self, environment_name: &str) -> (r: Result<&EnvironmentConfig, PackageValidationError>)
        ensures
            r is Ok <==> map_has_key(self.environments@, environment_name@),
            r matches Ok(c) ==> map_lookup(self.environments@, environment_name@) == Some(c@),
            r matches Err(e) ==> self.environments@.len() == 0 ==> (e matches PackageValidationError::MissingField(f) && f@ == "environments"@),
            r matches Err(e) ==> self.environments@.len() > 0 ==> (e matches PackageValidationError::EnvironmentNotSupported(n) && n@ == environment_name@),
    {
        match self.environments.get(environment_name) {
            Some(c) => Ok(c),
            None => {
                if self.environments.is_empty() {
                    Err(PackageValidationError::MissingField(String::from_str("environments")))
                } else {
                    Err(PackageValidationError::EnvironmentNotSupported(String::from_str(environment_name)))
                }
            },
        }
    }

    /// Whether a string is a valid package name: non-empty, and only
    /// alphanumeric characters, hyphens and underscores.
    pub fn is_valid_package_name(name: &str) -> (r: bool)
        ensures
            r == valid_package_name(name@),
    {
        let n = name.unicode_len();
        n > 0 && name_chars_ok(name)
    }

    /// Whether a string starts like a semantic version (`major.minor.patch`).
    pub fn is_valid_version(version: &str) -> (r: bool)
        ensures
            r == semver_pattern_matches(version@),
            all_ascii(version@) ==> (r == crate::bindings::starts_with_semver(version@)),
    {
        match regex_is_match("^\\d+\\.\\d+\\.\\d+", version) {
            Some(m) => m,
            None => false,
        }
    }

    /// The issues about the name, version and presence of environments, given
    /// whether the name's characters are allowed and whether the version
    /// matches the semantic-version pattern.
    pub fn required_field_issues(
        name: &str,
        name_ok: bool,
        version: &str,
        version_ok: bool,
        has_environments: bool,
    ) -> (r: Vec<ValidationIssue>)
        ensures
            issues_view(r@) == required_issues(name@, name_ok, version@, version_ok, has_environments),
    {
        let mut issues: Vec<ValidationIssue> = Vec::new();
        let ghost n_part: Seq<IssueView>;
        if name.unicode_len() == 0 {
            push_issue(&mut issues, ValidationIssue::error(
                ValidationErrorCategory::RequiredField,
                "name",
                "Package name is required",
                None,
                Some("Add 'name: your-package-name' to the package file."),
            ));
        } else if !name_ok {
            push_issue(&mut issues, ValidationIssue::error(
                ValidationErrorCategory::InvalidValue,
                "name",
                "Package name contains invalid characters",
                None,
                Some("Use only alphanumeric characters, hyphens, and underscores."),
            ));
        }
        let ghost after_name = issues_view(issues@);
        if version.unicode_len() == 0 {
            push_issue(&mut issues, ValidationIssue::error(
                ValidationErrorCategory::RequiredField,
                "version",
                "Package version is required",
                None,
                Some("Add 'version: \"0.1.0\"' to the package file."),
            ));
        } else if !version_ok {
            push_issue(&mut issues, ValidationIssue::warning(
                ValidationErrorCategory::InvalidValue,
                "version",
                "Package version should follow semantic versioning",
                None,
                Some("Consider using a semantic version like '1.0.0'."),
            ));
        }
        let ghost after_version = issues_view(issues@);
        if !has_environments {
            push_issue(&mut issues, ValidationIssue::error(
                ValidationErrorCategory::RequiredField,
                "environments",
                "At least one environment must be defined",
                None,
                Some("Add an 'environments' section with at least one environment."),
            ));
        }
        assert(issues_view(issues@) =~= required_issues(name@, name_ok, version@, version_ok, has_environments));
        issues
    }

    /// Validate required fields for the package.
    pub fn validate_required_fields(&self) -> (r: Vec<ValidationIssue>)
        ensures
            issues_view(r@) == required_issues(
                self.name@,
                valid_package_name(self.name@),
                self.version@,
                semver_pattern_matches(self.version@),
                self.environments@.len() > 0,
            ),
    {
        let name_ok = Self::is_valid_package_name(self.name.as_str());
        let version_ok = if self.version.as_str().unicode_len() == 0 {
            true
        } else {
            Self::is_valid_version(self.version.as_str())
        };
        let r = Self::required_field_issues(
            self.name.as_str(),
            name_ok,
            self.version.as_str(),
            version_ok,
            !self.environments.is_empty(),
        );
        assert(issues_view(r@) =~= required_issues(
            self.name@,
            valid_package_name(self.name@),
            self.version@,
            semver_pattern_matches(self.version@),
            self.environments@.len() > 0,
        ));
        r
    }

    /// The issues about a homepage, given what parsing it as a URL gave: the
    /// scheme, or the text of the parse error.
    pub fn url_issues(outcome: &Result<String, String>) -> (r: Vec<ValidationIssue>)
        ensures
            issues_view(r@) == url_issues_spec(match outcome {
                Ok(s) => Ok::<Seq<char>, Seq<char>>(s@),
                Err(e) => Err::<Seq<char>, Seq<char>>(e@),
            }),
    {
        let mut issues: Vec<ValidationIssue> = Vec::new();
        match outcome {
            Ok(scheme) => {
                if !str_eq(scheme.as_str(), "http") && !str_eq(scheme.as_str(), "https") {
                    let msg = concat2("URL should use http or https scheme, found: ", scheme.as_str());
                    push_issue(&mut issues, ValidationIssue::warning(
                        ValidationErrorCategory::UrlFormat,
                        "homepage",
                        msg.as_str(),
                        None,
                        Some("Use https:// prefix for the URL."),
                    ));
                }
            },
            Err(e) => {
                let msg = concat2("Invalid URL format: ", e.as_str());
                push_issue(&mut issues, ValidationIssue::error(
                    ValidationErrorCategory::UrlFormat,
                    "homepage",
                    msg.as_str(),
                    None,
                    Some("Provide a valid URL with http:// or https:// prefix."),
                ));
            },
        }
        assert(issues_view(issues@) =~= url_issues_spec(match outcome {
            Ok(s) => Ok::<Seq<char>, Seq<char>>(s@),
            Err(e) => Err::<Seq<char>, Seq<char>>(e@),
        }));
        issues
    }

    /// Validate URL fields.
    pub fn validate_urls(&self) -> (r: Vec<ValidationIssue>)
        ensures
            issues_view(r@) == match self.homepage {
                Some(h) => url_issues_spec(url_parse_outcome(h@)),
                None => Seq::<IssueView>::empty(),
            },
    {
        match &self.homepage {
            Some(h) => {
                let outcome = parse_url_scheme(h.as_str());
                Self::url_issues(&outcome)
            },
            None => {
                let r: Vec<ValidationIssue> = Vec::new();
                assert(issues_view(r@) =~= Seq::<IssueView>::empty());
                r
            },
        }
    }

    /// The issues about empty dependency names of one environment.
    pub(crate) fn dependency_checks(env: &str, deps: &Vec<String>) -> (r: Vec<ValidationIssue>)
        ensures
            issues_view(r@) == dependency_issues(env@, strings_view(deps@)),
    {
        let mut issues: Vec<ValidationIssue> = Vec::new();
        let mut i: usize = 0;
        assert(issues_view(issues@) =~= dependency_issues(env@, strings_view(deps@).take(0)));
        while i < deps.len()
            invariant
                i <= deps.len(),
                issues_view(issues@) == dependency_issues(env@, strings_view(deps@).take(i as int)),
            decreases deps.len() - i,
        {
            let ghost prefix = strings_view(deps@).take(i + 1);
            assert(prefix.drop_last() =~= strings_view(deps@).take(i as int));
            if deps[i].as_str().unicode_len() == 0 {
                let idx = decimal_string(i);
                let field = concat5("environments.", env, ".dependencies[", idx.as_str(), "]");
                push_issue(&mut issues, ValidationIssue::error(
                    ValidationErrorCategory::InvalidValue,
                    field.as_str(),
                    "Dependency name cannot be empty",
                    None,
                    Some("Remove the empty dependency or provide a valid name."),
                ));
                assert(issues_view(issues@) =~= dependency_issues(env@, prefix));
            } else {
                assert(issues_view(issues@) =~= dependency_issues(env@, prefix));
            }
            i = i + 1;
        }
        assert(strings_view(deps@).take(deps.len() as int) =~= strings_view(deps@));
        issues
    }

    /// Validate environments configuration.
    pub fn validate_environments(&self, current_env: &str) -> (r: Vec<ValidationIssue>)
        ensures
            issues_view(r@) == environment_issues(self.environments@, current_env@),
    {
        let mut issues: Vec<ValidationIssue> = Vec::new();
        if self.environments.is_empty() {
            assert(issues_view(issues@) =~= Seq::<IssueView>::empty());
            return issues;
        }
        if current_env.unicode_len() != 0 && !self.environments.contains_key(current_env) {
            let msg = concat3("Current environment '", current_env, "' is not configured");
            let sugg = concat3("Add an environment section for '", current_env, "' if needed for this environment.");
            push_issue(&mut issues, ValidationIssue::warning(
                ValidationErrorCategory::Environment,
                "environments",
                msg.as_str(),
                None,
                Some(sugg.as_str()),
            ));
        }
        let ghost head = issues_view(issues@);
        let n = self.environments.len();
        let mut i: usize = 0;
        assert(issues_view(issues@) =~= head + each_environment_issues(self.environments@.take(0)));
        while i < n
            invariant
                n == self.environments@.len(),
                i <= n,
                issues_view(issues@) == head + each_environment_issues(self.environments@.take(i as int)),
            decreases n - i,
        {
            let name = self.environments.key_at(i);
            let cfg = self.environments.config_at(i);
            let ghost prefix = self.environments@.take(i + 1);
            assert(prefix.drop_last() =~= self.environments@.take(i as int));
            let ghost before = issues_view(issues@);
            if cfg.install.as_str().unicode_len() == 0 {
                let field = concat3("environments.", name.as_str(), ".install");
                push_issue(&mut issues, ValidationIssue::error(
                    ValidationErrorCategory::RequiredField,
                    field.as_str(),
                    "Install command is required",
                    None,
                    Some("Add an install command like 'brew install package-name'."),
                ));
            }
            let deps = Self::dependency_checks(name.as_str(), &cfg.dependencies);
            append_issues(&mut issues, deps);
            assert(issues_view(issues@) =~= before + one_environment_issues(name@, cfg@));
            assert(issues_view(issues@) =~= head + each_environment_issues(prefix));
            i = i + 1;
        }
        assert(self.environments@.take(n as int) =~= self.environments@);
        issues
    }

    /// Validate a single command for syntax issues.
    pub fn validate_single_command(command: &str, field_name: &str) -> (r: Vec<ValidationIssue>)
        ensures
            issues_view(r@) == command_issues(command@, field_name@),
    {
        let mut issues: Vec<ValidationIssue> = Vec::new();
        let q = scan_quotes(command);
        if q.0 {
            push_issue(&mut issues, ValidationIssue::error(
                ValidationErrorCategory::CommandSyntax,
                field_name,
                "Unmatched single quote in command",
                None,
                Some("Add a closing single quote (') to the command."),
            ));
        }
        if q.1 {
            push_issue(&mut issues, ValidationIssue::error(
                ValidationErrorCategory::CommandSyntax,
                field_name,
                "Unmatched double quote in command",
                None,
                Some("Add a closing double quote (\") to the command."),
            ));
        }
        assert(issues_view(issues@) =~= quote_issues(command@, field_name@));
        operator_checks(&mut issues, command, field_name);
        issues
    }

    /// Basic command syntax validation of every environment's commands.
    pub fn validate_command_syntax(&self) -> (r: Vec<ValidationIssue>)
        ensures
            issues_view(r@) == command_syntax_issues(self.environments@),
    {
        let mut issues: Vec<ValidationIssue> = Vec::new();
        let n = self.environments.len();
        let mut i: usize = 0;
        assert(issues_view(issues@) =~= command_syntax_issues(self.environments@.take(0)));
        while i < n
            invariant
                n == self.environments@.len(),
                i <= n,
                issues_view(issues@) == command_syntax_issues(self.environments@.take(i as int)),
            decreases n - i,
        {
            let name = self.environments.key_at(i);
            let cfg = self.environments.config_at(i);
            let ghost prefix = self.environments@.take(i + 1);
            assert(prefix.drop_last() =~= self.environments@.take(i as int));
            let ghost before = issues_view(issues@);
            let install_field_name = concat3("environments.", name.as_str(), ".install");
            append_issues(&mut issues, Self::validate_single_command(cfg.install.as_str(), install_field_name.as_str()));
            match &cfg.check {
                Some(check) => {
                    let check_field_name = concat3("environments.", name.as_str(), ".check");
                    append_issues(&mut issues, Self::validate_single_command(check.as_str(), check_field_name.as_str()));
                },
                None => {},
            }
            assert(issues_view(issues@) =~= before + one_environment_command_issues(name@, cfg@));
            i = i + 1;
        }
        assert(self.environments@.take(n as int) =~= self.environments@);
        issues
    }

    /// Perform all basic domain validations.
    pub fn validate(&self, current_env: &str) -> (r: Vec<ValidationIssue>)
        ensures
            issues_view(r@) == required_issues(
                self.name@,
                valid_package_name(self.name@),
                self.version@,
                semver_pattern_matches(self.version@),
                self.environments@.len() > 0,
            ) + match self.homepage {
                Some(h) => url_issues_spec(url_parse_outcome(h@)),
                None => Seq::<IssueView>::empty(),
            } + environment_issues(self.environments@, current_env@)
                + command_syntax_issues(self.environments@),
    {
        let mut issues: Vec<ValidationIssue> = Vec::new();
        append_issues(&mut issues, self.validate_required_fields());
        append_issues(&mut issues, self.validate_urls());
        append_issues(&mut issues, self.validate_environments(current_env));
        append_issues(&mut issues, self.validate_command_syntax());
        issues
    }
}


/// The entries after inserting `v` under the name `k`: an entry of that name is
/// replaced where it stands, otherwise the new entry comes last.
pub open spec fn map_insert(m: EnvEntries, k: Seq<char>, v: EnvView) -> EnvEntries {
    if map_has_key(m, k) {
        m.update(map_key_index(m, k), (k, v))
    } else {
        m.push((k, v))
    }
}

/// What an insertion does to lookups: the inserted configuration is found
/// under its name, and every other name finds what it found before.
pub proof fn law_lookup_after_insert(m: EnvEntries, k: Seq<char>, v: EnvView, other: Seq<char>)
    requires
        other != k,
    ensures
        map_lookup(map_insert(m, k, v), k) == Some(v),
        map_lookup(map_insert(m, k, v), other) == map_lookup(m, other),
{
    let m2 = map_insert(m, k, v);
    if map_has_key(m, k) {
        let i = choose|i: int| 0 <= i < m.len() && (#[trigger] m[i]).0 == k;
        lemma_first_key_index(m, k, i);
        let f = map_key_index(m, k);
        assert(m2[f].0 == k);
        lemma_first_key_index(m2, k, f);
        let g = map_key_index(m2, k);
        assert(first_key_index(m2, k, f)) by {
            assert forall|j: int| 0 <= j < f implies (#[trigger] m2[j]).0 != k by {
                assert(m2[j] == m[j]);
            }
        }
        lemma_first_key_index_unique(m2, k, f, g);
    } else {
        let n = m.len() as int;
        assert(m2[n].0 == k);
        lemma_first_key_index(m2, k, n);
        let g = map_key_index(m2, k);
        if g < n {
            assert(m2[g] == m[g]);
            assert(map_has_key(m, k));
        }
    }
    if map_has_key(m, other) {
        let i = choose|i: int| 0 <= i < m.len() && (#[trigger] m[i]).0 == other;
        lemma_first_key_index(m, other, i);
        let f = map_key_index(m, other);
        assert(m2[f] == m[f]) by {
            if map_has_key(m, k) {
                assert(m[map_key_index(m, k)].0 == k);
            }
        }
        lemma_first_key_index(m2, other, f);
        let g = map_key_index(m2, other);
        assert(first_key_index(m2, other, f)) by {
            assert forall|j: int| 0 <= j < f implies (#[trigger] m2[j]).0 != other by {
                if m2[j] != m[j] {
                    assert(m2[j].0 == k);
                }
            }
        }
        lemma_first_key_index_unique(m2, other, f, g);
    } else {
        if map_has_key(m2, other) {
            let j = choose|j: int| 0 <= j < m2.len() && (#[trigger] m2[j]).0 == other;
            if j < m.len() && m2[j] == m[j] {
                assert(map_has_key(m, other));
            }
        }
    }
}

/// Builds a package step by step, mostly for tests.
pub struct PackageBuilder {
    package: Package,
}

impl View for PackageBuilder {
    type V = Package;

    /// The package that `build` would give now.
    closed spec fn view(&self) -> Package {
        self.package
    }
}

impl Default for PackageBuilder {
    fn default() -> (r: Self)
        ensures
            r@.name@.len() == 0,
            r@.version@.len() == 0,
            r@.homepage is None,
            r@.description is None,
            r@.environments@.len() == 0,
            r@.path@.len() == 0,
    {
        PackageBuilder {
            package: Package {
                name: String::new(),
                version: String::new(),
                homepage: None,
                description: None,
                environments: EnvironmentMap::new(),
                path: String::new(),
            },
        }
    }
}

impl PackageBuilder {
    /// Set the name.
    pub fn name(self, name: &str) -> (r: Self)
        ensures
            r@ == (Package { name: r@.name, ..self@ }),
            r@.name@ == name@,
    {
        let mut b = self;
        b.package.name = String::from_str(name);
        b
    }

    /// Set the version.
    pub fn version(self, version: &str) -> (r: Self)
        ensures
            r@ == (Package { version: r@.version, ..self@ }),
            r@.version@ == version@,
    {
        let mut b = self;
        b.package.version = String::from_str(version);
        b
    }

    /// Set the homepage.
    pub fn homepage(self, homepage: &str) -> (r: Self)
        ensures
            r@ == (Package { homepage: r@.homepage, ..self@ }),
            r@.homepage matches Some(h) && h@ == homepage@,
    {
        let mut b = self;
        b.package.homepage = Some(String::from_str(homepage));
        b
    }

    /// Set the description.
    pub fn description(self, description: &str) -> (r: Self)
        ensures
            r@ == (Package { description: r@.description, ..self@ }),
            r@.description matches Some(d) && d@ == description@,
    {
        let mut b = self;
        b.package.description = Some(String::from_str(description));
        b
    }

    /// Set the path of the package file.
    pub fn path(self, path: &str) -> (r: Self)
        ensures
            r@ == (Package { path: r@.path, ..self@ }),
            r@.path@ == path@,
    {
        let mut b = self;
        b.package.path = String::from_str(path);
        b
    }

    /// Add (or replace) an environment with its install command and a configuration.
    fn with_environment(self, name: &str, config: EnvironmentConfig) -> (r: Self)
        ensures
            r@ == (Package { environments: r@.environments, ..self@ }),
            r@.environments@ == map_insert(self@.environments@, name@, config@),
    {
        let mut b = self;
        let ghost v = config@;
        b.package.environments.insert(String::from_str(name), config);
        b
    }

    /// Add (or replace) an environment with its install command.
    pub fn environment(self, name: &str, install_command: &str) -> (r: Self)
        ensures
            r@ == (Package { environments: r@.environments, ..self@ }),
            r@.environments@ == map_insert(
                self@.environments@,
                name@,
                EnvView { install: install_command@, check: None, dependencies: Seq::empty() },
            ),
    {
        let config = EnvironmentConfig { install: String::from_str(install_command), check: None, dependencies: Vec::new() };
        assert(config@.dependencies =~= Seq::<Seq<char>>::empty());
        self.with_environment(name, config)
    }

    /// Add (or replace) an environment with its install and check commands.
    pub fn environment_with_check(self, name: &str, install_command: &str, check_command: &str) -> (r: Self)
        ensures
            r@ == (Package { environments: r@.environments, ..self@ }),
            r@.environments@ == map_insert(
                self@.environments@,
                name@,
                EnvView { install: install_command@, check: Some(check_command@), dependencies: Seq::empty() },
            ),
    {
        let config = EnvironmentConfig {
            install: String::from_str(install_command),
            check: Some(String::from_str(check_command)),
            dependencies: Vec::new(),
        };
        assert(config@.dependencies =~= Seq::<Seq<char>>::empty());
        self.with_environment(name, config)
    }

    /// Add (or replace) an environment with its install command and dependencies.
    pub fn environment_with_dependencies(self, name: &str, install_command: &str, dependencies: Vec<&str>) -> (r: Self)
        ensures
            r@ == (Package { environments: r@.environments, ..self@ }),
            r@.environments@ == map_insert(
                self@.environments@,
                name@,
                EnvView {
                    install: install_command@,
                    check: None,
                    dependencies: dependencies@.map_values(|d: &str| d@),
                },
            ),
    {
        let mut deps: Vec<String> = Vec::new();
        let mut i: usize = 0;
        while i < dependencies.len()
            invariant
                i <= dependencies.len(),
                deps@.len() == i,
                forall|j: int| 0 <= j < i ==> (#[trigger] deps@[j])@ == dependencies@[j]@,
            decreases dependencies.len() - i,
        {
            deps.push(String::from_str(dependencies[i]));
            i = i + 1;
        }
        let config = EnvironmentConfig { install: String::from_str(install_command), check: None, dependencies: deps };
        assert(config@.dependencies =~= dependencies@.map_values(|d: &str| d@));
        self.with_environment(name, config)
    }

    /// The package built so far.
    pub fn build(self) -> (r: Package)
        ensures
            r == self@,
    {
        self.package
    }
}

} // verus!
