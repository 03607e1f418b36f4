//! Installing a package with its dependencies: the result of each
//! installation, the run that installs the dependencies first and the
//! package last (stopping at the first failure), and the summary shown at
//! the end. The terminal front end drives the run: it performs each step the
//! run asks for and reports how it went.

pub mod dependency;

use vstd::prelude::*;

use crate::command::{command_error_text, command_error_wf, CommandError, CommandOutput};
use crate::domain::dependency::DependencyGraphError;
use crate::filesystem::{fs_error_text, FileSystemError};
use crate::ports::package_repo::{repo_error_text, PackageRepoError};
use self::dependency::{resolver_error_text, DependencyResolverError};
use crate::domain::installation::{installation_error_text, InstallationError, InstallationStatus};
use crate::domain::package::Package;
use crate::installation::Installation;
use crate::styling::{painted, paint, Paint};
use crate::text::{concat2, concat3, debug_str, decimal, decimal_string, str_debug_text};
use crate::time::{duration_limit, duration_tenths, format_duration_tenths};

verus! {

/// Errors of the package installer.
#[derive(Debug)]
pub enum PackageInstallerError {
    PackageNotFound(String),
    FileSystemError(FileSystemError),
    PackageRepoError(PackageRepoError),
    DependencyError(DependencyResolverError),
    CircularDependency(String),
    InstallationError(InstallationError),
    InstallationCanceled,
    MultiplePackagesFound(String),
    CommandError(CommandError),
    EnvironmentError(String),
}

/// The debug rendering of an installation status.
pub open spec fn status_debug_text(s: InstallationStatus) -> Seq<char> {
    match s {
        InstallationStatus::NotStarted => "NotStarted"@,
        InstallationStatus::Checking => "Checking"@,
        InstallationStatus::NotInstalled => "NotInstalled"@,
        InstallationStatus::AlreadyInstalled => "AlreadyInstalled"@,
        InstallationStatus::Installing => "Installing"@,
        InstallationStatus::Complete => "Complete"@,
        InstallationStatus::Failed(m) => "Failed("@ + str_debug_text(m@) + ")"@,
        InstallationStatus::Skipped(m) => "Skipped("@ + str_debug_text(m@) + ")"@,
    }
}

/// The debug rendering of an installation status.
pub fn status_debug(s: &InstallationStatus) -> (r: String)
    ensures
        r@ == status_debug_text(*s),
{
    match s {
        InstallationStatus::NotStarted => String::from_str("NotStarted"),
        InstallationStatus::Checking => String::from_str("Checking"),
        InstallationStatus::NotInstalled => String::from_str("NotInstalled"),
        InstallationStatus::AlreadyInstalled => String::from_str("AlreadyInstalled"),
        InstallationStatus::Installing => String::from_str("Installing"),
        InstallationStatus::Complete => String::from_str("Complete"),
        InstallationStatus::Failed(m) => {
            let d = debug_str(m.as_str());
            concat3("Failed(", d.as_str(), ")")
        },
        InstallationStatus::Skipped(m) => {
            let d = debug_str(m.as_str());
            concat3("Skipped(", d.as_str(), ")")
        },
    }
}

/// A copy of an installation status.
fn same_status(s: &InstallationStatus) -> (r: InstallationStatus)
    ensures
        r == *s,
{
    match s {
        InstallationStatus::NotStarted => InstallationStatus::NotStarted,
        InstallationStatus::Checking => InstallationStatus::Checking,
        InstallationStatus::NotInstalled => InstallationStatus::NotInstalled,
        InstallationStatus::AlreadyInstalled => InstallationStatus::AlreadyInstalled,
        InstallationStatus::Installing => InstallationStatus::Installing,
        InstallationStatus::Complete => InstallationStatus::Complete,
        InstallationStatus::Failed(m) => InstallationStatus::Failed(m.clone()),
        InstallationStatus::Skipped(m) => InstallationStatus::Skipped(m.clone()),
    }
}

/// The result of installing a package, with its dependencies' results.
/// Durations are in nanoseconds.
#[derive(Debug)]
pub struct InstallationResult {
    pub package_name: String,
    pub status: InstallationStatus,
    pub duration: u128,
    pub command_output: Option<CommandOutput>,
    pub dependencies: Vec<InstallationResult>,
}

/// The sum of the results' own durations.
pub open spec fn result_durations_sum(s: Seq<InstallationResult>) -> nat
    decreases s.len(),
{
    if s.len() == 0 {
        0
    } else {
        result_durations_sum(s.drop_last()) + s.last().duration as nat
    }
}

/// A result's own duration and those of its direct dependencies.
pub open spec fn result_total(r: InstallationResult) -> nat {
    r.duration as nat + result_durations_sum(r.dependencies@)
}

/// The sum of the results' totals.
pub open spec fn result_totals_sum(s: Seq<InstallationResult>) -> nat
    decreases s.len(),
{
    if s.len() == 0 {
        0
    } else {
        result_totals_sum(s.drop_last()) + result_total(s.last())
    }
}

proof fn lemma_result_sum_prefix(s: Seq<InstallationResult>, k: int)
    requires
        0 <= k <= s.len(),
    ensures
        result_durations_sum(s.take(k)) <= result_durations_sum(s),
    decreases s.len() - k,
{
    if k < s.len() {
        lemma_result_sum_prefix(s, k + 1);
        assert(s.take(k + 1).drop_last() =~= s.take(k));
    } else {
        assert(s.take(k) =~= s);
    }
}

proof fn lemma_result_totals_prefix(s: Seq<InstallationResult>, k: int)
    requires
        0 <= k <= s.len(),
    ensures
        result_totals_sum(s.take(k)) <= result_totals_sum(s),
    decreases s.len() - k,
{
    if k < s.len() {
        lemma_result_totals_prefix(s, k + 1);
        assert(s.take(k + 1).drop_last() =~= s.take(k));
    } else {
        assert(s.take(k) =~= s);
    }
}

proof fn lemma_result_total_le_sum(s: Seq<InstallationResult>, i: int)
    requires
        0 <= i < s.len(),
    ensures
        result_total(s[i]) <= result_totals_sum(s),
    decreases s.len(),
{
    if i < s.len() - 1 {
        lemma_result_total_le_sum(s.drop_last(), i);
    }
}

/// When no dependency has dependencies of its own, a result's total is its
/// own duration plus the dependencies' duration (each dependency's total).
pub proof fn law_total_is_own_plus_dependencies(r: InstallationResult)
    requires
        forall|i: int| 0 <= i < r.dependencies@.len() ==> (#[trigger] r.dependencies@[i]).dependencies@.len() == 0,
    ensures
        result_total(r) == r.duration + result_totals_sum(r.dependencies@),
{
    lemma_flat_sums(r.dependencies@);
}

/// For results without dependencies of their own, totals and own durations add up alike.
proof fn lemma_flat_sums(s: Seq<InstallationResult>)
    requires
        forall|i: int| 0 <= i < s.len() ==> (#[trigger] s[i]).dependencies@.len() == 0,
    ensures
        result_totals_sum(s) == result_durations_sum(s),
    decreases s.len(),
{
    if s.len() > 0 {
        let t = s.drop_last();
        assert forall|i: int| 0 <= i < t.len() implies (#[trigger] t[i]).dependencies@.len() == 0 by {
            assert(t[i] == s[i]);
        }
        lemma_flat_sums(t);
        assert(s.last() == s[s.len() - 1]);
        assert(result_durations_sum(s.last().dependencies@) == 0);
    }
}

impl InstallationResult {
    /// A successful installation.
    pub fn success(package_name: &str, duration: u128, output: Option<CommandOutput>) -> (r: Self)
        ensures
            r.package_name@ == package_name@,
            r.status == InstallationStatus::Complete,
            r.duration == duration,
            r.command_output == output,
            r.dependencies@.len() == 0,
    {
        InstallationResult {
            package_name: String::from_str(package_name),
            status: InstallationStatus::Complete,
            duration,
            command_output: output,
            dependencies: Vec::new(),
        }
    }

    /// A package that was already installed.
    pub fn already_installed(package_name: &str, duration: u128) -> (r: Self)
        ensures
            r.package_name@ == package_name@,
            r.status == InstallationStatus::AlreadyInstalled,
            r.duration == duration,
            r.command_output is None,
            r.dependencies@.len() == 0,
    {
        InstallationResult {
            package_name: String::from_str(package_name),
            status: InstallationStatus::AlreadyInstalled,
            duration,
            command_output: None,
            dependencies: Vec::new(),
        }
    }

    /// A failed installation, with its status.
    pub fn failed(package_name: &str, status: InstallationStatus, duration: u128) -> (r: Self)
        ensures
            r.package_name@ == package_name@,
            r.status == status,
            r.duration == duration,
            r.command_output is None,
            r.dependencies@.len() == 0,
    {
        InstallationResult {
            package_name: String::from_str(package_name),
            status,
            duration,
            command_output: None,
            dependencies: Vec::new(),
        }
    }

    /// Replace the dependencies' results.
    pub fn with_dependencies(self, dependencies: Vec<InstallationResult>) -> (r: Self)
        ensures
            r.package_name == self.package_name,
            r.status == self.status,
            r.duration == self.duration,
            r.command_output == self.command_output,
            r.dependencies == dependencies,
    {
        let mut s = self;
        s.dependencies = dependencies;
        s
    }

    /// The duration including the dependencies'.
    pub fn total_duration(&self) -> (r: u128)
        requires
            result_total(*self) < duration_limit(),
        ensures
            r == result_total(*self),
    {
        let mut total: u128 = self.duration;
        let mut i: usize = 0;
        while i < self.dependencies.len()
            invariant
                i <= self.dependencies.len(),
                result_total(*self) < duration_limit(),
                total == self.duration + result_durations_sum(self.dependencies@.take(i as int)),
            decreases self.dependencies.len() - i,
        {
            proof {
                let t = self.dependencies@.take(i + 1);
                assert(t.drop_last() =~= self.dependencies@.take(i as int));
                lemma_result_sum_prefix(self.dependencies@, i + 1);
            }
            total = total + self.dependencies[i].duration;
            i = i + 1;
        }
        assert(self.dependencies@.take(i as int) =~= self.dependencies@);
        total
    }

    /// The duration of the dependencies' installations, each with its own dependencies.
    pub fn dependency_duration(&self) -> (r: u128)
        requires
            result_totals_sum(self.dependencies@) < duration_limit(),
        ensures
            r == result_totals_sum(self.dependencies@),
    {
        let mut total: u128 = 0;
        let mut i: usize = 0;
        while i < self.dependencies.len()
            invariant
                i <= self.dependencies.len(),
                result_totals_sum(self.dependencies@) < duration_limit(),
                total == result_totals_sum(self.dependencies@.take(i as int)),
            decreases self.dependencies.len() - i,
        {
            proof {
                let t = self.dependencies@.take(i + 1);
                assert(t.drop_last() =~= self.dependencies@.take(i as int));
                lemma_result_totals_prefix(self.dependencies@, i + 1);
                lemma_result_total_le_sum(self.dependencies@, i as int);
            }
            let d = self.dependencies[i].total_duration();
            total = total + d;
            i = i + 1;
        }
        assert(self.dependencies@.take(i as int) =~= self.dependencies@);
        total
    }
}

/// The result of installing one package, given how its installation ended
/// and how long it took (in nanoseconds), and the status the progress display
/// shows for it. An installation that found the package installed, or
/// completed, is reported so; any other end is a failure whose status names
/// what happened.
pub fn single_package_result(package_name: &str, outcome: &Result<Installation, InstallationError>, duration: u128) -> (r: (InstallationResult, InstallationStatus))
    requires
        outcome matches Err(InstallationError::CommandError(e)) ==> command_error_wf(*e),
    ensures
        r.0.package_name@ == package_name@,
        r.0.duration == duration,
        r.0.command_output is None,
        r.0.dependencies@.len() == 0,
        match *outcome {
            Ok(i) => match i.status {
                InstallationStatus::AlreadyInstalled => r.0.status == InstallationStatus::AlreadyInstalled && r.1 == i.status,
                InstallationStatus::Complete => r.0.status == InstallationStatus::Complete && r.1 == i.status,
                s => (r.0.status matches InstallationStatus::Failed(m) && m@ == "Installation failed: "@ + status_debug_text(s))
                    && r.1 == i.status,
            },
            Err(e) => (r.0.status matches InstallationStatus::Failed(m)
                    && m@ == "Installation error: "@ + installation_error_text(e))
                && (r.1 matches InstallationStatus::Failed(m) && m@ == installation_error_text(e)),
        },
{
    match outcome {
        Ok(installation) => {
            match &installation.status {
                InstallationStatus::AlreadyInstalled => (
                    InstallationResult::already_installed(package_name, duration),
                    InstallationStatus::AlreadyInstalled,
                ),
                InstallationStatus::Complete => (
                    InstallationResult::success(package_name, duration, None),
                    InstallationStatus::Complete,
                ),
                other => {
                    let d = status_debug(other);
                    let message = concat2("Installation failed: ", d.as_str());
                    let shown = same_status(&installation.status);
                    (InstallationResult::failed(package_name, InstallationStatus::Failed(message), duration), shown)
                },
            }
        },
        Err(err) => {
            let t = err.to_string();
            let message = concat2("Installation error: ", t.as_str());
            (InstallationResult::failed(package_name, InstallationStatus::Failed(message), duration), InstallationStatus::Failed(t))
        },
    }
}

/// What the front end is asked to do next.
#[derive(Debug)]
pub enum InstallStep {
    /// Install the dependency at this position of the plan
    InstallDependency(usize),
    /// Install the package itself, after this many dependencies
    InstallPackage(usize),
    /// Nothing is left to do
    Finished,
}

/// A run that installs a package's dependencies in order and then the
/// package, stopping at the first failure. `packages` lists the
/// dependencies first and the package last.
pub struct InstallRun {
    packages: Vec<Package>,
    done: Vec<InstallationResult>,
    finished: bool,
}

/// The message of a dependency whose installation did not succeed.
pub open spec fn dependency_failure_message(name: Seq<char>, status: InstallationStatus) -> Seq<char> {
    "Dependency '"@ + name + "' installation failed: "@ + status_debug_text(status)
}

/// The installation went through: the package was installed or already there.
pub open spec fn succeeded(r: InstallationResult) -> bool {
    r.status == InstallationStatus::Complete || r.status == InstallationStatus::AlreadyInstalled
}

impl InstallRun {
    #[verifier::type_invariant]
    spec fn run_wf(self) -> bool {
        &&& self.packages@.len() > 0
        &&& self.done@.len() < self.packages@.len()
        &&& forall|i: int| 0 <= i < self.done@.len() ==> succeeded(#[trigger] self.done@[i])
    }

    /// The packages to install, dependencies first.
    pub closed spec fn plan(&self) -> Seq<Package> {
        self.packages@
    }

    /// The results of the dependencies installed so far.
    pub closed spec fn completed(&self) -> Seq<InstallationResult> {
        self.done@
    }

    /// Whether the run has ended.
    pub closed spec fn has_finished(&self) -> bool {
        self.finished
    }

    /// A run over the packages, which list the dependencies first and the package last.
    pub fn new(packages: Vec<Package>) -> (r: Self)
        requires
            packages@.len() > 0,
        ensures
            r.plan() == packages@,
            r.completed().len() == 0,
            !r.has_finished(),
    {
        InstallRun { packages, done: Vec::new(), finished: false }
    }

    /// The packages to install.
    pub fn packages(&self) -> (r: &Vec<Package>)
        ensures
            r@ == self.plan(),
    {
        &self.packages
    }

    /// The number of dependencies (all packages but the last).
    pub fn dependency_count(&self) -> (r: usize)
        ensures
            r == self.plan().len() - 1,
    {
        proof {
            use_type_invariant(self);
        }
        self.packages.len() - 1
    }

    /// The next step: the next dependency, then the package, then nothing.
    pub fn next_step(&self) -> (r: InstallStep)
        ensures
            self.has_finished() ==> r is Finished,
            !self.has_finished() && self.completed().len() < self.plan().len() - 1
                ==> r == InstallStep::InstallDependency(self.completed().len() as usize),
            !self.has_finished() && self.completed().len() == self.plan().len() - 1
                ==> r == InstallStep::InstallPackage(self.completed().len() as usize),
    {
        proof {
            use_type_invariant(self);
        }
        if self.finished {
            InstallStep::Finished
        } else if self.done.len() < self.packages.len() - 1 {
            InstallStep::InstallDependency(self.done.len())
        } else {
            InstallStep::InstallPackage(self.done.len())
        }
    }

    /// Record how the next dependency's installation went: an installed or
    /// already installed dependency is kept and the run goes on; any other
    /// result, or an error, ends the run with an error.
    pub fn record_dependency(&mut self, outcome: Result<InstallationResult, PackageInstallerError>) -> (r: Result<(), PackageInstallerError>)
        requires
            !old(self).has_finished(),
            old(self).completed().len() < old(self).plan().len() - 1,
        ensures
            final(self).plan() == old(self).plan(),
            match outcome {
                Ok(res) => if res.status == InstallationStatus::Complete || res.status == InstallationStatus::AlreadyInstalled {
                    r is Ok && final(self).completed() == old(self).completed().push(res) && !final(self).has_finished()
                } else {
                    (r matches Err(PackageInstallerError::InstallationError(InstallationError::InstallationFailed(m)))
                        && m@ == dependency_failure_message(old(self).plan()[old(self).completed().len() as int].name@, res.status))
                        && final(self).has_finished() && final(self).completed() == old(self).completed()
                },
                Err(e) => r == Err::<(), PackageInstallerError>(e) && final(self).has_finished()
                    && final(self).completed() == old(self).completed(),
            },
    {
        proof {
            use_type_invariant(&*self);
        }
        match outcome {
            Ok(res) => {
                let keep = match &res.status {
                    InstallationStatus::Complete => true,
                    InstallationStatus::AlreadyInstalled => true,
                    _ => false,
                };
                if keep {
                    let mut done: Vec<InstallationResult> = Vec::new();
                    std::mem::swap(&mut done, &mut self.done);
                    done.push(res);
                    self.done = done;
                    Ok(())
                } else {
                    let i = self.done.len();
                    let d = status_debug(&res.status);
                    let mut message = concat3("Dependency '", self.packages[i].name.as_str(), "' installation failed: ");
                    message.append(d.as_str());
                    self.finished = true;
                    Err(PackageInstallerError::InstallationError(InstallationError::InstallationFailed(message)))
                }
            },
            Err(e) => {
                self.finished = true;
                Err(e)
            },
        }
    }

    /// Record how the package's own installation went, given also how long
    /// the whole run took: the run ends, with the package's result carrying
    /// the dependencies' results and the run's time, or with the error.
    pub fn record_package(&mut self, outcome: Result<InstallationResult, PackageInstallerError>, total_duration: u128) -> (r: Result<InstallationResult, PackageInstallerError>)
        requires
            !old(self).has_finished(),
            old(self).completed().len() == old(self).plan().len() - 1,
        ensures
            final(self).has_finished(),
            final(self).plan() == old(self).plan(),
            match outcome {
                Ok(res) => r matches Ok(f) && f.package_name == res.package_name && f.status == res.status
                    && f.command_output == res.command_output && f.duration == total_duration
                    && f.dependencies@ == old(self).completed(),
                Err(e) => r == Err::<InstallationResult, PackageInstallerError>(e),
            },
            forall|i: int| 0 <= i < old(self).completed().len() ==> succeeded(#[trigger] old(self).completed()[i]),
    {
        proof {
            use_type_invariant(&*self);
        }
        self.finished = true;
        match outcome {
            Ok(res) => {
                let mut deps: Vec<InstallationResult> = Vec::new();
                std::mem::swap(&mut deps, &mut self.done);
                let mut f = res.with_dependencies(deps);
                f.duration = total_duration;
                Ok(f)
            },
            Err(e) => Err(e),
        }
    }
}

/// How the summary ends.
#[derive(Debug, Clone, Copy, PartialEq, Eq, Structural)]
pub enum SummaryEnd {
    /// The package was already installed
    Done,
    /// The package was installed
    Complete,
    /// The installation failed
    Failed,
}

/// The summary of a finished installation: the timing lines, how it ends,
/// and the closing message (none when the package was already installed).
pub struct Summary {
    pub lines: Vec<String>,
    pub end: SummaryEnd,
    pub message: Option<String>,
}

/// The timing lines of the summary: total time, and with dependencies also
/// the dependencies' and the package's own time.
pub open spec fn summary_lines(colored: bool, r: InstallationResult) -> Seq<Seq<char>> {
    if r.dependencies@.len() > 0 {
        seq![
            "Total time: "@ + painted(colored, Paint::Cyan, duration_tenths(result_total(r) as u128)),
            "Dependencies: "@ + painted(colored, Paint::Cyan, duration_tenths(result_totals_sum(r.dependencies@) as u128)),
            "Package: "@ + painted(colored, Paint::Cyan, duration_tenths(r.duration)),
        ]
    } else {
        seq!["Total time: "@ + painted(colored, Paint::Cyan, duration_tenths(result_total(r) as u128))]
    }
}

/// The closing message of the summary.
pub open spec fn summary_message(colored: bool, r: InstallationResult) -> Option<Seq<char>> {
    match r.status {
        InstallationStatus::AlreadyInstalled => None,
        InstallationStatus::Complete => Some(
            "Successfully installed '"@ + painted(colored, Paint::MagentaBold, r.package_name@) + "' and "@
                + painted(colored, Paint::Cyan, decimal(r.dependencies@.len())) + " dependencies"@,
        ),
        _ => Some("Failed to install '"@ + painted(colored, Paint::MagentaBold, r.package_name@) + "'"@),
    }
}

/// The summary of a finished installation, styled when `colored`.
pub fn final_summary(result: &InstallationResult, colored: bool) -> (r: Summary)
    requires
        result_total(*result) < duration_limit(),
        result_totals_sum(result.dependencies@) < duration_limit(),
    ensures
        r.lines@.map_values(|l: String| l@) == summary_lines(colored, *result),
        r.end == match result.status {
            InstallationStatus::AlreadyInstalled => SummaryEnd::Done,
            InstallationStatus::Complete => SummaryEnd::Complete,
            _ => SummaryEnd::Failed,
        },
        match summary_message(colored, *result) {
            Some(m) => r.message matches Some(x) && x@ == m,
            None => r.message is None,
        },
{
    let total = result.total_duration();
    let t = format_duration_tenths(total);
    let mut lines: Vec<String> = Vec::new();
    let tt = paint(colored, Paint::Cyan, t.as_str());
    lines.push(concat2("Total time: ", tt.as_str()));
    if result.dependencies.len() > 0 {
        let dep = result.dependency_duration();
        let d = format_duration_tenths(dep);
        let dd = paint(colored, Paint::Cyan, d.as_str());
        lines.push(concat2("Dependencies: ", dd.as_str()));
        proof {
            assert(result.duration as nat <= result_total(*result));
        }
        let p = format_duration_tenths(result.duration);
        let pp = paint(colored, Paint::Cyan, p.as_str());
        lines.push(concat2("Package: ", pp.as_str()));
    }
    assert(lines@.map_values(|l: String| l@) =~= summary_lines(colored, *result));
    match &result.status {
        InstallationStatus::AlreadyInstalled => Summary { lines, end: SummaryEnd::Done, message: None },
        InstallationStatus::Complete => {
            let name = paint(colored, Paint::MagentaBold, result.package_name.as_str());
            let count = decimal_string(result.dependencies.len());
            let c = paint(colored, Paint::Cyan, count.as_str());
            let mut m = concat3("Successfully installed '", name.as_str(), "' and ");
            m.append(c.as_str());
            m.append(" dependencies");
            Summary { lines, end: SummaryEnd::Complete, message: Some(m) }
        },
        _ => {
            let name = paint(colored, Paint::MagentaBold, result.package_name.as_str());
            let m = concat3("Failed to install '", name.as_str(), "'");
            Summary { lines, end: SummaryEnd::Failed, message: Some(m) }
        },
    }
}

/// The message of the installer's errors.
pub open spec fn installer_error_text(e: PackageInstallerError) -> Seq<char> {
    match e {
        PackageInstallerError::PackageNotFound(n) => "Package not found: "@ + n@,
        PackageInstallerError::FileSystemError(f) => "FileSystem error: "@ + fs_error_text(f),
        PackageInstallerError::PackageRepoError(r) => "Package repository error: "@ + repo_error_text(r),
        PackageInstallerError::DependencyError(d) => "Dependency error: "@ + resolver_error_text(d),
        PackageInstallerError::CircularDependency(m) => "Circular dependency detected: "@ + m@,
        PackageInstallerError::InstallationError(i) => "Installation error: "@ + installation_error_text(i),
        PackageInstallerError::InstallationCanceled => "Installation canceled by user"@,
        PackageInstallerError::MultiplePackagesFound(n) => "Multiple packages found with name: "@ + n@,
        PackageInstallerError::CommandError(c) => "Command execution error: "@ + command_error_text(c),
        PackageInstallerError::EnvironmentError(m) => "Environment error: "@ + m@,
    }
}

impl PackageInstallerError {
    /// The error's message.
    pub fn to_string(&self) -> (r: String)
        requires
            self matches PackageInstallerError::CommandError(e) ==> command_error_wf(*e),
            self matches PackageInstallerError::InstallationError(InstallationError::CommandError(e)) ==> command_error_wf(*e),
        ensures
            r@ == installer_error_text(*self),
    {
        match self {
            PackageInstallerError::PackageNotFound(n) => concat2("Package not found: ", n.as_str()),
            PackageInstallerError::FileSystemError(f) => {
                let t = f.to_string();
                concat2("FileSystem error: ", t.as_str())
            },
            PackageInstallerError::PackageRepoError(r) => {
                let t = r.to_string();
                concat2("Package repository error: ", t.as_str())
            },
            PackageInstallerError::DependencyError(d) => {
                let t = d.to_string();
                concat2("Dependency error: ", t.as_str())
            },
            PackageInstallerError::CircularDependency(m) => concat2("Circular dependency detected: ", m.as_str()),
            PackageInstallerError::InstallationError(e) => {
                let t = e.to_string();
                concat2("Installation error: ", t.as_str())
            },
            PackageInstallerError::InstallationCanceled => String::from_str("Installation canceled by user"),
            PackageInstallerError::MultiplePackagesFound(n) => concat2("Multiple packages found with name: ", n.as_str()),
            PackageInstallerError::CommandError(e) => {
                let t = e.to_string();
                concat2("Command execution error: ", t.as_str())
            },
            PackageInstallerError::EnvironmentError(m) => concat2("Environment error: ", m.as_str()),
        }
    }
}

/// The installer's error for a resolution error: cycles, missing and
/// ambiguous packages and repository errors are reported as such, the rest
/// as dependency errors.
pub open spec fn installer_error_from(err: DependencyResolverError) -> PackageInstallerError {
    match err {
        DependencyResolverError::CircularDependency(cycle) => PackageInstallerError::CircularDependency(cycle),
        DependencyResolverError::PackageNotFound(p) => PackageInstallerError::PackageNotFound(p),
        DependencyResolverError::MultiplePackagesFound(p) => PackageInstallerError::MultiplePackagesFound(p),
        DependencyResolverError::RepoError(e) => PackageInstallerError::PackageRepoError(e),
        DependencyResolverError::GraphError(e) => match e {
            DependencyGraphError::CircularDependency(msg, _) => PackageInstallerError::CircularDependency(msg),
            DependencyGraphError::PackageNotFound(p) => PackageInstallerError::PackageNotFound(p),
            _ => PackageInstallerError::DependencyError(DependencyResolverError::GraphError(e)),
        },
        _ => PackageInstallerError::DependencyError(err),
    }
}

impl From<DependencyResolverError> for PackageInstallerError {
    fn from(err: DependencyResolverError) -> (r: Self) {
        match err {
            DependencyResolverError::CircularDependency(cycle) => PackageInstallerError::CircularDependency(cycle),
            DependencyResolverError::PackageNotFound(p) => PackageInstallerError::PackageNotFound(p),
            DependencyResolverError::MultiplePackagesFound(p) => PackageInstallerError::MultiplePackagesFound(p),
            DependencyResolverError::RepoError(e) => PackageInstallerError::PackageRepoError(e),
            DependencyResolverError::GraphError(e) => match e {
                DependencyGraphError::CircularDependency(msg, _) => PackageInstallerError::CircularDependency(msg),
                DependencyGraphError::PackageNotFound(p) => PackageInstallerError::PackageNotFound(p),
                other => PackageInstallerError::DependencyError(DependencyResolverError::GraphError(other)),
            },
            other => PackageInstallerError::DependencyError(other),
        }
    }
}

impl vstd::std_specs::convert::FromSpecImpl<DependencyResolverError> for PackageInstallerError {
    open spec fn obeys_from_spec() -> bool {
        true
    }

    open spec fn from_spec(err: DependencyResolverError) -> PackageInstallerError {
        installer_error_from(err)
    }
}

/// The message shown when packages to install were found: how many, and how
/// many of them are dependencies; none when there is only the package.
pub fn found_packages_message(count: usize, colored: bool) -> (r: Option<String>)
    ensures
        count <= 1 ==> r is None,
        count > 1 ==> (r matches Some(m) && m@ == "Found "@ + painted(colored, Paint::Cyan, decimal(count as nat))
            + " packages to install (including "@ + painted(colored, Paint::Cyan, decimal((count - 1) as nat)) + " dependencies)"@),
{
    if count <= 1 {
        return None;
    }
    let n = decimal_string(count);
    let d = decimal_string(count - 1);
    let nn = paint(colored, Paint::Cyan, n.as_str());
    let dd = paint(colored, Paint::Cyan, d.as_str());
    let mut m = concat3("Found ", nn.as_str(), " packages to install (including ");
    m.append(dd.as_str());
    m.append(" dependencies)");
    Some(m)
}

/// The message shown while installing a package.
pub fn installing_message(name: &str, colored: bool) -> (r: String)
    ensures
        r@ == "Installing '"@ + painted(colored, Paint::MagentaBold, name@) + "'"@,
{
    let n = paint(colored, Paint::MagentaBold, name);
    concat3("Installing '", n.as_str(), "'")
}

/// The message shown while installing a dependency.
pub fn installing_dependency_message(name: &str, colored: bool) -> (r: String)
    ensures
        r@ == "Installing dependency '"@ + painted(colored, Paint::Magenta, name@) + "'"@,
{
    let n = paint(colored, Paint::Magenta, name);
    concat3("Installing dependency '", n.as_str(), "'")
}

/// The message shown while resolving and installing the requested package.
pub fn installing_package_message(name: &str, colored: bool) -> (r: String)
    ensures
        r@ == "Installing package '"@ + painted(colored, Paint::MagentaBold, name@) + "'"@,
{
    let n = paint(colored, Paint::MagentaBold, name);
    concat3("Installing package '", n.as_str(), "'")
}

/// The message shown while installing the requested package after its
/// dependencies; none when it has no dependencies.
pub fn installing_with_dependencies_message(name: &str, dependency_count: usize, colored: bool) -> (r: Option<String>)
    ensures
        dependency_count == 0 ==> r is None,
        dependency_count > 0 ==> (r matches Some(m) && m@ == "Installing '"@ + painted(colored, Paint::MagentaBold, name@) + "' and "@
            + painted(colored, Paint::Cyan, decimal(dependency_count as nat)) + " dependencies..."@),
{
    if dependency_count == 0 {
        return None;
    }
    let n = paint(colored, Paint::MagentaBold, name);
    let c = decimal_string(dependency_count);
    let k = paint(colored, Paint::Cyan, c.as_str());
    let mut m = concat3("Installing '", n.as_str(), "' and ");
    m.append(k.as_str());
    m.append(" dependencies...");
    Some(m)
}

} // verus!
