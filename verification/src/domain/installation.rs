//! A package installation as a state machine: not started, checking whether
//! the package is already there, then installing, until it is complete,
//! failed or skipped. Running the check and install commands is the caller's
//! work; the machine decides what each outcome means.

use vstd::prelude::*;

use crate::command::{answered_run, command_error_text, command_error_wf, CommandError, CommandOutput, CommandRunner};
use crate::domain::package::EnvironmentConfig;
use crate::text::{concat2, i32_string, signed_decimal};
use crate::time::{duration_limit, elapsed_nanos, now};

verus! {

/// A package installation and the state it is in. Durations are in nanoseconds.
#[derive(Debug)]
pub enum Installation {
    NotStarted { env_config: EnvironmentConfig },
    Checking { env_config: EnvironmentConfig, start_time: std::time::Instant },
    NotAlreadyInstalled { env_config: EnvironmentConfig, start_time: std::time::Instant, check_duration: u128 },
    AlreadyInstalled { env_config: EnvironmentConfig, start_time: std::time::Instant, check_duration: u128 },
    Installing { env_config: EnvironmentConfig, start_time: std::time::Instant, check_duration: u128 },
    Complete { env_config: EnvironmentConfig, start_time: std::time::Instant, duration: u128, command_output: CommandOutput },
    Failed { env_config: EnvironmentConfig, start_time: std::time::Instant, duration: u128, error_message: String },
    Skipped { env_config: EnvironmentConfig, start_time: std::time::Instant, duration: u128, reason: String },
}

/// The current status of a package installation.
#[derive(Debug, Clone, PartialEq)]
pub enum InstallationStatus {
    NotStarted,
    Checking,
    NotInstalled,
    AlreadyInstalled,
    Installing,
    Complete,
    Failed(String),
    Skipped(String),
}

/// Errors that can occur during installation.
#[derive(Debug)]
pub enum InstallationError {
    CommandError(CommandError),
    InstallationFailed(String),
    CheckFailed(String),
    InvalidState(String),
    EnvironmentIncompatible(String),
}

/// The message of an installation error.
pub open spec fn installation_error_text(e: InstallationError) -> Seq<char> {
    match e {
        InstallationError::CommandError(c) => "Command execution error: "@ + command_error_text(c),
        InstallationError::InstallationFailed(m) => "Installation failed: "@ + m@,
        InstallationError::CheckFailed(m) => "Check command failed: "@ + m@,
        InstallationError::InvalidState(m) => "Invalid state transition: "@ + m@,
        InstallationError::EnvironmentIncompatible(m) => "Environment incompatible: "@ + m@,
    }
}

impl InstallationError {
    /// The error's message.
    pub fn to_string(&self) -> (r: String)
        requires
            self matches InstallationError::CommandError(e) ==> command_error_wf(*e),
        ensures
            r@ == installation_error_text(*self),
    {
        match self {
            InstallationError::CommandError(e) => {
                let t = e.to_string();
                concat2("Command execution error: ", t.as_str())
            },
            InstallationError::InstallationFailed(m) => concat2("Installation failed: ", m.as_str()),
            InstallationError::CheckFailed(m) => concat2("Check command failed: ", m.as_str()),
            InstallationError::InvalidState(m) => concat2("Invalid state transition: ", m.as_str()),
            InstallationError::EnvironmentIncompatible(m) => concat2("Environment incompatible: ", m.as_str()),
        }
    }
}

/// The configuration an installation works with, whatever its state.
pub open spec fn config_of(i: Installation) -> EnvironmentConfig {
    match i {
        Installation::NotStarted { env_config } => env_config,
        Installation::Checking { env_config, .. } => env_config,
        Installation::NotAlreadyInstalled { env_config, .. } => env_config,
        Installation::AlreadyInstalled { env_config, .. } => env_config,
        Installation::Installing { env_config, .. } => env_config,
        Installation::Complete { env_config, .. } => env_config,
        Installation::Failed { env_config, .. } => env_config,
        Installation::Skipped { env_config, .. } => env_config,
    }
}

/// What the check step gives for the outcome of the check command (none
/// without one): only a checking installation takes it; a successful check
/// means already installed, an unsuccessful one or no check not installed,
/// and an error fails it.
pub open spec fn check_step(i: Installation, outcome: Option<Result<CommandOutput, CommandError>>, r: Result<Installation, InstallationError>) -> bool {
    &&& !(i is Checking) ==> (r matches Err(InstallationError::InvalidState(m)) && m@ == "Can only execute check from Checking state"@)
    &&& i is Checking ==> (r matches Ok(s) && config_of(s) == config_of(i) && match outcome {
        None => s is NotAlreadyInstalled,
        Some(Ok(o)) => if o.success { s is AlreadyInstalled } else { s is NotAlreadyInstalled },
        Some(Err(e)) => s matches Installation::Failed { error_message: m, .. } && m@ == "Check command failed: "@ + command_error_text(e),
    })
}

/// What the install step gives for the outcome of the install command: only
/// an installation known not to be installed takes it; a successful run
/// completes it, an unsuccessful one or an error fails it.
pub open spec fn install_step(i: Installation, outcome: Option<Result<CommandOutput, CommandError>>, r: Result<Installation, InstallationError>) -> bool {
    &&& !(i is NotAlreadyInstalled) ==> (r matches Err(InstallationError::InvalidState(m)) && m@ == "Can only execute install from NotInstalled state"@)
    &&& i is NotAlreadyInstalled ==> (r matches Ok(s) && config_of(s) == config_of(i) && match outcome {
        Some(Ok(o)) => if o.success {
            s matches Installation::Complete { command_output: c, .. } && c == o
        } else {
            s matches Installation::Failed { error_message: m, .. } && m@ == install_status_message(o.status)
        },
        Some(Err(e)) => s matches Installation::Failed { error_message: m, .. } && m@ == "Install command error: "@ + command_error_text(e),
        None => false,
    })
}

/// When an installation started, once it has.
pub open spec fn start_of(i: Installation) -> Option<std::time::Instant> {
    match i {
        Installation::NotStarted { .. } => None,
        Installation::Checking { start_time, .. } => Some(start_time),
        Installation::NotAlreadyInstalled { start_time, .. } => Some(start_time),
        Installation::AlreadyInstalled { start_time, .. } => Some(start_time),
        Installation::Installing { start_time, .. } => Some(start_time),
        Installation::Complete { start_time, .. } => Some(start_time),
        Installation::Failed { start_time, .. } => Some(start_time),
        Installation::Skipped { start_time, .. } => Some(start_time),
    }
}

/// The status of an installation in a given state.
pub open spec fn status_of(i: Installation) -> InstallationStatus {
    match i {
        Installation::NotStarted { .. } => InstallationStatus::NotStarted,
        Installation::Checking { .. } => InstallationStatus::Checking,
        Installation::NotAlreadyInstalled { .. } => InstallationStatus::NotInstalled,
        Installation::AlreadyInstalled { .. } => InstallationStatus::AlreadyInstalled,
        Installation::Installing { .. } => InstallationStatus::Installing,
        Installation::Complete { .. } => InstallationStatus::Complete,
        Installation::Failed { error_message, .. } => InstallationStatus::Failed(error_message),
        Installation::Skipped { reason, .. } => InstallationStatus::Skipped(reason),
    }
}

/// The message recorded when the install command ran and reported failure.
pub open spec fn install_status_message(status: i32) -> Seq<char> {
    "Install command failed with status "@ + signed_decimal(status as int)
}

impl Installation {
    /// A new installation, not started.
    pub fn new(env_config: EnvironmentConfig) -> (r: Self)
        ensures
            r == (Installation::NotStarted { env_config }),
    {
        Installation::NotStarted { env_config }
    }

    /// Start: a new installation begins checking, now; any other is unchanged.
    pub fn start(self) -> (r: Self)
        ensures
            config_of(r) == config_of(self),
            self is NotStarted ==> r is Checking,
            !(self is NotStarted) ==> r == self,
    {
        match self {
            Installation::NotStarted { env_config } => Installation::Checking { env_config, start_time: now() },
            other => other,
        }
    }

    /// After a check that found nothing: checking becomes not installed; any
    /// other state is unchanged.
    pub fn mark_not_already_installed(self) -> (r: Self)
        ensures
            config_of(r) == config_of(self),
            self is Checking ==> r is NotAlreadyInstalled,
            !(self is Checking) ==> r == self,
    {
        match self {
            Installation::Checking { env_config, start_time } => {
                let check_duration = elapsed_nanos(&start_time);
                Installation::NotAlreadyInstalled { env_config, start_time, check_duration }
            },
            other => other,
        }
    }

    /// After a check that found the package: checking becomes already
    /// installed; any other state is unchanged.
    pub fn mark_already_installed(self) -> (r: Self)
        ensures
            config_of(r) == config_of(self),
            self is Checking ==> r is AlreadyInstalled,
            !(self is Checking) ==> r == self,
    {
        match self {
            Installation::Checking { env_config, start_time } => {
                let check_duration = elapsed_nanos(&start_time);
                Installation::AlreadyInstalled { env_config, start_time, check_duration }
            },
            other => other,
        }
    }

    /// Not installed becomes installing; any other state is unchanged.
    pub fn start_installing(self) -> (r: Self)
        ensures
            config_of(r) == config_of(self),
            self is NotAlreadyInstalled ==> r is Installing,
            !(self is NotAlreadyInstalled) ==> r == self,
    {
        match self {
            Installation::NotAlreadyInstalled { env_config, start_time, check_duration } =>
                Installation::Installing { env_config, start_time, check_duration },
            other => other,
        }
    }

    /// Installing becomes complete with the command's output; any other state is unchanged.
    pub fn complete(self, command_output: CommandOutput) -> (r: Self)
        ensures
            config_of(r) == config_of(self),
            self is Installing ==> (r matches Installation::Complete { command_output: o, .. } && o == command_output),
            !(self is Installing) ==> r == self,
    {
        match self {
            Installation::Installing { env_config, start_time, .. } => {
                let duration = elapsed_nanos(&start_time);
                Installation::Complete { env_config, start_time, duration, command_output }
            },
            other => other,
        }
    }

    /// Checking, not installed or installing becomes failed with the
    /// message; any other state is unchanged.
    pub fn fail(self, error_message: String) -> (r: Self)
        ensures
            config_of(r) == config_of(self),
            (self is Checking || self is NotAlreadyInstalled || self is Installing) ==> (r matches Installation::Failed { error_message: m, duration: d, .. }
                && m == error_message && d < duration_limit() && start_of(r) == start_of(self)),
            !(self is Checking || self is NotAlreadyInstalled || self is Installing) ==> r == self,
    {
        match self {
            Installation::Checking { env_config, start_time } => {
                let duration = elapsed_nanos(&start_time);
                Installation::Failed { env_config, start_time, duration, error_message }
            },
            Installation::Installing { env_config, start_time, .. } => {
                let duration = elapsed_nanos(&start_time);
                Installation::Failed { env_config, start_time, duration, error_message }
            },
            Installation::NotAlreadyInstalled { env_config, start_time, .. } => {
                let duration = elapsed_nanos(&start_time);
                Installation::Failed { env_config, start_time, duration, error_message }
            },
            other => other,
        }
    }

    /// Not started (taking no time) or checking becomes skipped for the
    /// reason; any other state is unchanged.
    pub fn skip(self, reason: String) -> (r: Self)
        ensures
            config_of(r) == config_of(self),
            self is NotStarted ==> (r matches Installation::Skipped { reason: m, duration: d, .. } && m == reason && d == 0),
            self is Checking ==> (r matches Installation::Skipped { reason: m, .. } && m == reason),
            !(self is NotStarted || self is Checking) ==> r == self,
    {
        match self {
            Installation::NotStarted { env_config } => {
                let start_time = now();
                Installation::Skipped { env_config, start_time, duration: 0, reason }
            },
            Installation::Checking { env_config, start_time } => {
                let duration = elapsed_nanos(&start_time);
                Installation::Skipped { env_config, start_time, duration, reason }
            },
            other => other,
        }
    }

    /// The check command to run now: the configured one while checking.
    pub fn check_command(&self) -> (r: Option<String>)
        ensures
            r == match *self {
                Installation::Checking { env_config, .. } => env_config.check,
                _ => None::<String>,
            },
    {
        match self {
            Installation::Checking { env_config, .. } => crate::text::clone_opt(&env_config.check),
            _ => None,
        }
    }

    /// The install command to run now: the configured one once the package is
    /// known not to be installed.
    pub fn install_command(&self) -> (r: Option<String>)
        ensures
            r == match *self {
                Installation::NotAlreadyInstalled { env_config, .. } => Some(env_config.install),
                _ => None::<String>,
            },
    {
        match self {
            Installation::NotAlreadyInstalled { env_config, .. } => Some(env_config.install.clone()),
            _ => None,
        }
    }

    /// The check step, given the outcome of running the check command (none
    /// when there is no check command). Only a checking installation can take
    /// it. Without a check command the package is taken as not installed; a
    /// successful check means installed, an unsuccessful one not installed,
    /// and an error fails the installation.
    pub fn execute_check(self, outcome: Option<Result<CommandOutput, CommandError>>) -> (r: Result<Self, InstallationError>)
        requires
            self matches Installation::Checking { env_config, .. } ==> (env_config.check is Some <==> outcome is Some),
            outcome matches Some(Err(e)) ==> command_error_wf(e),
        ensures
            !(self is Checking) ==> (r matches Err(InstallationError::InvalidState(m)) && m@ == "Can only execute check from Checking state"@),
            self is Checking ==> (r matches Ok(s) && config_of(s) == config_of(self) && match outcome {
                None => s is NotAlreadyInstalled,
                Some(Ok(o)) => if o.success { s is AlreadyInstalled } else { s is NotAlreadyInstalled },
                Some(Err(e)) => s matches Installation::Failed { error_message: m, .. } && m@ == "Check command failed: "@ + command_error_text(e),
            }),
            check_step(self, outcome, r),
    {
        if !matches!(self, Installation::Checking { .. }) {
            return Err(InstallationError::InvalidState(String::from_str("Can only execute check from Checking state")));
        }
        match outcome {
            None => Ok(self.mark_not_already_installed()),
            Some(Ok(o)) => {
                if o.success {
                    Ok(self.mark_already_installed())
                } else {
                    Ok(self.mark_not_already_installed())
                }
            },
            Some(Err(e)) => {
                let t = e.to_string();
                let message = concat2("Check command failed: ", t.as_str());
                Ok(self.fail(message))
            },
        }
    }

    /// The install step, given the outcome of running the install command.
    /// Only an installation known not to be installed can take it. A
    /// successful run completes the installation; an unsuccessful run or an
    /// error fails it.
    pub fn execute_install(self, outcome: Option<Result<CommandOutput, CommandError>>) -> (r: Result<Self, InstallationError>)
        requires
            self is NotAlreadyInstalled ==> outcome is Some,
            outcome matches Some(Err(e)) ==> command_error_wf(e),
        ensures
            !(self is NotAlreadyInstalled) ==> (r matches Err(InstallationError::InvalidState(m)) && m@ == "Can only execute install from NotInstalled state"@),
            self is NotAlreadyInstalled ==> (r matches Ok(s) && config_of(s) == config_of(self) && match outcome {
                Some(Ok(o)) => if o.success {
                    s matches Installation::Complete { command_output: c, .. } && c == o
                } else {
                    s matches Installation::Failed { error_message: m, .. } && m@ == install_status_message(o.status)
                },
                Some(Err(e)) => s matches Installation::Failed { error_message: m, .. } && m@ == "Install command error: "@ + command_error_text(e),
                None => false,
            }),
            install_step(self, outcome, r),
    {
        if !matches!(self, Installation::NotAlreadyInstalled { .. }) {
            return Err(InstallationError::InvalidState(String::from_str("Can only execute install from NotInstalled state")));
        }
        let installing = self.start_installing();
        match outcome {
            Some(Ok(o)) => {
                if o.success {
                    Ok(installing.complete(o))
                } else {
                    let code = i32_string(o.status);
                    let message = concat2("Install command failed with status ", code.as_str());
                    Ok(installing.fail(message))
                }
            },
            Some(Err(e)) => {
                let t = e.to_string();
                let message = concat2("Install command error: ", t.as_str());
                Ok(installing.fail(message))
            },
            None => Err(InstallationError::InvalidState(String::from_str("Can only execute install from NotInstalled state"))),
        }
    }

    /// The check step, running the check command with the runner: a
    /// checking installation with a check command runs it once, exactly as
    /// configured, and takes its answer; without one, or in another state, no
    /// command runs.
    pub fn run_check<R: CommandRunner>(self, runner: &R) -> (r: Result<Self, InstallationError>)
        ensures
            !(self is Checking && config_of(self).check is Some) ==> check_step(self, None, r),
            self is Checking && config_of(self).check is Some ==> exists|a: Result<CommandOutput, CommandError>|
                #[trigger] answered_run(runner, config_of(self).check.unwrap()@, a) && check_step(self, Some(a), r),
    {
        match self.check_command() {
            Some(c) => {
                let outcome = runner.execute(c.as_str());
                assert(answered_run(runner, c@, outcome));
                self.execute_check(Some(outcome))
            },
            None => self.execute_check(None),
        }
    }

    /// The install step, running the install command with the runner: an
    /// installation known not to be installed runs it once, exactly as
    /// configured, and takes its answer; in another state no command runs.
    pub fn run_install<R: CommandRunner>(self, runner: &R) -> (r: Result<Self, InstallationError>)
        ensures
            !(self is NotAlreadyInstalled) ==> install_step(self, None, r),
            self is NotAlreadyInstalled ==> exists|a: Result<CommandOutput, CommandError>|
                #[trigger] answered_run(runner, config_of(self).install@, a) && install_step(self, Some(a), r),
    {
        match self.install_command() {
            Some(c) => {
                let outcome = runner.execute(c.as_str());
                assert(answered_run(runner, c@, outcome));
                self.execute_install(Some(outcome))
            },
            None => self.execute_install(None),
        }
    }

    /// The current state as a status.
    pub fn status(&self) -> (r: InstallationStatus)
        ensures
            r == status_of(*self),
    {
        match self {
            Installation::NotStarted { .. } => InstallationStatus::NotStarted,
            Installation::Checking { .. } => InstallationStatus::Checking,
            Installation::NotAlreadyInstalled { .. } => InstallationStatus::NotInstalled,
            Installation::AlreadyInstalled { .. } => InstallationStatus::AlreadyInstalled,
            Installation::Installing { .. } => InstallationStatus::Installing,
            Installation::Complete { .. } => InstallationStatus::Complete,
            Installation::Failed { error_message, .. } => InstallationStatus::Failed(error_message.clone()),
            Installation::Skipped { reason, .. } => InstallationStatus::Skipped(reason.clone()),
        }
    }

    /// How long the installation has taken, in nanoseconds: none before it
    /// starts, the time since it started while it runs, and the recorded
    /// duration once it has ended.
    pub fn duration(&self) -> (r: Option<u128>)
        ensures
            self is NotStarted <==> r is None,
            self matches Installation::Complete { duration, .. } ==> r == Some(*duration),
            self matches Installation::Failed { duration, .. } ==> r == Some(*duration),
            self matches Installation::Skipped { duration, .. } ==> r == Some(*duration),
    {
        match self {
            Installation::NotStarted { .. } => None,
            Installation::Checking { start_time, .. } => Some(elapsed_nanos(start_time)),
            Installation::NotAlreadyInstalled { start_time, .. } => Some(elapsed_nanos(start_time)),
            Installation::AlreadyInstalled { start_time, .. } => Some(elapsed_nanos(start_time)),
            Installation::Installing { start_time, .. } => Some(elapsed_nanos(start_time)),
            Installation::Complete { duration, .. } => Some(*duration),
            Installation::Failed { duration, .. } => Some(*duration),
            Installation::Skipped { duration, .. } => Some(*duration),
        }
    }

    /// The report of a finished installation: already installed (taking the
    /// check's time), complete (with the command's output) or skipped; a
    /// failure is an error carrying its message, and an unfinished state is
    /// an invalid state.
    pub fn into_result(self, package_name: String) -> (r: Result<InstallationReport, InstallationError>)
        ensures
            match self {
                Installation::AlreadyInstalled { check_duration, .. } => r matches Ok(rep) && rep.package_name == package_name
                    && rep.status == InstallationStatus::AlreadyInstalled && rep.duration == check_duration
                    && rep.command_output is None && rep.dependencies@.len() == 0,
                Installation::Complete { duration, command_output, .. } => r matches Ok(rep) && rep.package_name == package_name
                    && rep.status == InstallationStatus::Complete && rep.duration == duration
                    && rep.command_output == Some(command_output) && rep.dependencies@.len() == 0,
                Installation::Skipped { duration, reason, .. } => r matches Ok(rep) && rep.package_name == package_name
                    && rep.status == InstallationStatus::Skipped(reason) && rep.duration == duration
                    && rep.command_output is None && rep.dependencies@.len() == 0,
                Installation::Failed { error_message, .. } => r matches Err(InstallationError::InstallationFailed(m)) && m == error_message,
                Installation::NotStarted { .. } => r matches Err(InstallationError::InvalidState(m)) && m@ == "Invalid state transition: NotStarted"@,
                Installation::NotAlreadyInstalled { .. } => r matches Err(InstallationError::InvalidState(m)) && m@ == "Invalid state transition: NotInstalled"@,
                Installation::Checking { .. } => r matches Err(InstallationError::InvalidState(m)) && m@ == "Invalid state transition: Checking"@,
                Installation::Installing { .. } => r matches Err(InstallationError::InvalidState(m)) && m@ == "Invalid state transition: Installing"@,
            },
    {
        match self {
            Installation::AlreadyInstalled { check_duration, .. } => Ok(InstallationReport {
                package_name,
                status: InstallationStatus::AlreadyInstalled,
                duration: check_duration,
                command_output: None,
                dependencies: Vec::new(),
            }),
            Installation::Complete { duration, command_output, .. } => Ok(InstallationReport {
                package_name,
                status: InstallationStatus::Complete,
                duration,
                command_output: Some(command_output),
                dependencies: Vec::new(),
            }),
            Installation::Failed { error_message, .. } => Err(InstallationError::InstallationFailed(error_message)),
            Installation::Skipped { duration, reason, .. } => Ok(InstallationReport {
                package_name,
                status: InstallationStatus::Skipped(reason),
                duration,
                command_output: None,
                dependencies: Vec::new(),
            }),
            Installation::NotStarted { .. } => Err(InstallationError::InvalidState(String::from_str("Invalid state transition: NotStarted"))),
            Installation::NotAlreadyInstalled { .. } => Err(InstallationError::InvalidState(String::from_str("Invalid state transition: NotInstalled"))),
            Installation::Checking { .. } => Err(InstallationError::InvalidState(String::from_str("Invalid state transition: Checking"))),
            Installation::Installing { .. } => Err(InstallationError::InvalidState(String::from_str("Invalid state transition: Installing"))),
        }
    }
}

/// The result of an installation. Durations are in nanoseconds.
#[derive(Debug)]
pub struct InstallationReport {
    /// Name of the installed package
    pub package_name: String,
    /// Final installation status
    pub status: InstallationStatus,
    /// How long the installation took
    pub duration: u128,
    pub command_output: Option<CommandOutput>,
    /// Results of dependent package installations
    pub dependencies: Vec<InstallationReport>,
}

/// The sum of the reports' own durations.
pub open spec fn durations_sum(s: Seq<InstallationReport>) -> nat
    decreases s.len(),
{
    if s.len() == 0 {
        0
    } else {
        durations_sum(s.drop_last()) + s.last().duration as nat
    }
}

/// A report's own duration and those of its direct dependencies.
pub open spec fn report_total(r: InstallationReport) -> nat {
    r.duration as nat + durations_sum(r.dependencies@)
}

/// The sum of the reports' totals.
pub open spec fn totals_sum(s: Seq<InstallationReport>) -> nat
    decreases s.len(),
{
    if s.len() == 0 {
        0
    } else {
        totals_sum(s.drop_last()) + report_total(s.last())
    }
}

/// Each report's total is at most the sum of all totals.
proof fn lemma_total_le_sum(s: Seq<InstallationReport>, i: int)
    requires
        0 <= i < s.len(),
    ensures
        report_total(s[i]) <= totals_sum(s),
    decreases s.len(),
{
    if i < s.len() - 1 {
        lemma_total_le_sum(s.drop_last(), i);
    }
}

impl InstallationReport {
    /// Replace the dependencies' reports.
    pub fn with_dependencies(self, dependencies: Vec<InstallationReport>) -> (r: Self)
        ensures
            r.package_name == self.package_name,
            r.status == self.status,
            r.duration == self.duration,
            r.command_output == self.command_output,
            r.dependencies == dependencies,
    {
        let mut s = self;
        s.dependencies = dependencies;
        s
    }

    /// The duration including the dependencies'.
    pub fn total_duration(&self) -> (r: u128)
        requires
            report_total(*self) < duration_limit(),
        ensures
            r == report_total(*self),
    {
        let mut total: u128 = self.duration;
        let mut i: usize = 0;
        while i < self.dependencies.len()
            invariant
                i <= self.dependencies.len(),
                report_total(*self) < duration_limit(),
                total == self.duration + durations_sum(self.dependencies@.take(i as int)),
            decreases self.dependencies.len() - i,
        {
            proof {
                let t = self.dependencies@.take(i + 1);
                assert(t.drop_last() =~= self.dependencies@.take(i as int));
                lemma_sum_prefix(self.dependencies@, i + 1);
            }
            total = total + self.dependencies[i].duration;
            i = i + 1;
        }
        assert(self.dependencies@.take(i as int) =~= self.dependencies@);
        total
    }

    /// The duration of the dependencies' installations, each with its own dependencies.
    pub fn dependency_duration(&self) -> (r: u128)
        requires
            totals_sum(self.dependencies@) < duration_limit(),
        ensures
            r == totals_sum(self.dependencies@),
    {
        let mut total: u128 = 0;
        let mut i: usize = 0;
        while i < self.dependencies.len()
            invariant
                i <= self.dependencies.len(),
                totals_sum(self.dependencies@) < duration_limit(),
                total == totals_sum(self.dependencies@.take(i as int)),
            decreases self.dependencies.len() - i,
        {
            proof {
                let t = self.dependencies@.take(i + 1);
                assert(t.drop_last() =~= self.dependencies@.take(i as int));
                lemma_totals_prefix(self.dependencies@, i + 1);
                lemma_total_le_sum(self.dependencies@, i as int);
            }
            let d = self.dependencies[i].total_duration();
            total = total + d;
            i = i + 1;
        }
        assert(self.dependencies@.take(i as int) =~= self.dependencies@);
        total
    }
}

/// A prefix's durations sum to at most the whole sequence's.
proof fn lemma_sum_prefix(s: Seq<InstallationReport>, k: int)
    requires
        0 <= k <= s.len(),
    ensures
        durations_sum(s.take(k)) <= durations_sum(s),
    decreases s.len() - k,
{
    if k < s.len() {
        lemma_sum_prefix(s, k + 1);
        assert(s.take(k + 1).drop_last() =~= s.take(k));
    } else {
        assert(s.take(k) =~= s);
    }
}

/// A prefix's totals sum to at most the whole sequence's.
proof fn lemma_totals_prefix(s: Seq<InstallationReport>, k: int)
    requires
        0 <= k <= s.len(),
    ensures
        totals_sum(s.take(k)) <= totals_sum(s),
    decreases s.len() - k,
{
    if k < s.len() {
        lemma_totals_prefix(s, k + 1);
        assert(s.take(k + 1).drop_last() =~= s.take(k));
    } else {
        assert(s.take(k) =~= s);
    }
}

} // verus!
