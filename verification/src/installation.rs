//! Installing one package with a command runner: an installation record that
//! follows the package through checking and installing, and the manager that
//! drives it for the configured environment.

use vstd::prelude::*;

use crate::command::{answered_run, command_error_text, command_error_wf, CommandError, CommandOutput, CommandRunner};
use crate::config::Config;
use crate::domain::installation::{install_status_message, InstallationError, InstallationStatus};
use crate::domain::package::{map_has_key, map_lookup, EnvView, EnvironmentConfig, Package};
use crate::text::{concat2, i32_string};
use crate::time::{elapsed_nanos, now};

verus! {

/// What recording the check command's answer does: a successful run gives
/// `Ok(true)` and `AlreadyInstalled`, an unsuccessful one `Ok(false)` and
/// `NotInstalled`, an error fails with the error's message.
pub open spec fn check_recorded(a: Result<CommandOutput, CommandError>, r: Result<bool, InstallationError>, status: InstallationStatus) -> bool {
    match a {
        Ok(o) => if o.success {
            r == Ok::<bool, InstallationError>(true) && status == InstallationStatus::AlreadyInstalled
        } else {
            r == Ok::<bool, InstallationError>(false) && status == InstallationStatus::NotInstalled
        },
        Err(e) => (r matches Err(InstallationError::CommandError(x)) && x == e)
            && (status matches InstallationStatus::Failed(m) && m@ == command_error_text(e)),
    }
}

/// What recording the install command's answer does: a successful run
/// completes, an unsuccessful one fails with its status, an error fails with
/// the error's message.
pub open spec fn install_recorded(a: Result<CommandOutput, CommandError>, r: Result<(), InstallationError>, status: InstallationStatus) -> bool {
    match a {
        Ok(o) => if o.success {
            r is Ok && status == InstallationStatus::Complete
        } else {
            (r matches Err(InstallationError::InstallationFailed(m)) && m@ == install_status_message(o.status))
                && (status matches InstallationStatus::Failed(m) && m@ == install_status_message(o.status))
        },
        Err(e) => (r matches Err(InstallationError::CommandError(x)) && x == e)
            && (status matches InstallationStatus::Failed(m) && m@ == command_error_text(e)),
    }
}

/// The outcome of installing with the environment's configuration, given the
/// install command's answer: completed on success, otherwise the error.
pub open spec fn install_answer_outcome(a: Result<CommandOutput, CommandError>, r: Result<Installation, InstallationError>) -> bool {
    match a {
        Ok(o) => if o.success {
            r matches Ok(i) && i.status == InstallationStatus::Complete
        } else {
            r matches Err(InstallationError::InstallationFailed(m)) && m@ == install_status_message(o.status)
        },
        Err(e) => r matches Err(InstallationError::CommandError(x)) && x == e,
    }
}

/// How installing a package with the environment's configuration `ev` ends,
/// by the runner's answers: without a check command the install command
/// runs; with one, the check command runs first, a successful check means
/// already installed, an unsuccessful one runs the install command, and an
/// error ends it.
pub open spec fn installed_by<R: CommandRunner>(runner: &R, ev: EnvView, r: Result<Installation, InstallationError>) -> bool {
    match ev.check {
        None => exists|a: Result<CommandOutput, CommandError>| #[trigger] answered_run(runner, ev.install, a) && install_answer_outcome(a, r),
        Some(c) => exists|ca: Result<CommandOutput, CommandError>| #[trigger] answered_run(runner, c, ca) && match ca {
            Ok(o) => if o.success {
                r matches Ok(i) && i.status == InstallationStatus::AlreadyInstalled
            } else {
                exists|a: Result<CommandOutput, CommandError>| #[trigger] answered_run(runner, ev.install, a) && install_answer_outcome(a, r)
            },
            Err(e) => r matches Err(InstallationError::CommandError(x)) && x == e,
        },
    }
}

/// The installation of a package for an environment, with its status and
/// timing. Durations are in nanoseconds.
#[derive(Debug)]
pub struct Installation {
    pub package: Package,
    pub environment: String,
    pub env_config: EnvironmentConfig,
    pub status: InstallationStatus,
    pub start_time: Option<std::time::Instant>,
    pub duration: Option<u128>,
}

impl Installation {
    /// A new installation, not started.
    pub fn new(package: Package, environment: &str, env_config: EnvironmentConfig) -> (r: Self)
        ensures
            r.package == package,
            r.environment@ == environment@,
            r.env_config == env_config,
            r.status == InstallationStatus::NotStarted,
            r.start_time is None,
            r.duration is None,
    {
        Installation {
            package,
            environment: String::from_str(environment),
            env_config,
            status: InstallationStatus::NotStarted,
            start_time: None,
            duration: None,
        }
    }

    /// Set the status.
    pub fn update_status(&mut self, status: InstallationStatus)
        ensures
            *final(self) == (Installation { status, ..*old(self) }),
    {
        self.status = status;
    }

    /// Start: the installation begins checking, now.
    pub fn start(&mut self)
        ensures
            final(self).status == InstallationStatus::Checking,
            final(self).start_time is Some,
            final(self).duration == old(self).duration,
            final(self).package == old(self).package,
            final(self).environment == old(self).environment,
            final(self).env_config == old(self).env_config,
    {
        self.start_time = Some(now());
        self.status = InstallationStatus::Checking;
    }

    /// End with the given status, recording how long it took since the start
    /// (nothing when it never started).
    pub fn complete(&mut self, status: InstallationStatus)
        ensures
            final(self).status == status,
            final(self).duration is Some,
            old(self).start_time is None ==> final(self).duration == Some(0u128),
            final(self).start_time == old(self).start_time,
            final(self).package == old(self).package,
            final(self).environment == old(self).environment,
            final(self).env_config == old(self).env_config,
    {
        self.status = status;
        let d = match &self.start_time {
            Some(t) => elapsed_nanos(t),
            None => 0,
        };
        self.duration = Some(d);
    }

    /// Record the outcome of the check command: a successful run means the
    /// package is installed, an unsuccessful one that it is not, and an error
    /// fails the installation with the error's message.
    pub fn record_check(&mut self, outcome: Result<CommandOutput, CommandError>) -> (r: Result<bool, InstallationError>)
        requires
            outcome matches Err(e) ==> command_error_wf(e),
        ensures
            final(self).package == old(self).package,
            final(self).environment == old(self).environment,
            final(self).env_config == old(self).env_config,
            final(self).start_time == old(self).start_time,
            final(self).duration == old(self).duration,
            match outcome {
                Ok(o) => if o.success {
                    r == Ok::<bool, InstallationError>(true) && final(self).status == InstallationStatus::AlreadyInstalled
                } else {
                    r == Ok::<bool, InstallationError>(false) && final(self).status == InstallationStatus::NotInstalled
                },
                Err(e) => (r matches Err(InstallationError::CommandError(x)) && x == e)
                    && (final(self).status matches InstallationStatus::Failed(m) && m@ == command_error_text(e)),
            },
    {
        match outcome {
            Ok(o) => {
                if o.success {
                    self.status = InstallationStatus::AlreadyInstalled;
                    Ok(true)
                } else {
                    self.status = InstallationStatus::NotInstalled;
                    Ok(false)
                }
            },
            Err(e) => {
                self.status = InstallationStatus::Failed(e.to_string());
                Err(InstallationError::CommandError(e))
            },
        }
    }

    /// Check whether the package is already installed by running the check
    /// command; without one it is taken as not installed.
    pub fn execute_check<R: CommandRunner>(&mut self, runner: &R) -> (r: Result<bool, InstallationError>)
        ensures
            final(self).package == old(self).package,
            final(self).environment == old(self).environment,
            final(self).start_time == old(self).start_time,
            final(self).env_config == old(self).env_config,
            final(self).duration == old(self).duration,
            old(self).env_config.check is None ==> r == Ok::<bool, InstallationError>(false)
                && final(self).status == InstallationStatus::NotInstalled,
            old(self).env_config.check matches Some(c) ==> exists|a: Result<CommandOutput, CommandError>|
                #[trigger] answered_run(runner, c@, a) && check_recorded(a, r, final(self).status),
            r == Ok::<bool, InstallationError>(true) ==> final(self).status == InstallationStatus::AlreadyInstalled,
            r == Ok::<bool, InstallationError>(false) ==> final(self).status == InstallationStatus::NotInstalled,
            r is Err ==> final(self).status is Failed,
    {
        match &self.env_config.check {
            None => {
                self.status = InstallationStatus::NotInstalled;
                Ok(false)
            },
            Some(cmd) => {
                let outcome = runner.execute(cmd.as_str());
                assert(answered_run(runner, cmd@, outcome));
                self.record_check(outcome)
            },
        }
    }

    /// Record the outcome of the install command: a successful run completes
    /// the installation; an unsuccessful one or an error fails it.
    pub fn record_install(&mut self, outcome: Result<CommandOutput, CommandError>) -> (r: Result<(), InstallationError>)
        requires
            outcome matches Err(e) ==> command_error_wf(e),
        ensures
            final(self).package == old(self).package,
            final(self).environment == old(self).environment,
            final(self).env_config == old(self).env_config,
            final(self).start_time == old(self).start_time,
            final(self).duration == old(self).duration,
            match outcome {
                Ok(o) => if o.success {
                    r is Ok && final(self).status == InstallationStatus::Complete
                } else {
                    (r matches Err(InstallationError::InstallationFailed(m)) && m@ == install_status_message(o.status))
                        && (final(self).status matches InstallationStatus::Failed(m) && m@ == install_status_message(o.status))
                },
                Err(e) => (r matches Err(InstallationError::CommandError(x)) && x == e)
                    && (final(self).status matches InstallationStatus::Failed(m) && m@ == command_error_text(e)),
            },
    {
        match outcome {
            Ok(o) => {
                if o.success {
                    self.status = InstallationStatus::Complete;
                    Ok(())
                } else {
                    let code = i32_string(o.status);
                    let message = concat2("Install command failed with status ", code.as_str());
                    self.status = InstallationStatus::Failed(message.clone());
                    Err(InstallationError::InstallationFailed(message))
                }
            },
            Err(e) => {
                self.status = InstallationStatus::Failed(e.to_string());
                Err(InstallationError::CommandError(e))
            },
        }
    }

    /// Install the package by running the install command.
    pub fn execute_install<R: CommandRunner>(&mut self, runner: &R) -> (r: Result<(), InstallationError>)
        ensures
            final(self).package == old(self).package,
            final(self).environment == old(self).environment,
            final(self).start_time == old(self).start_time,
            final(self).env_config == old(self).env_config,
            final(self).duration == old(self).duration,
            exists|a: Result<CommandOutput, CommandError>|
                #[trigger] answered_run(runner, old(self).env_config.install@, a) && install_recorded(a, r, final(self).status),
            r is Ok ==> final(self).status == InstallationStatus::Complete,
            r is Err ==> final(self).status is Failed,
    {
        self.status = InstallationStatus::Installing;
        let outcome = runner.execute(self.env_config.install.as_str());
        assert(answered_run(runner, self.env_config.install@, outcome));
        self.record_install(outcome)
    }
}

/// Installs packages for the configured environment with a command runner.
pub struct InstallationManager<'a, R: CommandRunner> {
    pub runner: &'a R,
    pub config: &'a Config,
}

impl<'a, R: CommandRunner> InstallationManager<'a, R> {
    /// A manager using the runner and the configuration.
    pub fn new(runner: &'a R, config: &'a Config) -> (r: Self)
        ensures
            r.runner == runner,
            r.config == config,
    {
        InstallationManager { runner, config }
    }

    /// Install a package: take its configuration for the current environment
    /// (a package without it is incompatible), check whether it is already
    /// installed, and install it if not.
    pub fn install_package(&self, package: Package) -> (r: Result<Installation, InstallationError>)
        ensures
            (self.config.environment@.len() == 0 || !map_has_key(package.environments@, self.config.environment@))
                <==> r matches Err(InstallationError::EnvironmentIncompatible(_)),
            self.config.environment@.len() > 0 && map_has_key(package.environments@, self.config.environment@)
                ==> installed_by(self.runner, map_lookup(package.environments@, self.config.environment@).unwrap(), r),
            r matches Ok(i) ==> i.package == package && i.environment@ == self.config.environment@
                && map_lookup(package.environments@, self.config.environment@) == Some(i.env_config@)
                && (i.status == InstallationStatus::AlreadyInstalled || i.status == InstallationStatus::Complete)
                && i.duration is Some,
    {
        let env_config = match self.config.resolve_environment(&package) {
            Ok(c) => c.copy(),
            Err(e) => {
                return Err(InstallationError::EnvironmentIncompatible(e.to_string()));
            },
        };
        let ghost ev = env_config@;
        let mut installation = Installation::new(package, self.config.environment.as_str(), env_config);
        installation.start();
        let checked = installation.execute_check(self.runner);
        let ghost st = installation.status;
        let ghost ca = choose|a: Result<CommandOutput, CommandError>| #[trigger] answered_run(self.runner, ev.check.unwrap(), a)
            && check_recorded(a, checked, st);
        proof {
            if ev.check is Some {
                assert(answered_run(self.runner, ev.check.unwrap(), ca) && check_recorded(ca, checked, st));
            }
        }
        let already_installed = match checked {
            Ok(b) => b,
            Err(e) => {
                proof {
                    assert(answered_run(self.runner, ev.check.unwrap(), ca));
                }
                return Err(e);
            },
        };
        if already_installed {
            installation.complete(InstallationStatus::AlreadyInstalled);
            proof {
                assert(answered_run(self.runner, ev.check.unwrap(), ca));
            }
            return Ok(installation);
        }
        let installed = installation.execute_install(self.runner);
        let ghost st2 = installation.status;
        let ghost ia = choose|a: Result<CommandOutput, CommandError>| #[trigger] answered_run(self.runner, ev.install, a)
            && install_recorded(a, installed, st2);
        proof {
            assert(answered_run(self.runner, ev.install, ia) && install_recorded(ia, installed, st2));
            if ev.check is Some {
                assert(answered_run(self.runner, ev.check.unwrap(), ca));
            }
        }
        match installed {
            Ok(()) => {},
            Err(e) => {
                return Err(e);
            },
        }
        installation.complete(InstallationStatus::Complete);
        Ok(installation)
    }
}

} // verus!
