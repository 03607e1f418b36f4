//! Running shell commands: what a run gives back, how it fails, the runner
//! interface, a scripted runner for tests, and the settings of the shell
//! runner together with the decisions it makes around a run.

use vstd::prelude::*;

use crate::text::{concat2, concat3, str_eq};
use crate::time::{duration_limit, duration_text, format_duration_debug};

verus! {

/// Result of executing a command.
#[derive(Debug, Clone, PartialEq)]
pub struct CommandOutput {
    pub stdout: String,
    pub stderr: String,
    /// Exit status code
    pub status: i32,
    /// Whether the command was successful
    pub success: bool,
    /// How long the command took, in nanoseconds
    pub duration: u128,
}

impl CommandOutput {
    /// A copy of this output.
    pub fn copy(&self) -> (r: Self)
        ensures
            r == *self,
    {
        CommandOutput {
            stdout: self.stdout.clone(),
            stderr: self.stderr.clone(),
            status: self.status,
            success: self.success,
            duration: self.duration,
        }
    }
}

/// Errors that can occur during command execution.
#[derive(Debug, Clone, PartialEq)]
pub enum CommandError {
    ExecutionError(String),
    /// The time allowed, in nanoseconds
    Timeout(u128),
    IoError(String),
    InterruptedError(String),
}

/// The message of a command error.
pub open spec fn command_error_text(e: CommandError) -> Seq<char> {
    match e {
        CommandError::ExecutionError(m) => "Command execution failed: "@ + m@,
        CommandError::Timeout(d) => "Command timed out after "@ + duration_text(d),
        CommandError::IoError(m) => "IO error: "@ + m@,
        CommandError::InterruptedError(m) => "Command interrupted: "@ + m@,
    }
}

/// A timeout is one a `Duration` can hold.
pub open spec fn command_error_wf(e: CommandError) -> bool {
    match e {
        CommandError::Timeout(d) => d < duration_limit(),
        _ => true,
    }
}

impl CommandError {
    /// The error's message.
    pub fn to_string(&self) -> (r: String)
        requires
            command_error_wf(*self),
        ensures
            r@ == command_error_text(*self),
    {
        match self {
            CommandError::ExecutionError(m) => concat2("Command execution failed: ", m.as_str()),
            CommandError::Timeout(d) => {
                let t = format_duration_debug(*d);
                concat2("Command timed out after ", t.as_str())
            },
            CommandError::IoError(m) => concat2("IO error: ", m.as_str()),
            CommandError::InterruptedError(m) => concat2("Command interrupted: ", m.as_str()),
        }
    }

    /// A copy of this error.
    pub fn copy(&self) -> (r: Self)
        ensures
            r == *self,
    {
        match self {
            CommandError::ExecutionError(m) => CommandError::ExecutionError(m.clone()),
            CommandError::Timeout(d) => CommandError::Timeout(*d),
            CommandError::IoError(m) => CommandError::IoError(m.clone()),
            CommandError::InterruptedError(m) => CommandError::InterruptedError(m.clone()),
        }
    }
}

/// A copy of a command's outcome.
pub fn copy_outcome(o: &Result<CommandOutput, CommandError>) -> (r: Result<CommandOutput, CommandError>)
    ensures
        r == *o,
{
    match o {
        Ok(out) => Ok(out.copy()),
        Err(e) => Err(e.copy()),
    }
}

/// Runs commands. Implementations decide what running means; of what they
/// give back it is only required that a timeout is one a `Duration` can hold.
pub trait CommandRunner {
    /// Execute a command and return its output.
    fn execute(&self, command: &str) -> (r: Result<CommandOutput, CommandError>)
        ensures
            r matches Err(e) ==> command_error_wf(e);

    /// Execute a command with a timeout (in nanoseconds) and return its output.
    fn execute_with_timeout(&self, command: &str, timeout: u128) -> (r: Result<CommandOutput, CommandError>)
        ensures
            r matches Err(e) ==> command_error_wf(e);

    /// Whether a command is available in the current environment.
    fn is_command_available(&self, command: &str) -> bool;
}

/// The runner gave `answer` when asked to run `command`.
pub open spec fn answered_run<R: CommandRunner>(runner: &R, command: Seq<char>, answer: Result<CommandOutput, CommandError>) -> bool {
    exists|c: &str| c@ == command && #[trigger] call_ensures(R::execute, (runner, c), answer)
}

/// The position of the first entry for `command`, if any.
pub open spec fn response_index(responses: Seq<(Seq<char>, Result<CommandOutput, CommandError>)>, command: Seq<char>) -> Option<int> {
    if exists|i: int| 0 <= i < responses.len() && responses[i].0 == command {
        Some(choose|i: int| 0 <= i < responses.len() && responses[i].0 == command && forall|j: int| 0 <= j < i ==> responses[j].0 != command)
    } else {
        None
    }
}

/// The response scripted for `command`: the first one added for it.
pub open spec fn scripted_response(
    responses: Seq<(Seq<char>, Result<CommandOutput, CommandError>)>,
    command: Seq<char>,
) -> Option<Result<CommandOutput, CommandError>> {
    match response_index(responses, command) {
        Some(i) => Some(responses[i].1),
        None => None,
    }
}

/// A command runner that answers from a script: each command gets the
/// response added for it, and the commands added as available are available.
pub struct MockCommandRunner {
    responses: Vec<(String, Result<CommandOutput, CommandError>)>,
    available: Vec<String>,
}

/// Every scripted error is well formed.
pub open spec fn responses_wf(responses: Seq<(Seq<char>, Result<CommandOutput, CommandError>)>) -> bool {
    forall|i: int| 0 <= i < responses.len() ==> ((#[trigger] responses[i]).1 matches Err(e) ==> command_error_wf(e))
}

impl MockCommandRunner {
    #[verifier::type_invariant]
    spec fn scripted_errors_wf(self) -> bool {
        responses_wf(self.responses())
    }

    /// The scripted responses, by command, in the order they were added.
    pub closed spec fn responses(&self) -> Seq<(Seq<char>, Result<CommandOutput, CommandError>)> {
        self.responses@.map_values(|e: (String, Result<CommandOutput, CommandError>)| (e.0@, e.1))
    }

    /// The commands added as available.
    pub closed spec fn available(&self) -> Seq<Seq<char>> {
        self.available@.map_values(|s: String| s@)
    }

    /// A runner with nothing scripted.
    pub fn new() -> (r: Self)
        ensures
            r.responses().len() == 0,
            r.available().len() == 0,
    {
        let r = MockCommandRunner { responses: Vec::new(), available: Vec::new() };
        assert(r.responses() =~= Seq::<(Seq<char>, Result<CommandOutput, CommandError>)>::empty());
        assert(r.available() =~= Seq::<Seq<char>>::empty());
        r
    }

    /// The scripted response for a command, if any.
    fn lookup(&self, command: &str) -> (r: Option<Result<CommandOutput, CommandError>>)
        ensures
            r == scripted_response(self.responses(), command@),
            r matches Some(Err(e)) ==> command_error_wf(e),
    {
        proof {
            use_type_invariant(self);
        }
        let mut i: usize = 0;
        while i < self.responses.len()
            invariant
                i <= self.responses.len(),
                responses_wf(self.responses()),
                forall|j: int| 0 <= j < i ==> self.responses()[j].0 != command@,
            decreases self.responses.len() - i,
        {
            if str_eq(self.responses[i].0.as_str(), command) {
                proof {
                    assert(self.responses()[i as int].0 == command@);
                    let k = choose|k: int| 0 <= k < self.responses().len() && self.responses()[k].0 == command@
                        && forall|j: int| 0 <= j < k ==> self.responses()[j].0 != command@;
                    if k < i {
                        assert(self.responses()[k].0 != command@);
                    } else if k > i {
                        assert(self.responses()[i as int].0 != command@);
                    }
                }
                assert(self.responses()[i as int].1 == self.responses@[i as int].1);
                assert(self.responses()[i as int].1 matches Err(e) ==> command_error_wf(e));
                return Some(copy_outcome(&self.responses[i].1));
            }
            i = i + 1;
        }
        None
    }

    /// The response for a command: the scripted one, or an execution error
    /// naming the command when none was scripted.
    pub fn respond(&self, command: &str) -> (r: Result<CommandOutput, CommandError>)
        ensures
            scripted_response(self.responses(), command@) matches Some(o) ==> r == o,
            scripted_response(self.responses(), command@) is None ==> (r matches Err(CommandError::ExecutionError(m))
                && m@ == "No response scripted for command: "@ + command@),
            r matches Err(e) ==> command_error_wf(e),
    {
        match self.lookup(command) {
            Some(o) => o,
            None => Err(CommandError::ExecutionError(concat2("No response scripted for command: ", command))),
        }
    }

    /// Whether a command was added as available.
    pub fn has_command(&self, command: &str) -> (r: bool)
        ensures
            r == self.available().contains(command@),
    {
        let mut i: usize = 0;
        while i < self.available.len()
            invariant
                i <= self.available.len(),
                forall|j: int| 0 <= j < i ==> self.available()[j] != command@,
            decreases self.available.len() - i,
        {
            if str_eq(self.available[i].as_str(), command) {
                assert(self.available()[i as int] == command@);
                return true;
            }
            i = i + 1;
        }
        false
    }
}

impl CommandRunner for MockCommandRunner {
    fn execute(&self, command: &str) -> (r: Result<CommandOutput, CommandError>)
        ensures
            scripted_response(self.responses(), command@) matches Some(o) ==> r == o,
    {
        self.respond(command)
    }

    fn execute_with_timeout(&self, command: &str, timeout: u128) -> (r: Result<CommandOutput, CommandError>)
        ensures
            scripted_response(self.responses(), command@) matches Some(o) ==> r == o,
    {
        self.respond(command)
    }

    fn is_command_available(&self, command: &str) -> (r: bool)
        ensures
            r == self.available().contains(command@),
    {
        self.has_command(command)
    }
}

/// Helpers to script a `MockCommandRunner`.
pub trait MockCommandRunnerExt {
    /// Script the response to a command.
    fn add_response(&mut self, command: &str, response: Result<CommandOutput, CommandError>)
        requires
            response matches Err(e) ==> command_error_wf(e);
    /// Mark a command as available.
    fn add_command(&mut self, command: &str);
    /// Script a successful run printing `stdout`.
    fn success_response(&mut self, command: &str, stdout: &str);
    /// Script a failed run printing `stderr` with exit status `status`.
    fn error_response(&mut self, command: &str, stderr: &str, status: i32);
    /// Script a run that times out after `timeout` nanoseconds.
    fn timeout_response(&mut self, command: &str, timeout: u128)
        requires
            timeout < duration_limit();
}

impl MockCommandRunnerExt for MockCommandRunner {
    fn add_response(&mut self, command: &str, response: Result<CommandOutput, CommandError>)
        ensures
            final(self).responses() == old(self).responses().push((command@, response)),
            final(self).available() == old(self).available(),
    {
        proof {
            use_type_invariant(&*self);
        }
        let ghost before = self.responses();
        let mut responses: Vec<(String, Result<CommandOutput, CommandError>)> = Vec::new();
        std::mem::swap(&mut responses, &mut self.responses);
        responses.push((String::from_str(command), response));
        let ghost after = responses@.map_values(|e: (String, Result<CommandOutput, CommandError>)| (e.0@, e.1));
        assert(after =~= before.push((command@, response)));
        assert(responses_wf(after));
        self.responses = responses;
    }

    fn add_command(&mut self, command: &str)
        ensures
            final(self).available() == old(self).available().push(command@),
            final(self).responses() == old(self).responses(),
    {
        proof {
            use_type_invariant(&*self);
        }
        let ghost before = self.available();
        let mut available: Vec<String> = Vec::new();
        std::mem::swap(&mut available, &mut self.available);
        available.push(String::from_str(command));
        assert(available@.map_values(|s: String| s@) =~= before.push(command@));
        self.available = available;
    }

    fn success_response(&mut self, command: &str, stdout: &str)
        ensures
            final(self).available() == old(self).available(),
            final(self).responses().len() == old(self).responses().len() + 1,
            final(self).responses().drop_last() == old(self).responses(),
            final(self).responses().last().0 == command@,
            final(self).responses().last().1 matches Ok(o) && o.stdout@ == stdout@ && o.stderr@.len() == 0
                && o.status == 0 && o.success && o.duration == 100_000_000,
    {
        let output = CommandOutput {
            stdout: String::from_str(stdout),
            stderr: String::new(),
            status: 0,
            success: true,
            duration: 100_000_000,
        };
        self.add_response(command, Ok(output));
    }

    fn error_response(&mut self, command: &str, stderr: &str, status: i32)
        ensures
            final(self).available() == old(self).available(),
            final(self).responses().len() == old(self).responses().len() + 1,
            final(self).responses().drop_last() == old(self).responses(),
            final(self).responses().last().0 == command@,
            final(self).responses().last().1 matches Ok(o) && o.stdout@.len() == 0 && o.stderr@ == stderr@
                && o.status == status && !o.success && o.duration == 100_000_000,
    {
        let output = CommandOutput {
            stdout: String::new(),
            stderr: String::from_str(stderr),
            status,
            success: false,
            duration: 100_000_000,
        };
        self.add_response(command, Ok(output));
    }

    fn timeout_response(&mut self, command: &str, timeout: u128)
        ensures
            final(self).available() == old(self).available(),
            final(self).responses() == old(self).responses().push((command@, Err(CommandError::Timeout(timeout)))),
    {
        self.add_response(command, Err(CommandError::Timeout(timeout)));
    }
}

/// The text of bytes decoded as UTF-8, each invalid sequence replaced by U+FFFD.
pub uninterp spec fn utf8_lossy_text(bytes: Seq<u8>) -> Seq<char>;

/// Decodes bytes with `String::from_utf8_lossy`; the text is taken to be a
/// function of the bytes alone, named `utf8_lossy_text`. ASCII bytes are
/// valid UTF-8, each one character, so they decode to those characters. How
/// the decoding treats other sequences is not stated here.
#[verifier::external_body]
fn decode_utf8_lossy(bytes: &[u8]) -> (r: String)
    ensures
        r@ == utf8_lossy_text(bytes@),
        (forall|i: int| 0 <= i < bytes@.len() ==> #[trigger] bytes@[i] < 128) ==> r@ == bytes@.map_values(|b: u8| b as char),
{
    String::from_utf8_lossy(bytes).into_owned()
}

/// The settings of the runner that runs commands with a shell: the shell,
/// the default timeout, and environment variables for the commands.
#[derive(Debug)]
pub struct ShellCommandRunner {
    shell: String,
    default_timeout: u128,
    environment: Vec<(String, String)>,
}

/// Whether no two variables share a name.
pub open spec fn names_distinct(vars: Seq<(Seq<char>, Seq<char>)>) -> bool {
    forall|i: int, j: int| 0 <= i < j < vars.len() ==> vars[i].0 != vars[j].0
}

/// The variables after setting `key` to `value`: an existing one is changed
/// where it stands, a new one comes last.
pub open spec fn set_var(vars: Seq<(Seq<char>, Seq<char>)>, key: Seq<char>, value: Seq<char>) -> Seq<(Seq<char>, Seq<char>)> {
    if exists|i: int| 0 <= i < vars.len() && vars[i].0 == key {
        let i = choose|i: int| 0 <= i < vars.len() && vars[i].0 == key;
        vars.update(i, (key, value))
    } else {
        vars.push((key, value))
    }
}

/// The command that checks whether `command` is available.
pub open spec fn availability_check(command: Seq<char>) -> Seq<char> {
    "command -v "@ + command + " >/dev/null 2>&1"@
}

impl Clone for ShellCommandRunner {
    fn clone(&self) -> (r: Self)
        ensures
            r.shell_spec() == self.shell_spec(),
            r.timeout_spec() == self.timeout_spec(),
            r.vars() == self.vars(),
    {
        proof {
            use_type_invariant(self);
        }
        let mut env: Vec<(String, String)> = Vec::new();
        let mut i: usize = 0;
        while i < self.environment.len()
            invariant
                i <= self.environment.len(),
                env@.len() == i,
                forall|j: int| 0 <= j < i ==> (#[trigger] env@[j]).0@ == self.environment@[j].0@ && env@[j].1@ == self.environment@[j].1@,
            decreases self.environment.len() - i,
        {
            let e = &self.environment[i];
            env.push((e.0.clone(), e.1.clone()));
            i = i + 1;
        }
        assert(env@.map_values(|e: (String, String)| (e.0@, e.1@)) =~= self.vars());
        ShellCommandRunner { shell: self.shell.clone(), default_timeout: self.default_timeout, environment: env }
    }
}

impl ShellCommandRunner {
    #[verifier::type_invariant]
    spec fn vars_distinct(self) -> bool {
        names_distinct(self.vars())
    }

    /// The shell that runs commands.
    pub closed spec fn shell_spec(&self) -> Seq<char> {
        self.shell@
    }

    /// The default timeout, in nanoseconds.
    pub closed spec fn timeout_spec(&self) -> u128 {
        self.default_timeout
    }

    /// The environment variables, by name, in the order they were set.
    pub closed spec fn vars(&self) -> Seq<(Seq<char>, Seq<char>)> {
        self.environment@.map_values(|e: (String, String)| (e.0@, e.1@))
    }

    /// A runner using `shell`, with the given default timeout in nanoseconds
    /// and no extra variables.
    pub fn new(shell: &str, default_timeout: u128) -> (r: Self)
        ensures
            r.shell_spec() == shell@,
            r.timeout_spec() == default_timeout,
            r.vars().len() == 0,
    {
        let r = ShellCommandRunner { shell: String::from_str(shell), default_timeout, environment: Vec::new() };
        assert(r.vars() =~= Seq::<(Seq<char>, Seq<char>)>::empty());
        r
    }

    /// Replace the environment variables; their names are distinct.
    pub fn with_environment(self, env: Vec<(String, String)>) -> (r: Self)
        requires
            names_distinct(env@.map_values(|e: (String, String)| (e.0@, e.1@))),
        ensures
            r.shell_spec() == self.shell_spec(),
            r.timeout_spec() == self.timeout_spec(),
            r.vars() == env@.map_values(|e: (String, String)| (e.0@, e.1@)),
    {
        ShellCommandRunner { shell: self.shell, default_timeout: self.default_timeout, environment: env }
    }

    /// Set one environment variable.
    pub fn with_env_var(self, key: &str, value: &str) -> (r: Self)
        ensures
            r.shell_spec() == self.shell_spec(),
            r.timeout_spec() == self.timeout_spec(),
            r.vars() == set_var(self.vars(), key@, value@),
    {
        proof {
            use_type_invariant(&self);
        }
        let ghost vars = self.vars();
        let mut env = self.environment;
        let mut i: usize = 0;
        while i < env.len()
            invariant
                i <= env.len(),
                vars == env@.map_values(|e: (String, String)| (e.0@, e.1@)),
                vars == self.vars(),
                names_distinct(vars),
                forall|j: int| 0 <= j < i ==> vars[j].0 != key@,
            decreases env.len() - i,
        {
            if str_eq(env[i].0.as_str(), key) {
                assert(vars[i as int].0 == key@);
                let ghost k = choose|k: int| 0 <= k < vars.len() && vars[k].0 == key@;
                assert(k == i) by {
                    if k < i {
                        assert(vars[k].0 != key@);
                    } else if k > i {
                        assert(vars[i as int].0 != vars[k].0);
                    }
                }
                let mut pair = (String::from_str(key), String::from_str(value));
                env.set_and_swap(i, &mut pair);
                let ghost nv = vars.update(i as int, (key@, value@));
                assert(env@.map_values(|e: (String, String)| (e.0@, e.1@)) =~= nv);
                assert forall|a: int, b: int| 0 <= a < b < nv.len() implies nv[a].0 != nv[b].0 by {
                    assert(vars[a].0 != vars[b].0);
                }
                assert(set_var(vars, key@, value@) =~= nv);
                let r = ShellCommandRunner { shell: self.shell, default_timeout: self.default_timeout, environment: env };
                assert(r.vars() =~= nv);
                return r;
            }
            i = i + 1;
        }
        env.push((String::from_str(key), String::from_str(value)));
        let ghost nv = vars.push((key@, value@));
        assert(set_var(vars, key@, value@) =~= nv);
        assert(env@.map_values(|e: (String, String)| (e.0@, e.1@)) =~= nv);
        assert forall|a: int, b: int| 0 <= a < b < nv.len() implies nv[a].0 != nv[b].0 by {
            if b < vars.len() {
                assert(vars[a].0 != vars[b].0);
            }
        }
        let r = ShellCommandRunner { shell: self.shell, default_timeout: self.default_timeout, environment: env };
        r
    }

    /// The shell.
    pub fn shell(&self) -> (r: &str)
        ensures
            r@ == self.shell_spec(),
    {
        self.shell.as_str()
    }

    /// The default timeout, in nanoseconds.
    pub fn default_timeout(&self) -> (r: u128)
        ensures
            r == self.timeout_spec(),
    {
        self.default_timeout
    }

    /// The environment variables.
    pub fn environment(&self) -> (r: &Vec<(String, String)>)
        ensures
            r@.map_values(|e: (String, String)| (e.0@, e.1@)) == self.vars(),
    {
        &self.environment
    }

    /// The command run to check whether `command` is available.
    pub fn availability_command(command: &str) -> (r: String)
        ensures
            r@ == availability_check(command@),
    {
        concat3("command -v ", command, " >/dev/null 2>&1")
    }

    /// Whether a command is available, given the outcome of its check: only
    /// a successful run says so.
    pub fn availability_from(outcome: &Result<CommandOutput, CommandError>) -> (r: bool)
        ensures
            r == (outcome matches Ok(o) && o.success),
    {
        match outcome {
            Ok(o) => o.success,
            Err(_) => false,
        }
    }

    /// The output of a finished process: its output streams decoded as UTF-8
    /// (invalid sequences replaced), its exit code (-1 when it has none, as
    /// when a signal ended it), whether it succeeded, and how long it took.
    pub fn process_output(stdout: &[u8], stderr: &[u8], code: Option<i32>, success: bool, duration: u128) -> (r: CommandOutput)
        ensures
            r.stdout@ == utf8_lossy_text(stdout@),
            r.stderr@ == utf8_lossy_text(stderr@),
            (forall|i: int| 0 <= i < stdout@.len() ==> #[trigger] stdout@[i] < 128) ==> r.stdout@ == stdout@.map_values(|b: u8| b as char),
            (forall|i: int| 0 <= i < stderr@.len() ==> #[trigger] stderr@[i] < 128) ==> r.stderr@ == stderr@.map_values(|b: u8| b as char),
            r.status == match code {
                Some(c) => c,
                None => -1i32,
            },
            r.success == success,
            r.duration == duration,
    {
        let status: i32 = match code {
            Some(c) => c,
            None => -1,
        };
        CommandOutput { stdout: decode_utf8_lossy(stdout), stderr: decode_utf8_lossy(stderr), status, success, duration }
    }

    /// The time a running command may still take, given how long it has run
    /// (both in nanoseconds); none once the timeout is reached, when the
    /// command is to be stopped with a timeout error.
    pub fn time_left(timeout: u128, elapsed: u128) -> (r: Option<u128>)
        ensures
            elapsed >= timeout ==> r is None,
            elapsed < timeout ==> r == Some((timeout - elapsed) as u128),
    {
        if elapsed >= timeout {
            None
        } else {
            Some(timeout - elapsed)
        }
    }

    /// The outcome of a finished run that took `duration` nanoseconds: a run
    /// longer than the timeout is a timeout; otherwise the output.
    pub fn finish_run(
        stdout: String,
        stderr: String,
        status: i32,
        success: bool,
        duration: u128,
        timeout: u128,
    ) -> (r: Result<CommandOutput, CommandError>)
        ensures
            duration > timeout ==> r == Err::<CommandOutput, CommandError>(CommandError::Timeout(timeout)),
            duration <= timeout ==> r == Ok::<CommandOutput, CommandError>(CommandOutput { stdout, stderr, status, success, duration }),
    {
        if duration > timeout {
            return Err(CommandError::Timeout(timeout));
        }
        Ok(CommandOutput { stdout, stderr, status, success, duration })
    }
}

} // verus!
