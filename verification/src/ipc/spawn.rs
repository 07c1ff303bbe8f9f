//! Configuration for spawning the child process, the plan of the command
//! that starts it, and the state of the handle that owns it.

use crate::ipc::clock::{duration_nanos, instant_elapsed, instant_now};
use crate::ipc::{IpcError, DEFAULT_TIMEOUT_SECS, MAX_RESPAWN_ATTEMPTS, RESPAWN_DELAY_MS};
use crate::text::join2;
use std::path::PathBuf;
use std::time::{Duration, Instant};
use vstd::prelude::*;
use vstd::string::StringExecFns;

verus! {

/// `std::path::PathBuf`: a path, carried as an opaque value.
#[verifier::external_type_specification]
#[verifier::external_body]
pub struct ExPathBuf(std::path::PathBuf);

/// `<PathBuf as Clone>::clone`: the copy is the same path.
pub assume_specification[ <std::path::PathBuf as Clone>::clone ](p: &PathBuf) -> (r: PathBuf)
    ensures
        r == *p,
;

/// Name of the environment variable that makes the child write its output
/// unbuffered.
pub const UNBUFFERED_VARIABLE: &'static str = "PYTHONUNBUFFERED";

/// The request that asks the child to shut down.
pub const SHUTDOWN_REQUEST: &'static str =
    "{\"jsonrpc\":\"2.0\",\"id\":0,\"method\":\"shutdown\",\"params\":{}}";

/// Milliseconds between two looks at a child that was asked to shut down.
pub const SHUTDOWN_POLL_MS: u64 = 50;

/// How the child process is spawned.
#[derive(Debug, Clone)]
pub struct SubprocessConfig {
    /// Path of the executable.
    pub python_path: String,
    /// Module that the executable runs.
    pub module_name: String,
    /// Working directory of the child.
    pub working_dir: Option<PathBuf>,
    /// Additional environment variables.
    pub env_vars: Vec<(String, String)>,
    /// Deadline for a graceful shutdown in seconds.
    pub shutdown_timeout_secs: u64,
    /// Maximum respawn attempts.
    pub max_respawn_attempts: u32,
    /// Delay before the first respawn attempt in milliseconds.
    pub respawn_delay_ms: u64,
    /// Verbose logging.
    pub verbose: bool,
}

/// A spawn configuration as a plain value.
pub struct SubprocessConfigView {
    pub python_path: Seq<char>,
    pub module_name: Seq<char>,
    pub working_dir: Option<PathBuf>,
    pub env_vars: Seq<(Seq<char>, Seq<char>)>,
    pub shutdown_timeout_secs: u64,
    pub max_respawn_attempts: u32,
    pub respawn_delay_ms: u64,
    pub verbose: bool,
}

/// Pairs of texts as plain values.
pub open spec fn pairs_of(v: Seq<(String, String)>) -> Seq<(Seq<char>, Seq<char>)> {
    v.map_values(|p: (String, String)| (p.0@, p.1@))
}

/// Pairs of borrowed texts as plain values.
pub open spec fn str_pairs_of(v: Seq<(&str, &str)>) -> Seq<(Seq<char>, Seq<char>)> {
    v.map_values(|p: (&str, &str)| (p.0@, p.1@))
}

impl View for SubprocessConfig {
    type V = SubprocessConfigView;

    open spec fn view(&self) -> SubprocessConfigView {
        SubprocessConfigView {
            python_path: self.python_path@,
            module_name: self.module_name@,
            working_dir: self.working_dir,
            env_vars: pairs_of(self.env_vars@),
            shutdown_timeout_secs: self.shutdown_timeout_secs,
            max_respawn_attempts: self.max_respawn_attempts,
            respawn_delay_ms: self.respawn_delay_ms,
            verbose: self.verbose,
        }
    }
}

/// The default spawn configuration.
pub open spec fn default_subprocess_config() -> SubprocessConfigView {
    SubprocessConfigView {
        python_path: "python"@,
        module_name: "plugins._host"@,
        working_dir: None,
        env_vars: Seq::empty(),
        shutdown_timeout_secs: DEFAULT_TIMEOUT_SECS,
        max_respawn_attempts: MAX_RESPAWN_ATTEMPTS,
        respawn_delay_ms: RESPAWN_DELAY_MS,
        verbose: false,
    }
}

impl Default for SubprocessConfig {
    fn default() -> (r: Self)
        ensures
            r@ == default_subprocess_config(),
    {
        let r = SubprocessConfig {
            python_path: String::from_str("python"),
            module_name: String::from_str("plugins._host"),
            working_dir: None,
            env_vars: Vec::new(),
            shutdown_timeout_secs: DEFAULT_TIMEOUT_SECS,
            max_respawn_attempts: MAX_RESPAWN_ATTEMPTS,
            respawn_delay_ms: RESPAWN_DELAY_MS,
            verbose: false,
        };
        assert(r@.env_vars =~= Seq::empty());
        r
    }
}

/// Two to the power of a small exponent.
pub open spec fn pow2(e: nat) -> nat
    decreases e,
{
    if e == 0 {
        1
    } else {
        2 * pow2((e - 1) as nat)
    }
}

/// The delay before a respawn attempt, counted from one: the base delay,
/// doubled with each further attempt, and at most 32 times the base.
pub open spec fn backoff_delay(base_ms: u64, attempt: u32) -> nat {
    let doublings: nat = if attempt - 1 < 5 {
        (attempt - 1) as nat
    } else {
        5
    };
    base_ms as nat * pow2(doublings)
}

/// The arguments that make the executable run a module.
pub open spec fn module_args(module_name: Seq<char>) -> Seq<Seq<char>> {
    seq!["-m"@, module_name]
}

/// The texts of a list as plain values.
pub open spec fn texts_of(v: Seq<String>) -> Seq<Seq<char>> {
    v.map_values(|s: String| s@)
}

impl SubprocessConfig {
    /// The default configuration.
    pub fn new() -> (r: Self)
        ensures
            r@ == default_subprocess_config(),
    {
        Self::default()
    }

    /// Sets the path of the executable.
    pub fn with_python_path(self, path: &str) -> (r: Self)
        ensures
            r@ == (SubprocessConfigView { python_path: path@, ..self@ }),
    {
        let mut r = self;
        r.python_path = String::from_str(path);
        r
    }

    /// Sets the module that the executable runs.
    pub fn with_module(self, module: &str) -> (r: Self)
        ensures
            r@ == (SubprocessConfigView { module_name: module@, ..self@ }),
    {
        let mut r = self;
        r.module_name = String::from_str(module);
        r
    }

    /// Sets the working directory.
    pub fn with_working_dir(self, dir: PathBuf) -> (r: Self)
        ensures
            r@ == (SubprocessConfigView { working_dir: Some(dir), ..self@ }),
    {
        let mut r = self;
        r.working_dir = Some(dir);
        r
    }

    /// Adds one environment variable after those already there.
    pub fn with_env(self, key: &str, value: &str) -> (r: Self)
        ensures
            r@ == (SubprocessConfigView { env_vars: self@.env_vars.push((key@, value@)), ..self@ }),
    {
        let mut r = self;
        let ghost before = r.env_vars@;
        let pair = (String::from_str(key), String::from_str(value));
        r.env_vars.push(pair);
        assert(pairs_of(r.env_vars@) =~= pairs_of(before).push((key@, value@)));
        r
    }

    /// Adds environment variables, in their order, after those already
    /// there.
    pub fn with_envs(self, vars: &[(&str, &str)]) -> (r: Self)
        ensures
            r@ == (SubprocessConfigView {
                env_vars: self@.env_vars + str_pairs_of(vars@),
                ..self@
            }),
    {
        let mut r = self;
        let ghost before = r.env_vars@;
        let n = vars.len();
        let mut i: usize = 0;
        while i < n
            invariant
                n == vars@.len(),
                0 <= i <= n,
                r@ == (SubprocessConfigView {
                    env_vars: pairs_of(before) + str_pairs_of(vars@).take(i as int),
                    ..self@
                }),
                before == self.env_vars@,
            decreases n - i,
        {
            let ghost sofar = r.env_vars@;
            let (k, v) = vars[i];
            let pair = (String::from_str(k), String::from_str(v));
            r.env_vars.push(pair);
            assert(pairs_of(r.env_vars@) =~= pairs_of(before) + str_pairs_of(vars@).take(i + 1))
                by {
                assert(pairs_of(sofar) == pairs_of(before) + str_pairs_of(vars@).take(i as int));
                assert(pairs_of(r.env_vars@) =~= pairs_of(sofar).push((k@, v@)));
            }
            i = i + 1;
        }
        assert(str_pairs_of(vars@).take(n as int) =~= str_pairs_of(vars@));
        r
    }

    /// Sets the deadline for a graceful shutdown.
    pub fn with_shutdown_timeout(self, secs: u64) -> (r: Self)
        ensures
            r@ == (SubprocessConfigView { shutdown_timeout_secs: secs, ..self@ }),
    {
        let mut r = self;
        r.shutdown_timeout_secs = secs;
        r
    }

    /// Sets the maximum respawn attempts.
    pub fn with_max_respawn_attempts(self, attempts: u32) -> (r: Self)
        ensures
            r@ == (SubprocessConfigView { max_respawn_attempts: attempts, ..self@ }),
    {
        let mut r = self;
        r.max_respawn_attempts = attempts;
        r
    }

    /// Sets the delay before the first respawn attempt.
    pub fn with_respawn_delay(self, ms: u64) -> (r: Self)
        ensures
            r@ == (SubprocessConfigView { respawn_delay_ms: ms, ..self@ }),
    {
        let mut r = self;
        r.respawn_delay_ms = ms;
        r
    }

    /// Switches verbose logging on or off.
    pub fn with_verbose(self, verbose: bool) -> (r: Self)
        ensures
            r@ == (SubprocessConfigView { verbose, ..self@ }),
    {
        let mut r = self;
        r.verbose = verbose;
        r
    }

    /// The arguments of the command: `-m` and the module.
    pub fn build_args(&self) -> (r: Vec<String>)
        ensures
            texts_of(r@) == module_args(self.module_name@),
    {
        let mut r: Vec<String> = Vec::new();
        r.push(String::from_str("-m"));
        r.push(self.module_name.clone());
        assert(texts_of(r@) =~= module_args(self.module_name@));
        r
    }

    /// The environment of the child beyond what it inherits: the variable
    /// that makes its output unbuffered, set to `1`, and then the configured
    /// pairs in their order.
    pub fn build_env(&self) -> (r: Vec<(String, String)>)
        ensures
            pairs_of(r@) == seq![(UNBUFFERED_VARIABLE@, "1"@)] + self@.env_vars,
    {
        let mut r: Vec<(String, String)> = Vec::new();
        r.push((String::from_str(UNBUFFERED_VARIABLE), String::from_str("1")));
        let n = self.env_vars.len();
        let mut i: usize = 0;
        while i < n
            invariant
                n == self.env_vars@.len(),
                0 <= i <= n,
                pairs_of(r@) == seq![(UNBUFFERED_VARIABLE@, "1"@)] + self@.env_vars.take(i as int),
            decreases n - i,
        {
            let ghost sofar = r@;
            let pair = (self.env_vars[i].0.clone(), self.env_vars[i].1.clone());
            r.push(pair);
            assert(pairs_of(r@) =~= seq![(UNBUFFERED_VARIABLE@, "1"@)] + self@.env_vars.take(
                i + 1,
            )) by {
                assert(pairs_of(sofar) == seq![(UNBUFFERED_VARIABLE@, "1"@)]
                    + self@.env_vars.take(i as int));
                assert(pairs_of(r@) =~= pairs_of(sofar).push(self@.env_vars[i as int]));
            }
            i = i + 1;
        }
        assert(self@.env_vars.take(n as int) =~= self@.env_vars);
        r
    }

    /// The delay in milliseconds before a respawn attempt, counted from
    /// one, or the failure that ends the attempts: an attempt beyond the
    /// maximum fails with the maximum.
    pub fn respawn_delay(&self, attempt: u32) -> (r: Result<u64, IpcError>)
        requires
            attempt >= 1,
            self.respawn_delay_ms * 32 <= u64::MAX,
        ensures
            match r {
                Ok(ms) => attempt <= self.max_respawn_attempts && ms == backoff_delay(
                    self.respawn_delay_ms,
                    attempt,
                ),
                Err(e) => attempt > self.max_respawn_attempts && e == IpcError::RespawnFailed(
                    self.max_respawn_attempts,
                ),
            },
    {
        if attempt > self.max_respawn_attempts {
            return Err(IpcError::RespawnFailed(self.max_respawn_attempts));
        }
        let doublings: u32 = if attempt - 1 < 5 {
            attempt - 1
        } else {
            5
        };
        let mut factor: u64 = 1;
        let mut i: u32 = 0;
        while i < doublings
            invariant
                0 <= i <= doublings <= 5,
                factor == pow2(i as nat),
                factor <= 32,
            decreases doublings - i,
        {
            proof {
                reveal_with_fuel(pow2, 7);
            }
            factor = factor * 2;
            i = i + 1;
        }
        assert(self.respawn_delay_ms * factor <= u64::MAX) by (nonlinear_arith)
            requires
                self.respawn_delay_ms * 32 <= u64::MAX,
                factor <= 32,
        ;
        Ok(self.respawn_delay_ms * factor)
    }
}

/// State of a spawned child as its handle sees it.
#[derive(Debug, Clone, Copy, PartialEq, Eq, Structural)]
pub enum ProcessState {
    /// Not started yet.
    NotStarted,
    /// Currently running.
    Running,
    /// Exited with success.
    Stopped,
    /// Exited with failure.
    Crashed,
    /// Killed forcefully.
    Killed,
}

impl ProcessState {
    /// The upper-case name of the state.
    pub open spec fn name_text(self) -> Seq<char> {
        match self {
            ProcessState::NotStarted => "NOT_STARTED"@,
            ProcessState::Running => "RUNNING"@,
            ProcessState::Stopped => "STOPPED"@,
            ProcessState::Crashed => "CRASHED"@,
            ProcessState::Killed => "KILLED"@,
        }
    }

    /// The upper-case name of the state.
    pub fn name(&self) -> (s: &'static str)
        ensures
            s@ == self.name_text(),
    {
        match self {
            ProcessState::NotStarted => "NOT_STARTED",
            ProcessState::Running => "RUNNING",
            ProcessState::Stopped => "STOPPED",
            ProcessState::Crashed => "CRASHED",
            ProcessState::Killed => "KILLED",
        }
    }
}

/// The failure of a spawn that the operating system refused, with its
/// message.
pub fn spawn_failure(os_message: &str) -> (e: IpcError)
    ensures
        e matches IpcError::SpawnError(m) && m@ == "Failed to spawn subprocess: "@ + os_message@,
{
    IpcError::SpawnError(join2("Failed to spawn subprocess: ", os_message))
}

/// The failure of a kill that the operating system refused, with its
/// message.
pub fn kill_failure(os_message: &str) -> (e: IpcError)
    ensures
        e matches IpcError::IoError(m) && m@ == "Failed to kill subprocess: "@ + os_message@,
{
    IpcError::IoError(join2("Failed to kill subprocess: ", os_message))
}

/// The text that names the first pipe that is missing, if one is.
pub open spec fn missing_pipe(stdin: bool, stdout: bool, stderr: bool) -> Option<Seq<char>> {
    if !stdin {
        Some("Failed to get stdin handle"@)
    } else if !stdout {
        Some("Failed to get stdout handle"@)
    } else if !stderr {
        Some("Failed to get stderr handle"@)
    } else {
        None
    }
}

/// Checks that a spawned child came with its three pipes: a spawn failure
/// names the first that is missing.
pub fn check_pipes(stdin: bool, stdout: bool, stderr: bool) -> (r: Result<(), IpcError>)
    ensures
        match missing_pipe(stdin, stdout, stderr) {
            Some(text) => r matches Err(IpcError::SpawnError(m)) && m@ == text,
            None => r is Ok,
        },
{
    if !stdin {
        Err(IpcError::SpawnError(String::from_str("Failed to get stdin handle")))
    } else if !stdout {
        Err(IpcError::SpawnError(String::from_str("Failed to get stdout handle")))
    } else if !stderr {
        Err(IpcError::SpawnError(String::from_str("Failed to get stderr handle")))
    } else {
        Ok(())
    }
}

/// What the owner of the child does next while it shuts the child down.
#[derive(Debug, Clone, Copy, PartialEq, Eq, Structural)]
pub enum ShutdownStep {
    /// Nothing is left to do.
    Done,
    /// Write the shutdown request to the child's input if it is at hand,
    /// then look whether the child has exited.
    Request,
    /// Wait for the polling interval, then look again.
    Wait,
    /// Kill the child.
    Kill,
}

/// The handle of a spawned child: its pipes until they are taken, its
/// process id, and its state.
pub struct SubprocessHandle<I, O, E> {
    stdin: Option<I>,
    stdout: Option<O>,
    stderr: Option<E>,
    pid: u32,
    state: ProcessState,
    spawn_time: Instant,
    config: SubprocessConfig,
    shutting_down: bool,
}

/// The handle of a spawned child as a plain value.
pub struct HandleModel<I, O, E> {
    /// The child's input, until it is taken.
    pub stdin: Option<I>,
    /// The child's output, until it is taken.
    pub stdout: Option<O>,
    /// The child's error output, until it is taken.
    pub stderr: Option<E>,
    /// Process id.
    pub pid: u32,
    /// State of the child.
    pub state: ProcessState,
    /// Reading of the monotonic clock at the spawn.
    pub spawn_time: Instant,
    /// Configuration the child was spawned with.
    pub config: SubprocessConfig,
    /// Whether a shutdown has begun.
    pub shutting_down: bool,
}

/// The state of a child that has exited by itself.
pub open spec fn exit_state(success: bool) -> ProcessState {
    if success {
        ProcessState::Stopped
    } else {
        ProcessState::Crashed
    }
}

/// What follows a look at a running child during a shutdown: a child that
/// has exited leaves nothing to do; a child that still runs is killed once
/// the deadline has passed, and looked at again later before that.
pub open spec fn step_after_poll(exited: Option<bool>, elapsed: Duration, deadline: Duration)
    -> ShutdownStep {
    match exited {
        Some(_) => ShutdownStep::Done,
        None => if duration_nanos(elapsed) >= duration_nanos(deadline) {
            ShutdownStep::Kill
        } else {
            ShutdownStep::Wait
        },
    }
}

/// The state of a child after a look at it: `Stopped` or `Crashed` once it
/// has exited, unchanged while it runs.
pub open spec fn state_after_poll(state: ProcessState, exited: Option<bool>) -> ProcessState {
    match exited {
        Some(success) => exit_state(success),
        None => state,
    }
}

/// Graceful, then forceful: a child that is seen to have exited with success
/// ends as `Stopped` and is never killed; a child that still runs when the
/// deadline has passed is to be killed, and is not killed before.
pub proof fn lemma_graceful_then_forceful(
    state: ProcessState,
    elapsed: Duration,
    deadline: Duration,
)
    ensures
        state_after_poll(state, Some(true)) == ProcessState::Stopped,
        step_after_poll(Some(true), elapsed, deadline) == ShutdownStep::Done,
        state_after_poll(state, None) == state,
        step_after_poll(None, elapsed, deadline) == ShutdownStep::Kill <==> duration_nanos(elapsed)
            >= duration_nanos(deadline),
        step_after_poll(None, elapsed, deadline) != ShutdownStep::Done,
{
}

impl<I, O, E> View for SubprocessHandle<I, O, E> {
    type V = HandleModel<I, O, E>;

    closed spec fn view(&self) -> HandleModel<I, O, E> {
        HandleModel {
            stdin: self.stdin,
            stdout: self.stdout,
            stderr: self.stderr,
            pid: self.pid,
            state: self.state,
            spawn_time: self.spawn_time,
            config: self.config,
            shutting_down: self.shutting_down,
        }
    }
}

impl<I, O, E> SubprocessHandle<I, O, E> {
    /// The handle of a child that was just spawned: running, with its three
    /// pipes.
    pub fn spawned(stdin: I, stdout: O, stderr: E, pid: u32, config: SubprocessConfig) -> (r: Self)
        ensures
            r@ == (HandleModel {
                stdin: Some(stdin),
                stdout: Some(stdout),
                stderr: Some(stderr),
                pid,
                state: ProcessState::Running,
                spawn_time: r@.spawn_time,
                config,
                shutting_down: false,
            }),
    {
        SubprocessHandle {
            stdin: Some(stdin),
            stdout: Some(stdout),
            stderr: Some(stderr),
            pid,
            state: ProcessState::Running,
            spawn_time: instant_now(),
            config,
            shutting_down: false,
        }
    }

    /// The process id of the child.
    pub fn pid(&self) -> (r: u32)
        ensures
            r == self@.pid,
    {
        self.pid
    }

    /// The state of the child.
    pub fn state(&self) -> (r: ProcessState)
        ensures
            r == self@.state,
    {
        self.state
    }

    /// Whether the child is running.
    pub fn is_running(&self) -> (r: bool)
        ensures
            r == (self@.state == ProcessState::Running),
    {
        self.state == ProcessState::Running
    }

    /// Whether a shutdown has begun.
    pub fn is_shutting_down(&self) -> (r: bool)
        ensures
            r == self@.shutting_down,
    {
        self.shutting_down
    }

    /// The time since the child was spawned.
    pub fn uptime(&self) -> (r: Duration)
    {
        instant_elapsed(&self.spawn_time)
    }

    /// The configuration the child was spawned with.
    pub fn config(&self) -> (r: &SubprocessConfig)
        ensures
            *r == self@.config,
    {
        &self.config
    }

    /// Hands out the child's input; once.
    pub fn take_stdin(&mut self) -> (r: Option<I>)
        ensures
            r == old(self)@.stdin,
            final(self)@ == (HandleModel { stdin: None, ..old(self)@ }),
    {
        self.stdin.take()
    }

    /// Hands out the child's output; once.
    pub fn take_stdout(&mut self) -> (r: Option<O>)
        ensures
            r == old(self)@.stdout,
            final(self)@ == (HandleModel { stdout: None, ..old(self)@ }),
    {
        self.stdout.take()
    }

    /// Hands out the child's error output; once.
    pub fn take_stderr(&mut self) -> (r: Option<E>)
        ensures
            r == old(self)@.stderr,
            final(self)@ == (HandleModel { stderr: None, ..old(self)@ }),
    {
        self.stderr.take()
    }

    /// Whether the child's input is still at hand.
    pub fn has_stdin(&self) -> (r: bool)
        ensures
            r == (self@.stdin is Some),
    {
        self.stdin.is_some()
    }

    /// Notes that the child has exited: `Stopped` for an exit with success,
    /// `Crashed` for any other.
    pub fn note_exit(&mut self, success: bool)
        ensures
            final(self)@ == (HandleModel { state: exit_state(success), ..old(self)@ }),
    {
        self.state = if success {
            ProcessState::Stopped
        } else {
            ProcessState::Crashed
        };
    }

    /// Begins a graceful shutdown. A child that is not running needs none;
    /// for a running child the shutdown is marked as begun, and the request
    /// is to be written to the child's input where that is at hand.
    pub fn begin_shutdown(&mut self) -> (step: ShutdownStep)
        ensures
            old(self)@.state != ProcessState::Running ==> step == ShutdownStep::Done && final(self)@ == old(self)@,
            old(self)@.state == ProcessState::Running ==> step == ShutdownStep::Request && final(self)@ == (HandleModel { shutting_down: true, ..old(self)@ }),
    {
        if self.state != ProcessState::Running {
            return ShutdownStep::Done;
        }
        self.shutting_down = true;
        ShutdownStep::Request
    }

    /// Decides what follows a look at the child during a shutdown: a child
    /// that has exited is noted as `Stopped` or `Crashed` and nothing is left
    /// to do; a child that still runs is killed once the deadline has passed,
    /// and looked at again after the polling interval before that.
    pub fn after_poll(&mut self, exited: Option<bool>, elapsed: Duration, deadline: Duration) -> (step:
        ShutdownStep)
        ensures
            step == step_after_poll(exited, elapsed, deadline),
            final(self)@ == (HandleModel {
                state: state_after_poll(old(self)@.state, exited),
                ..old(self)@
            }),
    {
        match exited {
            Some(success) => {
                self.note_exit(success);
                ShutdownStep::Done
            },
            None => {
                if elapsed.as_nanos() >= deadline.as_nanos() {
                    ShutdownStep::Kill
                } else {
                    ShutdownStep::Wait
                }
            },
        }
    }

    /// Whether a kill has anything to do: only a running child is killed.
    pub fn needs_kill(&self) -> (r: bool)
        ensures
            r == (self@.state == ProcessState::Running),
    {
        self.state == ProcessState::Running
    }

    /// Notes that the child was killed and has exited.
    pub fn note_killed(&mut self)
        ensures
            final(self)@ == (HandleModel { state: ProcessState::Killed, ..old(self)@ }),
    {
        self.state = ProcessState::Killed;
    }
}

} // verus!
