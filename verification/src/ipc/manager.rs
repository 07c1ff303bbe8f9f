//! The supervisor: its configuration, its lifecycle, and the decisions it
//! takes when it is started, called, answered and shut down.

use crate::ipc::clock::{
    duration_nanos, duration_secs, instant_elapsed, instant_now, unix_timestamp,
};
use crate::ipc::health::{
    failed, fresh, moved, snapshot, succeeded, HealthMonitor, HealthStatus, MonitorModel,
    SubprocessState,
};
use crate::ipc::json::{json_is_null, json_parse};
use crate::ipc::pending::{lists, PendingTable};
use crate::ipc::request::{
    built_params, request_text, JsonRpcRequest, JsonRpcRequestView, RequestBuilder,
};
use crate::ipc::response::{decodes_to, raw_envelope_of, JsonRpcResponse};
use crate::ipc::spawn::{SubprocessConfig, SubprocessConfigView};
use crate::ipc::{
    IpcError, DEFAULT_TIMEOUT_SECS, HEALTH_CHECK_INTERVAL_SECS, RESPAWN_DELAY_MS,
};
use crate::text::{blank, is_blank, join2, single_line};
use serde_json::Value;
use std::path::PathBuf;
use std::time::{Duration, Instant};
use vstd::prelude::*;
use vstd::string::StringExecFns;

verus! {

/// Lifecycle state of the supervisor.
#[derive(Debug, Clone, Copy, PartialEq, Eq, Structural)]
pub enum LifecycleState {
    /// Not initialised.
    Uninitialized,
    /// Starting up.
    Starting,
    /// Running and ready.
    Ready,
    /// Degraded but operational.
    Degraded,
    /// Shutting down.
    ShuttingDown,
    /// Stopped.
    Stopped,
    /// Stopped by a fatal error.
    Failed,
}

impl LifecycleState {
    /// The supervisor serves requests: `Ready` or `Degraded`.
    pub open spec fn accepting(self) -> bool {
        self == LifecycleState::Ready || self == LifecycleState::Degraded
    }

    /// The supervisor has ended: `Stopped` or `Failed`.
    pub open spec fn terminal(self) -> bool {
        self == LifecycleState::Stopped || self == LifecycleState::Failed
    }

    /// A start is permitted: from `Uninitialized` and from `Stopped`.
    pub open spec fn startable(self) -> bool {
        self == LifecycleState::Uninitialized || self == LifecycleState::Stopped
    }

    /// The upper-case name of the state.
    pub open spec fn name_text(self) -> Seq<char> {
        match self {
            LifecycleState::Uninitialized => "UNINITIALIZED"@,
            LifecycleState::Starting => "STARTING"@,
            LifecycleState::Ready => "READY"@,
            LifecycleState::Degraded => "DEGRADED"@,
            LifecycleState::ShuttingDown => "SHUTTING_DOWN"@,
            LifecycleState::Stopped => "STOPPED"@,
            LifecycleState::Failed => "FAILED"@,
        }
    }

    /// Whether the supervisor can accept requests.
    pub fn can_accept_requests(&self) -> (r: bool)
        ensures
            r == self.accepting(),
    {
        match self {
            LifecycleState::Ready | LifecycleState::Degraded => true,
            _ => false,
        }
    }

    /// Whether the supervisor is in a terminal state.
    pub fn is_terminal(&self) -> (r: bool)
        ensures
            r == self.terminal(),
    {
        match self {
            LifecycleState::Stopped | LifecycleState::Failed => true,
            _ => false,
        }
    }

    /// The upper-case name of the state.
    pub fn name(&self) -> (s: &'static str)
        ensures
            s@ == self.name_text(),
    {
        match self {
            LifecycleState::Uninitialized => "UNINITIALIZED",
            LifecycleState::Starting => "STARTING",
            LifecycleState::Ready => "READY",
            LifecycleState::Degraded => "DEGRADED",
            LifecycleState::ShuttingDown => "SHUTTING_DOWN",
            LifecycleState::Stopped => "STOPPED",
            LifecycleState::Failed => "FAILED",
        }
    }
}

/// Configuration of the supervisor.
#[derive(Debug, Clone)]
pub struct IpcConfig {
    /// Path of the executable.
    pub python_path: String,
    /// Module that the executable runs.
    pub module_name: String,
    /// Working directory of the child.
    pub working_dir: Option<PathBuf>,
    /// Per-request timeout in seconds.
    pub timeout_secs: u64,
    /// Interval between health checks in seconds.
    pub health_check_interval_secs: u64,
    /// Whether a crashed child is respawned.
    pub auto_respawn: bool,
    /// Maximum respawn attempts.
    pub max_respawn_attempts: u32,
    /// Verbose logging.
    pub verbose: bool,
}

/// A supervisor configuration as a plain value.
pub struct IpcConfigView {
    pub python_path: Seq<char>,
    pub module_name: Seq<char>,
    pub working_dir: Option<PathBuf>,
    pub timeout_secs: u64,
    pub health_check_interval_secs: u64,
    pub auto_respawn: bool,
    pub max_respawn_attempts: u32,
    pub verbose: bool,
}

impl View for IpcConfig {
    type V = IpcConfigView;

    open spec fn view(&self) -> IpcConfigView {
        IpcConfigView {
            python_path: self.python_path@,
            module_name: self.module_name@,
            working_dir: self.working_dir,
            timeout_secs: self.timeout_secs,
            health_check_interval_secs: self.health_check_interval_secs,
            auto_respawn: self.auto_respawn,
            max_respawn_attempts: self.max_respawn_attempts,
            verbose: self.verbose,
        }
    }
}

/// The default configuration: 60 s request timeout, 30 s between health
/// checks, respawn enabled with three attempts.
pub open spec fn default_ipc_config() -> IpcConfigView {
    IpcConfigView {
        python_path: "python"@,
        module_name: "plugins._host"@,
        working_dir: None,
        timeout_secs: DEFAULT_TIMEOUT_SECS,
        health_check_interval_secs: HEALTH_CHECK_INTERVAL_SECS,
        auto_respawn: true,
        max_respawn_attempts: 3,
        verbose: false,
    }
}

/// The spawn configuration that a supervisor configuration stands for.
pub open spec fn subprocess_config_of(c: IpcConfigView) -> SubprocessConfigView {
    SubprocessConfigView {
        python_path: c.python_path,
        module_name: c.module_name,
        working_dir: c.working_dir,
        env_vars: Seq::empty(),
        shutdown_timeout_secs: c.timeout_secs,
        max_respawn_attempts: c.max_respawn_attempts,
        respawn_delay_ms: RESPAWN_DELAY_MS,
        verbose: c.verbose,
    }
}

impl Default for IpcConfig {
    fn default() -> (r: Self)
        ensures
            r@ == default_ipc_config(),
    {
        IpcConfig {
            python_path: String::from_str("python"),
            module_name: String::from_str("plugins._host"),
            working_dir: None,
            timeout_secs: DEFAULT_TIMEOUT_SECS,
            health_check_interval_secs: HEALTH_CHECK_INTERVAL_SECS,
            auto_respawn: true,
            max_respawn_attempts: 3,
            verbose: false,
        }
    }
}

impl IpcConfig {
    /// The default configuration.
    pub fn new() -> (r: Self)
        ensures
            r@ == default_ipc_config(),
    {
        Self::default()
    }

    /// Sets the path of the executable.
    pub fn with_python_path(self, path: &str) -> (r: Self)
        ensures
            r@ == (IpcConfigView { python_path: path@, ..self@ }),
    {
        let mut r = self;
        r.python_path = String::from_str(path);
        r
    }

    /// Sets the module that the executable runs.
    pub fn with_module_path(self, path: &str) -> (r: Self)
        ensures
            r@ == (IpcConfigView { module_name: path@, ..self@ }),
    {
        let mut r = self;
        r.module_name = String::from_str(path);
        r
    }

    /// Sets the working directory.
    pub fn with_working_dir(self, dir: PathBuf) -> (r: Self)
        ensures
            r@ == (IpcConfigView { working_dir: Some(dir), ..self@ }),
    {
        let mut r = self;
        r.working_dir = Some(dir);
        r
    }

    /// Sets the per-request timeout.
    pub fn with_timeout(self, secs: u64) -> (r: Self)
        ensures
            r@ == (IpcConfigView { timeout_secs: secs, ..self@ }),
    {
        let mut r = self;
        r.timeout_secs = secs;
        r
    }

    /// Switches the respawn of a crashed child on or off.
    pub fn with_auto_respawn(self, enabled: bool) -> (r: Self)
        ensures
            r@ == (IpcConfigView { auto_respawn: enabled, ..self@ }),
    {
        let mut r = self;
        r.auto_respawn = enabled;
        r
    }

    /// The spawn configuration for the child: executable, module, working
    /// directory, attempts and verbosity as configured here, the request
    /// timeout as the shutdown deadline, and no additional environment.
    pub fn to_subprocess_config(&self) -> (r: SubprocessConfig)
        ensures
            r@ == subprocess_config_of(self@),
    {
        let config = SubprocessConfig::new().with_python_path(self.python_path.as_str()).with_module(
            self.module_name.as_str(),
        ).with_shutdown_timeout(self.timeout_secs).with_max_respawn_attempts(
            self.max_respawn_attempts,
        ).with_verbose(self.verbose);
        match &self.working_dir {
            Some(dir) => config.with_working_dir(dir.clone()),
            None => config,
        }
    }
}

/// A snapshot of the supervisor.
#[derive(Debug, Clone, Copy)]
pub struct ManagerStats {
    /// Lifecycle state of the supervisor.
    pub lifecycle_state: LifecycleState,
    /// Snapshot of the health monitor.
    pub health_status: HealthStatus,
    /// Requests handed to the writer.
    pub total_requests: u64,
    /// Requests answered with a result.
    pub successful_requests: u64,
    /// Requests that failed.
    pub failed_requests: u64,
    /// Requests that wait for their response.
    pub pending_requests: usize,
    /// Seconds since the supervisor was started.
    pub uptime_secs: Option<u64>,
    /// Process id of the child.
    pub subprocess_pid: Option<u32>,
}

/// What a caller gets back when a call is admitted: the correlation id and
/// the encoded request, which goes to the writer.
#[derive(Debug)]
pub struct CallTicket {
    /// Correlation id of the call.
    pub id: u64,
    /// The request as one line of JSON, without the line feed.
    pub line: String,
}

/// How the wait of a caller for its response ended.
#[derive(Debug)]
pub enum CallOutcome {
    /// The reader delivered a response.
    Response(JsonRpcResponse),
    /// The reader delivered an error of the supervisor.
    Failed(IpcError),
    /// The sink went away without a delivery.
    Dropped,
    /// The deadline elapsed.
    TimedOut,
}

/// What the reader does with a response.
#[derive(Debug)]
pub enum Dispatch<S> {
    /// The response belongs to a waiting caller: it goes to that sink.
    Deliver { sink: S, response: JsonRpcResponse },
    /// No caller waits for the id of the response: it is dropped.
    Orphan(JsonRpcResponse),
    /// The response carries no id: it is dropped.
    Unaddressed(JsonRpcResponse),
}

impl<S> Dispatch<S> {
    /// The response that was dispatched.
    pub open spec fn response(self) -> JsonRpcResponse {
        match self {
            Dispatch::Deliver { sink, response } => response,
            Dispatch::Orphan(response) => response,
            Dispatch::Unaddressed(response) => response,
        }
    }
}

/// What the reader does with a line of the child's output.
#[derive(Debug)]
pub enum ReaderStep<S> {
    /// The line is blank and is skipped.
    Skip,
    /// The line is not a response: it is reported and dropped.
    Malformed(IpcError),
    /// The line is a response.
    Dispatched(Dispatch<S>),
}

/// What is left to do outside the supervisor when a shutdown begins.
#[derive(Debug, Clone, Copy, PartialEq, Eq, Structural)]
pub struct ShutdownPlan {
    /// Process id of the child to shut down, where one is bound; its writer
    /// is stopped first.
    pub child: Option<u32>,
    /// Deadline in seconds for the child to exit by itself.
    pub deadline_secs: u64,
}

/// The supervisor as a plain value.
pub struct ManagerModel<S> {
    /// Configuration.
    pub config: IpcConfigView,
    /// Lifecycle state.
    pub lifecycle: LifecycleState,
    /// Health monitor.
    pub health: MonitorModel,
    /// Process id of the child that is bound, if one is.
    pub child: Option<u32>,
    /// Sinks of the callers that wait, by correlation id.
    pub pending: Map<u64, S>,
    /// The correlation id that the next call gets.
    pub next_id: u64,
    /// Whether teardown has begun.
    pub shutting_down: bool,
    /// Reading of the monotonic clock at the last start.
    pub started: Option<Instant>,
    /// Requests handed to the writer.
    pub total_requests: u64,
    /// Requests answered with a result.
    pub successful_requests: u64,
    /// Requests that failed.
    pub failed_requests: u64,
}

/// What holds of every supervisor: correlation ids start at one, every id
/// that waits was handed out before, and a child is bound exactly while the
/// supervisor serves requests.
pub open spec fn valid<S>(m: ManagerModel<S>) -> bool {
    &&& m.next_id >= 1
    &&& m.pending.dom().finite()
    &&& forall|id: u64| m.pending.contains_key(id) ==> 1 <= id < m.next_id
    &&& m.child is Some <==> m.lifecycle.accepting()
}

/// The lifecycle of the supervisor follows the monitor between `Ready` and
/// `Degraded`.
pub open spec fn followed(lifecycle: LifecycleState, child: SubprocessState) -> LifecycleState {
    if lifecycle == LifecycleState::Ready && child == SubprocessState::Degraded {
        LifecycleState::Degraded
    } else if lifecycle == LifecycleState::Degraded && child == SubprocessState::Running {
        LifecycleState::Ready
    } else {
        lifecycle
    }
}

/// The text of the failure recorded when the child's output ends.
pub open spec fn output_closed_text() -> Seq<char> {
    "Subprocess stdout closed"@
}

/// A line decodes to an outcome: a line that is not a JSON document gives a
/// JSON error, a document gives what its envelope stands for.
pub open spec fn line_decodes_to(line: Seq<char>, r: Result<JsonRpcResponse, IpcError>) -> bool {
    match json_parse(line) {
        Some(v) => decodes_to(r, raw_envelope_of(v)),
        None => r matches Err(IpcError::JsonError(_)),
    }
}

/// The reader's handling of a response, on the pending table: the sink
/// registered under the id of the response gets it and leaves the table; a
/// response without an id, or with an id under which nothing waits, changes
/// nothing.
pub open spec fn dispatched_from<S>(before: Map<u64, S>, after: Map<u64, S>, d: Dispatch<S>)
    -> bool {
    match d {
        Dispatch::Deliver { sink, response } => {
            &&& response.id matches Some(id)
            &&& before.contains_key(id)
            &&& before[id] == sink
            &&& after == before.remove(id)
        },
        Dispatch::Orphan(response) => {
            &&& response.id matches Some(id)
            &&& !before.contains_key(id)
            &&& after == before
        },
        Dispatch::Unaddressed(response) => response.id is None && after == before,
    }
}

/// The reader's handling of a response: as on the pending table, with
/// everything else of the supervisor unchanged.
pub open spec fn dispatched<S>(before: ManagerModel<S>, after: ManagerModel<S>, d: Dispatch<S>)
    -> bool {
    &&& dispatched_from(before.pending, after.pending, d)
    &&& after == (ManagerModel { pending: after.pending, ..before })
}

/// Decides where a response goes: to the sink registered under its id, which
/// leaves the table; nowhere, where it has no id or nothing waits under its
/// id.
pub fn dispatch_response<S>(pending: &mut PendingTable<S>, response: JsonRpcResponse) -> (d:
    Dispatch<S>)
    ensures
        d.response() == response,
        dispatched_from(old(pending)@, final(pending)@, d),
{
    match response.id {
        Some(id) => match pending.remove(id) {
            Some(sink) => Dispatch::Deliver { sink, response },
            None => {
                assert(pending@ =~= old(pending)@);
                Dispatch::Orphan(response)
            },
        },
        None => Dispatch::Unaddressed(response),
    }
}

/// The snapshot of a supervisor, given the clock readings it depends on.
pub open spec fn stats_of<S>(
    m: ManagerModel<S>,
    now_unix: u64,
    since_start: Duration,
    since_child_start: Duration,
    since_success: Duration,
) -> ManagerStats {
    ManagerStats {
        lifecycle_state: m.lifecycle,
        health_status: snapshot(m.health, now_unix, since_child_start, since_success),
        total_requests: m.total_requests,
        successful_requests: m.successful_requests,
        failed_requests: m.failed_requests,
        pending_requests: m.pending.dom().len() as usize,
        uptime_secs: if m.started is Some {
            Some(duration_secs(since_start))
        } else {
            None
        },
        subprocess_pid: m.child,
    }
}

/// How a supervisor admits a call. The call is refused, with nothing
/// changed, while the supervisor does not serve requests (not running), once
/// teardown has begun (shutting down), and once the correlation ids are used
/// up (send failure). An admitted call takes the next correlation id. Where
/// its request cannot be encoded the call fails with a JSON error and the id
/// stays used; else the sink is registered under the id, and the id comes
/// back with the encoded request.
pub open spec fn call_begun<S>(
    before: ManagerModel<S>,
    after: ManagerModel<S>,
    method: Seq<char>,
    params: Value,
    sink: S,
    r: Result<CallTicket, IpcError>,
) -> bool {
    if !before.lifecycle.accepting() {
        r == Err::<CallTicket, IpcError>(IpcError::NotRunning) && after == before
    } else if before.shutting_down {
        r == Err::<CallTicket, IpcError>(IpcError::ShuttingDown) && after == before
    } else if before.next_id == u64::MAX {
        &&& r matches Err(IpcError::SendError(m)) && m@ == "correlation ids exhausted"@
        &&& after == before
    } else {
        match request_text(
            JsonRpcRequestView { jsonrpc: "2.0"@, id: before.next_id, method, params },
        ) {
            Some(text) => {
                &&& r matches Ok(ticket) && ticket.id == before.next_id && ticket.line@ == text
                    && single_line(ticket.line@)
                &&& after == (ManagerModel {
                    next_id: (before.next_id + 1) as u64,
                    pending: before.pending.insert(before.next_id, sink),
                    ..before
                })
            },
            None => {
                &&& r matches Err(IpcError::JsonError(_))
                &&& after == (ManagerModel { next_id: (before.next_id + 1) as u64, ..before })
            },
        }
    }
}

/// A supervisor after one correlation id was handed out and left unused.
pub open spec fn id_skipped<S>(m: ManagerModel<S>) -> ManagerModel<S> {
    if m.next_id < u64::MAX {
        ManagerModel { next_id: (m.next_id + 1) as u64, ..m }
    } else {
        m
    }
}

/// The supervisor core: lifecycle, health, pending table, correlation
/// counter and request counters. `S` is the sink through which a caller
/// gets its response.
pub struct IpcManagerState<S> {
    config: IpcConfig,
    lifecycle: LifecycleState,
    health: HealthMonitor,
    child: Option<u32>,
    pending: PendingTable<S>,
    next_id: u64,
    is_shutting_down: bool,
    start_time: Option<Instant>,
    total_requests: u64,
    successful_requests: u64,
    failed_requests: u64,
}

impl<S> View for IpcManagerState<S> {
    type V = ManagerModel<S>;

    closed spec fn view(&self) -> ManagerModel<S> {
        ManagerModel {
            config: self.config@,
            lifecycle: self.lifecycle,
            health: self.health@,
            child: self.child,
            pending: self.pending@,
            next_id: self.next_id,
            shutting_down: self.is_shutting_down,
            started: self.start_time,
            total_requests: self.total_requests,
            successful_requests: self.successful_requests,
            failed_requests: self.failed_requests,
        }
    }
}

impl<S> IpcManagerState<S> {
    /// A supervisor that was never started, with the given configuration.
    pub fn new(config: IpcConfig) -> (r: Self)
        ensures
            r@ == (ManagerModel {
                config: config@,
                lifecycle: LifecycleState::Uninitialized,
                health: MonitorModel {
                    max_respawn_attempts: config.max_respawn_attempts,
                    ..fresh(r@.health.check_interval)
                },
                child: None,
                pending: Map::<u64, S>::empty(),
                next_id: 1,
                shutting_down: false,
                started: None,
                total_requests: 0,
                successful_requests: 0,
                failed_requests: 0,
            }),
            duration_nanos(r@.health.check_interval) == config.health_check_interval_secs as nat
                * 1_000_000_000,
            valid(r@),
    {
        let interval = Duration::from_secs(config.health_check_interval_secs);
        let health = HealthMonitor::new(interval).with_max_respawn_attempts(
            config.max_respawn_attempts,
        );
        IpcManagerState {
            config,
            lifecycle: LifecycleState::Uninitialized,
            health,
            child: None,
            pending: PendingTable::new(),
            next_id: 1,
            is_shutting_down: false,
            start_time: None,
            total_requests: 0,
            successful_requests: 0,
            failed_requests: 0,
        }
    }

    /// A supervisor that was never started, with the default configuration.
    pub fn with_defaults() -> (r: Self)
        ensures
            r@.config == default_ipc_config(),
            r@.lifecycle == LifecycleState::Uninitialized,
            r@.pending == Map::<u64, S>::empty(),
            r@.next_id == 1,
            r@.child is None,
            !r@.shutting_down,
            r@.total_requests == 0 && r@.successful_requests == 0 && r@.failed_requests == 0,
            valid(r@),
    {
        Self::new(IpcConfig::default())
    }

    /// The lifecycle state.
    pub fn lifecycle_state(&self) -> (r: LifecycleState)
        ensures
            r == self@.lifecycle,
    {
        self.lifecycle
    }

    /// The health monitor.
    pub fn health(&self) -> (r: &HealthMonitor)
        ensures
            r@ == self@.health,
    {
        &self.health
    }

    /// The configuration.
    pub fn config(&self) -> (r: &IpcConfig)
        ensures
            r@ == self@.config,
    {
        &self.config
    }

    /// Whether the supervisor serves requests.
    pub fn is_ready(&self) -> (r: bool)
        ensures
            r == self@.lifecycle.accepting(),
    {
        self.lifecycle.can_accept_requests()
    }

    /// Whether teardown has begun.
    pub fn is_shutting_down(&self) -> (r: bool)
        ensures
            r == self@.shutting_down,
    {
        self.is_shutting_down
    }

    /// The number of callers that wait for a response.
    pub fn pending_count(&self) -> (r: usize)
        ensures
            r == self@.pending.dom().len(),
    {
        self.pending.len()
    }

    /// The process id of the child that is bound, if one is.
    pub fn child_pid(&self) -> (r: Option<u32>)
        ensures
            r == self@.child,
    {
        self.child
    }

    /// Begins a start. A start is permitted from `Uninitialized` and from
    /// `Stopped`: the supervisor and the monitor enter `Starting`, the mark
    /// of an earlier teardown is cleared, and the configuration with which
    /// the child is to be spawned comes back. From any other state the
    /// start is refused with a spawn failure that names the state, and
    /// nothing changes.
    pub fn begin_start(&mut self) -> (r: Result<SubprocessConfig, IpcError>)
        ensures
            old(self)@.lifecycle.startable() ==> (r matches Ok(c) && c@ == subprocess_config_of(
                old(self)@.config,
            ) && final(self)@ == (ManagerModel {
                lifecycle: LifecycleState::Starting,
                health: moved(old(self)@.health, SubprocessState::Starting),
                shutting_down: false,
                ..old(self)@
            })),
            !old(self)@.lifecycle.startable() ==> (r matches Err(IpcError::SpawnError(m)) && m@
                == "Cannot start from state: "@ + old(self)@.lifecycle.name_text() && final(self)@
                == old(self)@),
            valid(old(self)@) ==> valid(final(self)@),
    {
        match self.lifecycle {
            LifecycleState::Uninitialized | LifecycleState::Stopped => {},
            _ => {
                return Err(
                    IpcError::SpawnError(
                        join2("Cannot start from state: ", self.lifecycle.name()),
                    ),
                );
            },
        }
        self.lifecycle = LifecycleState::Starting;
        self.is_shutting_down = false;
        self.health.set_state_at(SubprocessState::Starting, instant_now());
        Ok(self.config.to_subprocess_config())
    }

    /// Completes a start with the child that was spawned: from `Starting`
    /// the child is bound, the start is marked on the clock, the monitor
    /// marks the child as started, and the supervisor is `Ready`. In any
    /// other state nothing changes and the answer is `false`.
    pub fn complete_start(&mut self, pid: u32) -> (done: bool)
        ensures
            done == (old(self)@.lifecycle == LifecycleState::Starting),
            !done ==> final(self)@ == old(self)@,
            done ==> final(self)@.started is Some && final(self)@.health.started is Some && final(self)@ == (ManagerModel {
                lifecycle: LifecycleState::Ready,
                child: Some(pid),
                started: final(self)@.started,
                health: MonitorModel {
                    started: final(self)@.health.started,
                    ..moved(old(self)@.health, SubprocessState::Running)
                },
                ..old(self)@
            }),
            valid(old(self)@) ==> valid(final(self)@),
    {
        if self.lifecycle != LifecycleState::Starting {
            return false;
        }
        let now = instant_now();
        self.start_time = Some(now);
        self.health.mark_started_at(now);
        self.child = Some(pid);
        self.lifecycle = LifecycleState::Ready;
        true
    }

    /// Gives up a start that failed at the spawn or after it: from
    /// `Starting` the supervisor is `Failed`. In any other state nothing
    /// changes and the answer is `false`.
    pub fn fail_start(&mut self) -> (done: bool)
        ensures
            done == (old(self)@.lifecycle == LifecycleState::Starting),
            !done ==> final(self)@ == old(self)@,
            done ==> final(self)@ == (ManagerModel {
                lifecycle: LifecycleState::Failed,
                ..old(self)@
            }),
            valid(old(self)@) ==> valid(final(self)@),
    {
        if self.lifecycle != LifecycleState::Starting {
            return false;
        }
        self.lifecycle = LifecycleState::Failed;
        true
    }

    /// Hands out the next correlation id, or `None` once the ids are used
    /// up. Ids start at one and grow by one.
    pub fn next_request_id(&mut self) -> (r: Option<u64>)
        ensures
            old(self)@.next_id < u64::MAX ==> r == Some(old(self)@.next_id) && final(self)@ == (
            ManagerModel { next_id: (old(self)@.next_id + 1) as u64, ..old(self)@ }),
            old(self)@.next_id == u64::MAX ==> r is None && final(self)@ == old(self)@,
            valid(old(self)@) ==> valid(final(self)@),
    {
        if self.next_id == u64::MAX {
            return None;
        }
        let id = self.next_id;
        self.next_id = id + 1;
        Some(id)
    }

    /// Admits a call. The call is refused, with nothing changed, while the
    /// supervisor does not serve requests (not running), once teardown has
    /// begun (shutting down), and once the correlation ids are used up (send
    /// failure). An admitted call takes the next correlation id. Where its
    /// request cannot be encoded the call fails with a JSON error and the id
    /// stays used; else the sink is registered under the id, and the id
    /// comes back with the encoded request for the writer.
    pub fn begin_call(&mut self, method: &str, params: Value, sink: S) -> (r: Result<
        CallTicket,
        IpcError,
    >)
        ensures
            call_begun(old(self)@, final(self)@, method@, params, sink, r),
            valid(old(self)@) ==> valid(final(self)@),
    {
        if !self.lifecycle.can_accept_requests() {
            return Err(IpcError::NotRunning);
        }
        if self.is_shutting_down {
            return Err(IpcError::ShuttingDown);
        }
        let id = match self.next_request_id() {
            Some(id) => id,
            None => {
                return Err(IpcError::SendError(String::from_str("correlation ids exhausted")));
            },
        };
        let request = JsonRpcRequest::new(id, method, params);
        let line = match request.to_json() {
            Ok(line) => line,
            Err(e) => {
                return Err(e);
            },
        };
        let _ = self.pending.insert(id, sink);
        Ok(CallTicket { id, line })
    }

    /// Admits the call that a builder describes. One correlation id is
    /// handed out and left unused before the call is admitted as any other,
    /// with the method of the builder and with its named parameters as an
    /// object, or `null` where it has none.
    pub fn begin_builder_call(&mut self, builder: RequestBuilder, sink: S) -> (r: Result<
        CallTicket,
        IpcError,
    >)
        ensures
            exists|params: Value|
                built_params(params, builder.params_spec()) && #[trigger] call_begun(
                    id_skipped(old(self)@),
                    final(self)@,
                    builder.method_spec(),
                    params,
                    sink,
                    r,
                ),
            valid(old(self)@) ==> valid(final(self)@),
    {
        let skipped = match self.next_request_id() {
            Some(id) => id,
            None => 0,
        };
        let request = builder.build(skipped);
        let JsonRpcRequest { jsonrpc, id, method, params } = request;
        let ghost p = params;
        let r = self.begin_call(method.as_str(), params, sink);
        assert(call_begun(id_skipped(old(self)@), self@, builder.method_spec(), p, sink, r));
        r
    }

    /// Notes how the hand-over of a request to the writer ended. A request
    /// that the writer took counts as a request; for one that it did not
    /// take, because the writer is gone, the entry leaves the table and the
    /// call fails with channel closed.
    pub fn sent(&mut self, id: u64, taken: bool) -> (r: Result<(), IpcError>)
        ensures
            taken ==> r is Ok && final(self)@ == (ManagerModel {
                total_requests: old(self)@.total_requests.wrapping_add(1),
                ..old(self)@
            }),
            !taken ==> r == Err::<(), IpcError>(IpcError::ChannelClosed) && final(self)@ == (
            ManagerModel { pending: old(self)@.pending.remove(id), ..old(self)@ }),
            valid(old(self)@) ==> valid(final(self)@),
    {
        if taken {
            self.total_requests = self.total_requests.wrapping_add(1);
            Ok(())
        } else {
            let _ = self.pending.remove(id);
            Err(IpcError::ChannelClosed)
        }
    }

    /// Settles a call once the wait for its response has ended.
    ///
    /// A response with a result counts as a success and gives the result,
    /// `null` where the response has none. A response with an error counts
    /// as a failure and gives that error with its code and message. An error
    /// that the reader delivered counts as a failure and is handed on. A
    /// sink that went away counts as a failure, the entry leaves the table,
    /// and the call fails with channel closed. An elapsed deadline counts as
    /// a failure, the entry leaves the table, and the call fails with a
    /// timeout of the configured seconds.
    pub fn settle(&mut self, id: u64, outcome: CallOutcome) -> (r: Result<Value, IpcError>)
        ensures
            final(self)@ == (ManagerModel {
                pending: match outcome {
                    CallOutcome::Dropped | CallOutcome::TimedOut => old(self)@.pending.remove(id),
                    _ => old(self)@.pending,
                },
                successful_requests: if outcome matches CallOutcome::Response(resp)
                    && resp.error is None {
                    old(self)@.successful_requests.wrapping_add(1)
                } else {
                    old(self)@.successful_requests
                },
                failed_requests: if outcome matches CallOutcome::Response(resp) && resp.error
                    is None {
                    old(self)@.failed_requests
                } else {
                    old(self)@.failed_requests.wrapping_add(1)
                },
                ..old(self)@
            }),
            match outcome {
                CallOutcome::Response(resp) => match resp.error {
                    Some(err) => r matches Err(IpcError::RpcError { code, message }) && code
                        == err.code && message@ == err.message@,
                    None => r matches Ok(v) && match resp.result {
                        Some(x) => v == x,
                        None => json_is_null(v),
                    },
                },
                CallOutcome::Failed(e) => r == Err::<Value, IpcError>(e),
                CallOutcome::Dropped => r == Err::<Value, IpcError>(IpcError::ChannelClosed),
                CallOutcome::TimedOut => r == Err::<Value, IpcError>(
                    IpcError::Timeout(old(self)@.config.timeout_secs),
                ),
            },
            valid(old(self)@) ==> valid(final(self)@),
    {
        match outcome {
            CallOutcome::Response(resp) => {
                if resp.is_error() {
                    self.failed_requests = self.failed_requests.wrapping_add(1);
                } else {
                    self.successful_requests = self.successful_requests.wrapping_add(1);
                }
                resp.extract_result()
            },
            CallOutcome::Failed(e) => {
                self.failed_requests = self.failed_requests.wrapping_add(1);
                Err(e)
            },
            CallOutcome::Dropped => {
                self.failed_requests = self.failed_requests.wrapping_add(1);
                let _ = self.pending.remove(id);
                Err(IpcError::ChannelClosed)
            },
            CallOutcome::TimedOut => {
                self.failed_requests = self.failed_requests.wrapping_add(1);
                let _ = self.pending.remove(id);
                Err(IpcError::Timeout(self.config.timeout_secs))
            },
        }
    }

    /// Decides where a response goes: to the sink registered under its id,
    /// which leaves the table; nowhere, where it has no id or nothing waits
    /// under its id.
    pub fn dispatch(&mut self, response: JsonRpcResponse) -> (d: Dispatch<S>)
        ensures
            d.response() == response,
            dispatched(old(self)@, final(self)@, d),
            valid(old(self)@) ==> valid(final(self)@),
    {
        dispatch_response(&mut self.pending, response)
    }

    /// Handles one line of the child's output. A blank line is skipped. A
    /// line that does not decode to a response is reported and changes
    /// nothing. A response is dispatched.
    pub fn on_line(&mut self, line: &str) -> (step: ReaderStep<S>)
        ensures
            match step {
                ReaderStep::Skip => blank(line@) && final(self)@ == old(self)@,
                ReaderStep::Malformed(e) => !blank(line@) && line_decodes_to(
                    line@,
                    Err::<JsonRpcResponse, IpcError>(e),
                ) && final(self)@ == old(self)@,
                ReaderStep::Dispatched(d) => !blank(line@) && line_decodes_to(
                    line@,
                    Ok::<JsonRpcResponse, IpcError>(d.response()),
                ) && dispatched(old(self)@, final(self)@, d),
            },
            valid(old(self)@) ==> valid(final(self)@),
    {
        if is_blank(line) {
            return ReaderStep::Skip;
        }
        match JsonRpcResponse::from_json(line) {
            Ok(response) => ReaderStep::Dispatched(self.dispatch(response)),
            Err(e) => ReaderStep::Malformed(e),
        }
    }

    /// Handles the end of the child's output, given the reading of the wall
    /// clock at which the failure is recorded: the monitor marks the child
    /// as crashed, and every entry leaves the table, to be failed with
    /// `SubprocessCrashed`. The lifecycle of the supervisor stays.
    pub fn on_eof_at(&mut self, timestamp: u64) -> (entries: Vec<(u64, S)>)
        ensures
            lists(entries@, old(self)@.pending),
            final(self)@ == (ManagerModel {
                pending: Map::<u64, S>::empty(),
                health: failed(
                    moved(old(self)@.health, SubprocessState::Crashed),
                    output_closed_text(),
                    timestamp,
                ),
                ..old(self)@
            }),
            final(self)@.health.state == SubprocessState::Crashed,
            !final(self)@.health.healthy,
            valid(old(self)@) ==> valid(final(self)@),
    {
        self.health.mark_crashed_at("Subprocess stdout closed", timestamp);
        self.pending.drain()
    }

    /// Handles the end of the child's output: the monitor reports
    /// `Crashed`, and every entry leaves the table, to be failed with
    /// `SubprocessCrashed`. The lifecycle of the supervisor stays.
    pub fn on_eof(&mut self) -> (entries: Vec<(u64, S)>)
        ensures
            lists(entries@, old(self)@.pending),
            exists|timestamp: u64|
                final(self)@ == (ManagerModel {
                    pending: Map::<u64, S>::empty(),
                    health: #[trigger] failed(
                        moved(old(self)@.health, SubprocessState::Crashed),
                        output_closed_text(),
                        timestamp,
                    ),
                    ..old(self)@
                }),
            final(self)@.pending == Map::<u64, S>::empty(),
            final(self)@.health.state == SubprocessState::Crashed,
            !final(self)@.health.healthy,
            final(self)@.lifecycle == old(self)@.lifecycle,
            valid(old(self)@) ==> valid(final(self)@),
    {
        let timestamp = unix_timestamp();
        self.on_eof_at(timestamp)
    }

    /// The error with which the callers are failed whose entries were in the
    /// table when the child's output ended.
    pub fn crash_error() -> (e: IpcError)
        ensures
            e == IpcError::SubprocessCrashed,
    {
        IpcError::SubprocessCrashed
    }

    /// Records a successful health check and lets the lifecycle follow the
    /// monitor: a degraded supervisor whose child runs again is `Ready`.
    pub fn record_success(&mut self, latency: Duration)
        ensures
            exists|now: Instant, timestamp: u64|
                final(self)@ == (ManagerModel {
                    health: #[trigger] succeeded(old(self)@.health, latency, now, timestamp),
                    lifecycle: followed(
                        old(self)@.lifecycle,
                        succeeded(old(self)@.health, latency, now, timestamp).state,
                    ),
                    ..old(self)@
                }),
            final(self)@.health.healthy,
            valid(old(self)@) ==> valid(final(self)@),
    {
        let now = instant_now();
        let timestamp = unix_timestamp();
        self.health.record_success_at(latency, now, timestamp);
        self.follow_monitor();
        assert(self@ == (ManagerModel {
            health: succeeded(old(self)@.health, latency, now, timestamp),
            lifecycle: followed(
                old(self)@.lifecycle,
                succeeded(old(self)@.health, latency, now, timestamp).state,
            ),
            ..old(self)@
        }));
    }

    /// Records a failed health check and lets the lifecycle follow the
    /// monitor: a ready supervisor whose child is degraded is `Degraded`.
    pub fn record_failure(&mut self, error: &str)
        ensures
            exists|timestamp: u64|
                final(self)@ == (ManagerModel {
                    health: #[trigger] failed(old(self)@.health, error@, timestamp),
                    lifecycle: followed(
                        old(self)@.lifecycle,
                        failed(old(self)@.health, error@, timestamp).state,
                    ),
                    ..old(self)@
                }),
            valid(old(self)@) ==> valid(final(self)@),
    {
        let timestamp = unix_timestamp();
        self.health.record_failure_at(error, timestamp);
        self.follow_monitor();
        assert(self@ == (ManagerModel {
            health: failed(old(self)@.health, error@, timestamp),
            lifecycle: followed(
                old(self)@.lifecycle,
                failed(old(self)@.health, error@, timestamp).state,
            ),
            ..old(self)@
        }));
    }

    fn follow_monitor(&mut self)
        ensures
            final(self)@ == (ManagerModel {
                lifecycle: followed(old(self)@.lifecycle, old(self)@.health.state),
                ..old(self)@
            }),
    {
        let child = self.health.state();
        if self.lifecycle == LifecycleState::Ready && child == SubprocessState::Degraded {
            self.lifecycle = LifecycleState::Degraded;
        } else if self.lifecycle == LifecycleState::Degraded && child == SubprocessState::Running {
            self.lifecycle = LifecycleState::Ready;
        }
    }

    /// Begins a shutdown. Once teardown has begun there is nothing to do and
    /// nothing changes. Else teardown is marked as begun, the supervisor and
    /// the monitor enter `ShuttingDown`, the child leaves the supervisor,
    /// and the plan says what is left to do outside: stop the writer and
    /// shut the child down within the configured timeout.
    pub fn begin_shutdown(&mut self) -> (plan: Option<ShutdownPlan>)
        ensures
            old(self)@.shutting_down ==> plan is None && final(self)@ == old(self)@,
            !old(self)@.shutting_down ==> plan == Some(
                ShutdownPlan {
                    child: old(self)@.child,
                    deadline_secs: old(self)@.config.timeout_secs,
                },
            ) && final(self)@ == (ManagerModel {
                shutting_down: true,
                lifecycle: LifecycleState::ShuttingDown,
                health: moved(old(self)@.health, SubprocessState::ShuttingDown),
                child: None,
                ..old(self)@
            }),
            valid(old(self)@) ==> valid(final(self)@),
    {
        if self.is_shutting_down {
            return None;
        }
        self.is_shutting_down = true;
        self.lifecycle = LifecycleState::ShuttingDown;
        self.health.set_state_at(SubprocessState::ShuttingDown, instant_now());
        let child = self.child.take();
        Some(ShutdownPlan { child, deadline_secs: self.config.timeout_secs })
    }

    /// Completes a shutdown once the child is gone: from `ShuttingDown` the
    /// supervisor and the monitor are `Stopped`. In any other state nothing
    /// changes and the answer is `false`.
    pub fn complete_shutdown(&mut self) -> (done: bool)
        ensures
            done == (old(self)@.lifecycle == LifecycleState::ShuttingDown),
            !done ==> final(self)@ == old(self)@,
            done ==> final(self)@ == (ManagerModel {
                lifecycle: LifecycleState::Stopped,
                health: moved(old(self)@.health, SubprocessState::Stopped),
                ..old(self)@
            }),
            valid(old(self)@) ==> valid(final(self)@),
    {
        if self.lifecycle != LifecycleState::ShuttingDown {
            return false;
        }
        self.lifecycle = LifecycleState::Stopped;
        self.health.set_state_at(SubprocessState::Stopped, instant_now());
        true
    }

    /// Whether an owner that goes away has to kill the child: only the last
    /// owner, and only while a child is bound.
    pub fn kill_on_drop(&self, owners: usize) -> (r: bool)
        ensures
            r == (owners == 1 && self@.child is Some),
    {
        owners == 1 && self.child.is_some()
    }

    /// The snapshot of the supervisor for given clock readings: the wall
    /// clock in seconds since the Unix epoch, the time since the supervisor
    /// was started, the time since the monitor marked the start of the
    /// child, and the time since the last successful health check.
    pub fn stats_with(
        &self,
        now_unix: u64,
        since_start: Duration,
        since_child_start: Duration,
        since_success: Duration,
    ) -> (r: ManagerStats)
        ensures
            r == stats_of(self@, now_unix, since_start, since_child_start, since_success),
            r.pending_requests == self@.pending.dom().len(),
    {
        ManagerStats {
            lifecycle_state: self.lifecycle,
            health_status: self.health.status_with(now_unix, since_child_start, since_success),
            total_requests: self.total_requests,
            successful_requests: self.successful_requests,
            failed_requests: self.failed_requests,
            pending_requests: self.pending.len(),
            uptime_secs: match self.start_time {
                Some(_) => Some(since_start.as_secs()),
                None => None,
            },
            subprocess_pid: self.child,
        }
    }

    /// The snapshot of the supervisor. Uptimes and the time of the last
    /// success come from the clocks; everything else is fixed by the
    /// supervisor.
    pub fn stats(&self) -> (r: ManagerStats)
        ensures
            r.lifecycle_state == self@.lifecycle,
            r.total_requests == self@.total_requests,
            r.successful_requests == self@.successful_requests,
            r.failed_requests == self@.failed_requests,
            r.pending_requests == self@.pending.dom().len(),
            r.subprocess_pid == self@.child,
            r.uptime_secs is Some <==> self@.started is Some,
            exists|now_unix: u64, since_child_start: Duration, since_success: Duration|
                r.health_status == #[trigger] snapshot(
                    self@.health,
                    now_unix,
                    since_child_start,
                    since_success,
                ),
    {
        let since_start = match &self.start_time {
            Some(t) => instant_elapsed(t),
            None => Duration::from_secs(0),
        };
        let health_status = self.health.status();
        ManagerStats {
            lifecycle_state: self.lifecycle,
            health_status,
            total_requests: self.total_requests,
            successful_requests: self.successful_requests,
            failed_requests: self.failed_requests,
            pending_requests: self.pending.len(),
            uptime_secs: match self.start_time {
                Some(_) => Some(since_start.as_secs()),
                None => None,
            },
            subprocess_pid: self.child,
        }
    }
}

/// The correlation ids of the next calls that get one, in the order of the
/// calls.
pub open spec fn issued<S>(m: ManagerModel<S>, calls: nat) -> Seq<u64> {
    Seq::new(calls, |i: int| (m.next_id + i) as u64)
}

/// Correlation uniqueness: the ids that a valid supervisor hands out next
/// are consecutive, start at its counter, are never zero, differ from one
/// another, and differ from every id under which a caller waits.
pub proof fn lemma_ids_are_unique<S>(m: ManagerModel<S>, calls: nat)
    requires
        valid(m),
        m.next_id + calls <= u64::MAX,
    ensures
        issued(m, calls).len() == calls,
        issued(m, calls).no_duplicates(),
        forall|i: int| 0 <= i < calls ==> #[trigger] issued(m, calls)[i] == m.next_id + i,
        forall|i: int| 0 <= i < calls ==> #[trigger] issued(m, calls)[i] >= 1,
        forall|i: int| 0 <= i < calls ==> !m.pending.contains_key(#[trigger] issued(m, calls)[i]),
{
}

/// An admitted call leaves every other caller as it was: the table gains
/// the entry of the call and keeps every entry it had.
pub proof fn lemma_admission_keeps_entries<S>(m: ManagerModel<S>, sink: S, other: u64)
    requires
        valid(m),
        m.pending.contains_key(other),
    ensures
        m.pending.insert(m.next_id, sink).contains_key(other),
        m.pending.insert(m.next_id, sink)[other] == m.pending[other],
        m.pending.insert(m.next_id, sink)[m.next_id] == sink,
{
}

/// Timeout correctness: once a call is settled as timed out, its id is out
/// of the table, so that a response that comes late for it is an orphan; the
/// other callers still wait.
pub proof fn lemma_late_response_is_orphan<S>(
    before: ManagerModel<S>,
    after: ManagerModel<S>,
    later: ManagerModel<S>,
    id: u64,
    d: Dispatch<S>,
)
    requires
        after.pending == before.pending.remove(id),
        d.response().id == Some(id),
        dispatched(after, later, d),
    ensures
        d is Orphan,
        later == after,
        forall|other: u64|
            other != id ==> (after.pending.contains_key(other) <==> before.pending.contains_key(
                other,
            )),
{
}

/// Shutdown idempotence: a supervisor in which teardown has begun refuses
/// every call, and refuses it as shutting down or as not running.
pub open spec fn refuses_calls<S>(m: ManagerModel<S>) -> bool {
    !m.lifecycle.accepting() || m.shutting_down
}

/// After a shutdown has begun, and after it has completed, calls are
/// refused.
pub proof fn lemma_shutdown_refuses_calls<S>(m: ManagerModel<S>)
    requires
        !m.shutting_down,
    ensures
        refuses_calls(
            ManagerModel {
                shutting_down: true,
                lifecycle: LifecycleState::ShuttingDown,
                health: moved(m.health, SubprocessState::ShuttingDown),
                child: None,
                ..m
            },
        ),
        refuses_calls(
            ManagerModel {
                shutting_down: true,
                lifecycle: LifecycleState::Stopped,
                health: moved(
                    moved(m.health, SubprocessState::ShuttingDown),
                    SubprocessState::Stopped,
                ),
                child: None,
                ..m
            },
        ),
{
}

} // verus!
