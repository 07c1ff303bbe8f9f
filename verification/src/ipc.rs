//! Communication with the plugin host child process: the error taxonomy and
//! the limits shared by the parts of the supervisor.

pub mod clock;
pub mod health;
pub mod json;
pub mod manager;
pub mod pending;
pub mod pumps;
pub mod request;
pub mod response;
pub mod spawn;

pub use crate::ipc::health::HealthStatus;
pub use crate::ipc::manager::{IpcConfig, IpcManagerState, LifecycleState, ManagerStats};
pub use crate::ipc::request::JsonRpcRequest;
pub use crate::ipc::response::JsonRpcResponse;

use crate::ipc::clock::{duration_secs, instant_elapsed, instant_now};
use crate::ipc::json::{
    into_object, json_error_message, json_error_text, json_is_null, json_object, new_object,
};
use crate::ipc::manager::{
    dispatch_response, dispatched_from, line_decodes_to, CallOutcome, CallTicket, ReaderStep,
};
use crate::ipc::pending::{lists, PendingTable};
use crate::ipc::request::{
    encodes_to, notification_text, request_text, JsonRpcNotificationView, JsonRpcRequestView,
};
use crate::ipc::spawn::{module_args, texts_of, UNBUFFERED_VARIABLE};
use crate::text::{
    blank, decimal, i32_to_string, is_blank, join2, join3, signed_decimal, single_line,
    u64_to_string,
};
use serde_json::Value;
use std::time::{Duration, Instant};
use vstd::prelude::*;
use vstd::std_specs::convert::FromSpecImpl;
use vstd::string::StringExecFns;

verus! {

/// `std::io::Error`: an I/O error, carried as an opaque value.
#[verifier::external_type_specification]
#[verifier::external_body]
pub struct ExIoError(std::io::Error);

/// The message that `std::io::Error`'s `to_string` gives for an error.
pub uninterp spec fn io_error_message(e: std::io::Error) -> String;

/// `std::io::Error`'s `to_string`: the message of an I/O error, named by
/// `io_error_message`. Nothing is claimed of the text itself.
#[verifier::external_body]
fn io_error_text(e: &std::io::Error) -> (s: String)
    ensures
        s == io_error_message(*e),
{
    e.to_string()
}

/// Default request timeout in seconds.
pub const DEFAULT_TIMEOUT_SECS: u64 = 60;

/// Maximum respawn attempts before giving up.
pub const MAX_RESPAWN_ATTEMPTS: u32 = 3;

/// Delay before the first respawn attempt in milliseconds.
pub const RESPAWN_DELAY_MS: u64 = 1000;

/// Health check interval in seconds.
pub const HEALTH_CHECK_INTERVAL_SECS: u64 = 30;

/// Capacity of the queue in front of the writer pump.
pub const WRITER_QUEUE_CAPACITY: usize = 100;

/// What can go wrong between a caller and the child process.
#[derive(Debug, Clone)]
pub enum IpcError {
    /// The child could not be created or its pipes attached.
    SpawnError(String),
    /// The supervisor is not in a serving state.
    NotRunning,
    /// A request could not be written to the child.
    SendError(String),
    /// The per-call deadline, in seconds, elapsed before a response came.
    Timeout(u64),
    /// The child's output ended while a response was still expected.
    SubprocessCrashed,
    /// The child answered with a well-formed error envelope.
    RpcError { code: i32, message: String },
    /// A response slot collapsed without a response.
    ResponseMissing(u64),
    /// A pipe failed while being read or written.
    IoError(String),
    /// A line could not be encoded or decoded.
    JsonError(String),
    /// The restart policy was exhausted after this many attempts.
    RespawnFailed(u32),
    /// A pump went away in the middle of a call.
    ChannelClosed,
    /// The operation was attempted before a start completed.
    NotInitialized,
    /// Teardown has begun.
    ShuttingDown,
}

impl IpcError {
    /// The human-readable sentence for this error.
    pub open spec fn description(self) -> Seq<char> {
        match self {
            IpcError::SpawnError(m) => "Failed to spawn subprocess: "@ + m@,
            IpcError::NotRunning => "Subprocess not running"@,
            IpcError::SendError(m) => "Failed to send request: "@ + m@,
            IpcError::Timeout(secs) => "Request timed out after "@ + decimal(secs as nat)
                + " seconds"@,
            IpcError::SubprocessCrashed => "Subprocess crashed"@,
            IpcError::RpcError { code, message } => "JSON-RPC error ["@ + signed_decimal(
                code as int,
            ) + "]: "@ + message@,
            IpcError::ResponseMissing(id) => "Response missing for request "@ + decimal(id as nat),
            IpcError::IoError(m) => "IO error: "@ + m@,
            IpcError::JsonError(m) => "JSON serialization error: "@ + m@,
            IpcError::RespawnFailed(n) => "Respawn failed after "@ + decimal(n as nat)
                + " attempts"@,
            IpcError::ChannelClosed => "Channel closed"@,
            IpcError::NotInitialized => "Subprocess not initialized"@,
            IpcError::ShuttingDown => "Shutdown in progress"@,
        }
    }

    /// Renders the error as its human-readable sentence.
    pub fn describe(&self) -> (s: String)
        ensures
            s@ == self.description(),
    {
        match self {
            IpcError::SpawnError(m) => join2("Failed to spawn subprocess: ", m.as_str()),
            IpcError::NotRunning => String::from_str("Subprocess not running"),
            IpcError::SendError(m) => join2("Failed to send request: ", m.as_str()),
            IpcError::Timeout(secs) => {
                let n = u64_to_string(*secs);
                join3("Request timed out after ", n.as_str(), " seconds")
            },
            IpcError::SubprocessCrashed => String::from_str("Subprocess crashed"),
            IpcError::RpcError { code, message } => {
                let n = i32_to_string(*code);
                let mut s = join3("JSON-RPC error [", n.as_str(), "]: ");
                s.append(message.as_str());
                s
            },
            IpcError::ResponseMissing(id) => {
                let n = u64_to_string(*id);
                join2("Response missing for request ", n.as_str())
            },
            IpcError::IoError(m) => join2("IO error: ", m.as_str()),
            IpcError::JsonError(m) => join2("JSON serialization error: ", m.as_str()),
            IpcError::RespawnFailed(n) => {
                let n = u64_to_string(*n as u64);
                join3("Respawn failed after ", n.as_str(), " attempts")
            },
            IpcError::ChannelClosed => String::from_str("Channel closed"),
            IpcError::NotInitialized => String::from_str("Subprocess not initialized"),
            IpcError::ShuttingDown => String::from_str("Shutdown in progress"),
        }
    }
}

impl From<std::io::Error> for IpcError {
    fn from(e: std::io::Error) -> (r: IpcError) {
        IpcError::IoError(io_error_text(&e))
    }
}

impl FromSpecImpl<std::io::Error> for IpcError {
    open spec fn obeys_from_spec() -> bool {
        true
    }

    open spec fn from_spec(e: std::io::Error) -> IpcError {
        IpcError::IoError(io_error_message(e))
    }
}

impl From<serde_json::Error> for IpcError {
    fn from(e: serde_json::Error) -> (r: IpcError) {
        IpcError::JsonError(json_error_text(&e))
    }
}

impl FromSpecImpl<serde_json::Error> for IpcError {
    open spec fn obeys_from_spec() -> bool {
        true
    }

    open spec fn from_spec(e: serde_json::Error) -> IpcError {
        IpcError::JsonError(json_error_message(e))
    }
}

/// Statistics of the simple manager.
#[derive(Debug, Clone, Copy)]
pub struct IpcStats {
    /// Whether the child runs.
    pub is_running: bool,
    /// Process id of the child.
    pub pid: Option<u32>,
    /// Seconds since the child was spawned.
    pub uptime_secs: Option<u64>,
    /// Requests handed to the writer.
    pub request_count: u64,
    /// Requests that failed.
    pub error_count: u64,
    /// Requests that wait for their response.
    pub pending_count: usize,
    /// Respawn attempts so far.
    pub respawn_attempts: u32,
}

/// The command with which the simple manager spawns the child.
#[derive(Debug)]
pub struct SpawnPlan {
    /// The executable.
    pub program: String,
    /// Its arguments: `-m` and the module.
    pub args: Vec<String>,
    /// The working directory, where one is configured.
    pub working_dir: Option<String>,
    /// Name and value of the variable that makes the output unbuffered.
    pub env: (String, String),
}

/// The simple manager as a plain value.
pub struct IpcManagerModel<S> {
    /// Path of the executable.
    pub python_path: Seq<char>,
    /// Module that the executable runs.
    pub module_name: Seq<char>,
    /// Working directory of the child.
    pub working_dir: Option<Seq<char>>,
    /// Process id of the child that is bound, if one is.
    pub child: Option<u32>,
    /// Sinks of the callers that wait, by correlation id.
    pub pending: Map<u64, S>,
    /// The correlation id that the next request gets.
    pub next_id: u64,
    /// Whether the child runs.
    pub running: bool,
    /// Respawn attempts so far.
    pub respawn_attempts: u32,
    /// Whether teardown has begun.
    pub shutting_down: bool,
    /// Per-request timeout in seconds.
    pub timeout_secs: u64,
    /// Reading of the monotonic clock at the spawn.
    pub spawned: Option<Instant>,
    /// Requests handed to the writer.
    pub request_count: u64,
    /// Requests that failed.
    pub error_count: u64,
}

/// The simple manager: one child, a pending table and counters, without a
/// health monitor.
pub struct IpcManager<S> {
    python_path: String,
    module_name: String,
    working_dir: Option<String>,
    child: Option<u32>,
    pending: PendingTable<S>,
    next_id: u64,
    is_running: bool,
    respawn_attempts: u32,
    is_shutting_down: bool,
    timeout_secs: u64,
    spawn_time: Option<Instant>,
    request_count: u64,
    error_count: u64,
}

impl<S> View for IpcManager<S> {
    type V = IpcManagerModel<S>;

    closed spec fn view(&self) -> IpcManagerModel<S> {
        IpcManagerModel {
            python_path: self.python_path@,
            module_name: self.module_name@,
            working_dir: match self.working_dir {
                Some(d) => Some(d@),
                None => None,
            },
            child: self.child,
            pending: self.pending@,
            next_id: self.next_id,
            running: self.is_running,
            respawn_attempts: self.respawn_attempts,
            shutting_down: self.is_shutting_down,
            timeout_secs: self.timeout_secs,
            spawned: self.spawn_time,
            request_count: self.request_count,
            error_count: self.error_count,
        }
    }
}

/// A simple manager that was never spawned, with default settings.
pub open spec fn initial_manager<S>() -> IpcManagerModel<S> {
    IpcManagerModel {
        python_path: "python"@,
        module_name: "plugins._host"@,
        working_dir: None,
        child: None,
        pending: Map::empty(),
        next_id: 1,
        running: false,
        respawn_attempts: 0,
        shutting_down: false,
        timeout_secs: DEFAULT_TIMEOUT_SECS,
        spawned: None,
        request_count: 0,
        error_count: 0,
    }
}

impl<S> IpcManager<S> {
    /// A manager with default settings.
    pub fn new() -> (r: Self)
        ensures
            r@ == initial_manager::<S>(),
    {
        IpcManager {
            python_path: String::from_str("python"),
            module_name: String::from_str("plugins._host"),
            working_dir: None,
            child: None,
            pending: PendingTable::new(),
            next_id: 1,
            is_running: false,
            respawn_attempts: 0,
            is_shutting_down: false,
            timeout_secs: DEFAULT_TIMEOUT_SECS,
            spawn_time: None,
            request_count: 0,
            error_count: 0,
        }
    }

    /// Sets the path of the executable.
    pub fn with_python_path(self, path: &str) -> (r: Self)
        ensures
            r@ == (IpcManagerModel { python_path: path@, ..self@ }),
    {
        let mut r = self;
        r.python_path = String::from_str(path);
        r
    }

    /// Sets the module that the executable runs.
    pub fn with_module_path(self, path: &str) -> (r: Self)
        ensures
            r@ == (IpcManagerModel { module_name: path@, ..self@ }),
    {
        let mut r = self;
        r.module_name = String::from_str(path);
        r
    }

    /// Sets the working directory.
    pub fn with_working_dir(self, dir: &str) -> (r: Self)
        ensures
            r@ == (IpcManagerModel { working_dir: Some(dir@), ..self@ }),
    {
        let mut r = self;
        r.working_dir = Some(String::from_str(dir));
        r
    }

    /// Sets the per-request timeout.
    pub fn with_timeout(self, secs: u64) -> (r: Self)
        ensures
            r@ == (IpcManagerModel { timeout_secs: secs, ..self@ }),
    {
        let mut r = self;
        r.timeout_secs = secs;
        r
    }

    /// The path of the executable.
    pub fn python_path(&self) -> (r: &str)
        ensures
            r@ == self@.python_path,
    {
        self.python_path.as_str()
    }

    /// The module that the executable runs.
    pub fn module_name(&self) -> (r: &str)
        ensures
            r@ == self@.module_name,
    {
        self.module_name.as_str()
    }

    /// The working directory, where one is configured.
    pub fn working_dir(&self) -> (r: Option<&str>)
        ensures
            match r {
                Some(d) => self@.working_dir == Some(d@),
                None => self@.working_dir is None,
            },
    {
        match &self.working_dir {
            Some(d) => Some(d.as_str()),
            None => None,
        }
    }

    /// The per-request timeout in seconds.
    pub fn timeout_secs(&self) -> (r: u64)
        ensures
            r == self@.timeout_secs,
    {
        self.timeout_secs
    }

    /// Whether the child runs.
    pub fn is_running(&self) -> (r: bool)
        ensures
            r == self@.running,
    {
        self.is_running
    }

    /// Whether teardown has begun.
    pub fn is_shutting_down(&self) -> (r: bool)
        ensures
            r == self@.shutting_down,
    {
        self.is_shutting_down
    }

    /// Requests handed to the writer.
    pub fn request_count(&self) -> (r: u64)
        ensures
            r == self@.request_count,
    {
        self.request_count
    }

    /// Requests that failed.
    pub fn error_count(&self) -> (r: u64)
        ensures
            r == self@.error_count,
    {
        self.error_count
    }

    /// Seconds since the child was spawned, where it was.
    pub fn uptime_secs(&self) -> (r: Option<u64>)
        ensures
            r is Some <==> self@.spawned is Some,
    {
        match &self.spawn_time {
            Some(t) => Some(instant_elapsed(t).as_secs()),
            None => None,
        }
    }

    /// Process id of the child, where one is bound.
    pub fn pid(&self) -> (r: Option<u32>)
        ensures
            r == self@.child,
    {
        self.child
    }

    /// Begins a spawn. While the child runs there is nothing to do; once
    /// teardown has begun the spawn is refused as shutting down; else the
    /// command comes back with which the child is to be spawned: the
    /// executable with `-m` and the module, the working directory as
    /// configured, and the variable that makes the output unbuffered set to
    /// `1`. Nothing changes.
    pub fn begin_spawn(&self) -> (r: Result<Option<SpawnPlan>, IpcError>)
        ensures
            self@.running ==> r matches Ok(None),
            !self@.running && self@.shutting_down ==> r == Err::<Option<SpawnPlan>, IpcError>(
                IpcError::ShuttingDown,
            ),
            !self@.running && !self@.shutting_down ==> (r matches Ok(Some(plan)) && plan.program@
                == self@.python_path && texts_of(plan.args@) == module_args(self@.module_name)
                && plan.env.0@ == UNBUFFERED_VARIABLE@ && plan.env.1@ == "1"@ && match plan.working_dir {
                Some(d) => self@.working_dir == Some(d@),
                None => self@.working_dir is None,
            }),
    {
        if self.is_running {
            return Ok(None);
        }
        if self.is_shutting_down {
            return Err(IpcError::ShuttingDown);
        }
        let mut args: Vec<String> = Vec::new();
        args.push(String::from_str("-m"));
        args.push(self.module_name.clone());
        assert(texts_of(args@) =~= module_args(self.module_name@));
        Ok(
            Some(
                SpawnPlan {
                    program: self.python_path.clone(),
                    args,
                    working_dir: match &self.working_dir {
                        Some(d) => Some(d.clone()),
                        None => None,
                    },
                    env: (String::from_str(UNBUFFERED_VARIABLE), String::from_str("1")),
                },
            ),
        )
    }

    /// Completes a spawn with the child that was spawned: the child is
    /// bound and runs, the respawn attempts start again at zero, and the
    /// spawn is marked on the clock.
    pub fn complete_spawn(&mut self, pid: u32)
        ensures
            final(self)@.spawned is Some,
            final(self)@ == (IpcManagerModel {
                child: Some(pid),
                running: true,
                respawn_attempts: 0,
                spawned: final(self)@.spawned,
                ..old(self)@
            }),
    {
        self.child = Some(pid);
        self.is_running = true;
        self.respawn_attempts = 0;
        self.spawn_time = Some(instant_now());
    }

    /// Hands out the next correlation id, or `None` once the ids are used
    /// up. Ids start at one and grow by one.
    pub fn next_request_id(&mut self) -> (r: Option<u64>)
        ensures
            old(self)@.next_id < u64::MAX ==> r == Some(old(self)@.next_id) && final(self)@ == (
            IpcManagerModel { next_id: (old(self)@.next_id + 1) as u64, ..old(self)@ }),
            old(self)@.next_id == u64::MAX ==> r is None && final(self)@ == old(self)@,
    {
        if self.next_id == u64::MAX {
            return None;
        }
        let id = self.next_id;
        self.next_id = id + 1;
        Some(id)
    }

    /// Admits a request. The request is refused, with nothing changed, while
    /// the child does not run (not running), once teardown has begun
    /// (shutting down), and once the correlation ids are used up (send
    /// failure). An admitted request takes the next correlation id. Where it
    /// cannot be encoded it fails with a JSON error and the id stays used;
    /// else the sink is registered under the id, and the id comes back with
    /// the encoded request for the writer.
    pub fn begin_request(&mut self, method: &str, params: Value, sink: S) -> (r: Result<
        CallTicket,
        IpcError,
    >)
        ensures
            !old(self)@.running ==> r == Err::<CallTicket, IpcError>(IpcError::NotRunning)
                && final(self)@ == old(self)@,
            old(self)@.running && old(self)@.shutting_down ==> r == Err::<CallTicket, IpcError>(
                IpcError::ShuttingDown,
            ) && final(self)@ == old(self)@,
            old(self)@.running && !old(self)@.shutting_down && old(self)@.next_id == u64::MAX ==> (
            r matches Err(IpcError::SendError(m)) && m@ == "correlation ids exhausted"@) && final(self)@ == old(self)@,
            old(self)@.running && !old(self)@.shutting_down && old(self)@.next_id < u64::MAX
                ==> match request_text(
                JsonRpcRequestView {
                    jsonrpc: "2.0"@,
                    id: old(self)@.next_id,
                    method: method@,
                    params,
                },
            ) {
                Some(text) => {
                    &&& r matches Ok(ticket) && ticket.id == old(self)@.next_id && ticket.line@
                        == text && single_line(ticket.line@)
                    &&& final(self)@ == (IpcManagerModel {
                        next_id: (old(self)@.next_id + 1) as u64,
                        pending: old(self)@.pending.insert(old(self)@.next_id, sink),
                        ..old(self)@
                    })
                },
                None => {
                    &&& r matches Err(IpcError::JsonError(_))
                    &&& final(self)@ == (IpcManagerModel {
                        next_id: (old(self)@.next_id + 1) as u64,
                        ..old(self)@
                    })
                },
            },
    {
        if !self.is_running {
            return Err(IpcError::NotRunning);
        }
        if self.is_shutting_down {
            return Err(IpcError::ShuttingDown);
        }
        let id = match self.next_request_id() {
            Some(id) => id,
            None => {
                return Err(IpcError::SendError(String::from_str("correlation ids exhausted")));
            },
        };
        let request = JsonRpcRequest::new(id, method, params);
        let line = match request.to_json() {
            Ok(line) => line,
            Err(e) => {
                return Err(e);
            },
        };
        let _ = self.pending.insert(id, sink);
        Ok(CallTicket { id, line })
    }

    /// Encodes a notification for the writer. It is refused as not running
    /// while the child does not run, and fails with a JSON error where it
    /// cannot be encoded. Nothing changes: no response is expected.
    pub fn begin_notification(&self, method: &str, params: Value) -> (r: Result<String, IpcError>)
        ensures
            !self@.running ==> r == Err::<String, IpcError>(IpcError::NotRunning),
            self@.running ==> encodes_to(
                r,
                notification_text(
                    JsonRpcNotificationView { jsonrpc: "2.0"@, method: method@, params },
                ),
            ),
            r matches Ok(s) ==> single_line(s@),
    {
        if !self.is_running {
            return Err(IpcError::NotRunning);
        }
        JsonRpcRequest::notification(method, params).to_json()
    }

    /// The parameters of a request that has none: an empty object.
    pub fn no_params() -> (r: Value)
        ensures
            json_object(r) == Some(Map::<Seq<char>, Value>::empty()),
            !json_is_null(r),
    {
        into_object(new_object())
    }

    /// Notes how the hand-over of a request to the writer ended. A request
    /// that the writer took counts as a request; for one that it did not
    /// take, because the writer is gone, the entry leaves the table and the
    /// request fails with channel closed.
    pub fn sent(&mut self, id: u64, taken: bool) -> (r: Result<(), IpcError>)
        ensures
            taken ==> r is Ok && final(self)@ == (IpcManagerModel {
                request_count: old(self)@.request_count.wrapping_add(1),
                ..old(self)@
            }),
            !taken ==> r == Err::<(), IpcError>(IpcError::ChannelClosed) && final(self)@ == (
            IpcManagerModel { pending: old(self)@.pending.remove(id), ..old(self)@ }),
    {
        if taken {
            self.request_count = self.request_count.wrapping_add(1);
            Ok(())
        } else {
            let _ = self.pending.remove(id);
            Err(IpcError::ChannelClosed)
        }
    }

    /// Settles a request once the wait for its response has ended. A
    /// response with a result gives the result, `null` where it has none.
    /// Everything else counts as an error: a response with an error gives
    /// that error; an error that the reader delivered is handed on; a sink
    /// that went away gives channel closed and an elapsed deadline a timeout
    /// of the configured seconds, and for these two the entry leaves the
    /// table.
    pub fn settle(&mut self, id: u64, outcome: CallOutcome) -> (r: Result<Value, IpcError>)
        ensures
            final(self)@ == (IpcManagerModel {
                pending: match outcome {
                    CallOutcome::Dropped | CallOutcome::TimedOut => old(self)@.pending.remove(id),
                    _ => old(self)@.pending,
                },
                error_count: if outcome matches CallOutcome::Response(resp) && resp.error
                    is None {
                    old(self)@.error_count
                } else {
                    old(self)@.error_count.wrapping_add(1)
                },
                ..old(self)@
            }),
            match outcome {
                CallOutcome::Response(resp) => match resp.error {
                    Some(err) => r matches Err(IpcError::RpcError { code, message }) && code
                        == err.code && message@ == err.message@,
                    None => r matches Ok(v) && match resp.result {
                        Some(x) => v == x,
                        None => json_is_null(v),
                    },
                },
                CallOutcome::Failed(e) => r == Err::<Value, IpcError>(e),
                CallOutcome::Dropped => r == Err::<Value, IpcError>(IpcError::ChannelClosed),
                CallOutcome::TimedOut => r == Err::<Value, IpcError>(
                    IpcError::Timeout(old(self)@.timeout_secs),
                ),
            },
    {
        match outcome {
            CallOutcome::Response(resp) => {
                if resp.is_error() {
                    self.error_count = self.error_count.wrapping_add(1);
                }
                resp.extract_result()
            },
            CallOutcome::Failed(e) => {
                self.error_count = self.error_count.wrapping_add(1);
                Err(e)
            },
            CallOutcome::Dropped => {
                self.error_count = self.error_count.wrapping_add(1);
                let _ = self.pending.remove(id);
                Err(IpcError::ChannelClosed)
            },
            CallOutcome::TimedOut => {
                self.error_count = self.error_count.wrapping_add(1);
                let _ = self.pending.remove(id);
                Err(IpcError::Timeout(self.timeout_secs))
            },
        }
    }

    /// Handles one line of the child's output. A blank line is skipped. A
    /// line that does not decode to a response is reported and changes
    /// nothing. A response goes to the sink registered under its id, which
    /// leaves the table; a response without an id, or with an id under which
    /// nothing waits, is dropped.
    pub fn on_line(&mut self, line: &str) -> (step: ReaderStep<S>)
        ensures
            match step {
                ReaderStep::Skip => blank(line@) && final(self)@ == old(self)@,
                ReaderStep::Malformed(e) => !blank(line@) && line_decodes_to(
                    line@,
                    Err::<JsonRpcResponse, IpcError>(e),
                ) && final(self)@ == old(self)@,
                ReaderStep::Dispatched(d) => !blank(line@) && line_decodes_to(
                    line@,
                    Ok::<JsonRpcResponse, IpcError>(d.response()),
                ) && dispatched_from(old(self)@.pending, final(self)@.pending, d) && final(self)@
                    == (IpcManagerModel { pending: final(self)@.pending, ..old(self)@ }),
            },
    {
        if is_blank(line) {
            return ReaderStep::Skip;
        }
        match JsonRpcResponse::from_json(line) {
            Ok(response) => ReaderStep::Dispatched(
                dispatch_response(&mut self.pending, response),
            ),
            Err(e) => ReaderStep::Malformed(e),
        }
    }

    /// Handles the end of the child's output: the child does not run any
    /// more, and every entry leaves the table, to be failed with
    /// `SubprocessCrashed`.
    pub fn on_eof(&mut self) -> (entries: Vec<(u64, S)>)
        ensures
            lists(entries@, old(self)@.pending),
            final(self)@ == (IpcManagerModel {
                running: false,
                pending: Map::<u64, S>::empty(),
                ..old(self)@
            }),
    {
        self.is_running = false;
        self.pending.drain()
    }

    /// The snapshot of the manager for a given time since the spawn.
    pub fn stats_with(&self, since_spawn: Duration) -> (r: IpcStats)
        ensures
            r == (IpcStats {
                is_running: self@.running,
                pid: self@.child,
                uptime_secs: if self@.spawned is Some {
                    Some(duration_secs(since_spawn))
                } else {
                    None
                },
                request_count: self@.request_count,
                error_count: self@.error_count,
                pending_count: self@.pending.dom().len() as usize,
                respawn_attempts: self@.respawn_attempts,
            }),
            r.pending_count == self@.pending.dom().len(),
    {
        IpcStats {
            is_running: self.is_running,
            pid: self.child,
            uptime_secs: match self.spawn_time {
                Some(_) => Some(since_spawn.as_secs()),
                None => None,
            },
            request_count: self.request_count,
            error_count: self.error_count,
            pending_count: self.pending.len(),
            respawn_attempts: self.respawn_attempts,
        }
    }

    /// The snapshot of the manager. The uptime comes from the clock;
    /// everything else is fixed by the manager.
    pub fn get_stats(&self) -> (r: IpcStats)
        ensures
            r.is_running == self@.running,
            r.pid == self@.child,
            r.uptime_secs is Some <==> self@.spawned is Some,
            r.request_count == self@.request_count,
            r.error_count == self@.error_count,
            r.pending_count == self@.pending.dom().len(),
            r.respawn_attempts == self@.respawn_attempts,
    {
        let since_spawn = match &self.spawn_time {
            Some(t) => instant_elapsed(t),
            None => Duration::from_secs(0),
        };
        self.stats_with(since_spawn)
    }

    /// Begins the teardown when the manager goes away: teardown is marked as
    /// begun, and the child that was bound, if one was, comes back to be
    /// killed after its writer is stopped.
    pub fn begin_teardown(&mut self) -> (child: Option<u32>)
        ensures
            child == old(self)@.child,
            final(self)@ == (IpcManagerModel { shutting_down: true, child: None, ..old(self)@ }),
    {
        self.is_shutting_down = true;
        self.child.take()
    }
}

impl<S> Default for IpcManager<S> {
    fn default() -> (r: Self)
        ensures
            r@ == initial_manager::<S>(),
    {
        Self::new()
    }
}

} // verus!
