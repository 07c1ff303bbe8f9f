//! What the command layer of the user interface shows of the supervisor:
//! errors as a structured envelope, and the outcome of each call of a batch.

pub mod compiler;
pub mod env_file;
pub mod secrets;

use crate::ipc::json::{
    as_str, integer_value, into_object, json_i64, json_member, json_object, json_parse, json_str,
    json_string_text, json_text, member, new_object, object_insert, parse_value, string_text,
    value_text,
};
use crate::ipc::response::{present_member, read_present, writes};
use crate::ipc::IpcError;
use crate::text::{decimal, i32_to_string, join2, join3, signed_decimal, u64_to_string};
use serde_json::Value;
use vstd::prelude::*;
use vstd::std_specs::convert::FromSpecImpl;
use vstd::string::StringExecFns;

verus! {

/// An error as the user interface receives it.
#[derive(Debug, Clone)]
pub struct CommandError {
    /// Symbolic code.
    pub code: String,
    /// Human-readable message.
    pub message: String,
    /// Additional details.
    pub details: Option<Value>,
}

/// The symbolic code of an error; for an error of the child, `RPC_ERROR_`
/// and the number of its code.
pub open spec fn command_code(e: IpcError) -> Seq<char> {
    match e {
        IpcError::SpawnError(_) => "SPAWN_ERROR"@,
        IpcError::NotRunning => "NOT_RUNNING"@,
        IpcError::SendError(_) => "SEND_ERROR"@,
        IpcError::Timeout(_) => "TIMEOUT"@,
        IpcError::SubprocessCrashed => "SUBPROCESS_CRASHED"@,
        IpcError::RpcError { code, message } => "RPC_ERROR_"@ + signed_decimal(code as int),
        IpcError::ResponseMissing(_) => "RESPONSE_MISSING"@,
        IpcError::IoError(_) => "IO_ERROR"@,
        IpcError::JsonError(_) => "JSON_ERROR"@,
        IpcError::RespawnFailed(_) => "RESPAWN_FAILED"@,
        IpcError::ChannelClosed => "CHANNEL_CLOSED"@,
        IpcError::NotInitialized => "NOT_INITIALIZED"@,
        IpcError::ShuttingDown => "SHUTTING_DOWN"@,
    }
}

/// The message of an error for the user interface.
pub open spec fn command_message(e: IpcError) -> Seq<char> {
    match e {
        IpcError::SpawnError(m) => m@,
        IpcError::NotRunning => "Subprocess not running"@,
        IpcError::SendError(m) => m@,
        IpcError::Timeout(secs) => "Request timed out after "@ + decimal(secs as nat)
            + " seconds"@,
        IpcError::SubprocessCrashed => "Subprocess crashed"@,
        IpcError::RpcError { code, message } => message@,
        IpcError::ResponseMissing(id) => "Response missing for request "@ + decimal(id as nat),
        IpcError::IoError(m) => m@,
        IpcError::JsonError(m) => m@,
        IpcError::RespawnFailed(n) => "Respawn failed after "@ + decimal(n as nat)
            + " attempts"@,
        IpcError::ChannelClosed => "Communication channel closed"@,
        IpcError::NotInitialized => "IPC not initialized"@,
        IpcError::ShuttingDown => "System is shutting down"@,
    }
}

/// The details of an error for the user interface: for an error of the
/// child, an object that holds its code under `rpc_code`; else none.
pub open spec fn command_details(e: IpcError, details: Option<Value>) -> bool {
    match e {
        IpcError::RpcError { code, message } => details matches Some(d) && json_object(d)
            matches Some(entries) && entries.dom() =~= set!["rpc_code"@] && json_i64(
            entries["rpc_code"@],
        ) == Some(code as i64),
        _ => details is None,
    }
}

impl CommandError {
    /// The envelope for an error of the supervisor: its symbolic code, its
    /// message, and its details.
    pub fn from_ipc_error(e: IpcError) -> (r: Self)
        ensures
            r.code@ == command_code(e),
            r.message@ == command_message(e),
            command_details(e, r.details),
    {
        match e {
            IpcError::SpawnError(m) => Self::plain("SPAWN_ERROR", m),
            IpcError::NotRunning => Self::plain(
                "NOT_RUNNING",
                String::from_str("Subprocess not running"),
            ),
            IpcError::SendError(m) => Self::plain("SEND_ERROR", m),
            IpcError::Timeout(secs) => {
                let n = u64_to_string(secs);
                Self::plain("TIMEOUT", join3("Request timed out after ", n.as_str(), " seconds"))
            },
            IpcError::SubprocessCrashed => Self::plain(
                "SUBPROCESS_CRASHED",
                String::from_str("Subprocess crashed"),
            ),
            IpcError::RpcError { code, message } => {
                let n = i32_to_string(code);
                let mut details = new_object();
                let _ = object_insert(
                    &mut details,
                    String::from_str("rpc_code"),
                    integer_value(code as i64),
                );
                CommandError {
                    code: join2("RPC_ERROR_", n.as_str()),
                    message,
                    details: Some(into_object(details)),
                }
            },
            IpcError::ResponseMissing(id) => {
                let n = u64_to_string(id);
                Self::plain("RESPONSE_MISSING", join2("Response missing for request ", n.as_str()))
            },
            IpcError::IoError(m) => Self::plain("IO_ERROR", m),
            IpcError::JsonError(m) => Self::plain("JSON_ERROR", m),
            IpcError::RespawnFailed(attempts) => {
                let n = u64_to_string(attempts as u64);
                Self::plain("RESPAWN_FAILED", join3("Respawn failed after ", n.as_str(), " attempts"))
            },
            IpcError::ChannelClosed => Self::plain(
                "CHANNEL_CLOSED",
                String::from_str("Communication channel closed"),
            ),
            IpcError::NotInitialized => Self::plain(
                "NOT_INITIALIZED",
                String::from_str("IPC not initialized"),
            ),
            IpcError::ShuttingDown => Self::plain(
                "SHUTTING_DOWN",
                String::from_str("System is shutting down"),
            ),
        }
    }

    fn plain(code: &str, message: String) -> (r: Self)
        ensures
            r.code@ == code@,
            r.message == message,
            r.details is None,
    {
        CommandError { code: String::from_str(code), message, details: None }
    }

    /// The text `[code] message`.
    pub open spec fn description(self) -> Seq<char> {
        "["@ + self.code@ + "] "@ + self.message@
    }

    /// Renders the error as `[code] message`.
    pub fn describe(&self) -> (s: String)
        ensures
            s@ == self.description(),
    {
        let mut s = join3("[", self.code.as_str(), "] ");
        s.append(self.message.as_str());
        s
    }
}

impl From<IpcError> for CommandError {
    fn from(e: IpcError) -> (r: CommandError)
        ensures
            r.code@ == command_code(e),
            r.message@ == command_message(e),
            command_details(e, r.details),
    {
        CommandError::from_ipc_error(e)
    }
}

impl FromSpecImpl<IpcError> for CommandError {
    open spec fn obeys_from_spec() -> bool {
        false
    }

    open spec fn from_spec(e: IpcError) -> CommandError {
        arbitrary()
    }
}

/// One call of a batch.
#[derive(Debug)]
pub struct BatchRequest {
    /// Method name.
    pub method: String,
    /// Parameters; an empty object where there are none.
    pub params: Option<Value>,
}

impl BatchRequest {
    /// The parameters with which the call is made: those given, or an empty
    /// object where none are given.
    pub fn into_params(self) -> (r: Value)
        ensures
            match self.params {
                Some(p) => r == p,
                None => json_object(r) == Some(Map::<Seq<char>, Value>::empty()),
            },
    {
        match self.params {
            Some(p) => p,
            None => into_object(new_object()),
        }
    }
}

/// The outcome of one call of a batch.
#[derive(Debug)]
pub struct BatchResult {
    /// Whether the call succeeded.
    pub success: bool,
    /// The result of a call that succeeded.
    pub result: Option<Value>,
    /// The error of a call that failed.
    pub error: Option<CommandError>,
}

impl BatchResult {
    /// The outcome of one call of a batch: a failure stays with its call and
    /// does not end the batch.
    pub fn from_outcome(outcome: Result<Value, IpcError>) -> (r: Self)
        ensures
            match outcome {
                Ok(v) => r.success && r.result == Some(v) && r.error is None,
                Err(e) => !r.success && r.result is None && (r.error matches Some(c) && c.code@
                    == command_code(e) && c.message@ == command_message(e) && command_details(
                    e,
                    c.details,
                )),
            },
    {
        match outcome {
            Ok(v) => BatchResult { success: true, result: Some(v), error: None },
            Err(e) => BatchResult {
                success: false,
                result: None,
                error: Some(CommandError::from_ipc_error(e)),
            },
        }
    }
}

/// The call that a parsed document stands for: its member `method`, a
/// string, and its member `params`, where there is one other than `null`.
/// `None` where the document has no method.
pub open spec fn batch_request_of(v: Value) -> Option<(Seq<char>, Option<Value>)> {
    match json_member(v, "method"@) {
        Some(m) => match json_str(m) {
            Some(method) => Some((method, present_member(v, "params"@))),
            None => None,
        },
        None => None,
    }
}

impl BatchRequest {
    /// Decodes one call of a batch from JSON: an object with the member
    /// `method` and, optionally, the member `params`. A text that is no
    /// JSON document and a document without a method give a JSON error.
    pub fn from_json(json: &str) -> (r: Result<Self, IpcError>)
        ensures
            match json_parse(json@) {
                Some(v) => match batch_request_of(v) {
                    Some(call) => r matches Ok(req) && req.method@ == call.0 && req.params
                        == call.1,
                    None => r matches Err(IpcError::JsonError(m)) && m@
                        == "missing or invalid `method`"@,
                },
                None => r matches Err(IpcError::JsonError(_)),
            },
    {
        let v = match parse_value(json) {
            Ok(v) => v,
            Err(e) => {
                return Err(IpcError::from(e));
            },
        };
        let method = match member(&v, "method") {
            Some(m) => match as_str(m) {
                Some(s) => Some(String::from_str(s)),
                None => None,
            },
            None => None,
        };
        match method {
            Some(method) => {
                let params = match read_present(&v, "params") {
                    Some(p) => Some(p.clone()),
                    None => None,
                };
                Ok(BatchRequest { method, params })
            },
            None => Err(IpcError::JsonError(String::from_str("missing or invalid `method`"))),
        }
    }
}

/// The JSON object that stands for an error of a command: the members
/// `code`, `message` and, where there are details, `details`.
pub open spec fn command_error_text(e: CommandError) -> Option<Seq<char>> {
    match (
        json_string_text(e.code@),
        json_string_text(e.message@),
        match e.details {
            Some(d) => match json_text(d) {
                Some(t) => Some(",\"details\":"@ + t),
                None => None,
            },
            None => Some(Seq::empty()),
        },
    ) {
        (Some(code), Some(message), Some(details)) => Some(
            "{\"code\":"@ + code + ",\"message\":"@ + message + details + "}"@,
        ),
        _ => None,
    }
}

/// A member that is written as `null` where it is absent.
pub open spec fn or_null(text: Option<Option<Seq<char>>>) -> Option<Seq<char>> {
    match text {
        Some(t) => t,
        None => Some("null"@),
    }
}

/// The JSON object that stands for the outcome of one call of a batch: the
/// members `success`, `result` and `error`, the last two `null` where they
/// are absent.
pub open spec fn batch_result_text(r: BatchResult) -> Option<Seq<char>> {
    match (
        or_null(
            match r.result {
                Some(v) => Some(json_text(v)),
                None => None,
            },
        ),
        or_null(
            match r.error {
                Some(e) => Some(command_error_text(e)),
                None => None,
            },
        ),
    ) {
        (Some(result), Some(error)) => Some(
            "{\"success\":"@ + (if r.success {
                "true"@
            } else {
                "false"@
            }) + ",\"result\":"@ + result + ",\"error\":"@ + error + "}"@,
        ),
        _ => None,
    }
}

fn quoted(s: &str) -> (r: Result<String, IpcError>)
    ensures
        writes(r, json_string_text(s@)),
{
    match string_text(s) {
        Ok(t) => Ok(t),
        Err(e) => Err(IpcError::from(e)),
    }
}

fn document(v: &Value) -> (r: Result<String, IpcError>)
    ensures
        writes(r, json_text(*v)),
{
    match value_text(v) {
        Ok(t) => Ok(t),
        Err(e) => Err(IpcError::from(e)),
    }
}

impl CommandError {
    /// Encodes the error as JSON.
    pub fn to_json(&self) -> (r: Result<String, IpcError>)
        ensures
            writes(r, command_error_text(*self)),
    {
        let code = quoted(self.code.as_str())?;
        let message = quoted(self.message.as_str())?;
        let details = match &self.details {
            Some(d) => {
                let t = document(d)?;
                join2(",\"details\":", t.as_str())
            },
            None => String::new(),
        };
        let mut s = String::from_str("{\"code\":");
        s.append(code.as_str());
        s.append(",\"message\":");
        s.append(message.as_str());
        s.append(details.as_str());
        s.append("}");
        Ok(s)
    }
}

impl BatchResult {
    /// Encodes the outcome as JSON.
    pub fn to_json(&self) -> (r: Result<String, IpcError>)
        ensures
            writes(r, batch_result_text(*self)),
    {
        let result = match &self.result {
            Some(v) => document(v)?,
            None => String::from_str("null"),
        };
        let error = match &self.error {
            Some(e) => e.to_json()?,
            None => String::from_str("null"),
        };
        let mut s = String::from_str("{\"success\":");
        s.append(if self.success {
            "true"
        } else {
            "false"
        });
        s.append(",\"result\":");
        s.append(result.as_str());
        s.append(",\"error\":");
        s.append(error.as_str());
        s.append("}");
        Ok(s)
    }
}

} // verus!
