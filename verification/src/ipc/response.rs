//! JSON-RPC 2.0 responses: the envelope, its error object, and the decoding
//! of a response line.

pub mod error_codes;

use crate::ipc::json::{
    as_array, as_i64, as_object, as_str, as_u64, into_object, is_null, json_array, json_i64, json_is_null, json_member, json_object, json_parse, json_str, json_string_text,
    json_text, json_u64, member, new_object, null, object_insert, object_is_empty, parse_value,
    string_text, string_value, value_text,
};
use crate::ipc::IpcError;
use crate::text::{decimal, i32_to_string, join2, join3, signed_decimal, u64_to_string};
use serde_json::Value;
use vstd::prelude::*;
use vstd::string::StringExecFns;

verus! {

/// The error object of a response.
#[derive(Debug, Clone, PartialEq)]
pub struct JsonRpcError {
    /// Error code.
    pub code: i32,
    /// Human-readable message.
    pub message: String,
    /// Optional structured detail.
    pub data: Option<Value>,
}

/// An error object as a plain value.
pub struct JsonRpcErrorView {
    pub code: i32,
    pub message: Seq<char>,
    pub data: Option<Value>,
}

impl View for JsonRpcError {
    type V = JsonRpcErrorView;

    open spec fn view(&self) -> JsonRpcErrorView {
        JsonRpcErrorView { code: self.code, message: self.message@, data: self.data }
    }
}

/// A response envelope.
#[derive(Debug, Clone)]
pub struct JsonRpcResponse {
    /// Protocol tag.
    pub jsonrpc: String,
    /// Correlation id; absent when the child could not parse the request.
    pub id: Option<u64>,
    /// Result of a successful call.
    pub result: Option<Value>,
    /// Error of a failed call.
    pub error: Option<JsonRpcError>,
}

/// A response envelope as a plain value.
pub struct JsonRpcResponseView {
    pub jsonrpc: Seq<char>,
    pub id: Option<u64>,
    pub result: Option<Value>,
    pub error: Option<JsonRpcErrorView>,
}

impl View for JsonRpcResponse {
    type V = JsonRpcResponseView;

    open spec fn view(&self) -> JsonRpcResponseView {
        JsonRpcResponseView {
            jsonrpc: self.jsonrpc@,
            id: self.id,
            result: self.result,
            error: match self.error {
                Some(e) => Some(e@),
                None => None,
            },
        }
    }
}

/// An optional member of an envelope as it was found on the wire.
#[derive(Debug)]
pub enum Field<T> {
    /// The member is missing or `null`.
    Absent,
    /// The member is there and does not have the shape it must have.
    Invalid,
    /// The member is there and well formed.
    Valid(T),
}

/// The error member of an envelope as it was found on the wire.
#[derive(Debug)]
pub struct RawError {
    /// The `code` member, where it is an integer.
    pub code: Option<i64>,
    /// The `message` member, where it is a string.
    pub message: Option<String>,
    /// The `data` member, where there is one other than `null`.
    pub data: Option<Value>,
}

/// The members of a response object as they were found on the wire.
#[derive(Debug)]
pub struct RawEnvelope {
    /// The `jsonrpc` member, where it is a string.
    pub jsonrpc: Option<String>,
    /// The `id` member.
    pub id: Field<u64>,
    /// The `result` member, where there is one other than `null`.
    pub result: Option<Value>,
    /// The `error` member, where there is one other than `null`.
    pub error: Option<RawError>,
}

/// The members of an error object as plain values.
pub struct RawErrorView {
    pub code: Option<i64>,
    pub message: Option<Seq<char>>,
    pub data: Option<Value>,
}

/// The members of a response object as plain values.
pub struct RawEnvelopeView {
    pub jsonrpc: Option<Seq<char>>,
    pub id: Field<u64>,
    pub result: Option<Value>,
    pub error: Option<RawErrorView>,
}

impl View for RawError {
    type V = RawErrorView;

    open spec fn view(&self) -> RawErrorView {
        RawErrorView {
            code: self.code,
            message: match self.message {
                Some(m) => Some(m@),
                None => None,
            },
            data: self.data,
        }
    }
}

impl View for RawEnvelope {
    type V = RawEnvelopeView;

    open spec fn view(&self) -> RawEnvelopeView {
        RawEnvelopeView {
            jsonrpc: match self.jsonrpc {
                Some(j) => Some(j@),
                None => None,
            },
            id: self.id,
            result: self.result,
            error: match self.error {
                Some(e) => Some(e@),
                None => None,
            },
        }
    }
}

/// The member of a document under a key, with `null` counted as no member.
pub open spec fn present_member(v: Value, key: Seq<char>) -> Option<Value> {
    match json_member(v, key) {
        Some(m) => if json_is_null(m) {
            None
        } else {
            Some(m)
        },
        None => None,
    }
}

/// How the error member of a response reads.
pub open spec fn raw_error_of(e: Value) -> RawErrorView {
    RawErrorView {
        code: match json_member(e, "code"@) {
            Some(c) => json_i64(c),
            None => None,
        },
        message: match json_member(e, "message"@) {
            Some(m) => json_str(m),
            None => None,
        },
        data: present_member(e, "data"@),
    }
}

/// How a parsed response line reads as an envelope.
pub open spec fn raw_envelope_of(v: Value) -> RawEnvelopeView {
    RawEnvelopeView {
        jsonrpc: match json_member(v, "jsonrpc"@) {
            Some(j) => json_str(j),
            None => None,
        },
        id: match present_member(v, "id"@) {
            Some(i) => match json_u64(i) {
                Some(n) => Field::Valid(n),
                None => Field::Invalid,
            },
            None => Field::Absent,
        },
        result: present_member(v, "result"@),
        error: match present_member(v, "error"@) {
            Some(e) => Some(raw_error_of(e)),
            None => None,
        },
    }
}

/// Whether an error member is well formed: a code that fits 32 bits and a
/// message.
pub open spec fn raw_error_ok(e: RawErrorView) -> bool {
    &&& e.code matches Some(c) && i32::MIN <= c <= i32::MAX
    &&& e.message is Some
}

/// Why an envelope is rejected, or `None` where it is a response.
pub open spec fn envelope_fault(raw: RawEnvelopeView) -> Option<Seq<char>> {
    if raw.jsonrpc is None {
        Some("missing or invalid `jsonrpc`"@)
    } else if raw.id is Invalid {
        Some("invalid `id`"@)
    } else if raw.error is Some && !raw_error_ok(raw.error->0) {
        Some("invalid `error`"@)
    } else if raw.error is Some && raw.result is Some {
        Some("response carries both `result` and `error`"@)
    } else {
        None
    }
}

/// The response that a well-formed envelope stands for.
pub open spec fn envelope_response(raw: RawEnvelopeView) -> JsonRpcResponseView {
    JsonRpcResponseView {
        jsonrpc: raw.jsonrpc->0,
        id: match raw.id {
            Field::Valid(n) => Some(n),
            _ => None,
        },
        result: raw.result,
        error: match raw.error {
            Some(e) => Some(
                JsonRpcErrorView { code: e.code->0 as i32, message: e.message->0, data: e.data },
            ),
            None => None,
        },
    }
}

/// A decoding outcome agrees with an envelope: the response it stands for, or
/// a JSON error with the reason for which it is rejected.
pub open spec fn decodes_to(r: Result<JsonRpcResponse, IpcError>, raw: RawEnvelopeView) -> bool {
    match envelope_fault(raw) {
        Some(reason) => r matches Err(IpcError::JsonError(m)) && m@ == reason,
        None => r matches Ok(resp) && resp@ == envelope_response(raw),
    }
}

/// The members under which a response goes on the wire.
pub open spec fn envelope_of(r: JsonRpcResponseView) -> RawEnvelopeView {
    RawEnvelopeView {
        jsonrpc: Some(r.jsonrpc),
        id: match r.id {
            Some(n) => Field::Valid(n),
            None => Field::Absent,
        },
        result: r.result,
        error: match r.error {
            Some(e) => Some(
                RawErrorView { code: Some(e.code as i64), message: Some(e.message), data: e.data },
            ),
            None => None,
        },
    }
}

/// Envelope round trip: a response that does not carry a result and an error
/// at once is accepted under its own members and comes back as it was.
pub proof fn lemma_envelope_round_trip(r: JsonRpcResponseView)
    requires
        !(r.result is Some && r.error is Some),
    ensures
        envelope_fault(envelope_of(r)) is None,
        envelope_response(envelope_of(r)) == r,
{
}

/// A response that carries a result and an error at once is rejected.
pub proof fn lemma_result_and_error_exclude(raw: RawEnvelopeView)
    requires
        raw.result is Some,
        raw.error is Some,
    ensures
        envelope_fault(raw) is Some,
{
}

/// Reads the member of a document under a key, with `null` counted as no
/// member.
pub(crate) fn read_present<'a>(v: &'a Value, key: &str) -> (r: Option<&'a Value>)
    ensures
        match r {
            Some(m) => present_member(*v, key@) == Some(*m),
            None => present_member(*v, key@) is None,
        },
{
    match member(v, key) {
        Some(m) => if is_null(m) {
            None
        } else {
            Some(m)
        },
        None => None,
    }
}

fn read_text(v: &Value, key: &str) -> (r: Option<String>)
    ensures
        match r {
            Some(s) => json_member(*v, key@) matches Some(m) && json_str(m) == Some(s@),
            None => json_member(*v, key@) matches Some(m) ==> json_str(m) is None,
        },
{
    match member(v, key) {
        Some(m) => match as_str(m) {
            Some(s) => Some(String::from_str(s)),
            None => None,
        },
        None => None,
    }
}

/// Reads the members of an error object.
pub fn read_error(e: &Value) -> (r: RawError)
    ensures
        r@ == raw_error_of(*e),
{
    let code = match member(e, "code") {
        Some(c) => as_i64(c),
        None => None,
    };
    let message = read_text(e, "message");
    let data = match read_present(e, "data") {
        Some(d) => Some(d.clone()),
        None => None,
    };
    RawError { code, message, data }
}

/// Reads the members of a response object.
pub fn read_envelope(v: &Value) -> (r: RawEnvelope)
    ensures
        r@ == raw_envelope_of(*v),
{
    let jsonrpc = read_text(v, "jsonrpc");
    let id = match read_present(v, "id") {
        Some(i) => match as_u64(i) {
            Some(n) => Field::Valid(n),
            None => Field::Invalid,
        },
        None => Field::Absent,
    };
    let result = match read_present(v, "result") {
        Some(d) => Some(d.clone()),
        None => None,
    };
    let error = match read_present(v, "error") {
        Some(e) => Some(read_error(e)),
        None => None,
    };
    RawEnvelope { jsonrpc, id, result, error }
}

impl JsonRpcError {
    /// An error object without detail.
    pub fn new(code: i32, message: &str) -> (r: Self)
        ensures
            r@ == (JsonRpcErrorView { code, message: message@, data: None }),
    {
        JsonRpcError { code, message: String::from_str(message), data: None }
    }

    /// An error object with detail.
    pub fn with_data(code: i32, message: &str, data: Value) -> (r: Self)
        ensures
            r@ == (JsonRpcErrorView { code, message: message@, data: Some(data) }),
    {
        JsonRpcError { code, message: String::from_str(message), data: Some(data) }
    }

    /// A parse error.
    pub fn parse_error(message: &str) -> (r: Self)
        ensures
            r@ == (JsonRpcErrorView {
                code: error_codes::PARSE_ERROR,
                message: message@,
                data: None,
            }),
    {
        Self::new(error_codes::PARSE_ERROR, message)
    }

    /// An invalid-request error.
    pub fn invalid_request(message: &str) -> (r: Self)
        ensures
            r@ == (JsonRpcErrorView {
                code: error_codes::INVALID_REQUEST,
                message: message@,
                data: None,
            }),
    {
        Self::new(error_codes::INVALID_REQUEST, message)
    }

    /// A method-not-found error: the message names the method, and the
    /// detail is an object that holds the method under the key `method`.
    pub fn method_not_found(method: &str) -> (r: Self)
        ensures
            r.code == error_codes::METHOD_NOT_FOUND,
            r.message@ == "Method not found: "@ + method@,
            r.data matches Some(d) && json_object(d) matches Some(entries) && entries.dom()
                =~= set!["method"@] && json_str(entries["method"@]) == Some(method@),
    {
        let mut detail = new_object();
        let _ = object_insert(&mut detail, String::from_str("method"), string_value(method));
        JsonRpcError {
            code: error_codes::METHOD_NOT_FOUND,
            message: join2("Method not found: ", method),
            data: Some(into_object(detail)),
        }
    }

    /// An invalid-params error.
    pub fn invalid_params(message: &str) -> (r: Self)
        ensures
            r@ == (JsonRpcErrorView {
                code: error_codes::INVALID_PARAMS,
                message: message@,
                data: None,
            }),
    {
        Self::new(error_codes::INVALID_PARAMS, message)
    }

    /// An internal error.
    pub fn internal_error(message: &str) -> (r: Self)
        ensures
            r@ == (JsonRpcErrorView {
                code: error_codes::INTERNAL_ERROR,
                message: message@,
                data: None,
            }),
    {
        Self::new(error_codes::INTERNAL_ERROR, message)
    }

    /// Whether the code is a protocol-level JSON-RPC error.
    pub fn is_standard_error(&self) -> (r: bool)
        ensures
            r == error_codes::standard_error(self.code),
    {
        error_codes::is_standard_error(self.code)
    }

    /// Whether the code is an application-defined error.
    pub fn is_server_error(&self) -> (r: bool)
        ensures
            r == error_codes::server_error(self.code),
    {
        error_codes::is_server_error(self.code)
    }

    /// Whether a later attempt may succeed.
    pub fn is_recoverable(&self) -> (r: bool)
        ensures
            r == error_codes::recoverable(self.code),
    {
        error_codes::is_recoverable(self.code)
    }

    /// The short description of the code.
    pub fn code_description(&self) -> (s: &'static str)
        ensures
            s@ == error_codes::description_text(self.code),
    {
        error_codes::description(self.code)
    }

    /// The error as the supervisor reports it to a caller.
    pub fn into_ipc_error(self) -> (e: IpcError)
        ensures
            e matches IpcError::RpcError { code, message } && code == self.code && message@
                == self.message@,
    {
        IpcError::RpcError { code: self.code, message: self.message }
    }

    /// The text `[code] message`.
    pub open spec fn description(self) -> Seq<char> {
        "["@ + signed_decimal(self.code as int) + "] "@ + self.message@
    }

    /// Renders the error as `[code] message`.
    pub fn describe(&self) -> (s: String)
        ensures
            s@ == self.description(),
    {
        let n = i32_to_string(self.code);
        let mut s = join3("[", n.as_str(), "] ");
        s.append(self.message.as_str());
        s
    }
}

impl JsonRpcResponse {
    /// A response that carries a result.
    pub fn success(id: u64, result: Value) -> (r: Self)
        ensures
            r@ == (JsonRpcResponseView {
                jsonrpc: "2.0"@,
                id: Some(id),
                result: Some(result),
                error: None,
            }),
    {
        JsonRpcResponse {
            jsonrpc: String::from_str("2.0"),
            id: Some(id),
            result: Some(result),
            error: None,
        }
    }

    /// A response that carries an error.
    pub fn error(id: Option<u64>, error: JsonRpcError) -> (r: Self)
        ensures
            r@ == (JsonRpcResponseView {
                jsonrpc: "2.0"@,
                id,
                result: None,
                error: Some(error@),
            }),
    {
        JsonRpcResponse { jsonrpc: String::from_str("2.0"), id, result: None, error: Some(error) }
    }

    /// A response that carries an error made of a code and a message.
    pub fn error_from_code(id: Option<u64>, code: i32, message: &str) -> (r: Self)
        ensures
            r@ == (JsonRpcResponseView {
                jsonrpc: "2.0"@,
                id,
                result: None,
                error: Some(JsonRpcErrorView { code, message: message@, data: None }),
            }),
    {
        Self::error(id, JsonRpcError::new(code, message))
    }

    /// Whether this is a success response.
    pub fn is_success(&self) -> (r: bool)
        ensures
            r == (self.error is None && self.result is Some),
    {
        self.error.is_none() && self.result.is_some()
    }

    /// Whether this is an error response.
    pub fn is_error(&self) -> (r: bool)
        ensures
            r == (self.error is Some),
    {
        self.error.is_some()
    }

    /// The result, where there is one.
    pub fn get_result(&self) -> (r: Option<&Value>)
        ensures
            match r {
                Some(v) => self.result == Some(*v),
                None => self.result is None,
            },
    {
        self.result.as_ref()
    }

    /// The error, where there is one.
    pub fn get_error(&self) -> (r: Option<&JsonRpcError>)
        ensures
            match r {
                Some(e) => self.error == Some(*e),
                None => self.error is None,
            },
    {
        self.error.as_ref()
    }

    /// The response as a `Result`: the error where there is one, else the
    /// result, with `null` standing for a result that is absent.
    pub fn into_result(self) -> (r: Result<Value, JsonRpcError>)
        ensures
            match r {
                Ok(v) => self.error is None && match self.result {
                    Some(x) => v == x,
                    None => json_is_null(v),
                },
                Err(e) => self.error == Some(e),
            },
    {
        match self.error {
            Some(error) => Err(error),
            None => match self.result {
                Some(v) => Ok(v),
                None => Ok(null()),
            },
        }
    }

    /// The response as the supervisor hands it to a caller: the result, or
    /// the error envelope as an `IpcError`.
    pub fn extract_result(self) -> (r: Result<Value, IpcError>)
        ensures
            match r {
                Ok(v) => self.error is None && match self.result {
                    Some(x) => v == x,
                    None => json_is_null(v),
                },
                Err(e) => self.error matches Some(err) && e matches IpcError::RpcError {
                    code,
                    message,
                } && code == err.code && message@ == err.message@,
            },
    {
        match self.into_result() {
            Ok(v) => Ok(v),
            Err(e) => Err(e.into_ipc_error()),
        }
    }

    /// Builds the response that an envelope stands for, or says why the
    /// envelope is rejected: without a protocol tag, with an id that is not an
    /// unsigned integer, with a malformed error object, or with a result and
    /// an error at once.
    pub fn from_envelope(raw: RawEnvelope) -> (r: Result<Self, IpcError>)
        ensures
            decodes_to(r, raw@),
    {
        let RawEnvelope { jsonrpc, id, result, error } = raw;
        let jsonrpc = match jsonrpc {
            Some(j) => j,
            None => {
                return Err(IpcError::JsonError(String::from_str("missing or invalid `jsonrpc`")));
            },
        };
        let id = match id {
            Field::Valid(n) => Some(n),
            Field::Absent => None,
            Field::Invalid => {
                return Err(IpcError::JsonError(String::from_str("invalid `id`")));
            },
        };
        let error = match error {
            Some(e) => {
                let RawError { code, message, data } = e;
                match (code, message) {
                    (Some(c), Some(m)) => {
                        if c < -2147483648 || c > 2147483647 {
                            return Err(IpcError::JsonError(String::from_str("invalid `error`")));
                        }
                        Some(JsonRpcError { code: c as i32, message: m, data })
                    },
                    _ => {
                        return Err(IpcError::JsonError(String::from_str("invalid `error`")));
                    },
                }
            },
            None => None,
        };
        if error.is_some() && result.is_some() {
            return Err(
                IpcError::JsonError(
                    String::from_str("response carries both `result` and `error`"),
                ),
            );
        }
        Ok(JsonRpcResponse { jsonrpc, id, result, error })
    }

    /// Decodes one response line. A line that is not a JSON document gives a
    /// JSON error; a document gives what its envelope stands for.
    pub fn from_json(json: &str) -> (r: Result<Self, IpcError>)
        ensures
            match json_parse(json@) {
                Some(v) => decodes_to(r, raw_envelope_of(v)),
                None => r matches Err(IpcError::JsonError(_)),
            },
    {
        match parse_value(json) {
            Ok(v) => Self::from_envelope(read_envelope(&v)),
            Err(e) => Err(IpcError::from(e)),
        }
    }
}

/// The `data` member of an encoded error object with the comma in front of
/// it: nothing where there is no detail.
pub open spec fn data_member_text(data: Option<Value>) -> Option<Seq<char>> {
    match data {
        Some(d) => match json_text(d) {
            Some(t) => Some(",\"data\":"@ + t),
            None => None,
        },
        None => Some(Seq::empty()),
    }
}

/// The JSON object that stands for an error object: the members `code`,
/// `message` and, where there is detail, `data`.
pub open spec fn error_text(e: JsonRpcErrorView) -> Option<Seq<char>> {
    match (json_string_text(e.message), data_member_text(e.data)) {
        (Some(message), Some(data)) => Some(
            "{\"code\":"@ + signed_decimal(e.code as int) + ",\"message\":"@ + message + data
                + "}"@,
        ),
        _ => None,
    }
}

/// The `id` member of an encoded response: the number, or `null`.
pub open spec fn id_text(id: Option<u64>) -> Seq<char> {
    match id {
        Some(n) => decimal(n as nat),
        None => "null"@,
    }
}

/// The `result` member of an encoded response with the comma in front of
/// it: nothing where there is no result.
pub open spec fn result_member_text(result: Option<Value>) -> Option<Seq<char>> {
    match result {
        Some(v) => match json_text(v) {
            Some(t) => Some(",\"result\":"@ + t),
            None => None,
        },
        None => Some(Seq::empty()),
    }
}

/// The `error` member of an encoded response with the comma in front of it:
/// nothing where there is no error.
pub open spec fn error_member_text(error: Option<JsonRpcErrorView>) -> Option<Seq<char>> {
    match error {
        Some(e) => match error_text(e) {
            Some(t) => Some(",\"error\":"@ + t),
            None => None,
        },
        None => Some(Seq::empty()),
    }
}

/// The one-line JSON object that stands for a response: the members
/// `jsonrpc`, `id` (`null` where absent) and, where they are there, `result`
/// and `error`, in this order and without white space.
pub open spec fn response_text(r: JsonRpcResponseView) -> Option<Seq<char>> {
    match (json_string_text(r.jsonrpc), result_member_text(r.result), error_member_text(r.error)) {
        (Some(tag), Some(result), Some(error)) => Some(
            "{\"jsonrpc\":"@ + tag + ",\"id\":"@ + id_text(r.id) + result + error + "}"@,
        ),
        _ => None,
    }
}

/// An encoding outcome agrees with the text that was to be written.
pub open spec fn writes(r: Result<String, IpcError>, text: Option<Seq<char>>) -> bool {
    match text {
        Some(t) => r matches Ok(s) && s@ == t,
        None => r matches Err(IpcError::JsonError(_)),
    }
}

fn optional_member(prefix: &str, value: &Option<Value>) -> (r: Result<String, IpcError>)
    ensures
        writes(
            r,
            match *value {
                Some(v) => match json_text(v) {
                    Some(t) => Some(prefix@ + t),
                    None => None,
                },
                None => Some(Seq::empty()),
            },
        ),
{
    match value {
        Some(v) => match value_text(v) {
            Ok(t) => {
                let mut s = String::from_str(prefix);
                s.append(t.as_str());
                Ok(s)
            },
            Err(e) => Err(IpcError::from(e)),
        },
        None => Ok(String::new()),
    }
}

fn quoted(s: &str) -> (r: Result<String, IpcError>)
    ensures
        writes(r, json_string_text(s@)),
{
    match string_text(s) {
        Ok(t) => Ok(t),
        Err(e) => Err(IpcError::from(e)),
    }
}

impl JsonRpcError {
    /// Encodes the error object as JSON.
    pub fn to_json(&self) -> (r: Result<String, IpcError>)
        ensures
            writes(r, error_text(self@)),
    {
        let message = quoted(self.message.as_str())?;
        let data = optional_member(",\"data\":", &self.data)?;
        let code = i32_to_string(self.code);
        let mut s = String::from_str("{\"code\":");
        s.append(code.as_str());
        s.append(",\"message\":");
        s.append(message.as_str());
        s.append(data.as_str());
        s.append("}");
        Ok(s)
    }
}

/// The text that describes a response: its error, else its result, else
/// that it is empty.
pub open spec fn response_description(r: JsonRpcResponse) -> Seq<char> {
    match r.error {
        Some(e) => "Error: "@ + e.description(),
        None => match r.result {
            Some(v) => "Result: "@ + match json_text(v) {
                Some(t) => t,
                None => Seq::empty(),
            },
            None => "Empty response"@,
        },
    }
}

impl JsonRpcResponse {
    /// Renders the response for a reader: `Error: ` and the error, or
    /// `Result: ` and the result as JSON, or `Empty response`.
    pub fn describe(&self) -> (s: String)
        ensures
            s@ == response_description(*self),
    {
        match &self.error {
            Some(e) => {
                let t = e.describe();
                join2("Error: ", t.as_str())
            },
            None => match &self.result {
                Some(v) => match value_text(v) {
                    Ok(t) => join2("Result: ", t.as_str()),
                    Err(_) => String::from_str("Result: "),
                },
                None => String::from_str("Empty response"),
            },
        }
    }

    /// Encodes the response as one line of JSON, without the line feed that
    /// ends it on the wire.
    pub fn to_json(&self) -> (r: Result<String, IpcError>)
        ensures
            writes(r, response_text(self@)),
    {
        let tag = quoted(self.jsonrpc.as_str())?;
        let result = optional_member(",\"result\":", &self.result)?;
        let error = match &self.error {
            Some(e) => {
                let t = e.to_json()?;
                let mut s = String::from_str(",\"error\":");
                s.append(t.as_str());
                s
            },
            None => String::new(),
        };
        let id = match self.id {
            Some(n) => u64_to_string(n),
            None => String::from_str("null"),
        };
        let mut s = String::from_str("{\"jsonrpc\":");
        s.append(tag.as_str());
        s.append(",\"id\":");
        s.append(id.as_str());
        s.append(result.as_str());
        s.append(error.as_str());
        s.append("}");
        Ok(s)
    }
}

/// Whether a result is empty: `null`, an object without entries, an array
/// without elements, or a string without characters.
pub open spec fn empty_value(v: Value) -> bool {
    ||| json_is_null(v)
    ||| json_object(v) matches Some(entries) && entries.dom() == Set::<Seq<char>>::empty()
    ||| json_array(v) matches Some(items) && items.len() == 0
    ||| json_str(v) matches Some(text) && text.len() == 0
}

/// The result of a call, as a response stands for it.
pub type ResponseResult = Result<Value, JsonRpcError>;

/// What can be asked of the result of a call.
pub trait ResponseResultExt {
    /// Whether the result is empty.
    spec fn empty(&self) -> bool;

    /// Whether the result is a success that carries nothing: `null`, an
    /// empty object, an empty array or an empty string.
    fn is_empty(&self) -> (r: bool)
        ensures
            r == self.empty(),
    ;
}

impl ResponseResultExt for Result<Value, JsonRpcError> {
    open spec fn empty(&self) -> bool {
        match *self {
            Ok(v) => empty_value(v),
            Err(_) => false,
        }
    }

    fn is_empty(&self) -> (r: bool) {
        match self {
            Ok(v) => {
                if is_null(v) {
                    return true;
                }
                if let Some(m) = as_object(v) {
                    if object_is_empty(m) {
                        return true;
                    }
                }
                if let Some(a) = as_array(v) {
                    if a.len() == 0 {
                        return true;
                    }
                }
                if let Some(s) = as_str(v) {
                    if s.is_empty() {
                        return true;
                    }
                }
                false
            },
            Err(_) => false,
        }
    }
}

/// The responses to a batch of requests.
#[derive(Debug, Clone)]
pub struct BatchResponse {
    /// The responses, in the order in which they came.
    pub responses: Vec<JsonRpcResponse>,
}

/// The responses of a list as plain values.
pub open spec fn responses_of(v: Seq<JsonRpcResponse>) -> Seq<JsonRpcResponseView> {
    v.map_values(|r: JsonRpcResponse| r@)
}

/// The error objects of the responses that carry one, in the order of the
/// responses.
pub open spec fn errors_of(v: Seq<JsonRpcResponse>) -> Seq<JsonRpcError>
    decreases v.len(),
{
    if v.len() == 0 {
        Seq::empty()
    } else {
        match v.last().error {
            Some(e) => errors_of(v.drop_last()).push(e),
            None => errors_of(v.drop_last()),
        }
    }
}

/// The first element of an array that is no response, if there is one.
pub open spec fn first_fault(items: Seq<Value>) -> Option<Seq<char>>
    decreases items.len(),
{
    if items.len() == 0 {
        None
    } else {
        match first_fault(items.drop_last()) {
            Some(reason) => Some(reason),
            None => envelope_fault(raw_envelope_of(items.last())),
        }
    }
}

impl BatchResponse {
    /// A batch of the given responses.
    pub fn new(responses: Vec<JsonRpcResponse>) -> (r: Self)
        ensures
            r.responses == responses,
    {
        BatchResponse { responses }
    }

    /// Decodes a batch: a JSON array of response objects. A text that is no
    /// JSON document, a document that is no array, and an array with an
    /// element that is no response give a JSON error.
    pub fn from_json(json: &str) -> (r: Result<Self, IpcError>)
        ensures
            match json_parse(json@) {
                Some(v) => match json_array(v) {
                    Some(items) => match first_fault(items) {
                        Some(reason) => r matches Err(IpcError::JsonError(m)) && m@ == reason,
                        None => r matches Ok(batch) && batch.responses@.len() == items.len()
                            && forall|i: int|
                            0 <= i < items.len() ==> (#[trigger] batch.responses@[i])@
                                == envelope_response(raw_envelope_of(items[i])),
                    },
                    None => r matches Err(IpcError::JsonError(m)) && m@
                        == "expected an array of responses"@,
                },
                None => r matches Err(IpcError::JsonError(_)),
            },
    {
        let v = match parse_value(json) {
            Ok(v) => v,
            Err(e) => {
                return Err(IpcError::from(e));
            },
        };
        let items = match as_array(&v) {
            Some(items) => items,
            None => {
                return Err(
                    IpcError::JsonError(String::from_str("expected an array of responses")),
                );
            },
        };
        let mut responses: Vec<JsonRpcResponse> = Vec::new();
        let n = items.len();
        let mut i: usize = 0;
        while i < n
            invariant
                n == items@.len(),
                0 <= i <= n,
                json_parse(json@) == Some(v),
                json_array(v) == Some(items@),
                responses@.len() == i,
                first_fault(items@.take(i as int)) is None,
                forall|j: int|
                    0 <= j < i ==> (#[trigger] responses@[j])@ == envelope_response(
                        raw_envelope_of(items@[j]),
                    ),
            decreases n - i,
        {
            proof {
                assert(items@.take(i + 1).drop_last() =~= items@.take(i as int));
                assert(items@.take(i + 1).last() == items@[i as int]);
            }
            match JsonRpcResponse::from_envelope(read_envelope(&items[i])) {
                Ok(response) => {
                    responses.push(response);
                },
                Err(e) => {
                    proof {
                        let fault = envelope_fault(raw_envelope_of(items@[i as int]));
                        assert(fault is Some);
                        assert(first_fault(items@.take(i + 1)) == fault);
                        lemma_first_fault_prefix(items@, i + 1);
                    }
                    return Err(e);
                },
            }
            i = i + 1;
        }
        assert(items@.take(n as int) =~= items@);
        Ok(BatchResponse { responses })
    }

    /// The first response with the given id.
    pub fn get_by_id(&self, id: u64) -> (r: Option<&JsonRpcResponse>)
        ensures
            match r {
                Some(resp) => exists|i: int|
                    0 <= i < self.responses@.len() && self.responses@[i] == *resp && resp.id
                        == Some(id) && forall|j: int| 0 <= j < i ==> self.responses@[j].id != Some(id),
                None => forall|i: int|
                    0 <= i < self.responses@.len() ==> self.responses@[i].id != Some(id),
            },
    {
        let n = self.responses.len();
        let mut i: usize = 0;
        while i < n
            invariant
                n == self.responses@.len(),
                0 <= i <= n,
                forall|j: int| 0 <= j < i ==> self.responses@[j].id != Some(id),
            decreases n - i,
        {
            let found = match self.responses[i].id {
                Some(x) => x == id,
                None => false,
            };
            if found {
                return Some(&self.responses[i]);
            }
            i = i + 1;
        }
        None
    }

    /// Whether every response is a success.
    pub fn all_success(&self) -> (r: bool)
        ensures
            r == forall|i: int|
                0 <= i < self.responses@.len() ==> (#[trigger] self.responses@[i]).error is None
                    && self.responses@[i].result is Some,
    {
        let n = self.responses.len();
        let mut i: usize = 0;
        while i < n
            invariant
                n == self.responses@.len(),
                0 <= i <= n,
                forall|j: int|
                    0 <= j < i ==> (#[trigger] self.responses@[j]).error is None
                        && self.responses@[j].result is Some,
            decreases n - i,
        {
            if !self.responses[i].is_success() {
                return false;
            }
            i = i + 1;
        }
        true
    }

    /// The error objects of the responses that carry one, in the order of
    /// the responses.
    pub fn errors(&self) -> (r: Vec<&JsonRpcError>)
        ensures
            r@.len() == errors_of(self.responses@).len(),
            forall|i: int| 0 <= i < r@.len() ==> *r@[i] == errors_of(self.responses@)[i],
    {
        let mut out: Vec<&JsonRpcError> = Vec::new();
        let n = self.responses.len();
        let mut i: usize = 0;
        while i < n
            invariant
                n == self.responses@.len(),
                0 <= i <= n,
                out@.len() == errors_of(self.responses@.take(i as int)).len(),
                forall|j: int|
                    0 <= j < out@.len() ==> *out@[j] == errors_of(self.responses@.take(i as int))[j],
            decreases n - i,
        {
            proof {
                assert(self.responses@.take(i + 1).drop_last() =~= self.responses@.take(i as int));
                assert(self.responses@.take(i + 1).last() == self.responses@[i as int]);
            }
            match &self.responses[i].error {
                Some(e) => {
                    out.push(e);
                },
                None => {},
            }
            i = i + 1;
        }
        assert(self.responses@.take(n as int) =~= self.responses@);
        out
    }

    /// The number of responses.
    pub fn len(&self) -> (n: usize)
        ensures
            n == self.responses@.len(),
    {
        self.responses.len()
    }

    /// Whether the batch holds no response.
    pub fn is_empty(&self) -> (r: bool)
        ensures
            r == (self.responses@.len() == 0),
    {
        self.responses.len() == 0
    }
}

proof fn lemma_first_fault_prefix(items: Seq<Value>, k: int)
    requires
        0 <= k <= items.len(),
        first_fault(items.take(k)) is Some,
    ensures
        first_fault(items) == first_fault(items.take(k)),
    decreases items.len() - k,
{
    if k < items.len() {
        assert(items.take(k + 1).drop_last() =~= items.take(k));
        lemma_first_fault_prefix(items, k + 1);
    } else {
        assert(items.take(k) =~= items);
    }
}

} // verus!
