//! JSON-RPC 2.0 requests and notifications and their encoding as one line.

use crate::ipc::json::{
    inserted_all, into_object, is_null, json_entries, json_is_null, json_object, json_str,
    json_string_text, json_text, new_object, null, object_insert, object_is_empty, object_pairs,
    string_text, string_value, take_object, value_text,
};
use crate::ipc::IpcError;
use crate::text::{
    decimal, lemma_decimal_single_line, single_line, u64_to_string,
};
use serde_json::Value;
use vstd::prelude::*;
use vstd::string::StringExecFns;

verus! {

/// A request: a call that expects a response under the same id.
#[derive(Debug, Clone)]
pub struct JsonRpcRequest {
    /// Protocol tag.
    pub jsonrpc: String,
    /// Correlation id.
    pub id: u64,
    /// Method name.
    pub method: String,
    /// Parameters; `null` when there are none.
    pub params: Value,
}

/// A request as a plain value.
pub struct JsonRpcRequestView {
    pub jsonrpc: Seq<char>,
    pub id: u64,
    pub method: Seq<char>,
    pub params: Value,
}

impl View for JsonRpcRequest {
    type V = JsonRpcRequestView;

    open spec fn view(&self) -> JsonRpcRequestView {
        JsonRpcRequestView {
            jsonrpc: self.jsonrpc@,
            id: self.id,
            method: self.method@,
            params: self.params,
        }
    }
}

/// A notification: a call without an id, which expects no response.
#[derive(Debug, Clone)]
pub struct JsonRpcNotification {
    /// Protocol tag.
    pub jsonrpc: String,
    /// Method name.
    pub method: String,
    /// Parameters; `null` when there are none.
    pub params: Value,
}

/// A notification as a plain value.
pub struct JsonRpcNotificationView {
    pub jsonrpc: Seq<char>,
    pub method: Seq<char>,
    pub params: Value,
}

impl View for JsonRpcNotification {
    type V = JsonRpcNotificationView;

    open spec fn view(&self) -> JsonRpcNotificationView {
        JsonRpcNotificationView { jsonrpc: self.jsonrpc@, method: self.method@, params: self.params }
    }
}

/// The `params` member of an encoded call with the comma in front of it:
/// nothing for `null`, and `None` where the parameters cannot be written.
pub open spec fn params_member_text(params: Value) -> Option<Seq<char>> {
    if json_is_null(params) {
        Some(Seq::empty())
    } else {
        match json_text(params) {
            Some(p) => Some(",\"params\":"@ + p),
            None => None,
        }
    }
}

/// The one-line JSON object that stands for a request: the members `jsonrpc`,
/// `id`, `method` and, unless the parameters are `null`, `params`, in this
/// order and without white space. `None` where a member cannot be written.
pub open spec fn request_text(r: JsonRpcRequestView) -> Option<Seq<char>> {
    match (json_string_text(r.jsonrpc), json_string_text(r.method), params_member_text(r.params)) {
        (Some(tag), Some(method), Some(params)) => Some(
            "{\"jsonrpc\":"@ + tag + ",\"id\":"@ + decimal(r.id as nat) + ",\"method\":"@ + method
                + params + "}"@,
        ),
        _ => None,
    }
}

/// The one-line JSON object that stands for a notification: as a request,
/// without the member `id`.
pub open spec fn notification_text(n: JsonRpcNotificationView) -> Option<Seq<char>> {
    match (json_string_text(n.jsonrpc), json_string_text(n.method), params_member_text(n.params)) {
        (Some(tag), Some(method), Some(params)) => Some(
            "{\"jsonrpc\":"@ + tag + ",\"method\":"@ + method + params + "}"@,
        ),
        _ => None,
    }
}

/// An encoding outcome agrees with the text that was to be written: the text
/// itself, or a JSON error where there is none.
pub open spec fn encodes_to(r: Result<String, IpcError>, text: Option<Seq<char>>) -> bool {
    match text {
        Some(t) => r matches Ok(s) && s@ == t,
        None => r matches Err(IpcError::JsonError(_)),
    }
}

fn params_member(params: &Value) -> (r: Result<String, IpcError>)
    ensures
        encodes_to(r, params_member_text(*params)),
        r matches Ok(s) ==> single_line(s@),
{
    if is_null(params) {
        Ok(String::new())
    } else {
        match value_text(params) {
            Ok(p) => {
                let mut s = String::from_str(",\"params\":");
                s.append(p.as_str());
                proof {
                    reveal_strlit(",\"params\":");
                }
                Ok(s)
            },
            Err(e) => Err(IpcError::from(e)),
        }
    }
}

fn quoted(s: &str) -> (r: Result<String, IpcError>)
    ensures
        encodes_to(r, json_string_text(s@)),
        r matches Ok(t) ==> single_line(t@),
{
    match string_text(s) {
        Ok(t) => Ok(t),
        Err(e) => Err(IpcError::from(e)),
    }
}

impl JsonRpcRequest {
    /// A request with the protocol tag `2.0`.
    pub fn new(id: u64, method: &str, params: Value) -> (r: Self)
        ensures
            r@ == (JsonRpcRequestView { jsonrpc: "2.0"@, id, method: method@, params }),
    {
        JsonRpcRequest {
            jsonrpc: String::from_str("2.0"),
            id,
            method: String::from_str(method),
            params,
        }
    }

    /// A notification with the protocol tag `2.0`.
    pub fn notification(method: &str, params: Value) -> (r: JsonRpcNotification)
        ensures
            r@ == (JsonRpcNotificationView { jsonrpc: "2.0"@, method: method@, params }),
    {
        JsonRpcNotification {
            jsonrpc: String::from_str("2.0"),
            method: String::from_str(method),
            params,
        }
    }

    /// Encodes the request as one line of JSON, without the line feed that
    /// ends it on the wire. The text has no line feed in it and ends in `}`.
    pub fn to_json(&self) -> (r: Result<String, IpcError>)
        ensures
            encodes_to(r, request_text(self@)),
            r matches Ok(s) ==> single_line(s@) && s@.len() > 0 && s@.last() == '}',
    {
        let tag = quoted(self.jsonrpc.as_str())?;
        let method = quoted(self.method.as_str())?;
        let params = params_member(&self.params)?;
        let id = u64_to_string(self.id);
        let mut s = String::from_str("{\"jsonrpc\":");
        s.append(tag.as_str());
        s.append(",\"id\":");
        s.append(id.as_str());
        s.append(",\"method\":");
        s.append(method.as_str());
        s.append(params.as_str());
        s.append("}");
        proof {
            reveal_strlit("{\"jsonrpc\":");
            reveal_strlit(",\"id\":");
            reveal_strlit(",\"method\":");
            reveal_strlit("}");
            lemma_decimal_single_line(self.id as nat);
        }
        Ok(s)
    }
}

impl JsonRpcNotification {
    /// Encodes the notification as one line of JSON, without the line feed
    /// that ends it on the wire. The text has no line feed in it and ends in
    /// `}`.
    pub fn to_json(&self) -> (r: Result<String, IpcError>)
        ensures
            encodes_to(r, notification_text(self@)),
            r matches Ok(s) ==> single_line(s@) && s@.len() > 0 && s@.last() == '}',
    {
        let tag = quoted(self.jsonrpc.as_str())?;
        let method = quoted(self.method.as_str())?;
        let params = params_member(&self.params)?;
        let mut s = String::from_str("{\"jsonrpc\":");
        s.append(tag.as_str());
        s.append(",\"method\":");
        s.append(method.as_str());
        s.append(params.as_str());
        s.append("}");
        proof {
            reveal_strlit("{\"jsonrpc\":");
            reveal_strlit(",\"method\":");
            reveal_strlit("}");
        }
        Ok(s)
    }
}

/// Builds a request step by step: a method and named parameters.
#[derive(Debug)]
pub struct RequestBuilder {
    method: String,
    params: serde_json::Map<String, Value>,
}

/// The parameters of a request as they are built from named parameters:
/// `null` where there are none, else the object that holds them.
pub open spec fn built_params(params: Value, entries: Map<Seq<char>, Value>) -> bool {
    if entries.dom() == Set::<Seq<char>>::empty() {
        json_is_null(params)
    } else {
        json_object(params) == Some(entries) && !json_is_null(params)
    }
}

proof fn lemma_inserted_all(base: Map<Seq<char>, Value>, pairs: Seq<(String, Value)>)
    ensures
        inserted_all(base, pairs) == base.union_prefer_right(
            inserted_all(Map::<Seq<char>, Value>::empty(), pairs),
        ),
    decreases pairs.len(),
{
    let empty = Map::<Seq<char>, Value>::empty();
    if pairs.len() == 0 {
        assert(base.union_prefer_right(empty) =~= base);
    } else {
        lemma_inserted_all(base, pairs.drop_last());
        let k = pairs.last().0@;
        let v = pairs.last().1;
        assert(base.union_prefer_right(inserted_all(empty, pairs.drop_last())).insert(k, v)
            =~= base.union_prefer_right(inserted_all(empty, pairs.drop_last()).insert(k, v)));
    }
}

impl RequestBuilder {
    /// The method of the request.
    pub closed spec fn method_spec(&self) -> Seq<char> {
        self.method@
    }

    /// The named parameters of the request.
    pub closed spec fn params_spec(&self) -> Map<Seq<char>, Value> {
        json_entries(self.params)
    }

    /// A builder for a request of the given method, without parameters.
    pub fn new(method: &str) -> (r: Self)
        ensures
            r.method_spec() == method@,
            r.params_spec() == Map::<Seq<char>, Value>::empty(),
    {
        RequestBuilder { method: String::from_str(method), params: new_object() }
    }

    /// Sets a named parameter; a parameter of the same name is replaced.
    pub fn with_param(self, key: &str, value: Value) -> (r: Self)
        ensures
            r.method_spec() == self.method_spec(),
            r.params_spec() == self.params_spec().insert(key@, value),
    {
        let mut r = self;
        let _ = object_insert(&mut r.params, String::from_str(key), value);
        r
    }

    /// Sets every entry of a JSON object as a named parameter; parameters
    /// of the same names are replaced. A value that is no object changes
    /// nothing.
    pub fn with_params(self, params: Value) -> (r: Self)
        ensures
            r.method_spec() == self.method_spec(),
            r.params_spec() == match json_object(params) {
                Some(entries) => self.params_spec().union_prefer_right(entries),
                None => self.params_spec(),
            },
    {
        let mut r = self;
        match take_object(params) {
            Ok(object) => {
                let ghost base = json_entries(r.params);
                let mut pairs = object_pairs(object);
                let ghost all = pairs@;
                let total = pairs.len();
                proof {
                    lemma_inserted_all(base, all);
                }
                let mut rest: Vec<(String, Value)> = Vec::new();
                while pairs.len() > 0
                    invariant
                        r.method == self.method,
                        all.len() == total,
                        pairs@.len() + rest@.len() == all.len(),
                        forall|i: int| 0 <= i < pairs@.len() ==> pairs@[i] == all[i],
                        forall|i: int|
                            0 <= i < rest@.len() ==> rest@[i] == all[all.len() - 1 - i],
                    decreases pairs@.len(),
                {
                    let last = pairs.pop();
                    if let Some(pair) = last {
                        rest.push(pair);
                    }
                }
                let mut done: usize = 0;
                while rest.len() > 0
                    invariant
                        r.method == self.method,
                        all.len() == total,
                        done + rest@.len() == all.len(),
                        forall|i: int|
                            0 <= i < rest@.len() ==> rest@[i] == all[all.len() - 1 - i],
                        json_entries(r.params) == inserted_all(base, all.take(done as int)),
                    decreases rest@.len(),
                {
                    let next = rest.pop();
                    if let Some(pair) = next {
                        proof {
                            assert(pair == all[done as int]);
                            assert(all.take(done + 1).drop_last() =~= all.take(done as int));
                            assert(all.take(done + 1).last() == all[done as int]);
                        }
                        let (key, value) = pair;
                        let _ = object_insert(&mut r.params, key, value);
                        done = done + 1;
                    }
                }
                assert(all.take(done as int) =~= all);
                r
            },
            Err(_) => r,
        }
    }

    /// The request with the given id: the parameters are `null` where none
    /// was set, else the object of the named parameters.
    pub fn build(self, id: u64) -> (r: JsonRpcRequest)
        ensures
            r.jsonrpc@ == "2.0"@,
            r.id == id,
            r.method@ == self.method_spec(),
            built_params(r.params, self.params_spec()),
    {
        let params = if object_is_empty(&self.params) {
            null()
        } else {
            into_object(self.params)
        };
        JsonRpcRequest { jsonrpc: String::from_str("2.0"), id, method: self.method, params }
    }

    /// The request with the given id, encoded as one line of JSON.
    pub fn build_json(self, id: u64) -> (r: Result<String, IpcError>)
        ensures
            exists|params: Value|
                built_params(params, self.params_spec()) && #[trigger] encodes_to(
                    r,
                    request_text(
                        JsonRpcRequestView {
                            jsonrpc: "2.0"@,
                            id,
                            method: self.method_spec(),
                            params,
                        },
                    ),
                ),
            r matches Ok(s) ==> single_line(s@),
    {
        let request = self.build(id);
        let r = request.to_json();
        assert(encodes_to(r, request_text(request@)));
        r
    }
}

/// Builders for the requests that the plugin host knows.
pub struct CommonRequests;

impl CommonRequests {
    /// A `ping` request.
    pub fn ping() -> (r: RequestBuilder)
        ensures
            r.method_spec() == "ping"@,
            r.params_spec() == Map::<Seq<char>, Value>::empty(),
    {
        RequestBuilder::new("ping")
    }

    /// A `status` request.
    pub fn status() -> (r: RequestBuilder)
        ensures
            r.method_spec() == "status"@,
            r.params_spec() == Map::<Seq<char>, Value>::empty(),
    {
        RequestBuilder::new("status")
    }

    /// A `shutdown` request.
    pub fn shutdown() -> (r: RequestBuilder)
        ensures
            r.method_spec() == "shutdown"@,
            r.params_spec() == Map::<Seq<char>, Value>::empty(),
    {
        RequestBuilder::new("shutdown")
    }

    /// A `plugin/list` request.
    pub fn plugin_list() -> (r: RequestBuilder)
        ensures
            r.method_spec() == "plugin/list"@,
            r.params_spec() == Map::<Seq<char>, Value>::empty(),
    {
        RequestBuilder::new("plugin/list")
    }

    /// A `plugin/load` request for the named plugin.
    pub fn plugin_load(name: &str) -> (r: RequestBuilder)
        ensures
            r.method_spec() == "plugin/load"@,
            r.params_spec().dom() =~= set!["name"@],
            json_str(r.params_spec()["name"@]) == Some(name@),
    {
        RequestBuilder::new("plugin/load").with_param("name", string_value(name))
    }

    /// A `plugin/unload` request for the named plugin.
    pub fn plugin_unload(name: &str) -> (r: RequestBuilder)
        ensures
            r.method_spec() == "plugin/unload"@,
            r.params_spec().dom() =~= set!["name"@],
            json_str(r.params_spec()["name"@]) == Some(name@),
    {
        RequestBuilder::new("plugin/unload").with_param("name", string_value(name))
    }

    /// A `plugin/swap` request that puts one plugin in the place of another.
    pub fn plugin_swap(old_name: &str, new_name: &str) -> (r: RequestBuilder)
        ensures
            r.method_spec() == "plugin/swap"@,
            r.params_spec().dom() =~= set!["old"@, "new"@],
            json_str(r.params_spec()["old"@]) == Some(old_name@),
            json_str(r.params_spec()["new"@]) == Some(new_name@),
    {
        proof {
            reveal_strlit("old");
            reveal_strlit("new");
            assert("old"@[0] != "new"@[0]);
        }
        RequestBuilder::new("plugin/swap").with_param("old", string_value(old_name)).with_param(
            "new",
            string_value(new_name),
        )
    }

    /// A `plugin/health` request, for the named plugin where a name is given.
    pub fn plugin_health(name: Option<String>) -> (r: RequestBuilder)
        ensures
            r.method_spec() == "plugin/health"@,
            match name {
                Some(n) => r.params_spec().dom() =~= set!["name"@] && json_str(
                    r.params_spec()["name"@],
                ) == Some(n@),
                None => r.params_spec() == Map::<Seq<char>, Value>::empty(),
            },
    {
        let builder = RequestBuilder::new("plugin/health");
        match name {
            Some(n) => builder.with_param("name", string_value(n.as_str())),
            None => builder,
        }
    }
}

} // verus!
