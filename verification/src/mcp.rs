//! The JSON-RPC 2.0 messages of the MCP subset the agent speaks to a game
//! server (initialize, notifications/initialized, tools/list, tools/call):
//! the requests it sends, how a line read back is classified, and what a
//! tool call returned.
use vstd::prelude::*;

use crate::json::{
    as_bool, as_str, as_u64, elem, field, get, json_parse, json_render, parse_json, render_json,
    Json, JsonValue,
};
use crate::text::{copy_str, push_str, trim, trim_str};

verus! {

pub open spec fn obj1(k: Seq<char>, v: Json) -> Json {
    Json::Object(seq![k], seq![v])
}

pub open spec fn obj2(k1: Seq<char>, v1: Json, k2: Seq<char>, v2: Json) -> Json {
    Json::Object(seq![k1, k2], seq![v1, v2])
}

pub open spec fn obj3(k1: Seq<char>, v1: Json, k2: Seq<char>, v2: Json, k3: Seq<char>, v3: Json) -> Json {
    Json::Object(seq![k1, k2, k3], seq![v1, v2, v3])
}

pub fn mk_obj1(k: &str, v: JsonValue) -> (r: JsonValue)
    ensures
        r@ == obj1(k@, v@),
{
    let ghost vv = v@;
    let r = JsonValue::Object(vec![(copy_str(k), v)]);
    assert(r@->Object_0 =~= seq![k@]);
    assert(r@->Object_1 =~= seq![vv]);
    r
}

pub fn mk_obj2(k1: &str, v1: JsonValue, k2: &str, v2: JsonValue) -> (r: JsonValue)
    ensures
        r@ == obj2(k1@, v1@, k2@, v2@),
{
    let ghost a = v1@;
    let ghost b = v2@;
    let r = JsonValue::Object(vec![(copy_str(k1), v1), (copy_str(k2), v2)]);
    assert(r@->Object_0 =~= seq![k1@, k2@]);
    assert(r@->Object_1 =~= seq![a, b]);
    r
}

pub fn mk_obj3(k1: &str, v1: JsonValue, k2: &str, v2: JsonValue, k3: &str, v3: JsonValue) -> (r:
    JsonValue)
    ensures
        r@ == obj3(k1@, v1@, k2@, v2@, k3@, v3@),
{
    let ghost a = v1@;
    let ghost b = v2@;
    let ghost c = v3@;
    let r = JsonValue::Object(vec![(copy_str(k1), v1), (copy_str(k2), v2), (copy_str(k3), v3)]);
    assert(r@->Object_0 =~= seq![k1@, k2@, k3@]);
    assert(r@->Object_1 =~= seq![a, b, c]);
    r
}

pub fn jstring(s: &str) -> (r: JsonValue)
    ensures
        r@ == Json::Str(s@),
{
    JsonValue::Str(copy_str(s))
}

// ---------------------------------------------------------------------------
// Requests
// ---------------------------------------------------------------------------

/// The request ids handed out in order.
#[derive(Debug, Clone, Copy, PartialEq, Eq, Structural)]
pub struct RequestIds {
    pub next: u64,
}

impl RequestIds {
    pub fn new() -> (r: RequestIds)
        ensures
            r.next == 0,
    {
        RequestIds { next: 0 }
    }

    /// The next id.
    pub fn next_id(&mut self) -> (r: u64)
        requires
            old(self).next < u64::MAX,
        ensures
            r == old(self).next,
            final(self).next == old(self).next + 1,
    {
        let id = self.next;
        self.next = self.next + 1;
        id
    }
}

/// `{"jsonrpc": "2.0", "id": id, "method": method, "params": params}`.
pub open spec fn request_json(id: u64, method: Seq<char>, params: Json) -> Json {
    Json::Object(
        seq!["jsonrpc"@, "id"@, "method"@, "params"@],
        seq![Json::Str("2.0"@), Json::Int(id as int), Json::Str(method), params],
    )
}

pub fn request_message(id: u64, method: &str, params: JsonValue) -> (r: JsonValue)
    ensures
        r@ == request_json(id, method@, params@),
{
    let ghost p = params@;
    let a = jstring("2.0");
    let b = JsonValue::Int(id as i128);
    let c = jstring(method);
    let ghost av = a@;
    let ghost bv = b@;
    let ghost cv = c@;
    let r = JsonValue::Object(
        vec![
            (copy_str("jsonrpc"), a),
            (copy_str("id"), b),
            (copy_str("method"), c),
            (copy_str("params"), params),
        ],
    );
    assert(r@->Object_0 =~= seq!["jsonrpc"@, "id"@, "method"@, "params"@]);
    assert(r@->Object_1 =~= seq![av, bv, cv, p]);
    r
}

/// A notification: `{"jsonrpc": "2.0", "method": method}`.
pub fn notification_message(method: &str) -> (r: JsonValue)
    ensures
        r@ == obj2("jsonrpc"@, Json::Str("2.0"@), "method"@, Json::Str(method@)),
{
    mk_obj2("jsonrpc", jstring("2.0"), "method", jstring(method))
}

/// The parameters of the handshake.
pub open spec fn initialize_json() -> Json {
    obj3(
        "protocolVersion"@,
        Json::Str("2024-11-05"@),
        "capabilities"@,
        Json::Object(Seq::empty(), Seq::empty()),
        "clientInfo"@,
        obj2("name"@, Json::Str("sts2-agent"@), "version"@, Json::Str("0.1.0"@)),
    )
}

pub fn empty_obj() -> (r: JsonValue)
    ensures
        r@ == Json::Object(Seq::empty(), Seq::empty()),
{
    let r = JsonValue::Object(Vec::new());
    assert(r@->Object_0 =~= Seq::<Seq<char>>::empty());
    assert(r@->Object_1 =~= Seq::<Json>::empty());
    r
}

pub fn initialize_params() -> (r: JsonValue)
    ensures
        r@ == initialize_json(),
{
    mk_obj3(
        "protocolVersion",
        jstring("2024-11-05"),
        "capabilities",
        empty_obj(),
        "clientInfo",
        mk_obj2("name", jstring("sts2-agent"), "version", jstring("0.1.0")),
    )
}

/// The parameters of a tool call.
pub fn tool_call_params(name: &str, arguments: JsonValue) -> (r: JsonValue)
    ensures
        r@ == obj2("name"@, Json::Str(name@), "arguments"@, arguments@),
{
    mk_obj2("name", jstring(name), "arguments", arguments)
}

/// The arguments of `get_game_state`.
pub fn state_args(format: &str) -> (r: JsonValue)
    ensures
        r@ == obj1("format"@, Json::Str(format@)),
{
    mk_obj1("format", jstring(format))
}

/// The arguments of a wiki search: the query, all item types, three results.
pub fn wiki_args(query: &str) -> (r: JsonValue)
    ensures
        r@ == obj3("query"@, Json::Str(query@), "item_type"@, Json::Str("all"@), "limit"@, Json::Int(3)),
{
    mk_obj3("query", jstring(query), "item_type", jstring("all"), "limit", JsonValue::Int(3))
}

// ---------------------------------------------------------------------------
// Responses
// ---------------------------------------------------------------------------

/// What one line read from the server is.
#[derive(Debug)]
pub enum ResponseLine {
    /// A notification or the answer to another request: read on.
    Skip,
    /// The answer to the request: its result (`null` when missing).
    Result(JsonValue),
    /// A failure, with its message.
    Failure(String),
}

pub enum LineKind {
    Skip,
    Result(Json),
    Failure(Seq<char>),
}

pub open spec fn line_view(l: ResponseLine) -> LineKind {
    match l {
        ResponseLine::Skip => LineKind::Skip,
        ResponseLine::Result(v) => LineKind::Result(v@),
        ResponseLine::Failure(s) => LineKind::Failure(s@),
    }
}

/// How a line read while waiting for the answer to request `expected` is
/// taken: a line that is not JSON, or whose id is not a `u64`, fails; one
/// without an id or with another id is skipped; an `error` member fails; the
/// answer gives its `result`.
pub open spec fn classify_line(line: Seq<char>, expected: u64) -> LineKind {
    match json_parse(trim(line)) {
        None => LineKind::Failure("invalid JSON-RPC line: "@ + line),
        Some(msg) => match get(msg, "id"@) {
            None => LineKind::Skip,
            Some(id) => match as_u64(id) {
                None => LineKind::Failure("invalid id"@),
                Some(n) => if n != expected {
                    LineKind::Skip
                } else {
                    match get(msg, "error"@) {
                        Some(e) => LineKind::Failure("MCP error: "@ + json_render(e)),
                        None => LineKind::Result(field(msg, "result"@)),
                    }
                },
            },
        },
    }
}

pub fn classify_response(line: &str, expected_id: u64) -> (r: ResponseLine)
    ensures
        line_view(r) == classify_line(line@, expected_id),
{
    let t = trim_str(line);
    let msg = match parse_json(t.as_str()) {
        Some(m) => m,
        None => {
            let mut e = copy_str("invalid JSON-RPC line: ");
            push_str(&mut e, line);
            return ResponseLine::Failure(e);
        },
    };
    let id = match msg.get("id") {
        Some(id) => id,
        None => return ResponseLine::Skip,
    };
    let n = match id.as_u64() {
        Some(n) => n,
        None => return ResponseLine::Failure(copy_str("invalid id")),
    };
    if n != expected_id {
        return ResponseLine::Skip;
    }
    match msg.get("error") {
        Some(e) => {
            let mut m = copy_str("MCP error: ");
            let et = render_json(e);
            push_str(&mut m, et.as_str());
            ResponseLine::Failure(m)
        },
        None => match msg.get("result") {
            Some(r) => ResponseLine::Result(r.copy()),
            None => ResponseLine::Result(JsonValue::Null),
        },
    }
}

/// `result["content"][0]["text"]`.
pub open spec fn content_text(result: Json) -> Option<Seq<char>> {
    as_str(field(elem(field(result, "content"@), 0), "text"@))
}

/// What a tool call returned: its text, or a failure when the server
/// flagged an error or the result has no text.
pub open spec fn tool_outcome(name: Seq<char>, result: Json) -> Result<Seq<char>, Seq<char>> {
    let is_error = match get(result, "isError"@) {
        Some(v) => match as_bool(v) {
            Some(b) => b,
            None => false,
        },
        None => false,
    };
    if is_error {
        Err(
            "tool '"@ + name + "' error: "@ + match content_text(result) {
                Some(t) => t,
                None => "unknown"@,
            },
        )
    } else {
        match content_text(result) {
            Some(t) => Ok(t),
            None => Err("unexpected tool call result format"@),
        }
    }
}

pub fn tool_call_text(name: &str, result: &JsonValue) -> (r: Result<String, String>)
    ensures
        match r {
            Ok(t) => tool_outcome(name@, result@) == Ok::<Seq<char>, Seq<char>>(t@),
            Err(e) => tool_outcome(name@, result@) == Err::<Seq<char>, Seq<char>>(e@),
        },
{
    let is_error = match result.get("isError") {
        Some(v) => match v.as_bool() {
            Some(b) => b,
            None => false,
        },
        None => false,
    };
    let text = crate::json::opt_as_str(
        crate::json::field_ref(
            crate::json::elem_ref(crate::json::field_ref(Some(result), "content"), 0),
            "text",
        ),
    );
    if is_error {
        let mut e = copy_str("tool '");
        push_str(&mut e, name);
        push_str(&mut e, "' error: ");
        match text {
            Some(t) => push_str(&mut e, t),
            None => push_str(&mut e, "unknown"),
        }
        return Err(e);
    }
    match text {
        Some(t) => Ok(copy_str(t)),
        None => Err(copy_str("unexpected tool call result format")),
    }
}

/// The tools a `tools/list` result lists (none when it lists none).
pub open spec fn listed_tools(result: Json) -> Seq<Json> {
    match field(result, "tools"@) {
        Json::Array(ts) => ts,
        _ => Seq::empty(),
    }
}

pub fn list_tools_of(result: &JsonValue) -> (r: Vec<JsonValue>)
    ensures
        r@.map_values(|v: JsonValue| v@) == listed_tools(result@),
{
    let mut out: Vec<JsonValue> = Vec::new();
    match crate::json::field_ref(Some(result), "tools") {
        Some(JsonValue::Array(items)) => {
            let mut i: usize = 0;
            while i < items.len()
                invariant
                    i <= items@.len(),
                    out@.len() == i,
                    forall|k: int| 0 <= k < i ==> #[trigger] out@[k]@ == items@[k]@,
                decreases items@.len() - i,
            {
                out.push(items[i].copy());
                i = i + 1;
            }
            proof {
                let t = listed_tools(result@);
                assert(out@.map_values(|v: JsonValue| v@) =~= t);
            }
        },
        _ => {
            assert(out@.map_values(|v: JsonValue| v@) =~= listed_tools(result@));
        },
    }
    out
}

/// A message framed for the stdio transport: its compact JSON text on one
/// line, ended by a line feed.
pub fn frame_message(msg: &JsonValue) -> (r: String)
    ensures
        r@ == json_render(msg@) + "\n"@,
{
    let mut t = render_json(msg);
    push_str(&mut t, "\n");
    t
}

} // verus!
