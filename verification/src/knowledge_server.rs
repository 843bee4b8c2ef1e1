//! The read-only knowledge server: the knowledge base offered to any MCP
//! client as two tools, `lookup` (local tables, then the wiki when one is
//! configured) and `context_for_state` (the game-data reference of a state).
use vstd::prelude::*;

use crate::context::{knowledge_context, search_game_knowledge};
use crate::json::{as_str, field, get, json_parse, parse_json, Json, JsonValue};
use crate::lookup::{lookup_query_smart, smart_result, KnowledgeBase};
use crate::mcp::{empty_obj, jstring, mk_obj1, mk_obj2, mk_obj3, obj1, obj2, obj3};
use crate::model::GameState;
use crate::text::{copy_str, push_str, trim, trim_str};

verus! {

/// The response to request `id` with a result.
pub open spec fn response_json(id: Json, result: Json) -> Json {
    obj3("jsonrpc"@, Json::Str("2.0"@), "id"@, id, "result"@, result)
}

/// A tool result holding one text.
pub open spec fn text_content(text: Seq<char>) -> Json {
    obj1(
        "content"@,
        Json::Array(seq![obj2("type"@, Json::Str("text"@), "text"@, Json::Str(text))]),
    )
}

fn response(id: JsonValue, result: JsonValue) -> (r: JsonValue)
    ensures
        r@ == response_json(id@, result@),
{
    mk_obj3("jsonrpc", jstring("2.0"), "id", id, "result", result)
}

fn text_result(text: &str) -> (r: JsonValue)
    ensures
        r@ == text_content(text@),
{
    let item = mk_obj2("type", jstring("text"), "text", jstring(text));
    let ghost iv = item@;
    let arr = JsonValue::Array(vec![item]);
    assert(arr@->Array_0 =~= seq![iv]);
    mk_obj1("content", arr)
}

/// The server's handshake result.
pub open spec fn server_info_json() -> Json {
    obj3(
        "protocolVersion"@,
        Json::Str("2024-11-05"@),
        "capabilities"@,
        obj1("tools"@, obj1("listChanged"@, Json::Bool(false))),
        "serverInfo"@,
        obj2("name"@, Json::Str("sts2-knowledge"@), "version"@, Json::Str("0.1.0"@)),
    )
}

fn server_info() -> (r: JsonValue)
    ensures
        r@ == server_info_json(),
{
    mk_obj3(
        "protocolVersion",
        jstring("2024-11-05"),
        "capabilities",
        mk_obj1("tools", mk_obj1("listChanged", JsonValue::Bool(false))),
        "serverInfo",
        mk_obj2("name", jstring("sts2-knowledge"), "version", jstring("0.1.0")),
    )
}

pub const LOOKUP_DESC: &'static str = "按名称或内部ID查询杀戮尖塔2知识库（卡牌/敌人/药水/事件/角色，含行为详情）。本地未命中时若配置了 Wiki 会自动兜底。";

pub const CONTEXT_DESC: &'static str = "传入完整游戏状态JSON，返回与当前局面相关的知识库内容（手牌/敌人/药水/事件表格行 + playbook 决策指引 + 未收录手牌标注）。";

/// One tool with a single required string parameter.
pub open spec fn server_tool(name: Seq<char>, desc: Seq<char>, param: Seq<char>, pdesc: Seq<char>) -> Json {
    obj2(
        "type"@,
        Json::Str("function"@),
        "function"@,
        obj3(
            "name"@,
            Json::Str(name),
            "description"@,
            Json::Str(desc),
            "parameters"@,
            obj3(
                "type"@,
                Json::Str("object"@),
                "properties"@,
                obj1(param, obj2("type"@, Json::Str("string"@), "description"@, Json::Str(pdesc))),
                "required"@,
                Json::Array(seq![Json::Str(param)]),
            ),
        ),
    )
}

/// The server's two tools.
pub open spec fn server_tools_json() -> Json {
    Json::Array(
        seq![
            server_tool("lookup"@, LOOKUP_DESC@, "query"@, "名称或内部ID，优先英文内部ID"@),
            server_tool(
                "context_for_state"@,
                CONTEXT_DESC@,
                "state_json"@,
                "完整游戏状态JSON"@,
            ),
        ],
    )
}

fn server_tool_value(name: &str, desc: &str, param: &str, pdesc: &str) -> (r: JsonValue)
    ensures
        r@ == server_tool(name@, desc@, param@, pdesc@),
{
    let req_item = jstring(param);
    let ghost rv = req_item@;
    let req = JsonValue::Array(vec![req_item]);
    assert(req@->Array_0 =~= seq![rv]);
    let params = mk_obj3(
        "type",
        jstring("object"),
        "properties",
        mk_obj1(param, mk_obj2("type", jstring("string"), "description", jstring(pdesc))),
        "required",
        req,
    );
    mk_obj2(
        "type",
        jstring("function"),
        "function",
        mk_obj3("name", jstring(name), "description", jstring(desc), "parameters", params),
    )
}

/// The tool definitions the server lists.
pub fn server_tool_definitions() -> (r: JsonValue)
    ensures
        r@ == server_tools_json(),
{
    let a = server_tool_value("lookup", LOOKUP_DESC, "query", "名称或内部ID，优先英文内部ID");
    let b = server_tool_value("context_for_state", CONTEXT_DESC, "state_json", "完整游戏状态JSON");
    let ghost av = a@;
    let ghost bv = b@;
    let r = JsonValue::Array(vec![a, b]);
    assert(r@->Array_0 =~= seq![av, bv]);
    r
}

/// What a request to the knowledge server needs.
#[derive(Debug)]
pub enum ServerStep {
    /// A notification or an unknown method: no answer.
    Ignore,
    /// The answer.
    Reply(JsonValue),
    /// A lookup the tables did not answer: search the wiki, then answer with `wiki_reply`.
    Wiki { id: JsonValue, query: String, used: String },
    /// Read the state JSON into a game state, then answer with `context_reply`.
    Context { id: JsonValue, state_json: String },
}

pub enum StepKind {
    Ignore,
    Reply(Json),
    Wiki(Json, Seq<char>, Seq<char>),
    Context(Json, Seq<char>),
}

pub open spec fn step_view(s: ServerStep) -> StepKind {
    match s {
        ServerStep::Ignore => StepKind::Ignore,
        ServerStep::Reply(v) => StepKind::Reply(v@),
        ServerStep::Wiki { id, query, used } => StepKind::Wiki(id@, query@, used@),
        ServerStep::Context { id, state_json } => StepKind::Context(id@, state_json@),
    }
}

pub open spec fn str_or(v: Json, d: Seq<char>) -> Seq<char> {
    match as_str(v) {
        Some(s) => s,
        None => d,
    }
}

/// How the server answers a message, with the knowledge base `kb`, an empty
/// game state `gs0` for display-name lookups, and whether a wiki is configured.
pub open spec fn server_step(msg: Json, kb: KnowledgeBase, gs0: GameState, wiki: bool) -> StepKind {
    match get(msg, "id"@) {
        None => StepKind::Ignore,
        Some(id) => {
            let method = str_or(field(msg, "method"@), Seq::empty());
            if method == "initialize"@ {
                StepKind::Reply(response_json(id, server_info_json()))
            } else if method == "tools/list"@ {
                StepKind::Reply(response_json(id, obj1("tools"@, server_tools_json())))
            } else if method == "tools/call"@ {
                call_step(
                    id,
                    str_or(field(field(msg, "params"@), "name"@), Seq::empty()),
                    field(field(msg, "params"@), "arguments"@),
                    kb,
                    gs0,
                    wiki,
                )
            } else {
                StepKind::Ignore
            }
        },
    }
}

/// How the server answers a call of tool `name` with `args`.
pub open spec fn call_step(
    id: Json,
    name: Seq<char>,
    args: Json,
    kb: KnowledgeBase,
    gs0: GameState,
    wiki: bool,
) -> StepKind {
    if name == "lookup"@ {
        let query = str_or(field(args, "query"@), Seq::empty());
        let (used, result) = smart_result(query, gs0, kb);
        if result.len() > 0 {
            StepKind::Reply(response_json(id, text_content(result)))
        } else if wiki {
            StepKind::Wiki(id, query, used)
        } else {
            StepKind::Reply(response_json(id, text_content("未找到 "@ + query)))
        }
    } else if name == "context_for_state"@ {
        StepKind::Context(id, str_or(field(args, "state_json"@), "{}"@))
    } else {
        StepKind::Reply(response_json(id, text_content("unknown tool: "@ + name)))
    }
}

fn tool_call_step(id: JsonValue, name: &str, args: Option<&JsonValue>, kb: &KnowledgeBase, wiki: bool) -> (r: ServerStep)
    ensures
        step_view(r) == call_step(id@, name@, crate::json::opt_json(args), *kb, GameState::empty_spec(), wiki),
{
    proof {
        reveal_strlit("");
    }
    if crate::json::str_eq(name, "lookup") {
        let query = str_or_of(crate::json::field_ref(args, "query"), "");
        let gs0 = GameState::empty();
        let (used, result) = lookup_query_smart(query.as_str(), &gs0, kb);
        assert(name@ == "lookup"@);
        assert(query@ == str_or(field(crate::json::opt_json(args), "query"@), Seq::empty()));
        assert((used@, result@) == smart_result(query@, GameState::empty_spec(), *kb));
        if !result.as_str().is_empty() {
            return ServerStep::Reply(response(id, text_result(result.as_str())));
        }
        if wiki {
            return ServerStep::Wiki { id, query, used };
        }
        let mut t = copy_str("未找到 ");
        push_str(&mut t, query.as_str());
        return ServerStep::Reply(response(id, text_result(t.as_str())));
    }
    if crate::json::str_eq(name, "context_for_state") {
        let sj = str_or_of(crate::json::field_ref(args, "state_json"), "{}");
        return ServerStep::Context { id, state_json: sj };
    }
    let mut t = copy_str("unknown tool: ");
    push_str(&mut t, name);
    ServerStep::Reply(response(id, text_result(t.as_str())))
}

fn str_or_of(v: Option<&JsonValue>, d: &str) -> (r: String)
    ensures
        r@ == str_or(crate::json::opt_json(v), d@),
{
    match crate::json::opt_as_str(v) {
        Some(s) => copy_str(s),
        None => copy_str(d),
    }
}

/// Decides the answer to one message of a client.
pub fn handle_message(msg: &JsonValue, kb: &KnowledgeBase, wiki: bool) -> (r: ServerStep)
    ensures
        step_view(r) == server_step(msg@, *kb, GameState::empty_spec(), wiki),
{
    let id = match msg.get("id") {
        Some(id) => id.copy(),
        None => return ServerStep::Ignore,
    };
    proof {
        reveal_strlit("");
    }
    let method = str_or_of(crate::json::field_ref(Some(msg), "method"), "");
    assert(get(msg@, "id"@) == Some(id@));
    assert(method@ == str_or(field(msg@, "method"@), Seq::empty()));
    if crate::json::str_eq(method.as_str(), "initialize") {
        let info = server_info();
        let r = response(id, info);
        assert(step_view(ServerStep::Reply(r)) == StepKind::Reply(r@));
        return ServerStep::Reply(r);
    }
    if crate::json::str_eq(method.as_str(), "tools/list") {
        return ServerStep::Reply(response(id, mk_obj1("tools", server_tool_definitions())));
    }
    if !crate::json::str_eq(method.as_str(), "tools/call") {
        return ServerStep::Ignore;
    }
    let params = crate::json::field_ref(Some(msg), "params");
    let name = str_or_of(crate::json::field_ref(params, "name"), "");
    let args = crate::json::field_ref(params, "arguments");
    assert(method@ == "tools/call"@);
    assert(name@ == str_or(field(field(msg@, "params"@), "name"@), Seq::empty()));
    assert(crate::json::opt_json(args) == field(field(msg@, "params"@), "arguments"@));
    tool_call_step(id, name.as_str(), args, kb, wiki)
}

/// Decides the answer to one line a client sent: the line, without its
/// surrounding whitespace, is read as a message; a line that is not JSON is
/// ignored.
pub fn handle_line(line: &str, kb: &KnowledgeBase, wiki: bool) -> (r: ServerStep)
    ensures
        match json_parse(trim(line@)) {
            Some(msg) => step_view(r) == server_step(msg, *kb, GameState::empty_spec(), wiki),
            None => r is Ignore,
        },
{
    let t = trim_str(line);
    match parse_json(t.as_str()) {
        Some(msg) => handle_message(&msg, kb, wiki),
        None => ServerStep::Ignore,
    }
}

/// The answer to a lookup after the wiki search (`wiki_text` is the
/// formatted wiki answer, empty when the wiki had nothing).
pub open spec fn wiki_reply_json(id: Json, query: Seq<char>, used: Seq<char>, wiki_text: Seq<char>) -> Json {
    response_json(
        id,
        text_content(
            if wiki_text.len() == 0 {
                "未找到 "@ + query + "（本地与 Wiki 均无记录）"@
            } else {
                "[wiki "@ + used + "]\n"@ + wiki_text
            },
        ),
    )
}

pub fn wiki_reply(id: JsonValue, query: &str, used: &str, wiki_text: &str) -> (r: JsonValue)
    ensures
        r@ == wiki_reply_json(id@, query@, used@, wiki_text@),
{
    let mut t = String::new();
    if wiki_text.is_empty() {
        push_str(&mut t, "未找到 ");
        push_str(&mut t, query);
        push_str(&mut t, "（本地与 Wiki 均无记录）");
    } else {
        push_str(&mut t, "[wiki ");
        push_str(&mut t, used);
        push_str(&mut t, "]\n");
        push_str(&mut t, wiki_text);
    }
    response(id, text_result(t.as_str()))
}

/// The answer to `context_for_state` on the state read from its JSON.
pub fn context_reply(id: JsonValue, gs: &GameState, kb: &KnowledgeBase) -> (r: JsonValue)
    ensures
        r@ == response_json(id@, text_content(knowledge_context(*gs, *kb))),
{
    let text = search_game_knowledge(gs, kb);
    response(id, text_result(text.as_str()))
}

} // verus!
