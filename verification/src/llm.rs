//! The chat model's side of the agent: messages, token usage, and the
//! decoding of a streamed (server-sent events) chat completion into deltas of
//! text and reasoning, tool calls merged from their fragments, and the final
//! usage.
use vstd::prelude::*;

use crate::json::{
    as_str, as_u64, elem, elem_ref, field, field_ref, get, is_null, json_parse, opt_as_str,
    opt_as_u64, opt_json, parse_json, Json, JsonValue,
};
use crate::text::{
    chars_of, copy_str, lemma_split_nonempty, slice_vec, split, starts_with, string_from_chars,
    trim, trim_vec, vec_eq, vec_split, vec_starts_with,
};

verus! {

// ---------------------------------------------------------------------------
// Usage and the token tally
// ---------------------------------------------------------------------------

/// The tokens one API call used.
#[derive(Debug, Clone, Copy, PartialEq, Eq, Structural)]
pub struct Usage {
    pub prompt_tokens: u64,
    pub completion_tokens: u64,
    /// The part of the prompt served from the provider's cache; shown, not priced.
    pub cached_tokens: u64,
}

impl Usage {
    /// No tokens.
    pub fn zero() -> (r: Usage)
        ensures
            r == (Usage { prompt_tokens: 0, completion_tokens: 0, cached_tokens: 0 }),
    {
        Usage { prompt_tokens: 0, completion_tokens: 0, cached_tokens: 0 }
    }

    /// Prompt and completion tokens together.
    pub fn total(&self) -> (r: u64)
        requires
            self.prompt_tokens + self.completion_tokens <= u64::MAX,
        ensures
            r == self.prompt_tokens + self.completion_tokens,
    {
        self.prompt_tokens + self.completion_tokens
    }
}

/// The tokens spent so far against a limit (0: no limit).
#[derive(Debug, Clone, Copy, PartialEq, Eq, Structural)]
pub struct TokenTally {
    pub total_input: u64,
    pub total_output: u64,
    pub total_cached: u64,
    pub token_limit: u64,
}

impl TokenTally {
    pub fn new(token_limit: u64) -> (r: TokenTally)
        ensures
            r == (TokenTally { total_input: 0, total_output: 0, total_cached: 0, token_limit }),
    {
        TokenTally { total_input: 0, total_output: 0, total_cached: 0, token_limit }
    }

    /// Adds one call's usage.
    pub fn record(&mut self, usage: &Usage)
        requires
            old(self).total_input + usage.prompt_tokens <= u64::MAX,
            old(self).total_output + usage.completion_tokens <= u64::MAX,
            old(self).total_cached + usage.cached_tokens <= u64::MAX,
        ensures
            final(self).total_input == old(self).total_input + usage.prompt_tokens,
            final(self).total_output == old(self).total_output + usage.completion_tokens,
            final(self).total_cached == old(self).total_cached + usage.cached_tokens,
            final(self).token_limit == old(self).token_limit,
    {
        self.total_input = self.total_input + usage.prompt_tokens;
        self.total_output = self.total_output + usage.completion_tokens;
        self.total_cached = self.total_cached + usage.cached_tokens;
    }

    /// Continues from the totals of an earlier session.
    pub fn restore(&mut self, input: u64, output: u64)
        ensures
            final(self).total_input == input,
            final(self).total_output == output,
            final(self).total_cached == old(self).total_cached,
            final(self).token_limit == old(self).token_limit,
    {
        self.total_input = input;
        self.total_output = output;
    }

    /// Whether a token limit is set and reached.
    pub fn over_token_limit(&self) -> (r: bool)
        ensures
            r == (self.token_limit > 0 && self.total_input + self.total_output
                >= self.token_limit),
    {
        self.token_limit > 0 && (self.total_input as u128) + (self.total_output as u128)
            >= (self.token_limit as u128)
    }
}

// ---------------------------------------------------------------------------
// Messages
// ---------------------------------------------------------------------------

/// A tool call the model made (OpenAI-compatible `tool_calls`).
#[derive(Debug, Clone)]
pub struct ToolCall {
    pub id: String,
    pub name: String,
    /// The arguments as JSON text (possibly an empty object).
    pub arguments: String,
}

/// One message of a chat.
#[derive(Debug)]
pub struct ChatMessage {
    pub role: String,
    pub content: String,
    /// The tool calls an assistant message carries.
    pub tool_calls: Option<JsonValue>,
    /// The call a `tool` message answers.
    pub tool_call_id: Option<String>,
}

/// One tool call in the form a message carries it.
pub open spec fn call_json(id: Seq<char>, name: Seq<char>, args: Seq<char>) -> Json {
    Json::Object(
        seq!["id"@, "type"@, "function"@],
        seq![
            Json::Str(id),
            Json::Str("function"@),
            Json::Object(seq!["name"@, "arguments"@], seq![Json::Str(name), Json::Str(args)]),
        ],
    )
}

/// The calls of `(id, name, arguments)` triples in the form a message carries them.
pub open spec fn calls_json(calls: Seq<(String, String, String)>) -> Json {
    Json::Array(Seq::new(calls.len(), |i: int| call_json(calls[i].0@, calls[i].1@, calls[i].2@)))
}

fn role_message(role: &str, content: &str) -> (r: ChatMessage)
    ensures
        r.role@ == role@,
        r.content@ == content@,
        r.tool_calls is None,
        r.tool_call_id is None,
{
    ChatMessage {
        role: copy_str(role),
        content: copy_str(content),
        tool_calls: None,
        tool_call_id: None,
    }
}

impl ChatMessage {
    pub fn system(content: &str) -> (r: ChatMessage)
        ensures
            r.role@ == "system"@,
            r.content@ == content@,
            r.tool_calls is None,
            r.tool_call_id is None,
    {
        role_message("system", content)
    }

    pub fn user(content: &str) -> (r: ChatMessage)
        ensures
            r.role@ == "user"@,
            r.content@ == content@,
            r.tool_calls is None,
            r.tool_call_id is None,
    {
        role_message("user", content)
    }

    pub fn assistant(content: &str) -> (r: ChatMessage)
        ensures
            r.role@ == "assistant"@,
            r.content@ == content@,
            r.tool_calls is None,
            r.tool_call_id is None,
    {
        role_message("assistant", content)
    }

    /// An assistant message with text and tool calls given as
    /// `(id, name, arguments)` triples.
    pub fn assistant_tool_calls(content: &str, calls: &Vec<(String, String, String)>) -> (r:
        ChatMessage)
        ensures
            r.role@ == "assistant"@,
            r.content@ == content@,
            r.tool_calls matches Some(tc) && tc@ == calls_json(calls@),
            r.tool_call_id is None,
    {
        let mut items: Vec<JsonValue> = Vec::new();
        let mut i: usize = 0;
        while i < calls.len()
            invariant
                i <= calls@.len(),
                items@.len() == i,
                forall|k: int|
                    0 <= k < i ==> #[trigger] items@[k]@ == call_json(
                        calls@[k].0@,
                        calls@[k].1@,
                        calls@[k].2@,
                    ),
            decreases calls@.len() - i,
        {
            let (id, name, args) = &calls[i];
            let name_v = JsonValue::Str(copy_str(name.as_str()));
            let args_v = JsonValue::Str(copy_str(args.as_str()));
            let id_v = JsonValue::Str(copy_str(id.as_str()));
            let type_v = JsonValue::Str(copy_str("function"));
            assert(name_v@ == Json::Str(name@));
            assert(args_v@ == Json::Str(args@));
            assert(id_v@ == Json::Str(id@));
            assert(type_v@ == Json::Str("function"@));
            let f = JsonValue::Object(
                vec![(copy_str("name"), name_v), (copy_str("arguments"), args_v)],
            );
            let ghost fv = f@;
            proof {
                assert(fv->Object_0 =~= seq!["name"@, "arguments"@]);
                assert(fv->Object_1 =~= seq![Json::Str(name@), Json::Str(args@)]);
            }
            let c = JsonValue::Object(
                vec![(copy_str("id"), id_v), (copy_str("type"), type_v), (copy_str("function"), f)],
            );
            proof {
                assert(c@->Object_0 =~= seq!["id"@, "type"@, "function"@]);
                assert(c@->Object_1 =~= seq![Json::Str(id@), Json::Str("function"@), fv]);
            }
            items.push(c);
            i = i + 1;
        }
        let ghost iv = items@;
        let tc = JsonValue::Array(items);
        proof {
            let a = tc@->Array_0;
            let b = calls_json(calls@)->Array_0;
            assert forall|k: int| 0 <= k < a.len() implies a[k] == b[k] by {
                assert(a[k] == iv[k]@);
            }
            assert(a =~= b);
        }
        ChatMessage {
            role: copy_str("assistant"),
            content: copy_str(content),
            tool_calls: Some(tc),
            tool_call_id: None,
        }
    }

    /// The result of one tool call (`role = tool`).
    pub fn tool(call_id: &str, content: &str) -> (r: ChatMessage)
        ensures
            r.role@ == "tool"@,
            r.content@ == content@,
            r.tool_calls is None,
            r.tool_call_id matches Some(id) && id@ == call_id@,
    {
        ChatMessage {
            role: copy_str("tool"),
            content: copy_str(content),
            tool_calls: None,
            tool_call_id: Some(copy_str(call_id)),
        }
    }

    /// A copy of the message.
    pub fn copy(&self) -> (r: ChatMessage)
        ensures
            r.role@ == self.role@,
            r.content@ == self.content@,
            match (r.tool_calls, self.tool_calls) {
                (Some(a), Some(b)) => a@ == b@,
                (None, None) => true,
                _ => false,
            },
            match (r.tool_call_id, self.tool_call_id) {
                (Some(a), Some(b)) => a@ == b@,
                (None, None) => true,
                _ => false,
            },
    {
        ChatMessage {
            role: copy_str(self.role.as_str()),
            content: copy_str(self.content.as_str()),
            tool_calls: match &self.tool_calls {
                Some(t) => Some(t.copy()),
                None => None,
            },
            tool_call_id: match &self.tool_call_id {
                Some(t) => Some(copy_str(t.as_str())),
                None => None,
            },
        }
    }
}


// ---------------------------------------------------------------------------
// Stream events
// ---------------------------------------------------------------------------

/// An event of a streamed chat completion.
#[derive(Debug)]
pub enum StreamEvent {
    /// A piece of the answer.
    Delta(String),
    /// A piece of the reasoning (`reasoning_content` / `reasoning`).
    Reasoning(String),
    /// One complete tool call, merged from its fragments; delivered when the
    /// stream ends.
    ToolCall(ToolCall),
    /// The final usage, sent once when the stream ends.
    Usage(Usage),
    /// The stream ended.
    Done,
    /// An error during the stream.
    Error(String),
}

/// What a stream event says.
pub enum Event {
    Delta(Seq<char>),
    Reasoning(Seq<char>),
    Call(Seq<char>, Seq<char>, Seq<char>),
    Usage(Usage),
    Done,
    Error(Seq<char>),
}

impl View for StreamEvent {
    type V = Event;

    open spec fn view(&self) -> Event {
        match self {
            StreamEvent::Delta(s) => Event::Delta(s@),
            StreamEvent::Reasoning(s) => Event::Reasoning(s@),
            StreamEvent::ToolCall(c) => Event::Call(c.id@, c.name@, c.arguments@),
            StreamEvent::Usage(u) => Event::Usage(*u),
            StreamEvent::Done => Event::Done,
            StreamEvent::Error(s) => Event::Error(s@),
        }
    }
}

pub open spec fn events_view(v: Seq<StreamEvent>) -> Seq<Event> {
    v.map_values(|e: StreamEvent| e@)
}

/// A tool call being put together from its fragments.
pub struct CallPart {
    pub index: u64,
    pub id: Seq<char>,
    pub name: Seq<char>,
    pub args: Seq<char>,
}

/// What the decoder knows from the lines read so far.
pub struct SseState {
    pub usage: Usage,
    pub calls: Seq<CallPart>,
    pub done: bool,
}

/// The payload of a `data: ` line.
pub open spec fn sse_data(line: Seq<char>) -> Option<Seq<char>> {
    let t = trim(line);
    if starts_with(t, "data: "@) {
        Some(t.skip(6))
    } else {
        None
    }
}

/// `chunk["choices"][0]["delta"]`.
pub open spec fn chunk_delta(v: Json) -> Json {
    field(elem(field(v, "choices"@), 0), "delta"@)
}

/// The answer and reasoning pieces of one chunk, in that order.
pub open spec fn chunk_events(v: Json) -> Seq<Event> {
    let d = chunk_delta(v);
    let a: Seq<Event> = match as_str(field(d, "content"@)) {
        Some(s) => seq![Event::Delta(s)],
        None => Seq::empty(),
    };
    let r: Seq<Event> = match as_str(field(d, "reasoning_content"@)) {
        Some(s) => seq![Event::Reasoning(s)],
        None => match as_str(field(d, "reasoning"@)) {
            Some(s) => seq![Event::Reasoning(s)],
            None => Seq::empty(),
        },
    };
    a + r
}

/// Exactly one event of `evs` is a reasoning piece, and it carries `s`.
pub open spec fn one_reasoning(evs: Seq<Event>, s: Seq<char>) -> bool {
    exists|k: int|
        0 <= k < evs.len() && #[trigger] evs[k] == Event::Reasoning(s) && forall|j: int|
            0 <= j < evs.len() && j != k ==> !(#[trigger] evs[j] is Reasoning)
}

/// No event of `evs` is a reasoning piece.
pub open spec fn no_reasoning(evs: Seq<Event>) -> bool {
    forall|j: int| 0 <= j < evs.len() ==> !(#[trigger] evs[j] is Reasoning)
}

/// The reasoning of a chunk is its delta's `reasoning_content` when that is
/// a string, and otherwise its `reasoning` when that is one (the member some
/// providers send): exactly one reasoning event, carrying that text.  With
/// neither there is none.  A string `content` comes first, as the one
/// answer piece.
pub proof fn lemma_chunk_reasoning(v: Json)
    ensures
        ({
            let d = chunk_delta(v);
            let evs = chunk_events(v);
            let rc = as_str(field(d, "reasoning_content"@));
            let rs = as_str(field(d, "reasoning"@));
            let c = as_str(field(d, "content"@));
            &&& rc is Some ==> one_reasoning(evs, rc->0)
            &&& rc is None && rs is Some ==> one_reasoning(evs, rs->0)
            &&& rc is None && rs is None ==> no_reasoning(evs)
            &&& c is Some ==> evs.len() > 0 && evs[0] == Event::Delta(c->0)
            &&& c is None ==> forall|j: int| 0 <= j < evs.len() ==> !(#[trigger] evs[j] is Delta)
        }),
{
    let d = chunk_delta(v);
    let evs = chunk_events(v);
    let c = as_str(field(d, "content"@));
    let k: int = if c is Some { 1 } else { 0 };
    assert(c is Some ==> evs[0] == Event::Delta(c->0));
    assert(forall|j: int| 0 <= j < evs.len() && j != k ==> !(#[trigger] evs[j] is Reasoning));
    assert(0 <= k < evs.len() ==> evs[k] is Reasoning);
}

pub open spec fn u64_or_zero(o: Option<u64>) -> u64 {
    match o {
        Some(n) => n,
        None => 0,
    }
}

/// The usage a `usage` object reports; cached tokens come from
/// `prompt_cache_hit_tokens`, or else `prompt_tokens_details.cached_tokens`.
pub open spec fn usage_of(u: Json) -> Usage {
    Usage {
        prompt_tokens: u64_or_zero(as_u64(field(u, "prompt_tokens"@))),
        completion_tokens: u64_or_zero(as_u64(field(u, "completion_tokens"@))),
        cached_tokens: match as_u64(field(u, "prompt_cache_hit_tokens"@)) {
            Some(n) => n,
            None => u64_or_zero(
                as_u64(field(field(u, "prompt_tokens_details"@), "cached_tokens"@)),
            ),
        },
    }
}

/// The usage after a chunk: a non-null `usage` member replaces it.
pub open spec fn next_usage(prev: Usage, v: Json) -> Usage {
    match get(v, "usage"@) {
        Some(u) => if is_null(u) {
            prev
        } else {
            usage_of(u)
        },
        None => prev,
    }
}

pub open spec fn opt_text(o: Option<Seq<char>>) -> Seq<char> {
    match o {
        Some(s) => s,
        None => Seq::empty(),
    }
}

/// A call with one more fragment: a non-empty id replaces the id, name and
/// arguments pieces are appended.
pub open spec fn merged(
    p: CallPart,
    id: Option<Seq<char>>,
    name: Option<Seq<char>>,
    args: Option<Seq<char>>,
) -> CallPart {
    CallPart {
        index: p.index,
        id: match id {
            Some(s) => if s.len() > 0 {
                s
            } else {
                p.id
            },
            None => p.id,
        },
        name: p.name + opt_text(name),
        args: p.args + opt_text(args),
    }
}

/// The position of the call with stream index `index`.
pub open spec fn call_pos(calls: Seq<CallPart>, index: u64) -> Option<int>
    decreases calls.len(),
{
    if calls.len() == 0 {
        None
    } else if calls[0].index == index {
        Some(0)
    } else {
        match call_pos(calls.drop_first(), index) {
            Some(k) => Some(k + 1),
            None => None,
        }
    }
}

/// The index a fragment belongs to: its `index`, or its place in the chunk.
pub open spec fn frag_index(f: Json, j: int) -> u64 {
    match as_u64(field(f, "index"@)) {
        Some(i) => i,
        None => j as u64,
    }
}

/// The calls after the fragment `f` at place `j` of a chunk.
pub open spec fn merge_fragment(calls: Seq<CallPart>, f: Json, j: int) -> Seq<CallPart> {
    let idx = frag_index(f, j);
    let id = as_str(field(f, "id"@));
    let name = as_str(field(field(f, "function"@), "name"@));
    let args = as_str(field(field(f, "function"@), "arguments"@));
    match call_pos(calls, idx) {
        Some(k) => calls.update(k, merged(calls[k], id, name, args)),
        None => calls.push(
            merged(
                CallPart { index: idx, id: Seq::empty(), name: Seq::empty(), args: Seq::empty() },
                id,
                name,
                args,
            ),
        ),
    }
}

/// The calls after the first `n` fragments of a chunk.
pub open spec fn merge_fragments(calls: Seq<CallPart>, fs: Seq<Json>, n: nat) -> Seq<CallPart>
    decreases n,
{
    if n == 0 {
        calls
    } else {
        merge_fragment(merge_fragments(calls, fs, (n - 1) as nat), fs[n - 1], n - 1)
    }
}

/// The calls after a chunk's `tool_calls` fragments.
pub open spec fn chunk_calls(calls: Seq<CallPart>, v: Json) -> Seq<CallPart> {
    match field(chunk_delta(v), "tool_calls"@) {
        Json::Array(fs) => merge_fragments(calls, fs, fs.len()),
        _ => calls,
    }
}

/// What the end of a stream sends: the calls, the usage, `Done`.
pub open spec fn final_events(st: SseState) -> Seq<Event> {
    Seq::new(
        st.calls.len(),
        |i: int| Event::Call(st.calls[i].id, st.calls[i].name, st.calls[i].args),
    ) + seq![Event::Usage(st.usage), Event::Done]
}

/// One line of the stream.  After the end nothing more is read; lines that
/// are not `data: ` lines, and data that is not JSON, are skipped.
pub open spec fn sse_line(st: SseState, line: Seq<char>) -> (SseState, Seq<Event>) {
    if st.done {
        (st, Seq::empty())
    } else {
        match sse_data(line) {
            None => (st, Seq::empty()),
            Some(data) => if data == "[DONE]"@ {
                (SseState { usage: st.usage, calls: st.calls, done: true }, final_events(st))
            } else {
                match json_parse(data) {
                    None => (st, Seq::empty()),
                    Some(v) => (
                        SseState {
                            usage: next_usage(st.usage, v),
                            calls: chunk_calls(st.calls, v),
                            done: false,
                        },
                        chunk_events(v),
                    ),
                }
            },
        }
    }
}

/// Lines read one after another.
pub open spec fn sse_lines(st: SseState, ls: Seq<Seq<char>>) -> (SseState, Seq<Event>)
    decreases ls.len(),
{
    if ls.len() == 0 {
        (st, Seq::empty())
    } else {
        let (s1, e1) = sse_lines(st, ls.drop_last());
        let (s2, e2) = sse_line(s1, ls.last());
        (s2, e1 + e2)
    }
}

/// Text received: the complete lines are read, the rest waits for more.
pub open spec fn sse_feed(d: (Seq<char>, SseState), chunk: Seq<char>) -> (
    (Seq<char>, SseState),
    Seq<Event>,
) {
    let parts = split(d.0 + chunk, '\n');
    let (st, ev) = sse_lines(d.1, parts.drop_last());
    ((parts.last(), st), ev)
}

/// The stream ended without `[DONE]`: what is still owed is sent.
pub open spec fn sse_finish(st: SseState) -> (SseState, Seq<Event>) {
    if st.done {
        (st, Seq::empty())
    } else {
        (SseState { usage: st.usage, calls: st.calls, done: true }, final_events(st))
    }
}

struct CallAcc {
    index: u64,
    id: String,
    name: String,
    arguments: String,
}

impl View for CallAcc {
    type V = CallPart;

    closed spec fn view(&self) -> CallPart {
        CallPart { index: self.index, id: self.id@, name: self.name@, args: self.arguments@ }
    }
}

/// Once the end of a stream was read, further lines change nothing and give no event.
pub proof fn lemma_done_absorbs(st: SseState, ls: Seq<Seq<char>>)
    requires
        st.done,
    ensures
        sse_lines(st, ls) == (st, Seq::<Event>::empty()),
    decreases ls.len(),
{
    if ls.len() > 0 {
        lemma_done_absorbs(st, ls.drop_last());
        assert(Seq::<Event>::empty() + Seq::<Event>::empty() =~= Seq::<Event>::empty());
    }
}

/// Text received after the end of a stream yields no event and leaves what was read as it was.
pub proof fn lemma_feed_after_done(d: (Seq<char>, SseState), chunk: Seq<char>)
    requires
        d.1.done,
    ensures
        sse_feed(d, chunk).0.1 == d.1,
        sse_feed(d, chunk).1.len() == 0,
{
    let parts = split(d.0 + chunk, '\n');
    lemma_done_absorbs(d.1, parts.drop_last());
}

/// The end of a stream is reported once: ending it again sends nothing.
pub proof fn lemma_finish_once(st: SseState)
    ensures
        sse_finish(st).0.done,
        sse_finish(sse_finish(st).0).1.len() == 0,
{
}

/// Reads a streamed chat completion as it arrives.
pub struct SseDecoder {
    pending: Vec<char>,
    usage: Usage,
    calls: Vec<CallAcc>,
    done: bool,
}

impl View for SseDecoder {
    type V = (Seq<char>, SseState);

    /// The text waiting for the end of its line, and what was read.
    closed spec fn view(&self) -> (Seq<char>, SseState) {
        (
            self.pending@,
            SseState {
                usage: self.usage,
                calls: self.calls@.map_values(|c: CallAcc| c@),
                done: self.done,
            },
        )
    }
}

proof fn lemma_call_pos(calls: Seq<CallPart>, index: u64, i: int)
    requires
        0 <= i <= calls.len(),
        forall|j: int| 0 <= j < i ==> #[trigger] calls[j].index != index,
        i < calls.len() ==> calls[i].index == index,
    ensures
        call_pos(calls, index) == (if i < calls.len() {
            Some(i)
        } else {
            None::<int>
        }),
    decreases i,
{
    if calls.len() > 0 && i > 0 {
        let t = calls.drop_first();
        assert forall|j: int| 0 <= j < i - 1 implies #[trigger] t[j].index != index by {
            assert(t[j] == calls[j + 1]);
        }
        assert(calls[0].index != index);
        lemma_call_pos(t, index, i - 1);
    }
}

fn concat_opt(a: &String, b: Option<&str>) -> (r: String)
    ensures
        r@ == a@ + opt_text(crate::lookup::opt_str_view(b)),
{
    let mut r = copy_str(a.as_str());
    match b {
        Some(s) => crate::text::push_str(&mut r, s),
        None => {},
    }
    r
}

impl SseDecoder {
    /// A decoder that has read nothing.
    pub fn new() -> (r: SseDecoder)
        ensures
            r@ == (Seq::<char>::empty(), SseState {
                usage: Usage { prompt_tokens: 0, completion_tokens: 0, cached_tokens: 0 },
                calls: Seq::empty(),
                done: false,
            }),
    {
        let r = SseDecoder { pending: Vec::new(), usage: Usage::zero(), calls: Vec::new(), done: false };
        assert(r.calls@.map_values(|c: CallAcc| c@) =~= Seq::<CallPart>::empty());
        r
    }

    /// Whether the end of the stream was read.
    pub fn is_done(&self) -> (r: bool)
        ensures
            r == self@.1.done,
    {
        self.done
    }

    fn merge_one(&mut self, f: &JsonValue, j: usize)
        ensures
            final(self).pending@ == old(self).pending@,
            final(self).usage == old(self).usage,
            final(self).done == old(self).done,
            final(self).calls@.map_values(|c: CallAcc| c@) == merge_fragment(
                old(self).calls@.map_values(|c: CallAcc| c@),
                f@,
                j as int,
            ),
    {
        let ghost cs = self.calls@.map_values(|c: CallAcc| c@);
        let idx: u64 = match opt_as_u64(field_ref(Some(f), "index")) {
            Some(i) => i,
            None => j as u64,
        };
        let id = opt_as_str(field_ref(Some(f), "id"));
        let func = field_ref(Some(f), "function");
        let name = opt_as_str(field_ref(func, "name"));
        let args = opt_as_str(field_ref(func, "arguments"));
        let ghost gid = crate::lookup::opt_str_view(id);
        let ghost gname = crate::lookup::opt_str_view(name);
        let ghost gargs = crate::lookup::opt_str_view(args);
        assert(idx == frag_index(f@, j as int));
        assert(gid == as_str(field(f@, "id"@)));
        assert(gname == as_str(field(field(f@, "function"@), "name"@)));
        assert(gargs == as_str(field(field(f@, "function"@), "arguments"@)));
        let mut k: usize = 0;
        while k < self.calls.len() && self.calls[k].index != idx
            invariant
                cs == self.calls@.map_values(|c: CallAcc| c@),
                k <= self.calls@.len(),
                forall|q: int| 0 <= q < k ==> #[trigger] cs[q].index != idx,
            decreases self.calls@.len() - k,
        {
            k = k + 1;
        }
        proof {
            lemma_call_pos(cs, idx, k as int);
        }
        let new_id_given = match id {
            Some(s) => !s.is_empty(),
            None => false,
        };
        if k < self.calls.len() {
            let old_acc = &self.calls[k];
            let nid = if new_id_given {
                match id {
                    Some(s) => copy_str(s),
                    None => copy_str(old_acc.id.as_str()),
                }
            } else {
                copy_str(old_acc.id.as_str())
            };
            let acc = CallAcc {
                index: old_acc.index,
                id: nid,
                name: concat_opt(&old_acc.name, name),
                arguments: concat_opt(&old_acc.arguments, args),
            };
            assert(acc@ == merged(cs[k as int], gid, gname, gargs));
            self.calls.set(k, acc);
            assert(self.calls@.map_values(|c: CallAcc| c@) =~= cs.update(
                k as int,
                merged(cs[k as int], gid, gname, gargs),
            ));
        } else {
            let empty = String::new();
            let nid = if new_id_given {
                match id {
                    Some(s) => copy_str(s),
                    None => String::new(),
                }
            } else {
                String::new()
            };
            let acc = CallAcc {
                index: idx,
                id: nid,
                name: concat_opt(&empty, name),
                arguments: concat_opt(&empty, args),
            };
            let ghost start = CallPart {
                index: idx,
                id: Seq::empty(),
                name: Seq::empty(),
                args: Seq::empty(),
            };
            assert(acc@ =~= merged(start, gid, gname, gargs));
            self.calls.push(acc);
            assert(self.calls@.map_values(|c: CallAcc| c@) =~= cs.push(
                merged(start, gid, gname, gargs),
            ));
        }
    }

    fn merge_chunk(&mut self, v: &JsonValue)
        ensures
            final(self).pending@ == old(self).pending@,
            final(self).usage == old(self).usage,
            final(self).done == old(self).done,
            final(self).calls@.map_values(|c: CallAcc| c@) == chunk_calls(
                old(self).calls@.map_values(|c: CallAcc| c@),
                v@,
            ),
    {
        let delta = field_ref(field_ref(elem_ref(field_ref(Some(v), "choices"), 0), "delta"), "tool_calls");
        assert(opt_json(delta) == field(chunk_delta(v@), "tool_calls"@));
        match delta {
            Some(JsonValue::Array(items)) => {
                let ghost cs0 = self.calls@.map_values(|c: CallAcc| c@);
                let ghost fs = delta.unwrap()@->Array_0;
                let mut j: usize = 0;
                while j < items.len()
                    invariant
                        delta matches Some(JsonValue::Array(it)) && it == *items,
                        fs == opt_json(delta)->Array_0,
                        fs.len() == items@.len(),
                        forall|q: int| 0 <= q < items@.len() ==> #[trigger] fs[q] == items@[q]@,
                        j <= items@.len(),
                        self.pending@ == old(self).pending@,
                        self.usage == old(self).usage,
                        self.done == old(self).done,
                        self.calls@.map_values(|c: CallAcc| c@) == merge_fragments(cs0, fs, j as nat),
                    decreases items@.len() - j,
                {
                    self.merge_one(&items[j], j);
                    j = j + 1;
                }
            },
            _ => {},
        }
    }

    fn read_line(&mut self, line: &Vec<char>, out: &mut Vec<StreamEvent>)
        ensures
            final(self)@.0 == old(self)@.0,
            final(self)@.1 == sse_line(old(self)@.1, line@).0,
            events_view(final(out)@) == events_view(old(out)@) + sse_line(old(self)@.1, line@).1,
    {
        let ghost st = self@.1;
        let ghost o = events_view(out@);
        if self.done {
            return;
        }
        let t = trim_vec(line);
        let prefix = chars_of("data: ");
        if !vec_starts_with(&t, &prefix) {
            return;
        }
        proof {
            reveal_strlit("data: ");
        }
        let data = slice_vec(&t, 6, t.len());
        assert(data@ =~= t@.skip(6));
        let done_mark = chars_of("[DONE]");
        if vec_eq(&data, &done_mark) {
            self.push_final(out);
            return;
        }
        let ds = string_from_chars(data.as_slice());
        match parse_json(ds.as_str()) {
            None => {},
            Some(v) => {
                let d = field_ref(elem_ref(field_ref(Some(&v), "choices"), 0), "delta");
                match opt_as_str(field_ref(d, "content")) {
                    Some(s) => out.push(StreamEvent::Delta(copy_str(s))),
                    None => {},
                }
                match opt_as_str(field_ref(d, "reasoning_content")) {
                    Some(s) => out.push(StreamEvent::Reasoning(copy_str(s))),
                    None => match opt_as_str(field_ref(d, "reasoning")) {
                        Some(s) => out.push(StreamEvent::Reasoning(copy_str(s))),
                        None => {},
                    },
                }
                assert(events_view(out@) =~= o + chunk_events(v@));
                match v.get("usage") {
                    Some(u) => if !u.is_null() {
                        let us = Some(u);
                        let cached = match opt_as_u64(field_ref(us, "prompt_cache_hit_tokens")) {
                            Some(n) => n,
                            None => match opt_as_u64(
                                field_ref(field_ref(us, "prompt_tokens_details"), "cached_tokens"),
                            ) {
                                Some(n) => n,
                                None => 0,
                            },
                        };
                        self.usage = Usage {
                            prompt_tokens: match opt_as_u64(field_ref(us, "prompt_tokens")) {
                                Some(n) => n,
                                None => 0,
                            },
                            completion_tokens: match opt_as_u64(
                                field_ref(us, "completion_tokens"),
                            ) {
                                Some(n) => n,
                                None => 0,
                            },
                            cached_tokens: cached,
                        };
                    },
                    None => {},
                }
                self.merge_chunk(&v);
            },
        }
    }

    fn push_final(&mut self, out: &mut Vec<StreamEvent>)
        requires
            !old(self).done,
        ensures
            final(self)@.0 == old(self)@.0,
            final(self)@.1 == (SseState {
                usage: old(self)@.1.usage,
                calls: old(self)@.1.calls,
                done: true,
            }),
            events_view(final(out)@) == events_view(old(out)@) + final_events(old(self)@.1),
    {
        let ghost o = events_view(out@);
        let ghost cs = self.calls@.map_values(|c: CallAcc| c@);
        let mut i: usize = 0;
        while i < self.calls.len()
            invariant
                cs == self.calls@.map_values(|c: CallAcc| c@),
                i <= self.calls@.len(),
                events_view(out@) == o + Seq::new(
                    i as nat,
                    |k: int| Event::Call(cs[k].id, cs[k].name, cs[k].args),
                ),
            decreases self.calls@.len() - i,
        {
            let c = &self.calls[i];
            let ghost before = out@;
            assert(cs[i as int] == c@);
            out.push(
                StreamEvent::ToolCall(
                    ToolCall {
                        id: copy_str(c.id.as_str()),
                        name: copy_str(c.name.as_str()),
                        arguments: copy_str(c.arguments.as_str()),
                    },
                ),
            );
            assert(events_view(out@) =~= events_view(before).push(Event::Call(cs[i as int].id, cs[i as int].name, cs[i as int].args)));
            i = i + 1;
            assert(events_view(out@) =~= o + Seq::new(
                i as nat,
                |k: int| Event::Call(cs[k].id, cs[k].name, cs[k].args),
            ));
        }
        let ghost mid = out@;
        out.push(StreamEvent::Usage(self.usage));
        out.push(StreamEvent::Done);
        self.done = true;
        assert(events_view(out@) =~= events_view(mid) + seq![Event::Usage(self.usage), Event::Done]);
        assert(events_view(out@) =~= o + final_events(old(self)@.1));
    }

    /// Reads newly received text; returns the events of the lines it completes.
    pub fn feed(&mut self, chunk: &str) -> (r: Vec<StreamEvent>)
        ensures
            (final(self)@, events_view(r@)) == sse_feed(old(self)@, chunk@),
    {
        let ghost st0 = self@.1;
        let mut all = slice_vec(&self.pending, 0, self.pending.len());
        crate::text::push_lit(&mut all, chunk);
        assert(all@ =~= old(self)@.0 + chunk@);
        let parts = vec_split(&all, '\n');
        proof {
            lemma_split_nonempty(all@, '\n');
        }
        let ghost sp = split(all@, '\n');
        let ghost complete = sp.drop_last();
        let n = parts.len();
        let mut out: Vec<StreamEvent> = Vec::new();
        let mut i: usize = 0;
        assert(complete.take(0) =~= Seq::<Seq<char>>::empty());
        assert(events_view(out@) =~= Seq::<Event>::empty());
        while i + 1 < n
            invariant
                n == parts@.len(),
                n == sp.len(),
                n >= 1,
                sp == split(all@, '\n'),
                complete == sp.drop_last(),
                forall|k: int| 0 <= k < n ==> #[trigger] parts@[k]@ == sp[k],
                i + 1 <= n,
                (self@.1, events_view(out@)) == sse_lines(st0, complete.take(i as int)),
            decreases n - i,
        {
            proof {
                let t = complete.take(i + 1);
                assert(t.drop_last() =~= complete.take(i as int));
                assert(t.last() == parts@[i as int]@);
            }
            self.read_line(&parts[i], &mut out);
            i = i + 1;
        }
        assert(complete.take(i as int) =~= complete);
        self.pending = slice_vec(&parts[n - 1], 0, parts[n - 1].len());
        assert(self.pending@ =~= sp.last());
        out
    }

    /// The stream ended; returns what is still owed (nothing after `[DONE]`).
    pub fn finish(&mut self) -> (r: Vec<StreamEvent>)
        ensures
            final(self)@.0 == old(self)@.0,
            (final(self)@.1, events_view(r@)) == sse_finish(old(self)@.1),
    {
        let mut out: Vec<StreamEvent> = Vec::new();
        assert(events_view(out@) =~= Seq::<Event>::empty());
        if !self.done {
            self.push_final(&mut out);
            assert(events_view(out@) =~= final_events(old(self)@.1));
        }
        out
    }
}

// ---------------------------------------------------------------------------
// A whole (not streamed) chat completion
// ---------------------------------------------------------------------------

/// The answer of a chat completion that was not streamed.
#[derive(Debug, Clone)]
pub struct ChatResponse {
    pub content: String,
    pub reasoning: Option<String>,
    pub usage: Usage,
}

/// `response["choices"][0]["message"]`.
pub open spec fn reply_message(v: Json) -> Json {
    field(elem(field(v, "choices"@), 0), "message"@)
}

/// The reasoning of a reply: `reasoning_content`, or else `reasoning`.
pub open spec fn reply_reasoning(v: Json) -> Option<Seq<char>> {
    match as_str(field(reply_message(v), "reasoning_content"@)) {
        Some(s) => Some(s),
        None => as_str(field(reply_message(v), "reasoning"@)),
    }
}

/// The usage a reply reports: its prompt and completion tokens (0 where missing).
pub open spec fn reply_usage(v: Json) -> Usage {
    Usage {
        prompt_tokens: u64_or_zero(as_u64(field(field(v, "usage"@), "prompt_tokens"@))),
        completion_tokens: u64_or_zero(as_u64(field(field(v, "usage"@), "completion_tokens"@))),
        cached_tokens: 0,
    }
}

/// `c` is what the response `v` says: the text of the first choice's message
/// (empty when missing), its reasoning, and the usage.
pub open spec fn reads_reply(c: ChatResponse, v: Json) -> bool {
    &&& c.content@ == opt_text(as_str(field(reply_message(v), "content"@)))
    &&& match c.reasoning {
        Some(s) => reply_reasoning(v) == Some(s@),
        None => reply_reasoning(v) is None,
    }
    &&& c.usage == reply_usage(v)
}

impl ChatResponse {
    /// Reads a chat completion response.
    pub fn from_json(v: &JsonValue) -> (r: ChatResponse)
        ensures
            reads_reply(r, v@),
    {
        let m = field_ref(elem_ref(field_ref(Some(v), "choices"), 0), "message");
        let content = match opt_as_str(field_ref(m, "content")) {
            Some(s) => copy_str(s),
            None => String::new(),
        };
        let reasoning = match opt_as_str(field_ref(m, "reasoning_content")) {
            Some(s) => Some(copy_str(s)),
            None => match opt_as_str(field_ref(m, "reasoning")) {
                Some(s) => Some(copy_str(s)),
                None => None,
            },
        };
        let u = field_ref(Some(v), "usage");
        let usage = Usage {
            prompt_tokens: match opt_as_u64(field_ref(u, "prompt_tokens")) {
                Some(n) => n,
                None => 0,
            },
            completion_tokens: match opt_as_u64(field_ref(u, "completion_tokens")) {
                Some(n) => n,
                None => 0,
            },
            cached_tokens: 0,
        };
        ChatResponse { content, reasoning, usage }
    }
}

impl ChatResponse {
    /// Reads the body of a chat completion response; `None` when the body
    /// is not JSON.
    pub fn from_body(body: &str) -> (r: Option<ChatResponse>)
        ensures
            match json_parse(body@) {
                Some(v) => r matches Some(c) && reads_reply(c, v),
                None => r is None,
            },
    {
        match parse_json(body) {
            Some(v) => Some(ChatResponse::from_json(&v)),
            None => None,
        }
    }
}

} // verus!
