use sts2agent::json::JsonValue;
use sts2agent::llm::{ChatMessage, SseDecoder, StreamEvent, TokenTally, Usage};

fn describe(evs: &[StreamEvent]) -> Vec<String> {
    evs.iter()
        .map(|e| match e {
            StreamEvent::Delta(t) => format!("delta:{t}"),
            StreamEvent::Reasoning(t) => format!("reasoning:{t}"),
            StreamEvent::ToolCall(c) => format!("call:{}:{}:{}", c.id, c.name, c.arguments),
            StreamEvent::Usage(u) => format!("usage:{}/{}/{}", u.prompt_tokens, u.completion_tokens, u.cached_tokens),
            StreamEvent::Done => "done".to_string(),
            StreamEvent::Error(e) => format!("error:{e}"),
        })
        .collect()
}

#[test]
fn deltas_split_across_chunks() {
    let mut d = SseDecoder::new();
    let a = d.feed("data: {\"choices\":[{\"delta\":{\"content\":\"He");
    assert!(a.is_empty());
    let b = d.feed("llo\"}}]}\n\ndata: {\"choices\":[{\"delta\":{\"reasoning_content\":\"hm\"}}]}\n");
    assert_eq!(describe(&b), vec!["delta:Hello", "reasoning:hm"]);
    let c = d.feed("data: [DONE]\n");
    assert_eq!(describe(&c), vec!["usage:0/0/0", "done"]);
    assert!(d.is_done());
    assert!(d.feed("data: {\"choices\":[{\"delta\":{\"content\":\"late\"}}]}\n").is_empty());
    assert!(d.finish().is_empty());
}

#[test]
fn tool_call_fragments_merge() {
    let mut d = SseDecoder::new();
    let body = [
        r#"data: {"choices":[{"delta":{"tool_calls":[{"index":0,"id":"c1","function":{"name":"combat_","arguments":"{\"card"}}]}}]}"#,
        r#"data: {"choices":[{"delta":{"tool_calls":[{"index":0,"function":{"name":"play_card","arguments":"_index\":0}"}}]}}]}"#,
        r#"data: {"choices":[],"usage":{"prompt_tokens":10,"completion_tokens":4,"prompt_tokens_details":{"cached_tokens":3}}}"#,
        "",
    ]
    .join("\n");
    let mut evs = d.feed(&body);
    assert!(evs.is_empty());
    evs.extend(d.finish());
    assert_eq!(
        describe(&evs),
        vec!["call:c1:combat_play_card:{\"card_index\":0}", "usage:10/4/3", "done"]
    );
}

#[test]
fn cache_hits_preferred_and_junk_skipped() {
    let mut d = SseDecoder::new();
    let evs = d.feed(": keep-alive\ndata: not json\ndata: {\"usage\":{\"prompt_tokens\":5,\"completion_tokens\":1,\"prompt_cache_hit_tokens\":2,\"prompt_tokens_details\":{\"cached_tokens\":9}}}\ndata: [DONE]\n");
    assert_eq!(describe(&evs), vec!["usage:5/1/2", "done"]);
}

#[test]
fn budget_tracking() {
    let mut t = TokenTally::new(1000);
    let u = Usage { prompt_tokens: 400, completion_tokens: 300, cached_tokens: 0 };
    t.record(&u);
    assert!(!t.over_token_limit());
    assert_eq!(t.total_input, 400);
    assert_eq!(t.total_output, 300);
    t.record(&u);
    assert!(t.over_token_limit());
}

#[test]
fn no_limit() {
    let mut none = TokenTally::new(0);
    none.record(&Usage { prompt_tokens: 999_999, completion_tokens: 999_999, cached_tokens: 0 });
    assert!(!none.over_token_limit());
}

#[test]
fn token_tally_restores_totals() {
    let mut t = TokenTally::new(10);
    t.record(&Usage { prompt_tokens: 3, completion_tokens: 4, cached_tokens: 2 });
    t.restore(1, 2);
    assert_eq!((t.total_input, t.total_output, t.total_cached), (1, 2, 2));
    assert!(!t.over_token_limit());
    t.restore(6, 4);
    assert!(t.over_token_limit());
}

#[test]
fn usage_total() {
    let u = Usage { prompt_tokens: 7, completion_tokens: 5, cached_tokens: 1 };
    assert_eq!(u.total(), 12);
    assert_eq!(Usage::zero().total(), 0);
}

#[test]
fn chat_message_shapes() {
    let m = ChatMessage::system("s");
    assert_eq!((m.role.as_str(), m.content.as_str()), ("system", "s"));
    let m = ChatMessage::tool("id1", "out");
    assert_eq!(m.role, "tool");
    assert_eq!(m.tool_call_id.as_deref(), Some("id1"));
    let calls = vec![("i".to_string(), "n".to_string(), "{}".to_string())];
    let m = ChatMessage::assistant_tool_calls("", &calls);
    assert_eq!(m.role, "assistant");
    let v: serde_json::Value =
        value_of(m.tool_calls.as_ref().unwrap());
    assert_eq!(v[0]["id"], "i");
    assert_eq!(v[0]["type"], "function");
    assert_eq!(v[0]["function"]["name"], "n");
    assert_eq!(v[0]["function"]["arguments"], "{}");
}

#[test]
fn whole_chat_response_is_read() {
    let v = parse_json(
        r#"{"choices":[{"message":{"content":"打出打击","reasoning_content":"先算伤害"}}],"usage":{"prompt_tokens":120,"completion_tokens":30,"prompt_cache_hit_tokens":100}}"#,
    )
    .unwrap();
    let r = sts2agent::llm::ChatResponse::from_json(&v);
    assert_eq!(r.content, "打出打击");
    assert_eq!(r.reasoning.as_deref(), Some("先算伤害"));
    assert_eq!(r.usage.prompt_tokens, 120);
    assert_eq!(r.usage.completion_tokens, 30);
    assert_eq!(r.usage.cached_tokens, 0);

    let v2 = parse_json(r#"{"choices":[{"message":{"reasoning":"r"}}]}"#).unwrap();
    let r2 = sts2agent::llm::ChatResponse::from_json(&v2);
    assert_eq!(r2.content, "");
    assert_eq!(r2.reasoning.as_deref(), Some("r"));
    assert_eq!(r2.usage.prompt_tokens, 0);

    let r3 = sts2agent::llm::ChatResponse::from_json(&parse_json("[]").unwrap());
    assert_eq!(r3.content, "");
    assert!(r3.reasoning.is_none());

    let r4 = sts2agent::llm::ChatResponse::from_body(
        r#"{"choices":[{"message":{"content":"好"}}],"usage":{"completion_tokens":2}}"#,
    )
    .unwrap();
    assert_eq!(r4.content, "好");
    assert_eq!(r4.usage.completion_tokens, 2);
    assert!(sts2agent::llm::ChatResponse::from_body("<html>").is_none());
}

/// A `serde_json::Value` in the library's JSON model.
fn model_of(v: &serde_json::Value) -> JsonValue {
    match v {
        serde_json::Value::Null => JsonValue::Null,
        serde_json::Value::Bool(b) => JsonValue::Bool(*b),
        serde_json::Value::Number(n) => match (n.as_u64(), n.as_i64()) {
            (Some(u), _) => JsonValue::Int(u as i128),
            (None, Some(i)) => JsonValue::Int(i as i128),
            (None, None) => JsonValue::Float(n.to_string()),
        },
        serde_json::Value::String(s) => JsonValue::Str(s.clone()),
        serde_json::Value::Array(a) => JsonValue::Array(a.iter().map(model_of).collect()),
        serde_json::Value::Object(m) => {
            JsonValue::Object(m.iter().map(|(k, x)| (k.clone(), model_of(x))).collect())
        }
    }
}

fn parse_json(text: &str) -> Option<JsonValue> {
    serde_json::from_str::<serde_json::Value>(text).ok().map(|v| model_of(&v))
}

/// A value of the library's JSON model as a `serde_json::Value`.
fn value_of(v: &JsonValue) -> serde_json::Value {
    match v {
        JsonValue::Null => serde_json::Value::Null,
        JsonValue::Bool(b) => serde_json::Value::Bool(*b),
        JsonValue::Int(n) => match (u64::try_from(*n), i64::try_from(*n)) {
            (Ok(u), _) => serde_json::Value::from(u),
            (Err(_), Ok(i)) => serde_json::Value::from(i),
            _ => serde_json::Value::Null,
        },
        JsonValue::Float(s) => s
            .parse::<serde_json::Number>()
            .map(serde_json::Value::Number)
            .unwrap_or(serde_json::Value::Null),
        JsonValue::Str(s) => serde_json::Value::String(s.clone()),
        JsonValue::Array(a) => serde_json::Value::Array(a.iter().map(value_of).collect()),
        JsonValue::Object(m) => {
            serde_json::Value::Object(m.iter().map(|(k, x)| (k.clone(), value_of(x))).collect())
        }
    }
}
