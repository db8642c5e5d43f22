use fuyao_core::interrupt::{
    classify, finish_streaming, finish_tool_batch, interrupted_assistant_payload,
    make_interrupt_tool_result, notify_idle, shutdown_payload, unfinished_tool_calls,
    InterruptKind, Outgoing, TurnState,
};
use fuyao_core::message::{InterruptPayload, InterruptSource, OutputEvent, ToolCallData};
use vstd::hash_set::StringHashSet;

fn call(id: &str, name: &str, arguments: &str) -> ToolCallData {
    ToolCallData { id: id.into(), name: name.into(), arguments: arguments.into() }
}

fn set(ids: &[&str]) -> StringHashSet {
    let mut s = StringHashSet::new();
    for id in ids {
        s.insert(id.to_string());
    }
    s
}

fn cancel() -> InterruptPayload {
    InterruptPayload { reason: "用户取消".into(), source: InterruptSource::User }
}

fn answered_id(out: &Outgoing) -> Option<String> {
    match out {
        Outgoing::Record(OutputEvent::ToolResult(m)) => Some(m.payload.tool_call_id.clone()),
        _ => None,
    }
}

#[test]
fn classify_streaming_with_tool_calls() {
    let tool_calls = vec![call("call_1", "read", "{}")];
    assert_eq!(classify(&tool_calls), InterruptKind::StreamingWithToolCalls);
}

#[test]
fn classify_streaming_plain() {
    assert_eq!(classify(&vec![]), InterruptKind::Streaming);
}

#[test]
fn unfinished_tool_calls_subtracts_answered_and_invalid() {
    let requested = vec![
        call("done", "echo", "{}"),
        call("blocked", "echo", "{}"),
        call("", "echo", "{}"),
        call("no_name", "", "{}"),
    ];
    let answered = set(&["done"]);
    let unfinished = unfinished_tool_calls(&requested, &answered);
    assert_eq!(unfinished.len(), 1, "已答与无效项都应被剔除");
    assert_eq!(unfinished[0].id, "blocked");
}

#[test]
fn unfinished_tool_calls_all_answered_is_empty() {
    let requested = vec![call("done", "echo", "{}")];
    let answered = set(&["done"]);
    assert!(unfinished_tool_calls(&requested, &answered).is_empty());
}

#[test]
fn interrupted_assistant_payload_zero_tokens() {
    let p = interrupted_assistant_payload("部分回复", "思考", None);
    assert_eq!(p.content.as_deref(), Some("部分回复"));
    assert_eq!(p.reasoning.as_deref(), Some("思考"));
    assert_eq!(p.finish_reason.as_deref(), Some("interrupted"));
    assert_eq!(p.prompt_tokens, 0);
    assert_eq!(p.completion_tokens, 0);
    assert!(p.tool_calls.is_none());
}

#[test]
fn interrupted_assistant_payload_empty_text_is_none() {
    let p = interrupted_assistant_payload("", "", None);
    assert_eq!(p.content, None);
    assert_eq!(p.reasoning, None);
}

#[test]
fn interrupted_assistant_payload_carries_tool_calls() {
    let tc = call("call_1", "search", "{\"q\":\"rust\"}");
    let bad = call("call_2", "bad", "not-json");
    let p = interrupted_assistant_payload("", "", Some(&vec![tc, bad]));
    let calls = p.tool_calls.expect("应携带 tool_calls");
    assert_eq!(calls.len(), 2);
    assert_eq!(calls[0].tool_name, "search");
    let mut map = serde_json::Map::new();
    map.insert("q".to_string(), serde_json::Value::String("rust".to_string()));
    assert_eq!(calls[0].tool_args, serde_json::Value::Object(map).to_string());
    assert_eq!(calls[1].tool_args, serde_json::Value::Null.to_string());
}

#[test]
fn interrupted_results_name_source_and_reason() {
    for (source, name) in [
        (InterruptSource::User, "User"),
        (InterruptSource::Stop, "Stop"),
        (InterruptSource::Shutdown, "Shutdown"),
    ] {
        let payload = InterruptPayload { reason: "原因".into(), source };
        let OutputEvent::ToolResult(m) =
            make_interrupt_tool_result("id".into(), "tool".into(), &payload)
        else {
            panic!("变体类型不符");
        };
        assert_eq!(m.payload.content, format!("[{name}][原因]"));
        assert_eq!(m.payload.tool_call_id, "id");
        assert_eq!(m.payload.tool_name, "tool");
    }
}

#[test]
fn idle_interrupts_are_announced() {
    let Outgoing::Notice(OutputEvent::Interrupt(m)) = notify_idle(&shutdown_payload()) else {
        panic!("应为通知");
    };
    assert_eq!(m.payload.reason, "引擎关闭");
    assert_eq!(m.payload.source, InterruptSource::Shutdown);
}

#[test]
fn empty_stream_leaves_only_the_notice() {
    let out = finish_streaming(&TurnState::new(), &cancel());
    assert_eq!(out.len(), 1);
    assert!(matches!(out[0], Outgoing::Notice(OutputEvent::Interrupt(_))));
}

#[test]
fn stream_with_calls_answers_the_complete_ones() {
    let state = TurnState {
        text: "写到一半".into(),
        reasoning: "".into(),
        tool_calls: vec![call("a", "x", "{}"), call("b", "", "{}"), call("c", "y", "{")],
    };
    let out = finish_streaming(&state, &cancel());
    assert_eq!(out.len(), 4);
    let Outgoing::Record(OutputEvent::Assistant(m)) = &out[1] else {
        panic!("应补发助手消息");
    };
    assert_eq!(m.payload.content.as_deref(), Some("写到一半"));
    assert_eq!(m.payload.tool_calls.as_ref().unwrap().len(), 2);
    let ids: Vec<String> = out.iter().filter_map(answered_id).collect();
    assert_eq!(ids, vec!["a", "c"]);
}

#[test]
fn stream_with_only_broken_calls_leaves_an_empty_list() {
    let state =
        TurnState { text: "".into(), reasoning: "".into(), tool_calls: vec![call("", "", "")] };
    let out = finish_streaming(&state, &cancel());
    assert_eq!(out.len(), 2);
    let Outgoing::Record(OutputEvent::Assistant(m)) = &out[1] else {
        panic!("应补发助手消息");
    };
    assert_eq!(m.payload.tool_calls.as_ref().unwrap().len(), 0);
}

#[test]
fn batch_answers_what_has_no_result() {
    let requested = vec![call("a", "x", "{}"), call("b", "x", "{}"), call("c", "x", "{}")];
    let out = finish_tool_batch(&requested, &set(&["b"]), &cancel());
    assert!(matches!(out[0], Outgoing::Notice(_)));
    let ids: Vec<String> = out.iter().filter_map(answered_id).collect();
    assert_eq!(ids, vec!["a", "c"]);
}

#[test]
fn states_begin_blank_and_can_be_cleared() {
    let mut state = TurnState::default();
    assert!(!state.has_started());
    state.reasoning = "想".into();
    assert!(state.has_started());
    state.clear();
    assert!(!state.has_started());
    assert!(state.tool_calls.is_empty());
}
