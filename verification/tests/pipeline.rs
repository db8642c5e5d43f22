use fuyao_core::dispatch::{deliver, dispatch, intercept, run, InterceptResult, PipelineStep};
use fuyao_core::emit::{envelope, set_seq, stamp_session_id, Emitter};
use fuyao_core::message::{AssistantPayload, EventBase, OutputEvent};

fn make_assistant_event(content: &str) -> OutputEvent {
    OutputEvent::Assistant(envelope(AssistantPayload {
        content: Some(content.to_string()),
        reasoning: None,
        tool_calls: None,
        finish_reason: Some("stop".to_string()),
        completion_tokens: 0,
        prompt_tokens: 0,
        total_tokens: 0,
        reasoning_tokens: 0,
        cached_tokens: 0,
    }))
}

fn content(event: &OutputEvent) -> Option<&str> {
    match event {
        OutputEvent::Assistant(m) => m.payload.content.as_deref(),
        _ => panic!("应为 Assistant 事件"),
    }
}

fn emitter() -> Emitter {
    Emitter::new("test-session".to_string())
}

#[test]
fn dispatch_dispatch_passes_event_through_when_no_hooks() {
    let steps = dispatch(&emitter(), InterceptResult::Pass(make_assistant_event("hello")), false);
    assert_eq!(steps.len(), 2);
    let PipelineStep::Emit(event) = &steps[0] else {
        panic!("应收到事件");
    };
    assert_eq!(content(event), Some("hello"));
    assert_eq!(event.base().session_id.as_deref(), Some("test-session"));
}

#[test]
fn intercept_returns_modified_event() {
    let event = intercept(InterceptResult::Pass(make_assistant_event("HI"))).unwrap();
    assert_eq!(content(&event), Some("HI"));
}

#[test]
fn intercept_returns_none_on_block() {
    assert!(intercept(InterceptResult::Block("插件拦截".to_string())).is_none());
}

#[test]
fn dispatch_dispatch_drops_event_on_block() {
    let steps = dispatch(&emitter(), InterceptResult::Block("拦截丢弃".to_string()), true);
    assert!(steps.is_empty(), "Block 后不应有事件发出");
}

#[test]
fn dispatch_deliver_runs_observe_hooks() {
    let steps = deliver(&emitter(), make_assistant_event("observed"));
    assert!(matches!(&steps[1], PipelineStep::Observe(e) if content(e) == Some("observed")));
}

#[test]
fn dispatch_deliver_stamps_session_id() {
    let steps = deliver(&emitter(), make_assistant_event("tagged"));
    let PipelineStep::Emit(event) = &steps[0] else {
        panic!("应收到事件");
    };
    assert_eq!(event.base().session_id.as_deref(), Some("test-session"));
}

#[test]
fn dispatch_runs_process_before_deliver() {
    let steps = dispatch(&emitter(), InterceptResult::Pass(make_assistant_event("test")), true);
    let order: Vec<&str> = steps
        .iter()
        .map(|s| match s {
            PipelineStep::Process(_) => "process",
            PipelineStep::Emit(_) => "emit",
            PipelineStep::Observe(_) => "observe",
        })
        .collect();
    assert_eq!(order, vec!["process", "emit", "observe"]);
}

#[test]
fn callbacks_are_run() {
    let mut done = false;
    run(|| done = true);
    assert!(done);
}

#[test]
fn stamps_touch_only_the_session() {
    let event = set_seq(OutputEvent::TurnStart(EventBase::new()), 4);
    let event = stamp_session_id(event, "a");
    let event = stamp_session_id(event, "b");
    assert_eq!(event.base().session_id.as_deref(), Some("b"));
    assert_eq!(event.base().seq, Some(4));
    let other = set_seq(stamp_session_id(OutputEvent::TurnStart(EventBase::new()), "b"), 4);
    assert_eq!(other.base().session_id, event.base().session_id);
    assert_eq!(other.base().seq, event.base().seq);
    assert_eq!(emitter().session_id(), "test-session");
}
