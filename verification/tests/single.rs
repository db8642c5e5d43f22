use fuyao_core::builders::tool_call_data_to_event;
use fuyao_core::chat::{StreamResult, StreamUsage, ThinkingType};
use fuyao_core::conversation::{Conversation, ConversationAction};
use fuyao_core::dispatcher::{DispatcherAction, DispatcherEvent, DispatcherStage, Engine};
use fuyao_core::emit::envelope;
use fuyao_core::handle::EngineHandle;
use fuyao_core::input::{EngineInput, PluginInput, UserInput};
use fuyao_core::interrupt::Outgoing;
use fuyao_core::message::{
    ChunkPayload, Envelope, EventBase, InterruptPayload, InterruptSource, MessageRole,
    OutputEvent, PluginSource, QueueUpdateKind, Timestamp, ToolCallData, UserMessageMode,
    UserMessageSource, UserPayload,
};
use fuyao_core::message_queue::{MessageQueues, QueuedUserMessage};
use fuyao_core::stream_session::{
    api_model_name, run_stream_session, stream_call, AgentModel, DecodedEvent, LlmFailure,
    StreamAccumulator, StreamPhase, StreamSessionAction, StreamSessionEvent, StreamTail,
};
use fuyao_core::turn_executor::{
    ExecutorAction, ExecutorCut, ExecutorEvent, ExecutorStage, TurnExecutor,
};

fn base(id: &str) -> EventBase {
    EventBase {
        id: id.into(),
        seq: None,
        timestamp: Timestamp { bits: 1234567890.5_f64.to_bits() },
        session_id: None,
    }
}

fn queued(id: &str, content: &str, mode: UserMessageMode) -> QueuedUserMessage {
    QueuedUserMessage {
        mode,
        message: Envelope {
            base: base(id),
            payload: UserPayload {
                content: content.into(),
                images: vec![],
                mode,
                source: UserMessageSource::User,
                client_message_id: None,
            },
        },
    }
}

fn user_input(id: &str, content: &str, mode: UserMessageMode) -> EngineInput {
    EngineInput::User(Envelope {
        base: base(id),
        payload: UserInput {
            content: content.into(),
            images: vec![],
            mode,
            source: UserMessageSource::User,
            client_message_id: None,
        },
    })
}

fn call(id: &str, name: &str, args: &str) -> ToolCallData {
    ToolCallData { id: id.into(), name: name.into(), arguments: args.into() }
}

fn result(text: &str, tool_calls: Vec<ToolCallData>) -> StreamResult {
    StreamResult { text: text.into(), reasoning: "".into(), tool_calls, usage: StreamUsage::new() }
}

fn agent(model_id: Option<&str>) -> AgentModel {
    AgentModel {
        model_id: model_id.map(String::from),
        thinking_type: Some(ThinkingType::Disabled),
        reasoning_effort: Some("low".into()),
    }
}

fn cut(accumulator: StreamAccumulator) -> ExecutorEvent {
    ExecutorEvent::Interrupted(ExecutorCut {
        payload: InterruptPayload { reason: "停".into(), source: InterruptSource::User },
        accumulator,
    })
}

fn names(actions: &[ExecutorAction]) -> Vec<String> {
    actions
        .iter()
        .map(|a| match a {
            ExecutorAction::Deliver(OutputEvent::User(m)) => format!("user {}", m.payload.content),
            ExecutorAction::Announce(OutputEvent::QueueUpdate(m)) => format!(
                "{:?} {}/{}",
                m.payload.kind, m.payload.guide_count, m.payload.pending_count
            ),
            ExecutorAction::Send(Outgoing::Notice(OutputEvent::TurnStart(_))) => "turn".into(),
            ExecutorAction::SendReply(OutputEvent::Assistant(m))
            | ExecutorAction::Send(Outgoing::Notice(OutputEvent::Assistant(m))) => {
                format!("reply {}", m.payload.finish_reason.as_deref().unwrap_or(""))
            }
            ExecutorAction::Send(Outgoing::Notice(OutputEvent::ToolResult(m))) => {
                format!("result {} {}", m.payload.tool_call_id, m.payload.content)
            }
            ExecutorAction::CheckCommand => "check".into(),
            ExecutorAction::CallModel => "call".into(),
            ExecutorAction::RunTools(calls) => format!("tools {}", calls.len()),
            ExecutorAction::Wait => "wait".into(),
            ExecutorAction::Exit => "exit".into(),
            _ => "other".into(),
        })
        .collect()
}

// ---- the dispatcher ----

#[test]
fn user_message_output_reuses_input_base() {
    let mut engine = Engine::new();
    let mut queues = MessageQueues::new();
    let id = "11111111-2222-3333-4444-555555555555";
    let input = user_input(id, "测试复用", UserMessageMode::Guide);
    let actions = engine.run(&mut queues, DispatcherEvent::Input(input));
    let Some(DispatcherAction::Check(event)) = actions.into_iter().next() else {
        panic!("应先经拦截");
    };
    assert_eq!(event.base().id, id);
    assert_eq!(f64::from_bits(event.base().timestamp.bits), 1234567890.5_f64);
    engine.run(&mut queues, DispatcherEvent::Checked(Some(event)));
    assert_eq!(queues.guide[0].message.base.id, id);
    assert_eq!(queues.guide[0].message.payload.content, "测试复用");
}

#[test]
fn user_message_emits_queue_update_on_enqueue() {
    let mut engine = Engine::new();
    let mut queues = MessageQueues::new();
    let id = "aaaaaaaa-bbbb-cccc-dddd-eeeeeeeeeeee";
    let input = user_input(id, "队列事件测试", UserMessageMode::Guide);
    let actions = engine.run(&mut queues, DispatcherEvent::Input(input));
    let Some(DispatcherAction::Check(event)) = actions.into_iter().next() else {
        panic!("应先经拦截");
    };
    let actions = engine.run(&mut queues, DispatcherEvent::Checked(Some(event)));
    assert!(matches!(actions[0], DispatcherAction::Wake));
    let DispatcherAction::Announce(OutputEvent::QueueUpdate(m)) = &actions[1] else {
        panic!("应有 QueueUpdate 事件");
    };
    assert_eq!(m.payload.kind, QueueUpdateKind::Enqueued);
    assert_eq!(m.base.id, id);
    assert_eq!((m.payload.guide_count, m.payload.pending_count), (1, 0));
}

#[test]
fn blocked_messages_are_gone() {
    let mut engine = Engine::new();
    let mut queues = MessageQueues::new();
    engine.run(
        &mut queues,
        DispatcherEvent::Input(user_input("x", "垃圾", UserMessageMode::Pending)),
    );
    assert!(engine.run(&mut queues, DispatcherEvent::Checked(None)).is_empty());
    assert!(queues.pending.is_empty());
    assert_eq!(engine.stage, DispatcherStage::Listening);
}

#[test]
fn messages_wait_where_the_sender_meant_them() {
    let mut engine = Engine::new();
    let mut queues = MessageQueues::new();
    let input = user_input("x", "稍后", UserMessageMode::Pending);
    let actions = engine.run(&mut queues, DispatcherEvent::Input(input));
    let Some(DispatcherAction::Check(OutputEvent::User(mut m))) = actions.into_iter().next()
    else {
        panic!("应先经拦截");
    };
    m.payload.mode = UserMessageMode::Guide;
    engine.run(&mut queues, DispatcherEvent::Checked(Some(OutputEvent::User(m))));
    assert_eq!(queues.pending.len(), 1);
}

#[test]
fn interrupts_and_notices_pass_through() {
    let mut engine = Engine::new();
    let mut queues = MessageQueues::new();
    let handle = EngineHandle::new(agent(None));
    let actions = engine.run(&mut queues, DispatcherEvent::Input(handle.cancel()));
    let DispatcherAction::Interrupt(c) = &actions[0] else {
        panic!("应发中断");
    };
    assert_eq!(c.payload.reason, "用户取消");
    assert!(matches!(&c.event, OutputEvent::Interrupt(m) if m.payload.reason == "用户取消"));
    let notice = EngineInput::Plugin(envelope(PluginInput {
        source: PluginSource { name: "p".into() },
        event_type: "t".into(),
        data: "{}".into(),
        error: None,
        message: Some("m".into()),
    }));
    let actions = engine.run(&mut queues, DispatcherEvent::Input(notice));
    assert!(matches!(&actions[0], DispatcherAction::Send(Outgoing::Notice(OutputEvent::Plugin(m)))
        if m.payload.source.name == "p" && m.payload.message.as_deref() == Some("m")));
}

#[test]
fn engine_shutdown_stops_loop() {
    let mut engine = Engine::new();
    let mut queues = MessageQueues::new();
    let handle = EngineHandle::new(agent(None));
    let actions = engine.run(&mut queues, DispatcherEvent::Input(handle.shutdown()));
    assert!(matches!(
        actions[..],
        [DispatcherAction::StopExecutor, DispatcherAction::AwaitExecutor]
    ));
    assert_eq!(engine.stage, DispatcherStage::Ended);
    let (executor, actions) = TurnExecutor::start(&mut queues);
    assert_eq!(names(&actions), vec!["wait"]);
    let (executor, actions) = executor.step(&mut queues, ExecutorEvent::Stopped);
    assert_eq!(names(&actions), vec!["exit"]);
    assert!(matches!(executor.stage, ExecutorStage::Ended));
    let mut other = Engine::new();
    let actions = other.run(&mut queues, DispatcherEvent::Closed);
    assert!(matches!(actions[..], [DispatcherAction::AwaitExecutor]));
}

// ---- the executor ----

#[test]
fn engine_send_message_produces_events() {
    let mut queues = MessageQueues::new();
    queues.put(queued("1", "Hi", UserMessageMode::Guide));
    let (executor, actions) = TurnExecutor::start(&mut queues);
    assert_eq!(names(&actions), vec!["user Hi", "Consumed 0/0", "turn", "check"]);
    let (executor, actions) = executor.step(&mut queues, ExecutorEvent::NoCommand);
    assert_eq!(names(&actions), vec!["call"]);
    let (_, actions) =
        executor.step(&mut queues, ExecutorEvent::Streamed(result("Hello", vec![])));
    assert_eq!(names(&actions), vec!["reply stop", "wait"]);
}

#[test]
fn pending_messages_move_when_idle() {
    let mut queues = MessageQueues::new();
    queues.put(queued("1", "a", UserMessageMode::Guide));
    queues.put(queued("2", "b", UserMessageMode::Pending));
    let (_, actions) = TurnExecutor::start(&mut queues);
    assert_eq!(
        names(&actions),
        vec!["Transferred 2/0", "user a", "Consumed 1/0", "turn", "check"]
    );
}

#[test]
fn tools_are_followed_by_another_round() {
    let mut queues = MessageQueues::new();
    queues.put(queued("1", "a", UserMessageMode::Guide));
    let (executor, _) = TurnExecutor::start(&mut queues);
    let (executor, _) = executor.step(&mut queues, ExecutorEvent::NoCommand);
    let reply = result("", vec![call("c", "echo", "{}")]);
    let (executor, actions) = executor.step(&mut queues, ExecutorEvent::Streamed(reply));
    assert_eq!(names(&actions), vec!["reply tool_calls", "tools 1"]);
    queues.put(queued("2", "补充", UserMessageMode::Guide));
    let (executor, actions) = executor.step(&mut queues, ExecutorEvent::ToolsDone);
    assert_eq!(names(&actions), vec!["user 补充", "Consumed 0/0", "check"]);
    assert!(matches!(executor.stage, ExecutorStage::RoundStart));
}

#[test]
fn empty_final_replies_are_not_shown() {
    let mut queues = MessageQueues::new();
    queues.put(queued("1", "a", UserMessageMode::Guide));
    let (executor, _) = TurnExecutor::start(&mut queues);
    let (executor, _) = executor.step(&mut queues, ExecutorEvent::NoCommand);
    let (_, actions) = executor.step(&mut queues, ExecutorEvent::Streamed(result("", vec![])));
    assert_eq!(names(&actions), vec!["wait"]);
}

fn streaming(queues: &mut MessageQueues) -> TurnExecutor {
    queues.put(queued("1", "a", UserMessageMode::Guide));
    let (executor, _) = TurnExecutor::start(queues);
    executor.step(queues, ExecutorEvent::NoCommand).0
}

#[test]
fn interrupted_streams_show_what_they_had() {
    let mut queues = MessageQueues::new();
    let mut acc = StreamAccumulator::new();
    acc.text = "部分".into();
    let (_, actions) = streaming(&mut queues).step(&mut queues, cut(acc));
    assert_eq!(names(&actions), vec!["reply interrupted", "wait"]);
    let mut acc = StreamAccumulator::new();
    acc.tool_calls = vec![call("c", "echo", "{}"), call("", "x", "{}")];
    let (_, actions) = streaming(&mut queues).step(&mut queues, cut(acc));
    assert_eq!(names(&actions), vec!["reply interrupted", "result c [User][停]", "wait"]);
    let mut acc = StreamAccumulator::new();
    acc.text = "部分".into();
    acc.phase = StreamPhase::Backoff;
    let (_, actions) = streaming(&mut queues).step(&mut queues, cut(acc));
    assert_eq!(names(&actions), vec!["wait"]);
    let (_, actions) =
        streaming(&mut queues).step(&mut queues, cut(StreamAccumulator::new()));
    assert_eq!(names(&actions), vec!["wait"]);
}

#[test]
fn interrupted_tools_all_get_a_result() {
    let mut queues = MessageQueues::new();
    let executor = streaming(&mut queues);
    let reply = result("", vec![call("a", "x", "{}"), call("b", "x", "{}")]);
    let (executor, _) = executor.step(&mut queues, ExecutorEvent::Streamed(reply));
    let (_, actions) = executor.step(&mut queues, cut(StreamAccumulator::new()));
    assert_eq!(names(&actions), vec!["result a [User][停]", "result b [User][停]", "wait"]);
}

#[test]
fn failures_and_commands_end_the_turn() {
    let mut queues = MessageQueues::new();
    let executor = streaming(&mut queues);
    queues.put(queued("2", "下一条", UserMessageMode::Pending));
    let (executor, actions) = executor.step(&mut queues, ExecutorEvent::StreamFailed);
    assert_eq!(
        names(&actions),
        vec!["Transferred 1/0", "user 下一条", "Consumed 0/0", "turn", "check"]
    );
    let (executor, actions) = executor.step(&mut queues, ExecutorEvent::Stopped);
    assert_eq!(names(&actions), vec!["exit"]);
    assert!(executor.step(&mut queues, ExecutorEvent::Woken).1.is_empty());
}

#[test]
fn a_stop_ends_the_executor_in_the_middle_of_a_turn() {
    let mut queues = MessageQueues::new();
    let executor = streaming(&mut queues);
    queues.put(queued("2", "下一条", UserMessageMode::Guide));
    let (_, actions) = executor.step(&mut queues, ExecutorEvent::Stopped);
    assert_eq!(names(&actions), vec!["exit"]);
    assert_eq!(queues.guide.len(), 1);
    let mut queues = MessageQueues::new();
    let executor = streaming(&mut queues);
    let reply = result("", vec![call("a", "x", "{}")]);
    let (executor, _) = executor.step(&mut queues, ExecutorEvent::Streamed(reply));
    let (_, actions) = executor.step(&mut queues, ExecutorEvent::Stopped);
    assert_eq!(names(&actions), vec!["exit"]);
}

// ---- the stream ----

fn tail(calls: Vec<ToolCallData>) -> StreamSessionEvent {
    StreamSessionEvent::Ended(StreamTail { tool_calls: calls, usage: StreamUsage::new() })
}

fn chunk(content: Option<&str>, reasoning: Option<&str>) -> OutputEvent {
    OutputEvent::Chunk(envelope(ChunkPayload {
        content: content.map(String::from),
        reasoning: reasoning.map(String::from),
    }))
}

fn decoded(events: Vec<OutputEvent>) -> StreamSessionEvent {
    StreamSessionEvent::Decoded(DecodedEvent {
        events,
        tool_calls: vec![],
        usage: StreamUsage::new(),
    })
}

fn returned(actions: &[StreamSessionAction]) -> &StreamResult {
    match actions.last() {
        Some(StreamSessionAction::Return(r)) => r,
        _ => panic!("应返回结果"),
    }
}

fn git_status() -> ToolCallData {
    call("tc1", "git", "{\"command\":\"status\"}")
}

#[test]
fn no_intercept_passes_original() {
    let (s, actions) = run_stream_session();
    assert!(matches!(actions[..], [StreamSessionAction::Open]));
    let (s, mut actions) = s.step(tail(vec![git_status()]));
    let Some(StreamSessionAction::CheckCall(event)) = actions.pop() else {
        panic!("应经拦截");
    };
    let (_, actions) = s.step(StreamSessionEvent::CallChecked(Some(event)));
    assert!(matches!(actions[0], StreamSessionAction::Deliver(_)));
    let r = returned(&actions);
    assert_eq!(r.tool_calls.len(), 1);
    assert_eq!(r.tool_calls[0].name, "git");
    assert_eq!(r.tool_calls[0].id, "tc1");
}

#[test]
fn intercept_modifies_tool_name() {
    let (s, _) = run_stream_session();
    let (s, _) = s.step(tail(vec![git_status()]));
    let mut changed = git_status();
    changed.name = "rtk git".into();
    let event = tool_call_data_to_event(&changed);
    let (_, actions) = s.step(StreamSessionEvent::CallChecked(Some(event)));
    assert_eq!(returned(&actions).tool_calls[0].name, "rtk git");
}

#[test]
fn intercept_blocks_tool_call() {
    let (s, _) = run_stream_session();
    let (s, _) = s.step(tail(vec![git_status()]));
    let (_, actions) = s.step(StreamSessionEvent::CallChecked(None));
    assert_eq!(actions.len(), 1);
    assert!(returned(&actions).tool_calls.is_empty());
}

#[test]
fn intercept_modifies_tool_args() {
    let (s, _) = run_stream_session();
    let (s, _) = s.step(tail(vec![git_status(), call("tc2", "ls", "{}")]));
    let event = tool_call_data_to_event(&call("tc1", "git", "{\"command\":\"log --oneline\"}"));
    let (s, actions) = s.step(StreamSessionEvent::CallChecked(Some(event)));
    assert!(matches!(actions[1], StreamSessionAction::CheckCall(_)));
    let (_, actions) = s.step(StreamSessionEvent::CallChecked(None));
    let r = returned(&actions);
    assert_eq!(r.tool_calls.len(), 1);
    let args: serde_json::Value = serde_json::from_str(&r.tool_calls[0].arguments).unwrap();
    assert_eq!(args["command"], "log --oneline");
}

#[test]
fn pieces_add_up() {
    let (s, _) = run_stream_session();
    let (s, actions) =
        s.step(decoded(vec![chunk(Some("你"), None), chunk(None, Some("想")), chunk(Some("好"), None)]));
    assert_eq!(actions.len(), 3);
    assert_eq!(s.accumulator.text, "你好");
    let (s, _) = s.step(decoded(vec![chunk(Some("！"), Some("完"))]));
    let (_, actions) = s.step(tail(vec![]));
    let r = returned(&actions);
    assert_eq!(r.text, "你好！");
    assert_eq!(r.reasoning, "想完");
}

fn failed(retryable: bool) -> StreamSessionEvent {
    StreamSessionEvent::Failed(LlmFailure { cause: "超时".into(), retryable })
}

fn error_of(action: &StreamSessionAction) -> (String, bool) {
    match action {
        StreamSessionAction::Send(Outgoing::Notice(OutputEvent::Error(m))) => {
            (m.payload.message.clone(), m.payload.recoverable)
        }
        _ => panic!("应发 Error 事件"),
    }
}

#[test]
fn plugins_decide_whether_to_call_again() {
    let (s, _) = run_stream_session();
    let (s, _) = s.step(failed(true));
    let (s, actions) = s.step(StreamSessionEvent::Decision(true));
    assert!(matches!(actions[..], [StreamSessionAction::Sleep(1)]));
    assert_eq!(s.accumulator.phase, StreamPhase::Backoff);
    let (s, actions) = s.step(StreamSessionEvent::Slept);
    assert!(matches!(actions[..], [StreamSessionAction::Open]));
    assert_eq!(s.accumulator.phase, StreamPhase::Streaming);
    let (s, actions) = s.step(failed(true));
    assert_eq!(error_of(&actions[0]), ("LLM 错误 (重试 2): 超时".to_string(), true));
    assert!(matches!(&actions[1], StreamSessionAction::AskPlugins(r)
        if r.attempt == 2 && r.cause == "超时"));
    let (_, actions) = s.step(StreamSessionEvent::Decision(false));
    assert_eq!(error_of(&actions[0]), ("超时".to_string(), false));
    assert!(matches!(&actions[1], StreamSessionAction::Fail(c) if c == "超时"));
}

#[test]
fn lasting_failures_end_the_stream() {
    let (s, _) = run_stream_session();
    let (s, actions) = s.step(failed(false));
    assert_eq!(error_of(&actions[0]), ("超时".to_string(), false));
    assert!(s.step(StreamSessionEvent::Slept).1.is_empty());
}

#[test]
fn pieces_set_the_count_back() {
    let (s, _) = run_stream_session();
    let (s, _) = s.step(failed(true));
    let (s, _) = s.step(StreamSessionEvent::Decision(true));
    let (s, _) = s.step(StreamSessionEvent::Slept);
    let (s, _) = s.step(decoded(vec![]));
    let (_, actions) = s.step(failed(true));
    assert_eq!(error_of(&actions[0]).0, "LLM 错误 (重试 1): 超时");
}

#[test]
fn providers_know_models_by_short_names() {
    assert_eq!(api_model_name("aliyun/qwen3.6-plus"), "qwen3.6-plus");
    assert_eq!(api_model_name("a/b/c"), "b");
    assert_eq!(api_model_name("plain"), "plain");
    assert_eq!(api_model_name("x/"), "");
    let call = stream_call(&agent(None), Some(vec!["{}".into()]));
    assert_eq!(call.model, "unknown");
    assert_eq!(call.options.tools.unwrap().len(), 1);
    assert_eq!(call.options.thinking_type, Some(ThinkingType::Disabled));
    assert_eq!(call.options.reasoning_effort.as_deref(), Some("low"));
}

#[test]
fn accumulators_can_be_cleared() {
    let mut acc = StreamAccumulator::new();
    acc.text = "x".into();
    acc.phase = StreamPhase::Backoff;
    acc.clear();
    assert_eq!(acc.text, "");
    assert_eq!(acc.phase, StreamPhase::Streaming);
}

// ---- the user's side ----

#[test]
fn queue_snapshot_previews_thirty_characters() {
    let mut queues = MessageQueues::new();
    queues.put(queued("1", &"长".repeat(31), UserMessageMode::Guide));
    queues.put(queued("2", "短", UserMessageMode::Pending));
    let snapshot = EngineHandle::new(agent(None)).queue_snapshot(&queues);
    assert_eq!(snapshot.guide.len(), 1);
    assert_eq!(snapshot.guide[0].content_preview, "长".repeat(30));
    assert_eq!(snapshot.guide[0].id, "1");
    assert_eq!(snapshot.pending[0].content_preview, "短");
    assert_eq!(snapshot.pending[0].mode, UserMessageMode::Pending);
}

#[test]
fn engine_register_tool() {
    let mut handle = EngineHandle::new(agent(Some("test-model")));
    assert!(handle.offered_tools(false).is_none());
    handle.register_tool("{\"type\":\"function\"}".into());
    assert_eq!(handle.tools_schema().len(), 1);
    assert_eq!(handle.offered_tools(false).unwrap().len(), 1);
    assert!(handle.offered_tools(true).is_none());
    assert_eq!(handle.agent_ctx().model_id.as_deref(), Some("test-model"));
    handle.set_agent_ctx(agent(Some("other")));
    assert_eq!(handle.agent_ctx().model_id.as_deref(), Some("other"));
    assert!(matches!(handle.send_message("Hi".into()), EngineInput::User(m)
        if m.payload.content == "Hi" && m.payload.mode == UserMessageMode::Guide));
}

// ---- a conversation without tools ----

#[test]
fn conversations_keep_and_store_what_is_said() {
    let mut c = Conversation::new(Some("系统".into()));
    let model = agent(Some("p/m"));
    let actions = c.handle_input(user_input("1", "问", UserMessageMode::Guide), &model);
    assert!(matches!(&actions[0], ConversationAction::Emit(OutputEvent::User(m))
        if m.payload.content == "问"));
    let ConversationAction::Call(call) = &actions[1] else {
        panic!("应调用模型");
    };
    assert_eq!(call.model, "m");
    assert_eq!(call.request.system.as_deref(), Some("系统"));
    assert_eq!(call.request.messages.len(), 1);
    let actions = c.handle_reply(Some(result("答", vec![])), &model.model_id);
    assert!(matches!(&actions[0], ConversationAction::Emit(OutputEvent::Assistant(m))
        if m.payload.content.as_deref() == Some("答")
            && m.payload.finish_reason.as_deref() == Some("stop")));
    assert!(matches!(actions[1], ConversationAction::Persist));
    assert_eq!(c.message_count, 2);
    assert_eq!(c.messages[1].role, MessageRole::Assistant);
    assert_eq!(c.messages[1].model_id.as_deref(), Some("p/m"));
}

#[test]
fn failed_calls_still_store_the_question() {
    let mut c = Conversation::new(None);
    let model = agent(Some("nomodel"));
    let actions = c.handle_input(user_input("1", "问", UserMessageMode::Guide), &model);
    assert!(matches!(&actions[1], ConversationAction::Call(call) if call.model.is_empty()));
    let actions = c.handle_reply(None, &None);
    assert!(matches!(actions[..], [ConversationAction::Persist]));
    assert_eq!(c.message_count, 1);
    let handle = EngineHandle::new(agent(None));
    assert!(c.handle_input(handle.cancel(), &model).is_empty());
}

#[test]
fn ended_streams_ask_for_nothing_more() {
    let (s, _) = run_stream_session();
    let (s, _) = s.step(failed(true));
    let (s, _) = s.step(StreamSessionEvent::Decision(true));
    let (s, _) = s.step(StreamSessionEvent::Slept);
    let (s, _) = s.step(decoded(vec![chunk(Some("好"), None)]));
    let (s, actions) = s.step(tail(vec![]));
    assert_eq!(returned(&actions).text, "好");
    let (s, actions) = s.step(decoded(vec![chunk(Some("多余"), None)]));
    assert!(actions.is_empty());
    let (s, actions) = s.step(failed(true));
    assert!(actions.is_empty());
    let (_, actions) = s.step(tail(vec![git_status()]));
    assert!(actions.is_empty());
}

#[test]
fn shown_calls_are_the_ones_run() {
    let mut queues = MessageQueues::new();
    let executor = streaming(&mut queues);
    let reply = result("", vec![call("a", "git", "{}")]);
    let (executor, actions) = executor.step(&mut queues, ExecutorEvent::Streamed(reply));
    let Some(ExecutorAction::SendReply(OutputEvent::Assistant(m))) = actions.into_iter().next()
    else {
        panic!("应发回复");
    };
    let mut m = m;
    m.payload.content = Some("改写".into());
    m.payload.tool_calls.as_mut().unwrap()[0].tool_name = "rm".into();
    let Some(OutputEvent::Assistant(shown)) = executor.shown_reply(Some(OutputEvent::Assistant(m)))
    else {
        panic!("应展示回复");
    };
    assert_eq!(shown.payload.content.as_deref(), Some("改写"));
    assert_eq!(shown.payload.tool_calls.unwrap()[0].tool_name, "git");
    assert!(executor.shown_reply(None).is_none());
}
