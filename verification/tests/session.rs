use fuyao_core::builders::{build_chat_request, resolve_model};
use fuyao_core::chat::{ChatRequest, ModelConfig, StreamResult, StreamUsage};
use fuyao_core::emit::{envelope, Emitter};
use fuyao_core::history::{after_store, emission, reply_emission, throttle_images, Bill, Emission};
use fuyao_core::interrupt::{Outgoing, TurnState};
use fuyao_core::message::{
    AssistantPayload, ControlCommand, ControlPayload, Cost, InterruptPayload, InterruptSource, Message, MessageRole,
    OutputEvent, PluginSource, QueueEntry, ToolCallData, ToolCallPayload, ToolResultPayload,
    UserMessageMode, UserMessageSource, UserPayload,
};
use fuyao_core::model::Dup;
use fuyao_core::queue::{BatchStep, TurnOutcome};
use fuyao_core::session::{handle_control, SessionAction, SessionEvent, SessionLoop, TurnPhase};
use fuyao_core::snapshot::{SnapshotAction, SnapshotEvent, SnapshotRow, SnapshotRun, SnapshotTree};
use fuyao_core::turn::{Turn, TurnAction, TurnCut, TurnEvent};
use std::collections::{BTreeMap, VecDeque};

/// What happens while the model is replying or tools are running.
enum Happening {
    Inbound(QueueEntry),
    Interrupt(InterruptPayload, TurnState),
    Shutdown(TurnState),
    ToolDone(String, String),
}

type Plugin = Box<dyn Fn(OutputEvent) -> Option<OutputEvent>>;

/// Everything around a session, in memory.
struct World {
    emitter: Emitter,
    plugin: Plugin,
    store: Vec<Message>,
    events: Vec<OutputEvent>,
    replies: VecDeque<Result<StreamResult, String>>,
    during_stream: VecDeque<Vec<Happening>>,
    during_tools: VecDeque<Vec<Happening>>,
    requests: Vec<ChatRequest>,
    commands: Vec<(ControlCommand, Option<String>)>,
    executed: Vec<String>,
    snapshots: Vec<i64>,
    snapshots_enabled: bool,
    files: BTreeMap<String, String>,
    trees: Vec<BTreeMap<String, String>>,
    rows: Vec<SnapshotRow>,
    phases: Vec<TurnPhase>,
    titles: Vec<Option<String>>,
    usage: Option<StreamUsage>,
    turns: usize,
    exited: bool,
}

fn usage(prompt: u32, completion: u32) -> StreamUsage {
    StreamUsage {
        prompt_tokens: prompt,
        completion_tokens: completion,
        total_tokens: prompt + completion,
        completion_reasoning_tokens: None,
        prompt_cached_tokens: None,
    }
}

fn text(content: &str) -> Result<StreamResult, String> {
    Ok(StreamResult {
        text: content.into(),
        reasoning: String::new(),
        tool_calls: vec![],
        usage: StreamUsage::new(),
    })
}

fn call(id: &str, name: &str, args: &str) -> ToolCallData {
    ToolCallData { id: id.into(), name: name.into(), arguments: args.into() }
}

fn calls(list: Vec<ToolCallData>) -> Result<StreamResult, String> {
    Ok(StreamResult {
        text: String::new(),
        reasoning: String::new(),
        tool_calls: list,
        usage: StreamUsage::new(),
    })
}

fn user_with_mode(content: &str, mode: UserMessageMode) -> QueueEntry {
    QueueEntry::User(envelope(UserPayload {
        content: content.into(),
        images: vec![],
        mode,
        source: UserMessageSource::User,
        client_message_id: None,
    }))
}

fn user(content: &str) -> QueueEntry {
    user_with_mode(content, UserMessageMode::Guide)
}

fn pending(content: &str) -> QueueEntry {
    user_with_mode(content, UserMessageMode::Pending)
}

fn compress(note: Option<&str>) -> QueueEntry {
    QueueEntry::Control(envelope(ControlPayload {
        command: ControlCommand::Compress,
        mode: UserMessageMode::Guide,
        client_message_id: Some("cmd-1".into()),
        note: note.map(String::from),
    }))
}

fn cancel() -> InterruptPayload {
    InterruptPayload { reason: "用户取消".into(), source: InterruptSource::User }
}

fn state(text: &str, reasoning: &str, tool_calls: Vec<ToolCallData>) -> TurnState {
    TurnState { text: text.into(), reasoning: reasoning.into(), tool_calls }
}

impl World {
    fn new(replies: Vec<Result<StreamResult, String>>) -> World {
        World {
            emitter: Emitter::new("test-session".into()),
            plugin: Box::new(Some),
            store: vec![],
            events: vec![],
            replies: replies.into(),
            during_stream: VecDeque::new(),
            during_tools: VecDeque::new(),
            requests: vec![],
            commands: vec![],
            executed: vec![],
            snapshots: vec![],
            snapshots_enabled: true,
            files: BTreeMap::new(),
            trees: vec![],
            rows: vec![],
            phases: vec![],
            titles: vec![],
            usage: None,
            turns: 0,
            exited: false,
        }
    }

    fn record(&mut self, event: OutputEvent) -> Option<i64> {
        let emission = emission((self.plugin)(event), None);
        self.keep(emission)
    }

    fn record_reply(&mut self, event: OutputEvent, calls: &Vec<ToolCallData>) -> Option<i64> {
        let bill = Bill { model_id: "test/test-model".into(), cost: Cost { bits: 0 } };
        let emission = reply_emission((self.plugin)(event), calls, Some(&bill));
        self.keep(emission)
    }

    fn keep(&mut self, emission: Emission) -> Option<i64> {
        match emission {
            Emission::Blocked => None,
            Emission::Shown(event) => {
                let event = self.emitter.emit(event);
                self.events.push(event);
                None
            }
            Emission::Stored(event, mut msg) => {
                let seq = self.store.len() as i64 + 1;
                msg.seq = seq;
                self.store.push(msg);
                let event = self.emitter.emit(after_store(event, Some(seq)));
                self.events.push(event);
                Some(seq)
            }
        }
    }

    fn send(&mut self, out: Outgoing) {
        match out {
            Outgoing::Notice(event) => {
                if let Some(event) = (self.plugin)(event) {
                    let event = self.emitter.emit(event);
                    self.events.push(event);
                }
            }
            Outgoing::Record(event) => {
                self.record(event);
            }
        }
    }

    fn consume(&mut self, steps: Vec<BatchStep>) {
        for step in steps {
            match step {
                BatchStep::Inject(run) => {
                    for msg in run {
                        self.record(OutputEvent::User(throttle_images(msg)));
                    }
                }
                BatchStep::Control(msg) => {
                    let plan = handle_control(msg);
                    self.send(plan.echo);
                    self.commands.push((plan.command, plan.note));
                }
            }
        }
    }

    fn write_file(&mut self, arguments: &str) -> String {
        let args: serde_json::Value = serde_json::from_str(arguments).unwrap();
        let path = args["path"].as_str().unwrap().to_string();
        let content = args["content"].as_str().unwrap().to_string();
        self.files.insert(path.clone(), content);
        format!("已写入 {path}")
    }

    fn take_snapshot(&mut self, seq: i64) {
        self.snapshots.push(seq);
        let begun = SnapshotRun::record_snapshot_row(Some(seq), self.snapshots_enabled);
        let Some((mut run, actions)) = begun else {
            return;
        };
        let mut todo: VecDeque<SnapshotAction> = actions.into();
        while let Some(action) = todo.pop_front() {
            match action {
                SnapshotAction::FindPrevious => {
                    let last = self.rows.last().map(|r| r.tree.tree_hash.clone());
                    todo.extend(run.step(SnapshotEvent::Previous(last)));
                }
                SnapshotAction::Track(previous) => {
                    let files = match previous {
                        None => vec![],
                        Some(hash) => {
                            let old = &self.trees[hash.parse::<usize>().unwrap()];
                            let changed = self.files.iter().filter(|(k, v)| old.get(*k) != Some(*v));
                            changed.map(|(k, _)| k.clone()).collect()
                        }
                    };
                    let tree_hash = self.trees.len().to_string();
                    self.trees.push(self.files.clone());
                    let tree = SnapshotTree { tree_hash, files };
                    todo.extend(run.step(SnapshotEvent::Recorded(Some(tree))));
                }
                SnapshotAction::Insert(row) => self.rows.push(row),
            }
        }
    }

    fn run_turn(&mut self, session: &mut SessionLoop) -> TurnOutcome {
        self.turns += 1;
        let config = ModelConfig {
            model_id: "test/test-model".into(),
            thinking_type: None,
            reasoning_effort: None,
        };
        let model = resolve_model(&config, vec![], None);
        let (mut turn, actions) = Turn::begin(&model, true, &vec!["test".into()]);
        let mut todo: VecDeque<TurnAction> = actions.into();
        while let Some(action) = todo.pop_front() {
            let mut news: Vec<TurnEvent> = vec![];
            match action {
                TurnAction::CallModel => {
                    self.requests.push(build_chat_request(&self.store, None));
                    for h in self.during_stream.pop_front().unwrap_or_default() {
                        news.push(match h {
                            Happening::Inbound(entry) => TurnEvent::Inbound(entry),
                            Happening::Interrupt(payload, state) => {
                                TurnEvent::Interrupted(TurnCut { payload, state })
                            }
                            Happening::Shutdown(state) => TurnEvent::Shutdown(state),
                            Happening::ToolDone(..) => panic!("流式期间没有工具结果"),
                        });
                    }
                    news.push(match self.replies.pop_front() {
                        Some(Ok(result)) => TurnEvent::Streamed(result),
                        Some(Err(cause)) => TurnEvent::StreamFailed(cause),
                        None => TurnEvent::StreamFailed("回复已用尽".into()),
                    });
                }
                TurnAction::CheckCall(event) => {
                    news.push(TurnEvent::CallChecked((self.plugin)(event)));
                }
                TurnAction::Deliver(event) => {
                    let event = self.emitter.emit(event);
                    self.events.push(event);
                }
                TurnAction::KeepUsage(usage) => self.usage = Some(usage),
                TurnAction::StoreReply(event) => {
                    let seq = self.record_reply(event, &turn.reply_calls());
                    news.push(TurnEvent::ReplyStored(seq));
                }
                TurnAction::Send(out) => self.send(out),
                TurnAction::Snapshot(seq) => self.take_snapshot(seq),
                TurnAction::RunTools(calls) => match self.during_tools.pop_front() {
                    Some(list) => {
                        for h in list {
                            news.push(match h {
                                Happening::Inbound(entry) => TurnEvent::Inbound(entry),
                                Happening::Interrupt(payload, state) => {
                                    TurnEvent::Interrupted(TurnCut { payload, state })
                                }
                                Happening::Shutdown(state) => TurnEvent::Shutdown(state),
                                Happening::ToolDone(id, content) => {
                                    self.executed.push(id.clone());
                                    TurnEvent::ToolDone(ToolResultPayload {
                                        tool_call_id: id,
                                        tool_name: "echo".into(),
                                        content,
                                    })
                                }
                            });
                        }
                        news.push(TurnEvent::ToolsDone);
                    }
                    None => {
                        for c in calls {
                            self.executed.push(c.id.clone());
                            let content = if c.name == "write_file" {
                                self.write_file(&c.arguments)
                            } else {
                                format!("echo:{}", c.arguments)
                            };
                            news.push(TurnEvent::ToolDone(ToolResultPayload {
                                tool_call_id: c.id,
                                tool_name: c.name,
                                content,
                            }));
                        }
                        news.push(TurnEvent::ToolsDone);
                    }
                },
                TurnAction::CancelTools => {}
                TurnAction::Consume(steps) => self.consume(steps),
                TurnAction::Finish(outcome) => {
                    assert!(todo.is_empty(), "结束后不应再有动作");
                    assert_eq!(turn.outcome(), Some(outcome));
                    return outcome;
                }
            }
            for event in news {
                if turn.outcome().is_some() {
                    break;
                }
                let (next, more) = turn.step(&session.gate, &mut session.queues, event);
                turn = next;
                todo.extend(more);
            }
        }
        panic!("turn 未结束");
    }

    fn run(&mut self, session: &mut SessionLoop, actions: Vec<SessionAction>) {
        let mut todo: VecDeque<SessionAction> = actions.into();
        while let Some(action) = todo.pop_front() {
            match action {
                SessionAction::SetPhase(phase) => self.phases.push(phase),
                SessionAction::CheckCompression => {
                    todo.extend(session.step(SessionEvent::Compressed(false)));
                }
                SessionAction::Consume(steps) => self.consume(steps),
                SessionAction::OfferTitle(seed) => self.titles.push(seed),
                SessionAction::RunTurn => {
                    let outcome = self.run_turn(session);
                    todo.extend(session.step(SessionEvent::TurnDone(outcome)));
                }
                SessionAction::Send(out) => self.send(out),
                SessionAction::Wait => assert!(todo.is_empty()),
                SessionAction::Exit => self.exited = true,
            }
        }
    }

    fn tell(&mut self, session: &mut SessionLoop, event: SessionEvent) {
        let actions = session.step(event);
        self.run(session, actions);
    }

    fn contents(&self) -> Vec<String> {
        self.store.iter().map(|m| m.content.clone().unwrap_or_default()).collect()
    }

    fn pos(&self, needle: &str) -> usize {
        self.contents().iter().position(|c| c == needle).unwrap_or_else(|| panic!("缺 {needle}"))
    }

    fn kinds(&self) -> Vec<&'static str> {
        self.events
            .iter()
            .map(|e| match e {
                OutputEvent::User(_) => "user",
                OutputEvent::Assistant(_) => "assistant",
                OutputEvent::ToolCall(_) => "tool_call",
                OutputEvent::ToolResult(_) => "tool_result",
                OutputEvent::Interrupt(_) => "interrupt",
                OutputEvent::Error(_) => "error",
                OutputEvent::Control(_) => "control",
                _ => "other",
            })
            .collect()
    }
}

fn started(world: &mut World, entries: Vec<QueueEntry>) -> SessionLoop {
    let mut session = SessionLoop::new();
    let mut iter = entries.into_iter();
    let first = iter.next();
    for entry in iter {
        session.queues.put(entry);
    }
    if let Some(entry) = first {
        world.tell(&mut session, SessionEvent::Inbound(entry));
    }
    session
}

#[test]
fn single_turn_no_tools() {
    let mut w = World::new(vec![text("你好")]);
    let session = started(&mut w, vec![user("用户问题")]);
    assert_eq!(w.contents(), vec!["用户问题", "你好"]);
    assert_eq!(w.store[0].role, MessageRole::User);
    assert_eq!(w.store[1].role, MessageRole::Assistant);
    for ev in &w.events {
        assert_eq!(ev.base().session_id.as_deref(), Some("test-session"));
    }
    assert!(session.queues.guide.is_empty());
    assert_eq!(w.phases, vec![TurnPhase::Running, TurnPhase::Idle]);
    assert_eq!(w.titles, vec![Some("用户问题".to_string())]);
}

#[test]
fn react_loop_with_tool() {
    let mut w = World::new(vec![
        calls(vec![call("call_1", "echo", "{\"msg\":\"hi\"}")]),
        text("工具执行完毕"),
    ]);
    started(&mut w, vec![user("调工具")]);
    assert!(w.store.len() >= 3);
    assert_eq!(w.store.last().unwrap().role, MessageRole::Assistant);
    assert_eq!(w.kinds(), vec!["user", "tool_call", "assistant", "tool_result", "assistant"]);
}

#[test]
fn tool_result_in_messages() {
    let mut w = World::new(vec![calls(vec![call("tc_42", "echo", "{\"x\":1}")]), text("完成")]);
    started(&mut w, vec![user("test")]);
    let tool = w.store.iter().find(|m| m.role == MessageRole::Tool).expect("应有 tool 角色消息");
    assert_eq!(tool.tool_call_id.as_deref(), Some("tc_42"));
    assert!(tool.content.as_ref().unwrap().contains("echo"));
}

#[test]
fn llm_error_emits_error_event() {
    let mut w = World::new(vec![Err("认证失败: 无效密钥".into())]);
    let session = started(&mut w, vec![user("test")]);
    let Some(OutputEvent::Error(m)) = w.events.last() else {
        panic!("应有 Error 事件");
    };
    assert!(!m.payload.recoverable);
    assert_eq!(m.payload.message, "LLM 调用失败: 认证失败: 无效密钥");
    assert!(!w.kinds().contains(&"assistant"));
    assert!(session.gate.paused());
}

#[test]
fn guide_all_consumed_on_tool_complete() {
    let mut w = World::new(vec![calls(vec![call("c1", "echo", "{}")]), text("done")]);
    w.during_tools.push_back(vec![
        Happening::Inbound(user("补充1")),
        Happening::Inbound(user("补充2")),
        Happening::ToolDone("c1".into(), "ok".into()),
    ]);
    let session = started(&mut w, vec![user("原始问题")]);
    assert_eq!(w.contents(), vec!["原始问题", "", "ok", "补充1", "补充2", "done"]);
    assert!(session.queues.guide.is_empty());
    assert_eq!(w.turns, 1);
}

#[test]
fn pending_before_guide_on_final_reply() {
    let mut w = World::new(vec![text("回复1"), text("回复2")]);
    w.during_stream.push_back(vec![
        Happening::Inbound(pending("排队消息")),
        Happening::Inbound(user("引导消息")),
    ]);
    let session = started(&mut w, vec![user("第一条")]);
    assert!(w.pos("引导消息") < w.pos("排队消息"));
    assert!(w.pos("引导消息") > w.pos("回复1"));
    assert!(w.pos("排队消息") < w.pos("回复2"));
    assert!(session.queues.guide.is_empty() && session.queues.pending.is_empty());
    assert!(!session.gate.paused());
}

#[test]
fn both_empty_turn_ends() {
    let mut w = World::new(vec![text("回复")]);
    started(&mut w, vec![user("问题")]);
    assert_eq!(w.store.len(), 2);
}

#[test]
fn guide_via_channel_consumed_after_tool_batch() {
    let mut w = World::new(vec![calls(vec![call("tc_1", "echo", "{}")]), text("最终回复")]);
    w.during_tools.push_back(vec![
        Happening::Inbound(user("工具期间补充")),
        Happening::ToolDone("tc_1".into(), "done".into()),
    ]);
    started(&mut w, vec![user("原始问题")]);
    assert!(w.pos("done") < w.pos("工具期间补充"));
    assert!(w.pos("工具期间补充") < w.pos("最终回复"));
}

#[test]
fn inbound_during_streaming_consumed_at_final_reply() {
    let mut w = World::new(vec![text("第一轮回复"), text("第二轮回复")]);
    w.during_stream.push_back(vec![Happening::Inbound(user("补充"))]);
    started(&mut w, vec![user("问题")]);
    assert_eq!(w.contents(), vec!["问题", "第一轮回复", "补充", "第二轮回复"]);
    assert_eq!(w.turns, 1);
}

#[test]
fn interrupt_after_inbound_preserves_guide_queue() {
    let mut w = World::new(vec![text("不会到达")]);
    w.during_stream.push_back(vec![
        Happening::Inbound(user("保留我")),
        Happening::Interrupt(cancel(), state("部分", "", vec![])),
    ]);
    let session = started(&mut w, vec![user("问题")]);
    assert_eq!(session.queues.guide.len(), 1);
    assert!(session.gate.paused());
    assert_eq!(w.contents(), vec!["问题", "部分"]);
}

#[test]
fn pending_via_channel_consumed_at_final_reply_not_tool_batch() {
    let mut w = World::new(vec![
        calls(vec![call("c1", "echo", "{}")]),
        text("回复1"),
        text("回复2"),
    ]);
    w.during_tools.push_back(vec![
        Happening::Inbound(pending("排队")),
        Happening::ToolDone("c1".into(), "ok".into()),
    ]);
    started(&mut w, vec![user("问题")]);
    assert_eq!(w.contents(), vec!["问题", "", "ok", "回复1", "排队", "回复2"]);
}

#[test]
fn pending_consumed_when_task_idle() {
    let mut w = World::new(vec![text("回复")]);
    started(&mut w, vec![pending("只发排队")]);
    assert_eq!(w.contents(), vec!["只发排队", "回复"]);
}

#[test]
fn turn_restart_on_new_inbound_after_drained() {
    let mut w = World::new(vec![text("回复1"), text("回复2")]);
    let mut session = started(&mut w, vec![user("一")]);
    w.tell(&mut session, SessionEvent::Inbound(user("二")));
    assert_eq!(w.contents(), vec!["一", "回复1", "二", "回复2"]);
    assert_eq!(w.turns, 2);
}

#[test]
fn interrupted_turn_preserves_guide_until_new_inbound() {
    let mut w = World::new(vec![text("x"), text("回复")]);
    w.during_stream.push_back(vec![
        Happening::Inbound(user("旧剩余")),
        Happening::Interrupt(cancel(), state("", "", vec![])),
    ]);
    let mut session = started(&mut w, vec![user("问题")]);
    assert_eq!(w.contents(), vec!["问题"]);
    w.tell(&mut session, SessionEvent::Interrupted(cancel()));
    assert_eq!(session.queues.guide.len(), 1, "中断不恢复消费");
    w.replies = vec![text("回复")].into();
    w.tell(&mut session, SessionEvent::Inbound(user("新消息")));
    assert_eq!(w.contents(), vec!["问题", "旧剩余", "新消息", "回复"]);
    assert!(session.queues.guide.is_empty());
}

#[test]
fn interrupt_during_streaming() {
    let mut w = World::new(vec![text("不会到达")]);
    w.during_stream.push_back(vec![Happening::Interrupt(cancel(), state("你好", "", vec![]))]);
    started(&mut w, vec![user("问题")]);
    assert_eq!(w.kinds(), vec!["user", "interrupt", "assistant"]);
    let last = w.store.last().unwrap();
    assert_eq!(last.content.as_deref(), Some("你好"));
    assert_eq!(last.finish_reason.as_deref(), Some("interrupted"));
    assert_eq!(last.model_id, None);
}

#[test]
fn interrupt_during_streaming_reasoning_only() {
    let mut w = World::new(vec![text("不会到达")]);
    w.during_stream.push_back(vec![Happening::Interrupt(cancel(), state("", "思考", vec![]))]);
    started(&mut w, vec![user("问题")]);
    let last = w.store.last().unwrap();
    assert_eq!(last.content.as_deref(), Some(""));
    assert_eq!(last.reasoning.as_deref(), Some("思考"));
}

#[test]
fn interrupt_during_streamed_tool_calls_answers_them() {
    let mut w = World::new(vec![text("不会到达")]);
    let partial = vec![call("c1", "read", "{\"a\""), call("", "bad", "{}")];
    w.during_stream.push_back(vec![Happening::Interrupt(cancel(), state("", "", partial))]);
    started(&mut w, vec![user("问题")]);
    assert_eq!(w.kinds(), vec!["user", "interrupt", "assistant", "tool_result"]);
    assert_eq!(w.store[1].tool_calls.as_ref().unwrap().len(), 1);
    assert_eq!(w.store[2].content.as_deref(), Some("[User][用户取消]"));
    let request = build_chat_request(&w.store, None);
    assert_eq!(request.messages.len(), w.store.len(), "无需补结果");
}

#[test]
fn interrupt_during_tool_execution_only_completes_unfinished() {
    let mut w = World::new(vec![calls(vec![call("fast", "echo", "{}"), call("slow", "echo", "{}")])]);
    w.during_tools.push_back(vec![
        Happening::ToolDone("fast".into(), "快".into()),
        Happening::Interrupt(cancel(), state("", "", vec![])),
    ]);
    started(&mut w, vec![user("问题")]);
    let results: Vec<(String, String)> = w
        .store
        .iter()
        .filter(|m| m.role == MessageRole::Tool)
        .map(|m| (m.tool_call_id.clone().unwrap(), m.content.clone().unwrap()))
        .collect();
    assert_eq!(
        results,
        vec![
            ("fast".to_string(), "快".to_string()),
            ("slow".to_string(), "[User][用户取消]".to_string())
        ]
    );
}

#[test]
fn shutdown_during_streaming() {
    let mut w = World::new(vec![text("不会到达")]);
    w.during_stream.push_back(vec![Happening::Shutdown(state("部分", "", vec![]))]);
    started(&mut w, vec![user("问题")]);
    let OutputEvent::Interrupt(m) = &w.events[1] else {
        panic!("应有 Interrupt 事件");
    };
    assert_eq!(m.payload.source, InterruptSource::Shutdown);
    assert_eq!(m.payload.reason, "引擎关闭");
    assert_eq!(w.store.last().unwrap().content.as_deref(), Some("部分"));
}

#[test]
fn shutdown_during_tool_execution() {
    let mut w = World::new(vec![calls(vec![call("a", "echo", "{}"), call("b", "echo", "{}")])]);
    w.during_tools.push_back(vec![
        Happening::ToolDone("a".into(), "完成".into()),
        Happening::Shutdown(state("", "", vec![])),
    ]);
    started(&mut w, vec![user("问题")]);
    assert_eq!(w.contents()[2..], ["完成".to_string(), "[Shutdown][引擎关闭]".to_string()]);
}

#[test]
fn usage_flows_to_final_assistant_message() {
    let mut w = World::new(vec![Ok(StreamResult {
        text: "回复内容".into(),
        reasoning: String::new(),
        tool_calls: vec![],
        usage: StreamUsage {
            prompt_tokens: 120,
            completion_tokens: 80,
            total_tokens: 200,
            completion_reasoning_tokens: Some(30),
            prompt_cached_tokens: Some(40),
        },
    })]);
    started(&mut w, vec![user("提问")]);
    let Some(OutputEvent::Assistant(m)) = w.events.last() else {
        panic!("应有 Assistant 事件");
    };
    assert_eq!(m.payload.finish_reason.as_deref(), Some("stop"));
    assert_eq!(m.payload.completion_tokens, 80);
    assert_eq!(m.payload.prompt_tokens, 120);
    assert_eq!(m.payload.total_tokens, 200);
    assert_eq!(m.payload.reasoning_tokens, 30);
    assert_eq!(m.payload.cached_tokens, 40);
    assert_eq!(w.usage.unwrap().prompt_tokens, 120);
    assert_eq!(w.store.last().unwrap().model_id.as_deref(), Some("test/test-model"));
}

#[test]
fn intercept_modifies_final_assistant_in_history_and_next_request() {
    let mut w = World::new(vec![text("secret"), text("回复2")]);
    w.plugin = Box::new(|event| match event {
        OutputEvent::Assistant(mut m) => {
            m.payload.content = m.payload.content.map(|c| format!("[已脱敏]{c}"));
            Some(OutputEvent::Assistant(m))
        }
        other => Some(other),
    });
    let mut session = started(&mut w, vec![user("一")]);
    w.tell(&mut session, SessionEvent::Inbound(user("二")));
    assert_eq!(w.store[1].content.as_deref(), Some("[已脱敏]secret"));
    assert_eq!(w.requests[1].messages[1].content.as_deref(), Some("[已脱敏]secret"));
}

#[test]
fn intercept_block_skips_final_assistant_in_history() {
    let mut w = World::new(vec![text("被拦截")]);
    w.plugin = Box::new(|event| match event {
        OutputEvent::Assistant(_) => None,
        other => Some(other),
    });
    let session = started(&mut w, vec![user("一")]);
    assert_eq!(w.contents(), vec!["一"]);
    assert_eq!(w.kinds(), vec!["user"]);
    assert!(!session.gate.paused(), "turn 照常完成");
}

#[test]
fn blocked_tool_calls_are_neither_run_nor_stored() {
    let mut w = World::new(vec![
        calls(vec![call("a", "rm", "{}"), call("b", "echo", "{}")]),
        text("完成"),
    ]);
    w.plugin = Box::new(|event| match event {
        OutputEvent::ToolCall(m) if m.payload.tool_name == "rm" => None,
        OutputEvent::ToolCall(mut m) => {
            m.payload.tool_args = "{\"safe\":true}".into();
            Some(OutputEvent::ToolCall(m))
        }
        other => Some(other),
    });
    started(&mut w, vec![user("一")]);
    assert_eq!(w.executed, vec!["b"]);
    let stored = w.store[1].tool_calls.as_ref().unwrap();
    assert_eq!(stored.len(), 1);
    assert_eq!(stored[0].arguments, "{\"safe\":true}");
    assert_eq!(w.store[2].content.as_deref(), Some("echo:{\"safe\":true}"));
}

#[test]
fn all_tool_calls_blocked_calls_the_model_again() {
    let mut w = World::new(vec![calls(vec![call("a", "rm", "{}")]), text("那就算了")]);
    w.plugin = Box::new(|event| match event {
        OutputEvent::ToolCall(_) => None,
        other => Some(other),
    });
    started(&mut w, vec![user("一")]);
    assert!(w.executed.is_empty());
    assert_eq!(w.contents(), vec!["一", "", "那就算了"]);
    assert!(w.store[1].tool_calls.is_none());
    assert!(w.snapshots.is_empty());
}

#[test]
fn inject_messages_intercepts_user_at_consume_time() {
    let mut w = World::new(vec![text("回复")]);
    w.plugin = Box::new(|event| match event {
        OutputEvent::User(mut m) => {
            m.payload.content = format!("改写:{}", m.payload.content);
            Some(OutputEvent::User(m))
        }
        other => Some(other),
    });
    started(&mut w, vec![user("原文")]);
    assert_eq!(w.store[0].content.as_deref(), Some("改写:原文"));
    let OutputEvent::User(m) = &w.events[0] else {
        panic!("应为 User 事件");
    };
    assert_eq!(m.payload.content, "改写:原文");
}

#[test]
fn inject_messages_preserves_plugin_source_in_event() {
    let mut w = World::new(vec![text("回复")]);
    let entry = QueueEntry::User(envelope(UserPayload {
        content: "插件注入".into(),
        images: vec![],
        mode: UserMessageMode::Guide,
        source: UserMessageSource::Plugin(PluginSource { name: "loop_guard".into() }),
        client_message_id: None,
    }));
    started(&mut w, vec![entry]);
    let OutputEvent::User(m) = &w.events[0] else {
        panic!("应为 User 事件");
    };
    assert!(matches!(&m.payload.source, UserMessageSource::Plugin(p) if p.name == "loop_guard"));
}

#[test]
fn control_only_batch_executes_command_without_running_turn() {
    let mut w = World::new(vec![]);
    let session = started(&mut w, vec![compress(None)]);
    assert_eq!(w.turns, 0);
    assert_eq!(w.commands.len(), 1);
    assert_eq!(w.phases, vec![TurnPhase::Running, TurnPhase::Idle]);
    assert!(session.queues.guide.is_empty());
}

#[test]
fn manual_compression_note_travels_to_echo_and_summary_request() {
    let mut w = World::new(vec![]);
    w.plugin = Box::new(|event| match event {
        OutputEvent::Control(mut m) => {
            assert_eq!(m.payload.note.as_deref(), Some("保留接口设计"));
            m.payload.note = Some("被改写".into());
            Some(OutputEvent::Control(m))
        }
        other => Some(other),
    });
    started(&mut w, vec![compress(Some("保留接口设计"))]);
    assert_eq!(w.commands[0].1.as_deref(), Some("保留接口设计"), "执行以原条目为准");
}

#[test]
fn control_consumption_echoes_command_event_before_execution() {
    let mut w = World::new(vec![]);
    started(&mut w, vec![compress(None)]);
    let OutputEvent::Control(m) = &w.events[0] else {
        panic!("首个事件应为回显");
    };
    assert_eq!(m.payload.client_message_id.as_deref(), Some("cmd-1"));
    assert_eq!(m.payload.command, ControlCommand::Compress);
    assert_eq!(m.base.session_id.as_deref(), Some("test-session"));
}

#[test]
fn blocked_echo_does_not_block_the_command() {
    let mut w = World::new(vec![]);
    w.plugin = Box::new(|_| None);
    started(&mut w, vec![compress(None)]);
    assert!(w.events.is_empty());
    assert_eq!(w.commands.len(), 1);
}

#[test]
fn interleaved_batch_processes_users_and_command_in_order() {
    let mut w = World::new(vec![text("回复")]);
    let mut session = SessionLoop::new();
    session.queues.put(user("A"));
    session.queues.put(compress(None));
    let actions = session.step(SessionEvent::Inbound(user("B")));
    w.run(&mut session, actions);
    assert_eq!(w.kinds(), vec!["user", "control", "user", "assistant"]);
    assert_eq!(w.contents(), vec!["A", "B", "回复"]);
    assert_eq!(w.titles, vec![Some("A".to_string())]);
}

#[test]
fn tool_batches_record_snapshot_rows_anchored_to_assistant_seq() {
    let mut w = World::new(vec![
        calls(vec![call("c1", "write", "{}")]),
        calls(vec![call("c2", "write", "{}")]),
        text("完成"),
    ]);
    started(&mut w, vec![user("写文件")]);
    let batch: Vec<i64> =
        w.store.iter().filter(|m| m.tool_calls.is_some()).map(|m| m.seq).collect();
    let last = w.store.last().unwrap().seq;
    assert_eq!(w.snapshots, vec![batch[0], batch[1], last]);
}

#[test]
fn interrupted_turn_records_final_row() {
    let mut w = World::new(vec![calls(vec![call("c1", "write", "{}")])]);
    w.during_tools.push_back(vec![Happening::Interrupt(cancel(), state("", "", vec![]))]);
    started(&mut w, vec![user("写文件")]);
    assert_eq!(w.snapshots, vec![2, 2]);
}

#[test]
fn pure_dialogue_turn_records_no_snapshot_row() {
    let mut w = World::new(vec![text("回复")]);
    started(&mut w, vec![user("问题")]);
    assert!(w.snapshots.is_empty());
}

#[test]
fn failed_turn_after_tools_records_final_row() {
    let mut w = World::new(vec![calls(vec![call("c1", "write", "{}")]), Err("断线".into())]);
    let session = started(&mut w, vec![user("写文件")]);
    assert_eq!(w.snapshots, vec![2, 2]);
    assert!(session.gate.paused());
}

#[test]
fn run_turn_returns_completed_on_final_reply() {
    let mut w = World::new(vec![text("回复")]);
    let mut session = SessionLoop::new();
    assert_eq!(w.run_turn(&mut session), TurnOutcome::Completed);
}

#[test]
fn run_turn_returns_failed_on_llm_error() {
    let mut w = World::new(vec![Err("失败".into())]);
    let mut session = SessionLoop::new();
    assert_eq!(w.run_turn(&mut session), TurnOutcome::Failed);
}

#[test]
fn bad_model_ends_the_turn_at_once() {
    let config =
        ModelConfig { model_id: "".into(), thinking_type: None, reasoning_effort: None };
    let model = resolve_model(&config, vec![], None);
    let (turn, actions) = Turn::begin(&model, true, &vec![]);
    assert_eq!(turn.outcome(), Some(TurnOutcome::Failed));
    assert_eq!(actions.len(), 2);
    let TurnAction::Send(Outgoing::Notice(OutputEvent::Error(m))) = &actions[0] else {
        panic!("应发 Error 事件");
    };
    assert_eq!(m.payload.message, "未指定模型：ModelConfig.model_id 为空");
    assert!(!m.payload.recoverable);
}

#[test]
fn missing_provider_ends_the_turn_at_once() {
    let config = ModelConfig {
        model_id: "Gone/m1".into(),
        thinking_type: None,
        reasoning_effort: None,
    };
    let model = resolve_model(&config, vec![], None);
    let (turn, actions) = Turn::begin(&model, false, &vec!["a".into(), "b".into()]);
    assert_eq!(turn.outcome(), Some(TurnOutcome::Failed));
    let TurnAction::Send(Outgoing::Notice(OutputEvent::Error(m))) = &actions[0] else {
        panic!("应发 Error 事件");
    };
    assert_eq!(
        m.payload.message,
        "Provider 'gone' 未注册（model_id: 'Gone/m1'，可用: [\"a\", \"b\"]）——供应商可能已被删除或未运行时注册，相关会话需切换到可用模型"
    );
}

#[test]
fn idle_interrupt_is_only_announced() {
    let mut w = World::new(vec![]);
    let mut session = SessionLoop::new();
    w.tell(&mut session, SessionEvent::Interrupted(cancel()));
    assert_eq!(w.kinds(), vec!["interrupt"]);
    assert!(w.store.is_empty());
}

#[test]
fn shutdown_ends_a_waiting_session() {
    let mut w = World::new(vec![]);
    let mut session = SessionLoop::new();
    w.tell(&mut session, SessionEvent::Shutdown);
    assert!(w.exited);
    w.tell(&mut session, SessionEvent::Inbound(user("太晚了")));
    assert!(w.store.is_empty());
}

#[test]
fn shutdown_during_the_check_runs_no_turn() {
    let mut session = SessionLoop::new();
    let actions = session.step(SessionEvent::Inbound(user("问题")));
    assert!(matches!(
        actions[..],
        [SessionAction::SetPhase(TurnPhase::Running), SessionAction::CheckCompression]
    ));
    let actions = session.step(SessionEvent::Compressed(true));
    assert!(matches!(
        actions[..],
        [SessionAction::SetPhase(TurnPhase::Idle), SessionAction::Exit]
    ));
}

#[test]
fn copies_are_equal_in_value() {
    let entry = user("原文");
    let QueueEntry::User(m) = entry.dup() else {
        panic!("变体类型不符");
    };
    assert_eq!(m.payload.content, "原文");
    assert_eq!(usage(1, 2).total_tokens, 3);
}

#[test]
fn interrupt_during_tool_execution() {
    let mut w = World::new(vec![calls(vec![call("tc_block", "blocking_tool", "{}")])]);
    w.during_tools.push_back(vec![Happening::Interrupt(cancel(), state("", "", vec![]))]);
    started(&mut w, vec![user("调工具")]);
    assert!(w.kinds().contains(&"interrupt"), "应有 Interrupt 事件");
    let tool_result = w.events.iter().find_map(|e| match e {
        OutputEvent::ToolResult(m) if m.payload.tool_name == "blocking_tool" => Some(m),
        _ => None,
    });
    let tool_result = tool_result.expect("应有 blocking_tool 的中断式 ToolResult");
    assert_eq!(tool_result.payload.tool_call_id, "tc_block");
    assert!(tool_result.payload.content.contains("User"));
    assert!(tool_result.payload.content.contains("用户取消"));
}

#[test]
fn disabled_snapshot_skips_tracking_but_tools_still_run() {
    let args = "{\"path\":\"a.txt\",\"content\":\"禁用态写入\"}";
    let mut w = World::new(vec![calls(vec![call("tc_1", "write_file", args)]), text("完成")]);
    w.snapshots_enabled = false;
    let session = started(&mut w, vec![user("问题")]);
    assert!(!session.gate.paused(), "turn 应正常完成");
    assert!(w.rows.is_empty(), "禁用态不应落快照行");
    assert_eq!(w.files["a.txt"], "禁用态写入", "工具执行不受快照禁用影响");
}

#[test]
fn turn_final_row_carries_last_batch_changes() {
    let first = "{\"path\":\"a.txt\",\"content\":\"v2 批1修改\"}";
    let second = "{\"path\":\"n.txt\",\"content\":\"批2新建\"}";
    let mut w = World::new(vec![
        calls(vec![call("tc_1", "write_file", first)]),
        calls(vec![call("tc_2", "write_file", second)]),
        text("全部完成"),
    ]);
    w.files.insert("a.txt".into(), "v1".into());
    let session = started(&mut w, vec![user("问题")]);
    assert!(!session.gate.paused(), "turn 应正常完成");
    let batches: Vec<i64> =
        w.store.iter().filter(|m| m.tool_calls.is_some()).map(|m| m.seq).collect();
    assert_eq!(w.rows.len(), 3, "两个批边界行 + 一个收尾行");
    assert!(w.rows[0].tree.files.is_empty());
    assert_eq!(w.rows[1].msg_seq, batches[1]);
    assert_eq!(w.rows[1].tree.files, vec!["a.txt".to_string()], "批2 边界行承载批1 的增量");
    assert_eq!(w.rows[2].msg_seq, w.store[w.pos("全部完成")].seq);
    assert_eq!(w.rows[2].tree.files, vec!["n.txt".to_string()], "收尾行承载终批的变更窗口");
    assert!(w.files["n.txt"].contains("批2新建"), "终批工具照常执行");
}

#[test]
fn rewriting_the_calls_of_a_whole_reply_has_no_effect() {
    let mut w = World::new(vec![calls(vec![call("a", "git", "{\"x\":1}")]), text("完成")]);
    w.plugin = Box::new(|event| match event {
        OutputEvent::Assistant(mut m) => {
            m.payload.content = Some("改写".into());
            m.payload.tool_calls = Some(vec![ToolCallPayload {
                tool_call_id: "z".into(),
                tool_name: "rm".into(),
                tool_args: "{}".into(),
            }]);
            Some(OutputEvent::Assistant(m))
        }
        other => Some(other),
    });
    started(&mut w, vec![user("一")]);
    assert_eq!(w.executed, vec!["a"]);
    let stored = w.store[1].tool_calls.as_ref().unwrap();
    assert_eq!(stored.len(), 1);
    assert_eq!(stored[0].name, "git");
    assert_eq!(stored[0].arguments, "{\"x\":1}");
    assert_eq!(w.store[1].content.as_deref(), Some("改写"));
    let Some(OutputEvent::Assistant(shown)) =
        w.events.iter().find(|e| matches!(e, OutputEvent::Assistant(_)))
    else {
        panic!("应有 Assistant 事件");
    };
    assert_eq!(shown.payload.tool_calls.as_ref().unwrap()[0].tool_name, "git");
    assert!(w.store[3].tool_calls.is_none(), "最终回复没有要执行的调用");
}

#[test]
fn messages_persisted_to_db() {
    let mut w = World::new(vec![
        calls(vec![call("tc_99", "echo", "{\"msg\":\"hi\"}")]),
        text("完成"),
    ]);
    started(&mut w, vec![user("调工具")]);
    assert!(w.store.len() >= 4, "应含 user/assistant(tool_calls)/tool/assistant(最终) 至少 4 条");
    assert!(w.store.iter().any(|m| m.role == MessageRole::User), "应含 user 消息");
    let assistants = w.store.iter().filter(|m| m.role == MessageRole::Assistant).count();
    assert!(assistants >= 2, "应含至少 2 条 assistant");
    let tool = w.store.iter().find(|m| m.role == MessageRole::Tool).expect("应有 tool 消息");
    assert_eq!(tool.tool_call_id.as_deref(), Some("tc_99"));
}

#[test]
fn plugin_user_message_triggers_turn_when_idle() {
    let mut w = World::new(vec![text("收到")]);
    let entry = QueueEntry::User(envelope(UserPayload {
        content: "插件消息".into(),
        images: vec![],
        mode: UserMessageMode::Guide,
        source: UserMessageSource::Plugin(PluginSource { name: "p".into() }),
        client_message_id: None,
    }));
    started(&mut w, vec![entry]);
    assert_eq!(w.turns, 1);
    assert_eq!(w.contents(), vec!["插件消息", "收到"]);
}

#[test]
fn rapid_fire_messages_answered_in_single_turn() {
    let mut w = World::new(vec![text("一起回答")]);
    started(&mut w, vec![user("一"), user("二"), user("三")]);
    assert_eq!(w.turns, 1);
    assert_eq!(w.requests.len(), 1);
    assert_eq!(w.requests[0].messages.len(), 3);
    assert_eq!(w.contents().last().unwrap(), "一起回答");
}

fn assistant(content: &str) -> OutputEvent {
    OutputEvent::Assistant(envelope(AssistantPayload {
        content: Some(content.into()),
        reasoning: None,
        tool_calls: None,
        finish_reason: Some("stop".into()),
        completion_tokens: 0,
        prompt_tokens: 0,
        total_tokens: 0,
        reasoning_tokens: 0,
        cached_tokens: 0,
    }))
}

#[test]
fn emit_to_history_pushes_message_when_pass() {
    let mut w = World::new(vec![]);
    w.record(assistant("hello"));
    assert_eq!(w.store.len(), 1, "Pass 时应 push 一条 Message");
    assert_eq!(w.store[0].content.as_deref(), Some("hello"));
    assert_eq!(w.store[0].role, MessageRole::Assistant);
    assert_eq!(w.events.len(), 1, "Pass 时应发出事件");
}

#[test]
fn emit_to_history_pushes_modified_content() {
    let mut w = World::new(vec![]);
    w.plugin = Box::new(|event| match event {
        OutputEvent::Assistant(mut m) => {
            m.payload.content = m.payload.content.map(|c| format!("[已脱敏]{c}"));
            Some(OutputEvent::Assistant(m))
        }
        other => Some(other),
    });
    w.record(assistant("secret"));
    assert_eq!(w.store.len(), 1);
    assert_eq!(w.store[0].content.as_deref(), Some("[已脱敏]secret"));
}

#[test]
fn emit_to_history_skips_on_block() {
    let mut w = World::new(vec![]);
    w.plugin = Box::new(|_| None);
    let result = w.record(assistant("blocked"));
    assert!(result.is_none(), "Block 应返回 None");
    assert!(w.store.is_empty(), "Block 时不应 push Message");
    assert!(w.events.is_empty(), "Block 时不应发出事件");
}
