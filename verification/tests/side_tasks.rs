use fuyao_core::builders::{resolve_model, ResolvedModel};
use fuyao_core::chat::{ModelConfig, StreamResult, StreamUsage, ThinkingType};
use fuyao_core::compression::{
    check_before_turn, compression_exempt, on_compress_command, resolve_compression_model,
    usage_for, CompressionAction, CompressionEvent, CompressionJob, CompressionRun, LoadedHistory,
    PromptUsage, Summary,
};
use fuyao_core::interrupt::Outgoing;
use fuyao_core::message::{
    CompressionDeltaPayload, CompressionPayload, CompressionReason, Message, MessageRole,
    OutputEvent, UserMessageMode, UserMessageSource,
};
use fuyao_core::retry::{RetryAction, RetryEvent, RetryRun, StreamFailure};
use fuyao_core::rollback::{run_rollback, RollbackResult};
use fuyao_core::snapshot::{SnapshotAction, SnapshotEvent, SnapshotRun, SnapshotTree};

fn model(limit: Option<u32>) -> Result<ResolvedModel, String> {
    let config = ModelConfig {
        model_id: "test/test-model".into(),
        thinking_type: Some(ThinkingType::Enabled),
        reasoning_effort: Some("high".into()),
    };
    resolve_model(&config, vec!["{}".into()], limit)
}

fn usage(prompt: u32) -> StreamUsage {
    StreamUsage {
        prompt_tokens: prompt,
        completion_tokens: 0,
        total_tokens: prompt,
        completion_reasoning_tokens: None,
        prompt_cached_tokens: None,
    }
}

fn payload(out: &Outgoing) -> &CompressionPayload {
    match out {
        Outgoing::Notice(OutputEvent::Compression(m)) => &m.payload,
        _ => panic!("应为 Compression 事件"),
    }
}

fn sent(action: &CompressionAction) -> &Outgoing {
    match action {
        CompressionAction::Send(out) => out,
        _ => panic!("应为发送"),
    }
}

fn manual_job(note: Option<&str>) -> CompressionJob {
    on_compress_command(false, None, model(None), note.map(String::from)).ok().unwrap()
}

fn history() -> LoadedHistory {
    let mut msg = Message::new(MessageRole::User);
    msg.content = Some("第一段对话内容".into());
    LoadedHistory { messages: vec![msg], system: Some("系统提示词".into()) }
}

// ---- compression ----

#[test]
fn manual_compression_skips_threshold_and_marks_manual() {
    let (mut run, actions) = CompressionRun::begin(manual_job(None));
    let CompressionPayload::Started(p) = payload(sent(&actions[0])) else {
        panic!("应有 Compression Started 事件");
    };
    assert_eq!(p.reason, CompressionReason::Manual);
    assert_eq!((p.prompt_tokens, p.context_length), (0, 0));
    assert!(matches!(actions[1], CompressionAction::Load));
    run.step(CompressionEvent::Loaded(history()));
    let marked = run.step(CompressionEvent::Summarized(Summary {
        content: "压缩摘要".into(),
        reasoning: None,
    }));
    assert!(matches!(&marked[..], [CompressionAction::Mark(s)] if s == "压缩摘要"));
    let ended = run.step(CompressionEvent::Marked(9));
    assert!(matches!(ended[0], CompressionAction::RebuildPrompt(PromptUsage::Primary)));
    let CompressionPayload::Ended(p) = payload(sent(&ended[1])) else {
        panic!("应有 Compression Ended 事件");
    };
    assert_eq!(p.reason, CompressionReason::Manual);
    assert_eq!(p.content, "压缩摘要");
    assert_eq!(p.reasoning, None);
}

#[test]
fn manual_compression_llm_failure_emits_failed_event() {
    let (mut run, _) = CompressionRun::begin(manual_job(None));
    run.step(CompressionEvent::Loaded(history()));
    let actions = run.step(CompressionEvent::SummaryFailed("LLM 调用失败: 速率限制".into()));
    assert_eq!(actions.len(), 1);
    let CompressionPayload::Failed(p) = payload(sent(&actions[0])) else {
        panic!("压缩失败应发 Compression Failed 事件");
    };
    assert_eq!(p.reason, CompressionReason::Manual);
    assert!(p.cause.contains("速率限制"));
    assert!(run.step(CompressionEvent::Marked(1)).is_empty(), "失败后不应再有产出");
}

#[test]
fn every_failure_after_the_start_is_told() {
    let (mut run, _) = CompressionRun::begin(manual_job(None));
    let actions = run.step(CompressionEvent::LoadFailed("读库失败".into()));
    assert!(matches!(payload(sent(&actions[0])), CompressionPayload::Failed(p) if p.cause == "读库失败"));
    let (mut run, _) = CompressionRun::begin(manual_job(None));
    run.step(CompressionEvent::Loaded(history()));
    run.step(CompressionEvent::Summarized(Summary { content: "s".into(), reasoning: None }));
    let actions = run.step(CompressionEvent::MarkFailed("落库失败".into()));
    assert!(matches!(payload(sent(&actions[0])), CompressionPayload::Failed(p) if p.cause == "落库失败"));
}

#[test]
fn manual_compression_resolve_failure_emits_failed_event() {
    let missing = resolve_compression_model(model(None), false);
    let notice = on_compress_command(false, None, missing, None).err().unwrap();
    let CompressionPayload::Failed(p) = payload(&notice) else {
        panic!("resolve 失败应发 Compression Failed 事件");
    };
    assert!(p.cause.contains("Provider 实例未注册"));
    assert_eq!(p.reason, CompressionReason::Manual);
    let bad = resolve_compression_model(Err("坏模型".into()), true);
    let notice = on_compress_command(false, None, bad, None).err().unwrap();
    assert!(matches!(payload(&notice), CompressionPayload::Failed(p) if p.cause == "坏模型"));
    assert!(resolve_compression_model(model(None), true).is_ok());
}

#[test]
fn compression_ended_event_carries_boundary_seq() {
    let (mut run, _) = CompressionRun::begin(manual_job(None));
    run.step(CompressionEvent::Loaded(history()));
    run.step(CompressionEvent::Summarized(Summary {
        content: "压缩摘要".into(),
        reasoning: Some("想".into()),
    }));
    let actions = run.step(CompressionEvent::Marked(42));
    let Outgoing::Notice(event) = sent(&actions[1]) else {
        panic!("应为通知");
    };
    assert_eq!(event.base().seq, Some(42));
    assert!(matches!(payload(sent(&actions[1])), CompressionPayload::Ended(p)
        if p.new_seq == 42 && p.reasoning.as_deref() == Some("想")));
}

#[test]
fn manual_compression_passes_bare_model_name_to_provider() {
    let (mut run, _) = CompressionRun::begin(manual_job(Some("侧重接口")));
    let actions = run.step(CompressionEvent::Loaded(history()));
    let CompressionAction::Summarize(request) = &actions[0] else {
        panic!("应请求摘要");
    };
    assert_eq!(request.model, "test-model");
    assert_eq!(request.note.as_deref(), Some("侧重接口"));
    assert_eq!(request.options.tools, None);
    assert_eq!(request.options.thinking_type, Some(ThinkingType::Enabled));
    assert_eq!(request.options.reasoning_effort.as_deref(), Some("high"));
    assert_eq!(request.history.system.as_deref(), Some("系统提示词"));
    assert_eq!(request.history.messages.len(), 1);
}

#[test]
fn pieces_of_the_summary_are_shown() {
    let (mut run, _) = CompressionRun::begin(manual_job(None));
    run.step(CompressionEvent::Loaded(history()));
    let delta = CompressionDeltaPayload { content: Some("摘".into()), reasoning: None };
    let actions = run.step(CompressionEvent::Delta(delta));
    assert!(matches!(payload(sent(&actions[0])), CompressionPayload::Delta(p)
        if p.content.as_deref() == Some("摘")));
}

#[test]
fn the_check_before_a_turn_spares_some() {
    assert!(compression_exempt(true, true));
    assert!(!compression_exempt(true, false));
    assert!(!compression_exempt(false, true));
    assert!(check_before_turn(true, true, Some(usage(9)), model(Some(100))).is_none());
    assert!(check_before_turn(false, true, None, model(Some(100))).is_none());
    assert!(check_before_turn(false, true, Some(usage(9)), Err("坏".into())).is_none());
    assert!(check_before_turn(false, true, Some(usage(9)), model(None)).is_none());
    let (job, limit) = check_before_turn(true, false, Some(usage(9)), model(Some(100))).unwrap();
    assert_eq!(limit, 100);
    assert_eq!(job.reason, CompressionReason::Auto);
    assert_eq!(job.prompt_tokens, 9);
    assert_eq!(job.note, None);
    let (_, actions) = CompressionRun::begin(job);
    assert!(matches!(payload(sent(&actions[0])), CompressionPayload::Started(p)
        if p.context_length == 100 && p.prompt_tokens == 9));
}

#[test]
fn prompts_are_written_for_tasks_or_conversations() {
    assert_eq!(usage_for(true), PromptUsage::Subagent);
    assert_eq!(usage_for(false), PromptUsage::Primary);
}

// ---- retries ----

fn failure(retryable: bool, started: bool) -> RetryEvent {
    RetryEvent::Failed(StreamFailure {
        cause: "超时".into(),
        retryable,
        started,
        wait_ms: 2000,
    })
}

#[test]
fn passing_failures_are_announced_and_retried() {
    let (mut run, actions) = RetryRun::begin(2);
    assert!(matches!(actions[..], [RetryAction::Call]));
    for attempt in 1..=2 {
        let actions = run.step(failure(true, false));
        let RetryAction::Send(Outgoing::Notice(OutputEvent::Retry(m))) = &actions[0] else {
            panic!("应发 Retry 事件");
        };
        assert_eq!(m.payload.attempt, attempt);
        assert_eq!(m.payload.max_retries, 2);
        assert_eq!(m.payload.wait_ms, 2000);
        assert_eq!(m.payload.cause, "超时");
        assert!(matches!(actions[1], RetryAction::Sleep(2000)));
        assert!(matches!(run.step(RetryEvent::Waited)[..], [RetryAction::Call]));
    }
    assert!(matches!(&run.step(failure(true, false))[..], [RetryAction::Fail(c)] if c == "超时"));
    assert!(run.step(RetryEvent::Waited).is_empty());
}

#[test]
fn lasting_failures_and_started_replies_are_not_retried() {
    let (mut run, _) = RetryRun::begin(5);
    assert!(matches!(run.step(failure(false, false))[..], [RetryAction::Fail(_)]));
    let (mut run, _) = RetryRun::begin(5);
    assert!(matches!(run.step(failure(true, true))[..], [RetryAction::Fail(_)]));
    let (mut run, _) = RetryRun::begin(0);
    assert!(matches!(run.step(failure(true, false))[..], [RetryAction::Fail(_)]));
}

#[test]
fn shutdown_during_the_wait_cancels() {
    let (mut run, _) = RetryRun::begin(3);
    run.step(failure(true, false));
    assert!(matches!(run.step(RetryEvent::Shutdown)[..], [RetryAction::Cancel]));
}

#[test]
fn replies_are_returned() {
    let (mut run, _) = RetryRun::begin(3);
    let result = StreamResult {
        text: "好".into(),
        reasoning: "".into(),
        tool_calls: vec![],
        usage: usage(1),
    };
    assert!(matches!(&run.step(RetryEvent::Streamed(result))[..], [RetryAction::Return(r)]
        if r.text == "好"));
}

// ---- snapshots ----

fn tree() -> SnapshotTree {
    SnapshotTree { tree_hash: "abc".into(), files: vec!["a.rs".into()] }
}

#[test]
fn snapshots_need_an_anchor_and_permission() {
    assert!(SnapshotRun::record_snapshot_row(None, true).is_none());
    assert!(SnapshotRun::record_snapshot_row(Some(3), false).is_none());
    assert!(SnapshotRun::record_snapshot_row(Some(3), true).is_some());
}

#[test]
fn snapshots_are_recorded_with_their_anchor() {
    let (mut run, actions) = SnapshotRun::record_snapshot_row(Some(3), true).unwrap();
    assert!(matches!(actions[..], [SnapshotAction::FindPrevious]));
    let actions = run.step(SnapshotEvent::Previous(Some("prev".into())));
    assert!(matches!(&actions[..], [SnapshotAction::Track(Some(t))] if t == "prev"));
    let actions = run.step(SnapshotEvent::Recorded(Some(tree())));
    let SnapshotAction::Insert(row) = &actions[0] else {
        panic!("应落行");
    };
    assert_eq!(row.msg_seq, 3);
    assert_eq!(row.tree.tree_hash, "abc");
    assert_eq!(row.tree.files, vec!["a.rs"]);
}

#[test]
fn track_failure_degrades_without_interrupting_turn() {
    let (mut run, _) = SnapshotRun::record_snapshot_row(Some(3), true).unwrap();
    run.step(SnapshotEvent::Previous(None));
    assert!(run.step(SnapshotEvent::Failed).is_empty());
    assert!(run.step(SnapshotEvent::Recorded(Some(tree()))).is_empty());
    let (mut run, _) = SnapshotRun::record_snapshot_row(Some(3), true).unwrap();
    run.step(SnapshotEvent::Previous(None));
    assert!(run.step(SnapshotEvent::Recorded(None)).is_empty());
}

// ---- rollbacks ----

#[test]
fn rollbacks_hand_the_message_back() {
    let mut target = Message::new(MessageRole::User);
    target.content = Some("重新发".into());
    let out = run_rollback(Ok(RollbackResult {
        target_seq: 5,
        deleted_count: 2,
        deleted_total: 3,
        target_message: Some(target),
        message_count: 4,
        tool_call_count: 1,
        last_compacted_seq: None,
        compression_count: 0,
    }));
    let Outgoing::Notice(OutputEvent::Rollback(m)) = out else {
        panic!("应发 Rollback 事件");
    };
    assert_eq!(m.payload.target_seq, 5);
    assert_eq!((m.payload.deleted_count, m.payload.deleted_total), (2, 3));
    assert_eq!((m.payload.message_count, m.payload.tool_call_count), (4, 1));
    let target = m.payload.target_message.unwrap();
    assert_eq!(target.content, "重新发");
    assert_eq!(target.mode, UserMessageMode::Guide);
    assert!(matches!(target.source, UserMessageSource::User));
}

#[test]
fn failed_rollbacks_are_recoverable() {
    let Outgoing::Notice(OutputEvent::Error(m)) = run_rollback(Err("目标不存在".into())) else {
        panic!("应发 Error 事件");
    };
    assert_eq!(m.payload.message, "对话回退失败：目标不存在");
    assert!(m.payload.recoverable);
}
