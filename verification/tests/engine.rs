use fuyao_core::chat::ModelConfig;
use fuyao_core::compression::PromptUsage;
use fuyao_core::emit::envelope;
use fuyao_core::engine::{
    format_join_error, shutdown_report, AgentConfig, ChildSessionSource, Delivery, Engine,
    JoinFailure, OpeningStore, SessionExitOutcome, SessionParams, StopStep, StoreFailure,
};
use fuyao_core::error::{EngineError, SubagentError};
use fuyao_core::input::{ControlInput, InputEvent, InterruptInput, UserInput};
use fuyao_core::message::{
    ControlCommand, ImageContent, InterruptSource, QueueEntry, UserMessageMode, UserMessageSource,
    UserPayload,
};
use fuyao_core::provider_ops::{DiskProvider, ProviderTable};
use fuyao_core::queue::Queues;
use fuyao_core::session::TurnPhase;

fn params(definition: &str, model: &str) -> SessionParams {
    SessionParams {
        agent_config: AgentConfig { definition: definition.into() },
        model_config: ModelConfig {
            model_id: model.into(),
            thinking_type: None,
            reasoning_effort: None,
        },
    }
}

fn opened(engine: &mut Engine, id: &str) {
    let opening = engine.create_session(params("default", "test/m"));
    engine.assemble_session(opening, Ok(id.into())).unwrap();
}

fn user_input(content: &str) -> InputEvent {
    InputEvent::User(envelope(UserInput {
        content: content.into(),
        images: vec![ImageContent { mime_type: "image/png".into(), data: "x".into() }],
        mode: UserMessageMode::Pending,
        source: UserMessageSource::User,
        client_message_id: Some("m-1".into()),
    }))
}

#[test]
fn sessions_are_created_and_known() {
    let mut engine = Engine::new();
    let opening = engine.create_session(params("default", "test/m"));
    assert_eq!(opening.usage, PromptUsage::Primary);
    assert!(matches!(opening.store, OpeningStore::Create(None)));
    let opening = Engine::definition_loaded(opening, Ok(())).unwrap();
    assert_eq!(engine.assemble_session(opening, Ok("s1".into())).unwrap(), "s1");
    assert!(engine.contains("s1"));
    assert_eq!(engine.session_params("s1").unwrap().model_config.model_id, "test/m");
    assert!(engine.session_params("s2").is_none());
}

#[test]
fn bad_definitions_leave_nothing_behind() {
    let engine = Engine::new();
    let opening = engine.create_session(params("nope", "test/m"));
    let err = Engine::definition_loaded(opening, Err("未知定义 nope".into())).err().unwrap();
    assert_eq!(err.to_string(), "未知定义 nope");
    assert!(!engine.contains("s1"));
}

#[test]
fn sessions_are_resumed_from_the_store() {
    let mut engine = Engine::new();
    let opening = engine.resume_session("old", Ok(Some(true)), params("d", "test/m")).unwrap();
    assert_eq!(opening.usage, PromptUsage::Subagent);
    assert_eq!(engine.assemble_session(opening, Ok("ignored".into())).unwrap(), "old");
    assert!(engine.contains("old"));
    let err = engine.resume_session("gone", Ok(None), params("d", "test/m")).err().unwrap();
    assert!(matches!(err, EngineError::SessionNotFound(id) if id == "gone"));
    let err = engine.resume_session("x", Err("坏盘".into()), params("d", "m")).err().unwrap();
    assert_eq!(err.to_string(), "存储错误: 坏盘");
}

#[test]
fn create_child_session_fresh_sets_parent() {
    let mut engine = Engine::new();
    opened(&mut engine, "parent");
    let child = AgentConfig { definition: "worker".into() };
    let opening =
        engine.create_child_session("parent", ChildSessionSource::Fresh, child).unwrap();
    assert!(matches!(&opening.store, OpeningStore::Create(Some(p)) if p == "parent"));
    assert_eq!(opening.usage, PromptUsage::Subagent);
    assert_eq!(opening.params.model_config.model_id, "test/m", "子代理复用父模型");
    assert_eq!(opening.params.agent_config.definition, "worker");
}

#[test]
fn build_forked_session_missing_source_returns_not_found() {
    let mut engine = Engine::new();
    opened(&mut engine, "parent");
    let child = AgentConfig { definition: "worker".into() };
    let opening = engine
        .create_child_session("parent", ChildSessionSource::Fork("src".into()), child)
        .unwrap();
    let err = engine
        .assemble_session(opening, Err(StoreFailure::NotFound("没有".into())))
        .err()
        .unwrap();
    assert!(matches!(err, EngineError::SessionNotFound(id) if id == "src"));
    let child = AgentConfig { definition: "worker".into() };
    let err = engine
        .create_child_session("nobody", ChildSessionSource::Fresh, child)
        .err()
        .unwrap();
    assert!(matches!(err, EngineError::SessionNotFound(id) if id == "nobody"));
    let opening = engine.create_session(params("d", "m"));
    let err =
        engine.assemble_session(opening, Err(StoreFailure::Other("满".into()))).err().unwrap();
    assert!(matches!(err, EngineError::Storage(e) if e == "满"));
}

#[test]
fn input_is_delivered_whole() {
    let mut engine = Engine::new();
    opened(&mut engine, "s1");
    let Delivery::Inbound(QueueEntry::User(m)) = engine.send("s1", user_input("你好")).unwrap()
    else {
        panic!("应入队");
    };
    assert_eq!(m.payload.content, "你好");
    assert_eq!(m.payload.images.len(), 1);
    assert_eq!(m.payload.mode, UserMessageMode::Pending);
    assert_eq!(m.payload.client_message_id.as_deref(), Some("m-1"));
    let control = InputEvent::Control(envelope(ControlInput {
        command: ControlCommand::Compress,
        mode: UserMessageMode::Guide,
        client_message_id: None,
        note: Some("附言".into()),
    }));
    let Delivery::Inbound(QueueEntry::Control(m)) = engine.send("s1", control).unwrap() else {
        panic!("应入队");
    };
    assert_eq!(m.payload.note.as_deref(), Some("附言"));
    let interrupt = InputEvent::Interrupt(envelope(InterruptInput {
        reason: "停".into(),
        source: InterruptSource::User,
    }));
    assert!(matches!(engine.send("s1", interrupt).unwrap(), Delivery::Interrupt(m)
        if m.payload.reason == "停"));
}

#[test]
fn unknown_sessions_and_closed_engines_refuse() {
    let mut engine = Engine::new();
    opened(&mut engine, "s1");
    let err = engine.send("s2", user_input("x")).err().unwrap();
    assert_eq!(err.to_string(), "会话未找到: s2");
    engine.shutdown();
    assert!(engine.is_shutdown());
    let err = engine.send("s1", user_input("x")).err().unwrap();
    assert_eq!(err.to_string(), "引擎已关闭");
    assert!(matches!(engine.end_session("s1"), Err(EngineError::Shutdown)));
    assert!(!engine.contains("s1"));
}

#[test]
fn params_can_be_replaced() {
    let mut engine = Engine::new();
    opened(&mut engine, "s1");
    engine.update_session_params("s1", params("other", "a/b")).unwrap();
    let p = engine.session_params("s1").unwrap();
    assert_eq!(p.model_config.model_id, "a/b");
    assert_eq!(p.agent_config.definition, "other");
    assert!(engine.update_session_params("s2", params("x", "y")).is_err());
}

#[test]
fn queued_messages_can_be_taken_back() {
    let mut engine = Engine::new();
    opened(&mut engine, "s1");
    let mut queues = Queues::new();
    queues.put(QueueEntry::User(envelope(UserPayload {
        content: "撤回我".into(),
        images: vec![],
        mode: UserMessageMode::Guide,
        source: UserMessageSource::User,
        client_message_id: Some("m-1".into()),
    })));
    assert!(engine.remove_queued_message("s2", &mut queues, "m-1").is_err());
    assert_eq!(queues.guide.len(), 1);
    assert_eq!(engine.remove_queued_message("s1", &mut queues, "m-1").unwrap(), 1);
    assert_eq!(engine.remove_queued_message("s1", &mut queues, "m-1").unwrap(), 0);
}

#[test]
fn stop_session_unmounted_session_returns_ok() {
    let engine = Engine::new();
    assert!(matches!(
        engine.stop_session("nobody", TurnPhase::Running, "停").unwrap(),
        StopStep::Quiet
    ));
}

#[test]
fn stop_session_idle_session_returns_ok_idempotently() {
    let mut engine = Engine::new();
    opened(&mut engine, "s1");
    for _ in 0..2 {
        assert!(matches!(
            engine.stop_session("s1", TurnPhase::Idle, "停").unwrap(),
            StopStep::Quiet
        ));
    }
}

#[test]
fn running_sessions_are_interrupted_and_waited_for() {
    let mut engine = Engine::new();
    opened(&mut engine, "s1");
    let StopStep::Interrupt(m) = engine.stop_session("s1", TurnPhase::Running, "回退").unwrap()
    else {
        panic!("应投递中断");
    };
    assert_eq!(m.payload.source, InterruptSource::Stop);
    assert_eq!(m.payload.reason, "回退");
    assert!(Engine::stop_settled("s1", false, false).is_ok());
    assert!(Engine::stop_settled("s1", true, true).is_ok());
    let err = Engine::stop_settled("s1", true, false).err().unwrap();
    assert_eq!(err.to_string(), "会话停止超时（10s）：session=s1");
    engine.shutdown();
    assert!(engine.stop_session("s1", TurnPhase::Idle, "停").is_err());
}

#[test]
fn ending_one_session_leaves_the_others() {
    let mut engine = Engine::new();
    opened(&mut engine, "s1");
    opened(&mut engine, "s2");
    engine.end_session("s1").unwrap();
    assert!(!engine.contains("s1"));
    assert!(engine.contains("s2"));
    assert!(matches!(engine.end_session("s1"), Err(EngineError::SessionNotFound(_))));
    assert!(Engine::end_recorded(Ok(())).is_ok());
    assert!(matches!(Engine::end_recorded(Err("坏".into())), Err(EngineError::Storage(_))));
}

#[test]
fn exits_are_counted_once() {
    let report = shutdown_report(&vec![
        SessionExitOutcome::Finished,
        SessionExitOutcome::Panicked("x".into()),
        SessionExitOutcome::Finished,
        SessionExitOutcome::Aborted,
    ]);
    assert_eq!(
        (report.total, report.finished, report.panicked, report.aborted),
        (4, 2, 1, 1)
    );
}

#[test]
fn errors_keep_their_meaning_for_tools() {
    let e = SubagentError::from_engine(EngineError::SessionNotFound("a".into()));
    assert!(matches!(e, SubagentError::SessionNotFound(id) if id == "a"));
    let e = SubagentError::from_engine(EngineError::Storage("b".into()));
    assert!(matches!(e, SubagentError::Storage(m) if m == "b"));
    let e = SubagentError::from_engine(EngineError::Prompt("c".into()));
    assert!(matches!(e, SubagentError::Prompt(m) if m == "c"));
    let e = SubagentError::from_engine(EngineError::Provider("d".into()));
    assert!(matches!(e, SubagentError::Internal(m) if m == "d"));
    assert!(matches!(SubagentError::from_engine(EngineError::Shutdown), SubagentError::Shutdown));
    let timeout = EngineError::StopTimeout { session_id: "s".into(), timeout_secs: 120 };
    assert_eq!(timeout.to_string(), "会话停止超时（120s）：session=s");
    let e = SubagentError::from_engine(timeout);
    assert!(matches!(e, SubagentError::Internal(m) if m == "会话停止超时（120s）：session=s"));
    assert_eq!(EngineError::Provider("d".into()).to_string(), "提供者错误: d");
}

fn provider(id: &str, model: &str, usable: bool) -> DiskProvider {
    DiskProvider { id: id.into(), models: vec![model.into()], usable }
}

#[test]
fn reload_registers_disk_providers() {
    let mut t = ProviderTable::new();
    assert!(!t.instances.contains("alpha"));
    let skipped = t.reload_providers(Ok(vec![provider("alpha", "m1", true)])).unwrap();
    assert!(skipped.is_empty());
    assert!(t.instances.contains("alpha"));
    assert!(t.configs.contains("alpha"));
    assert!(t.models.contains("alpha/m1"));
}

#[test]
fn reload_removes_providers_absent_from_disk() {
    let mut t = ProviderTable::new();
    t.reload_providers(Ok(vec![provider("alpha", "m1", true)])).unwrap();
    t.reload_providers(Ok(vec![provider("beta", "m2", true)])).unwrap();
    assert!(!t.instances.contains("alpha"));
    assert!(!t.configs.contains("alpha"));
    assert!(!t.models.contains("alpha/m1"));
    assert!(t.instances.contains("beta"));
    assert!(t.models.contains("beta/m2"));
}

#[test]
fn reload_matches_case_insensitive_disk_key() {
    let mut t = ProviderTable::new();
    let skipped = t.reload_providers(Ok(vec![provider("Alpha", "m1", true)])).unwrap();
    assert!(skipped.is_empty());
    assert!(t.instances.contains("alpha"));
    assert!(t.models.contains("alpha/m1"));
}

#[test]
fn reload_skips_provider_with_missing_key() {
    let mut t = ProviderTable::new();
    t.reload_providers(Ok(vec![provider("gamma", "m1", true)])).unwrap();
    let skipped = t
        .reload_providers(Ok(vec![provider("Gamma", "m1", false), provider("delta", "m2", true)]))
        .unwrap();
    assert_eq!(skipped, vec!["gamma".to_string()]);
    assert!(!t.instances.contains("gamma"));
    assert!(t.configs.contains("gamma"));
    assert!(t.instances.contains("delta"));
}

#[test]
fn reload_bad_config_fails_loud() {
    let mut t = ProviderTable::new();
    t.reload_providers(Ok(vec![provider("alpha", "m1", true)])).unwrap();
    let err = t.reload_providers(Err("TOML 语法".into())).err().unwrap();
    assert_eq!(err.to_string(), "提供者错误: 供应商刷新失败：三层配置加载失败（TOML 语法）");
    assert!(t.instances.contains("alpha"));
}

#[test]
fn reload_skips_unimplemented_protocol() {
    let mut t = ProviderTable::new();
    let skipped = t
        .reload_providers(Ok(vec![provider("alpha", "m1", true), provider("beta", "m2", false)]))
        .unwrap();
    assert_eq!(skipped, vec!["beta".to_string()]);
    assert!(!t.instances.contains("beta"));
    assert!(t.configs.contains("beta"));
    assert!(t.instances.contains("alpha"));
}

#[test]
fn reload_of_nothing_clears_the_instances() {
    let mut t = ProviderTable::new();
    t.reload_providers(Ok(vec![provider("alpha", "m1", true)])).unwrap();
    t.reload_providers(Ok(vec![])).unwrap();
    assert!(t.instances.is_empty());
    let twice = t.reload_providers(Ok(vec![])).unwrap();
    assert!(twice.is_empty());
    assert_eq!(t.models.len(), 0);
}

#[test]
fn failed_tasks_say_why() {
    assert_eq!(format_join_error(JoinFailure::Panic(Some("爆炸".into()))), "爆炸");
    assert_eq!(format_join_error(JoinFailure::Panic(None)), "task panic（payload 不可恢复）");
    assert_eq!(format_join_error(JoinFailure::Cancelled), "task 被取消");
    assert_eq!(format_join_error(JoinFailure::Other("x".into())), "task 退出异常: x");
}

#[test]
fn engines_reload_their_providers() {
    let mut engine = Engine::new();
    let skipped = engine
        .reload_providers(Ok(vec![provider("Alpha", "m", true), provider("Beta", "m", false)]))
        .unwrap();
    assert_eq!(skipped, vec!["beta".to_string()]);
    assert!(engine.has_provider("alpha"));
    assert!(!engine.has_provider("beta"));
    assert!(engine.reload_providers(Err("坏".into())).is_err());
    assert!(engine.has_provider("alpha"));
}

#[test]
fn reload_forgets_unusable_providers_that_left_the_disk() {
    let mut t = ProviderTable::new();
    t.reload_providers(Ok(vec![provider("alpha", "m1", false)])).unwrap();
    assert!(t.configs.contains("alpha") && t.models.contains("alpha/m1"));
    t.reload_providers(Ok(vec![])).unwrap();
    assert!(t.configs.is_empty());
    assert!(t.models.is_empty());
}

#[test]
fn skipped_providers_are_gone_with_their_models() {
    let mut t = ProviderTable::new();
    let skipped = t.reload_providers(Ok(vec![provider("Gamma", "Org/M1", false)])).unwrap();
    assert_eq!(skipped, vec!["gamma"]);
    assert!(t.models.contains("gamma/org/m1"));
    t.reload_providers(Ok(vec![provider("delta", "m1", true)])).unwrap();
    assert!(!t.instances.contains("gamma"));
    assert!(!t.configs.contains("gamma"));
    assert!(!t.models.contains("gamma/org/m1"));
    assert!(t.models.contains("delta/m1"));
}
