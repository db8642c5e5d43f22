use fuyao_core::builders::{
    assistant_payload, build_chat_request, plain_chat_request, resolve_context_length,
    resolve_model, tool_call_data_to_event, tool_call_event_to_data,
};
use fuyao_core::chat::{ModelConfig, StreamResult, StreamUsage, ThinkingType};
use fuyao_core::emit::envelope;
use fuyao_core::message::{Message, MessageRole, OutputEvent, ToolCallData, ToolCallPayload};

fn params_with_model(model_id: &str) -> ModelConfig {
    ModelConfig { model_id: model_id.to_string(), thinking_type: None, reasoning_effort: None }
}

fn user(content: &str) -> Message {
    let mut msg = Message::new(MessageRole::User);
    msg.content = Some(content.to_string());
    msg
}

fn assistant_with_calls(ids: &[&str]) -> Message {
    let mut msg = Message::new(MessageRole::Assistant);
    msg.content = Some("调用工具".to_string());
    msg.tool_calls = Some(
        ids.iter()
            .map(|id| ToolCallData {
                id: id.to_string(),
                name: "echo".to_string(),
                arguments: "{}".to_string(),
            })
            .collect(),
    );
    msg.finish_reason = Some("tool_calls".to_string());
    msg
}

fn tool_result(id: &str, content: &str) -> Message {
    let mut msg = Message::new(MessageRole::Tool);
    msg.tool_call_id = Some(id.to_string());
    msg.content = Some(content.to_string());
    msg
}

#[test]
fn pairing_fills_missing_tool_results() {
    let history =
        vec![user("问题"), assistant_with_calls(&["c1", "c2", "c3"]), tool_result("c2", "结果2")];
    let request = build_chat_request(&history, Some("系统提示词".to_string()));
    let tool_msgs: Vec<_> =
        request.messages.iter().filter(|m| matches!(m.role, MessageRole::Tool)).collect();
    assert_eq!(tool_msgs.len(), 3, "应有 3 条 tool 消息（1真实+2补充）");
    let supplemented_ids: Vec<_> = tool_msgs
        .iter()
        .filter(|m| m.content.as_deref() == Some("[工具执行被拦截或中断]"))
        .filter_map(|m| m.tool_call_id.as_deref())
        .collect();
    assert_eq!(supplemented_ids, vec!["c1", "c3"], "c1 和 c3 应被补充 error");
    assert_eq!(request.system.as_deref(), Some("系统提示词"));
    assert_eq!(request.messages[2].tool_name.as_deref(), Some("echo"));
    assert_eq!(request.messages[4].content.as_deref(), Some("结果2"));
}

#[test]
fn pairing_no_op_when_all_answered() {
    let history = vec![
        assistant_with_calls(&["c1", "c2"]),
        tool_result("c1", "结果1"),
        tool_result("c2", "结果2"),
    ];
    let request = build_chat_request(&history, None);
    let tool_count =
        request.messages.iter().filter(|m| matches!(m.role, MessageRole::Tool)).count();
    assert_eq!(tool_count, 2, "全部有结果时不补充");
}

#[test]
fn pairing_ignores_assistant_without_tool_calls() {
    let mut reply = Message::new(MessageRole::Assistant);
    reply.content = Some("你好".to_string());
    let request = build_chat_request(&vec![user("你好"), reply], None);
    assert_eq!(request.messages.len(), 2, "无工具调用时消息数不变");
}

#[test]
fn calls_without_identifier_get_no_result() {
    let request = build_chat_request(&vec![assistant_with_calls(&["", "x"])], None);
    assert_eq!(request.messages.len(), 2);
    assert_eq!(request.messages[1].tool_call_id.as_deref(), Some("x"));
    let plain = plain_chat_request(&vec![assistant_with_calls(&["", "x"])], None);
    assert_eq!(plain.messages.len(), 1);
}

#[test]
fn resolve_model_explicit_id_splits_provider_and_model() {
    let params = params_with_model("DeepSeek/deepseek-v4-flash");
    let r = resolve_model(&params, vec![], None).expect("显式 model_id 应解析成功");
    assert_eq!(r.provider_id, "deepseek");
    assert_eq!(r.model, "deepseek-v4-flash");
    assert_eq!(r.model_id, "DeepSeek/deepseek-v4-flash");
}

#[test]
fn resolve_model_carries_explicit_thinking_into_options() {
    let params = ModelConfig {
        model_id: "deepseek/deepseek-v4-flash".to_string(),
        thinking_type: Some(ThinkingType::Enabled),
        reasoning_effort: Some("high".to_string()),
    };
    let r = resolve_model(&params, vec![], None).expect("解析应成功");
    assert_eq!(r.options.thinking_type, Some(ThinkingType::Enabled));
    assert_eq!(r.options.reasoning_effort.as_deref(), Some("high"));
}

#[test]
fn resolve_model_empty_model_id_returns_err() {
    let params = params_with_model("");
    let err = resolve_model(&params, vec![], None).expect_err("空 model_id 应返回 Err");
    assert!(err.contains("未指定模型"), "错误信息应明确：{err}");
}

#[test]
fn resolve_model_invalid_format_no_slash_returns_err() {
    let params = params_with_model("invalid-no-slash");
    let err = resolve_model(&params, vec![], None).expect_err("格式错误应返回 Err");
    assert!(err.contains("格式错误"), "错误信息应明确：{err}");
    assert_eq!(err, "model_id 格式错误（应为 provider_id/model_id）: invalid-no-slash");
}

#[test]
fn resolve_model_empty_provider_or_model_returns_err() {
    let params = params_with_model("/model");
    resolve_model(&params, vec![], None).expect_err("provider 空应报错");
    let params = params_with_model("provider/");
    resolve_model(&params, vec![], None).expect_err("model 空应报错");
}

#[test]
fn resolve_model_splits_at_the_first_slash() {
    let r = resolve_model(&params_with_model("A/b/C"), vec!["{}".to_string()], Some(64)).unwrap();
    assert_eq!(r.provider_id, "a");
    assert_eq!(r.model, "b/C");
    assert_eq!(r.context_length, Some(64));
    assert_eq!(r.options.tools, Some(vec!["{}".to_string()]));
}

#[test]
fn no_tools_and_no_limit_count_as_none() {
    let r = resolve_model(&params_with_model("a/b"), vec![], Some(0)).unwrap();
    assert_eq!(r.options.tools, None);
    assert_eq!(r.context_length, None);
    assert_eq!(resolve_context_length(None), None);
    assert_eq!(resolve_context_length(Some(1)), Some(1));
}

#[test]
fn replies_say_whether_they_call_tools() {
    let usage = StreamUsage {
        prompt_tokens: 3,
        completion_tokens: 4,
        total_tokens: 7,
        completion_reasoning_tokens: Some(1),
        prompt_cached_tokens: None,
    };
    let mut result = StreamResult {
        text: "".into(),
        reasoning: "想".into(),
        tool_calls: vec![],
        usage,
    };
    let p = assistant_payload(&result);
    assert_eq!(p.content, None);
    assert_eq!(p.reasoning.as_deref(), Some("想"));
    assert_eq!(p.finish_reason.as_deref(), Some("stop"));
    assert!(p.tool_calls.is_none());
    assert_eq!((p.prompt_tokens, p.completion_tokens, p.total_tokens), (3, 4, 7));
    assert_eq!((p.reasoning_tokens, p.cached_tokens), (1, 0));
    result.tool_calls.push(ToolCallData {
        id: "i".into(),
        name: "n".into(),
        arguments: "[ ]".into(),
    });
    let p = assistant_payload(&result);
    assert_eq!(p.finish_reason.as_deref(), Some("tool_calls"));
    assert_eq!(p.tool_calls.unwrap()[0].tool_args, "[]");
}

#[test]
fn tool_calls_pass_the_plugins_and_come_back() {
    let call = ToolCallData { id: "i".into(), name: "n".into(), arguments: "{\"a\":1}".into() };
    let back = tool_call_event_to_data(&tool_call_data_to_event(&call)).unwrap();
    assert_eq!(back.id, "i");
    assert_eq!(back.name, "n");
    assert_eq!(back.arguments, "{\"a\":1}");
    let broken = ToolCallData { id: "i".into(), name: "n".into(), arguments: "{".into() };
    let back = tool_call_event_to_data(&tool_call_data_to_event(&broken)).unwrap();
    assert_eq!(back.arguments, "null");
    let changed = OutputEvent::ToolCall(envelope(ToolCallPayload {
        tool_call_id: "j".into(),
        tool_name: "m".into(),
        tool_args: "{}".into(),
    }));
    assert_eq!(tool_call_event_to_data(&changed).unwrap().name, "m");
    let other = OutputEvent::TurnStart(fuyao_core::message::EventBase::new());
    assert!(tool_call_event_to_data(&other).is_none());
}
