use fuyao_core::history::{
    after_store, append_placeholder, apply_throttle, emission, event_to_message, message_to_event,
    messages_to_events, throttle_images, Bill, Emission,
};
use fuyao_core::emit::envelope;
use fuyao_core::message::{
    AssistantPayload, Cost, Envelope, EventBase, ImageContent, InterruptPayload, InterruptSource,
    Message, MessageKind, MessageRole, OutputEvent, Timestamp, ToolCallData, ToolCallPayload,
    ToolResultPayload, UserMessageMode, UserMessageSource, UserPayload,
};

fn object(key: &str, value: &str) -> serde_json::Value {
    let mut map = serde_json::Map::new();
    map.insert(key.to_string(), serde_json::Value::String(value.to_string()));
    serde_json::Value::Object(map)
}

fn make_msg(role: MessageRole, seq: i64, overrides: &dyn Fn(&mut Message)) -> Message {
    let mut msg = Message {
        id: Some(seq),
        session_id: "sess-1".into(),
        model_id: None,
        role,
        content: None,
        images: vec![],
        reasoning: None,
        tool_call_id: None,
        tool_calls: None,
        tool_name: None,
        finish_reason: None,
        timestamp: Timestamp { bits: (seq as f64).to_bits() },
        prompt_tokens: 0,
        completion_tokens: 0,
        reasoning_tokens: 0,
        cached_tokens: 0,
        cost: Cost { bits: 0.0_f64.to_bits() },
        seq,
        kind: MessageKind::Message,
    };
    overrides(&mut msg);
    msg
}

fn make_assistant_event(overrides: &dyn Fn(&mut AssistantPayload)) -> OutputEvent {
    let mut payload = AssistantPayload {
        content: None,
        reasoning: None,
        tool_calls: None,
        finish_reason: None,
        completion_tokens: 0,
        prompt_tokens: 0,
        total_tokens: 0,
        reasoning_tokens: 0,
        cached_tokens: 0,
    };
    overrides(&mut payload);
    OutputEvent::Assistant(envelope(payload))
}

fn user_event(content: &str, images: Vec<ImageContent>) -> Envelope<UserPayload> {
    envelope(UserPayload {
        content: content.into(),
        images,
        mode: UserMessageMode::Guide,
        source: UserMessageSource::User,
        client_message_id: None,
    })
}

fn bill(model_id: &str, cost: f64) -> Bill {
    Bill { model_id: model_id.into(), cost: Cost { bits: cost.to_bits() } }
}

#[test]
fn billed_assistant_maps_tokens_model_and_finish_reason() {
    let ev = make_assistant_event(&|p| {
        p.content = Some("回复".into());
        p.finish_reason = Some("stop".into());
        p.prompt_tokens = 20;
        p.completion_tokens = 10;
        p.reasoning_tokens = 5;
        p.cached_tokens = 2;
    });
    let msg = event_to_message(&ev, Some(&bill("test/m1", 0.0))).expect("应投影成功");
    assert_eq!(msg.role, MessageRole::Assistant);
    assert_eq!(msg.content.as_deref(), Some("回复"));
    assert_eq!(msg.finish_reason.as_deref(), Some("stop"));
    assert_eq!(msg.prompt_tokens, 20);
    assert_eq!(msg.completion_tokens, 10);
    assert_eq!(msg.reasoning_tokens, 5);
    assert_eq!(msg.cached_tokens, 2);
    assert_eq!(msg.model_id.as_deref(), Some("test/m1"));
    assert_eq!(f64::from_bits(msg.cost.bits), 0.0);
}

#[test]
fn unbilled_assistant_skips_model_and_cost() {
    let ev = make_assistant_event(&|p| {
        p.content = Some("部分回复".into());
        p.finish_reason = Some("interrupted".into());
    });
    let msg = event_to_message(&ev, None).expect("应投影成功");
    assert_eq!(msg.finish_reason.as_deref(), Some("interrupted"));
    assert_eq!(msg.model_id, None);
    assert_eq!(f64::from_bits(msg.cost.bits), 0.0);
}

#[test]
fn billed_assistant_carries_its_cost() {
    let ev = make_assistant_event(&|p| p.content = Some("回复".into()));
    let msg = event_to_message(&ev, Some(&bill("test/m1", 0.25))).unwrap();
    assert_eq!(f64::from_bits(msg.cost.bits), 0.25);
}

#[test]
fn assistant_both_content_and_tool_calls_empty_fills_empty_string() {
    let ev = make_assistant_event(&|p| {
        p.reasoning = Some("思考到一半".into());
        p.finish_reason = Some("interrupted".into());
    });
    let msg = event_to_message(&ev, None).expect("应投影成功");
    assert_eq!(msg.content.as_deref(), Some(""));
    assert!(msg.tool_calls.is_none());
    assert_eq!(msg.reasoning.as_deref(), Some("思考到一半"));
}

#[test]
fn assistant_content_none_with_tool_calls_untouched() {
    let ev = make_assistant_event(&|p| {
        p.finish_reason = Some("tool_calls".into());
        p.tool_calls = Some(vec![ToolCallPayload {
            tool_call_id: "call_1".into(),
            tool_name: "search".into(),
            tool_args: object("q", "rust").to_string(),
        }]);
    });
    let msg = event_to_message(&ev, None).expect("应投影成功");
    assert_eq!(msg.content, None);
    assert!(msg.tool_calls.is_some());
}

#[test]
fn empty_tool_call_list_is_stored_as_none() {
    let ev = make_assistant_event(&|p| p.tool_calls = Some(vec![]));
    let msg = event_to_message(&ev, None).unwrap();
    assert!(msg.tool_calls.is_none());
    assert_eq!(msg.content.as_deref(), Some(""));
}

#[test]
fn assistant_tool_calls_payload_maps_to_typed() {
    let ev = make_assistant_event(&|p| {
        p.finish_reason = Some("tool_calls".into());
        p.tool_calls = Some(vec![
            ToolCallPayload {
                tool_call_id: "call_1".into(),
                tool_name: "search".into(),
                tool_args: object("q", "rust").to_string(),
            },
            ToolCallPayload {
                tool_call_id: "call_2".into(),
                tool_name: "read".into(),
                tool_args: object("path", "/a.rs").to_string(),
            },
        ]);
    });
    let msg = event_to_message(&ev, None).expect("应投影成功");
    let calls = msg.tool_calls.expect("应落库 tool_calls");
    assert_eq!(calls.len(), 2);
    assert_eq!(calls[0].id, "call_1");
    assert_eq!(calls[0].name, "search");
    assert_eq!(
        serde_json::from_str::<serde_json::Value>(&calls[0].arguments).ok(),
        Some(object("q", "rust"))
    );
    assert_eq!(calls[1].name, "read");
}

#[test]
fn tool_result_maps_with_tool_name() {
    let ev = OutputEvent::ToolResult(envelope(ToolResultPayload {
        tool_call_id: "call_1".into(),
        tool_name: "get_weather".into(),
        content: "sunny".into(),
    }));
    let msg = event_to_message(&ev, None).expect("应投影成功");
    assert_eq!(msg.role, MessageRole::Tool);
    assert_eq!(msg.tool_call_id.as_deref(), Some("call_1"));
    assert_eq!(msg.tool_name.as_deref(), Some("get_weather"));
    assert_eq!(msg.content.as_deref(), Some("sunny"));
}

#[test]
fn user_event_maps_images_verbatim() {
    let ev = OutputEvent::User(user_event(
        "看图",
        vec![ImageContent { mime_type: "image/png".into(), data: "aGVsbG8=".into() }],
    ));
    let msg = event_to_message(&ev, None).expect("应投影成功");
    assert_eq!(msg.role, MessageRole::User);
    assert_eq!(msg.content.as_deref(), Some("看图"));
    assert_eq!(msg.images.len(), 1);
}

#[test]
fn non_history_event_variants_map_to_none() {
    let ev = OutputEvent::Interrupt(envelope(InterruptPayload {
        reason: "用户取消".into(),
        source: InterruptSource::User,
    }));
    assert!(event_to_message(&ev, None).is_none());
}

#[test]
fn append_placeholder_covers_text_and_image_only() {
    assert_eq!(append_placeholder("看图", "[占位]"), "看图\n\n[占位]".to_string());
    assert_eq!(append_placeholder("  ", "[占位]"), "[占位]".to_string());
}

#[test]
fn tool_calls_roundtrip_preserves_semantics() {
    let ev = make_assistant_event(&|p| {
        p.content = Some("调用工具".into());
        p.tool_calls = Some(vec![ToolCallPayload {
            tool_call_id: "call_1".into(),
            tool_name: "search".into(),
            tool_args: object("q", "rust").to_string(),
        }]);
    });
    let msg = event_to_message(&ev, Some(&bill("test/m1", 0.0))).expect("应投影成功");
    let replayed = message_to_event(&msg).expect("应投影回事件");
    let OutputEvent::Assistant(m) = replayed else {
        panic!("应为 Assistant 变体");
    };
    let calls = m.payload.tool_calls.expect("回放应有 tool_calls");
    assert_eq!(calls.len(), 1);
    assert_eq!(calls[0].tool_call_id, "call_1");
    assert_eq!(calls[0].tool_name, "search");
    assert_eq!(
        serde_json::from_str::<serde_json::Value>(&calls[0].tool_args).unwrap(),
        object("q", "rust")
    );
}

#[test]
fn user_message_projects_with_default_mode_source() {
    let msg = make_msg(MessageRole::User, 1, &|m| {
        m.content = Some("你好".into());
    });
    let event = message_to_event(&msg).expect("user 应投影成事件");
    let OutputEvent::User(Envelope { base, payload }) = event else {
        panic!("应为 User 变体");
    };
    assert_eq!(payload.content, "你好");
    assert_eq!(payload.mode, UserMessageMode::Guide);
    assert!(matches!(payload.source, UserMessageSource::User));
    assert!((f64::from_bits(base.timestamp.bits) - 1.0).abs() < f64::EPSILON);
    assert_eq!(base.session_id.as_deref(), Some("sess-1"));
    assert_eq!(base.seq, Some(1));
}

#[test]
fn user_message_carries_images() {
    let msg = make_msg(MessageRole::User, 2, &|m| {
        m.images = vec![ImageContent { mime_type: "image/png".into(), data: "iVBORw0".into() }];
    });
    let OutputEvent::User(Envelope { payload, .. }) = message_to_event(&msg).expect("user 应投影")
    else {
        panic!("变体类型不符");
    };
    assert_eq!(payload.images.len(), 1);
    assert_eq!(payload.images[0].mime_type, "image/png");
}

#[test]
fn user_empty_content_defaults_to_empty_string() {
    let msg = make_msg(MessageRole::User, 3, &|_| {});
    let OutputEvent::User(Envelope { payload, .. }) = message_to_event(&msg).expect("user 应投影")
    else {
        panic!("变体类型不符");
    };
    assert_eq!(payload.content, "");
}

#[test]
fn assistant_message_projects_tokens_and_content() {
    let msg = make_msg(MessageRole::Assistant, 4, &|m| {
        m.content = Some("回复".into());
        m.reasoning = Some("思考".into());
        m.finish_reason = Some("stop".into());
        m.prompt_tokens = 20;
        m.completion_tokens = 10;
        m.reasoning_tokens = 5;
        m.cached_tokens = 2;
    });
    let OutputEvent::Assistant(Envelope { payload, .. }) =
        message_to_event(&msg).expect("assistant 应投影")
    else {
        panic!("变体类型不符");
    };
    assert_eq!(payload.content.as_deref(), Some("回复"));
    assert_eq!(payload.reasoning.as_deref(), Some("思考"));
    assert_eq!(payload.finish_reason.as_deref(), Some("stop"));
    assert_eq!(payload.prompt_tokens, 20);
    assert_eq!(payload.completion_tokens, 10);
    assert_eq!(payload.total_tokens, 30);
    assert_eq!(payload.reasoning_tokens, 5);
    assert_eq!(payload.cached_tokens, 2);
    assert!(payload.tool_calls.is_none());
}

#[test]
fn assistant_tool_calls_typed_to_flat() {
    let msg = make_msg(MessageRole::Assistant, 5, &|m| {
        m.tool_calls = Some(vec![
            ToolCallData {
                id: "call_1".into(),
                name: "search".into(),
                arguments: "{\"q\":\"rust\"}".into(),
            },
            ToolCallData {
                id: "call_2".into(),
                name: "read".into(),
                arguments: "{\"path\":\"/a.rs\"}".into(),
            },
        ]);
    });
    let OutputEvent::Assistant(Envelope { payload, .. }) =
        message_to_event(&msg).expect("assistant 应投影")
    else {
        panic!("变体类型不符");
    };
    let calls = payload.tool_calls.expect("应有 tool_calls");
    assert_eq!(calls.len(), 2);
    assert_eq!(calls[0].tool_call_id, "call_1");
    assert_eq!(calls[0].tool_name, "search");
    assert_eq!(calls[0].tool_args, object("q", "rust").to_string());
    assert_eq!(calls[1].tool_call_id, "call_2");
    assert_eq!(calls[1].tool_name, "read");
    assert_eq!(calls[1].tool_args, object("path", "/a.rs").to_string());
}

#[test]
fn arguments_are_shown_in_compact_form() {
    let msg = make_msg(MessageRole::Assistant, 5, &|m| {
        m.tool_calls = Some(vec![ToolCallData {
            id: "c".into(),
            name: "n".into(),
            arguments: " { \"q\" :  [1, 2] } ".into(),
        }]);
    });
    let OutputEvent::Assistant(m) = message_to_event(&msg).unwrap() else {
        panic!("变体类型不符");
    };
    assert_eq!(m.payload.tool_calls.unwrap()[0].tool_args, "{\"q\":[1,2]}");
}

#[test]
fn assistant_invalid_arguments_string_falls_back_to_null() {
    let msg = make_msg(MessageRole::Assistant, 6, &|m| {
        m.tool_calls = Some(vec![ToolCallData {
            id: "call_x".into(),
            name: "bad".into(),
            arguments: "not-json".into(),
        }]);
    });
    let OutputEvent::Assistant(Envelope { payload, .. }) =
        message_to_event(&msg).expect("assistant 应投影")
    else {
        panic!("变体类型不符");
    };
    let call = &payload.tool_calls.expect("应有 tool_calls")[0];
    assert_eq!(call.tool_name, "bad");
    assert_eq!(call.tool_args, serde_json::Value::Null.to_string());
}

#[test]
fn assistant_empty_tool_calls_array_becomes_none() {
    let msg = make_msg(MessageRole::Assistant, 8, &|m| {
        m.tool_calls = Some(vec![]);
    });
    let OutputEvent::Assistant(Envelope { payload, .. }) =
        message_to_event(&msg).expect("assistant 应投影")
    else {
        panic!("变体类型不符");
    };
    assert!(payload.tool_calls.is_none());
}

#[test]
fn tool_message_projects_to_tool_result_with_name() {
    let msg = make_msg(MessageRole::Tool, 9, &|m| {
        m.tool_call_id = Some("call_1".into());
        m.tool_name = Some("get_weather".into());
        m.content = Some("sunny".into());
    });
    let OutputEvent::ToolResult(Envelope { base, payload }) =
        message_to_event(&msg).expect("tool 应投影")
    else {
        panic!("变体类型不符");
    };
    assert_eq!(payload.tool_call_id, "call_1");
    assert_eq!(payload.tool_name, "get_weather");
    assert_eq!(payload.content, "sunny");
    assert_eq!(base.seq, Some(9));
}

#[test]
fn tool_message_missing_fields_default_empty() {
    let msg = make_msg(MessageRole::Tool, 10, &|_| {});
    let OutputEvent::ToolResult(Envelope { payload, .. }) =
        message_to_event(&msg).expect("tool 应投影")
    else {
        panic!("变体类型不符");
    };
    assert_eq!(payload.tool_call_id, "");
    assert_eq!(payload.tool_name, "");
    assert_eq!(payload.content, "");
}

#[test]
fn system_message_is_skipped() {
    let msg = make_msg(MessageRole::System, 11, &|m| {
        m.content = Some("你是助手".into());
    });
    assert!(message_to_event(&msg).is_none());
}

#[test]
fn messages_to_events_reverses_desc_to_asc() {
    let messages = vec![
        make_msg(MessageRole::User, 3, &|m| {
            m.content = Some("三".into());
        }),
        make_msg(MessageRole::Assistant, 2, &|m| {
            m.content = Some("二".into());
        }),
        make_msg(MessageRole::User, 1, &|m| {
            m.content = Some("一".into());
        }),
    ];
    let events = messages_to_events(messages);
    assert_eq!(events.len(), 3);
    let seqs: Vec<Option<i64>> = events
        .iter()
        .map(|e| match e {
            OutputEvent::User(m) => m.base.seq,
            OutputEvent::Assistant(m) => m.base.seq,
            _ => None,
        })
        .collect();
    assert_eq!(seqs, vec![Some(1), Some(2), Some(3)]);
}

#[test]
fn messages_to_events_skips_system() {
    let messages = vec![
        make_msg(MessageRole::System, 2, &|_| {}),
        make_msg(MessageRole::User, 1, &|m| {
            m.content = Some("用户".into());
        }),
    ];
    let events = messages_to_events(messages);
    assert_eq!(events.len(), 1);
    assert!(matches!(events[0], OutputEvent::User(_)));
}

#[test]
fn messages_to_events_empty_input() {
    assert!(messages_to_events(vec![]).is_empty());
}

#[test]
fn pages_replay_like_the_whole() {
    let whole = vec![
        make_msg(MessageRole::User, 4, &|_| {}),
        make_msg(MessageRole::Tool, 3, &|_| {}),
        make_msg(MessageRole::System, 2, &|_| {}),
        make_msg(MessageRole::User, 1, &|_| {}),
    ];
    let newer = vec![
        make_msg(MessageRole::User, 4, &|_| {}),
        make_msg(MessageRole::Tool, 3, &|_| {}),
    ];
    let older = vec![
        make_msg(MessageRole::System, 2, &|_| {}),
        make_msg(MessageRole::User, 1, &|_| {}),
    ];
    let seq = |e: &OutputEvent| e.base().seq;
    let all: Vec<Option<i64>> = messages_to_events(whole).iter().map(seq).collect();
    let mut paged: Vec<Option<i64>> = messages_to_events(older).iter().map(seq).collect();
    paged.extend(messages_to_events(newer).iter().map(seq));
    assert_eq!(all, vec![Some(1), Some(3), Some(4)]);
    assert_eq!(paged, all);
}

#[test]
fn blocked_events_are_neither_stored_nor_shown() {
    assert!(matches!(emission(None, None), Emission::Blocked));
}

#[test]
fn events_of_no_history_are_only_shown() {
    let event = OutputEvent::TurnStart(EventBase::new());
    assert!(matches!(emission(Some(event), None), Emission::Shown(_)));
}

#[test]
fn stored_events_carry_their_place() {
    let event = make_assistant_event(&|p| p.content = Some("改写后".into()));
    let Emission::Stored(event, msg) = emission(Some(event), None) else {
        panic!("应落库");
    };
    assert_eq!(msg.content.as_deref(), Some("改写后"));
    assert_eq!(after_store(event, Some(7)).base().seq, Some(7));
    let event = make_assistant_event(&|p| p.content = Some("回复".into()));
    assert_eq!(after_store(event, None).base().seq, None);
}

#[test]
fn inject_images_persisted_faithfully() {
    let msg = user_event(
        "看图",
        vec![ImageContent { mime_type: "image/png".into(), data: "aGVsbG8=".into() }],
    );
    let out = throttle_images(msg);
    assert_eq!(out.payload.images.len(), 1);
    assert_eq!(out.payload.images[0].mime_type, "image/png");
    assert_eq!(out.payload.images[0].data, "aGVsbG8=");
    assert_eq!(out.payload.content, "看图");
}

#[test]
fn inject_images_failed_processing_appends_placeholder() {
    let bad = "!!!not-base64!!!".repeat(1_000_000);
    let msg = user_event("看图", vec![ImageContent { mime_type: "image/png".into(), data: bad }]);
    let out = throttle_images(msg);
    assert!(out.payload.images.is_empty());
    assert!(out.payload.content.starts_with("看图"));
    assert!(out.payload.content.contains("[图片已省略：图片处理失败]"));
}

#[test]
fn inject_images_failed_processing_empty_text_placeholder_only() {
    let bad = "!!!not-base64!!!".repeat(1_000_000);
    let msg = user_event("", vec![ImageContent { mime_type: "image/png".into(), data: bad }]);
    let out = throttle_images(msg);
    assert_eq!(out.payload.content, "[图片已省略：图片处理失败]");
}

#[test]
fn images_that_fail_as_a_whole_leave_a_placeholder() {
    let out = apply_throttle(user_event("图", vec![]), vec![], 2);
    assert_eq!(out.payload.content, "图\n\n[图片已省略：图片处理失败]");
}

#[test]
fn replayed_calls_keep_their_identity() {
    let payload = |id: &str, args: &str| ToolCallPayload {
        tool_call_id: id.into(),
        tool_name: "read".into(),
        tool_args: args.into(),
    };
    let ev = make_assistant_event(&|p| {
        p.tool_calls = Some(vec![payload("c1", "{ \"a\" : 1 }"), payload("c2", "{broken")]);
    });
    let msg = event_to_message(&ev, None).expect("应投影成功");
    let Some(OutputEvent::Assistant(back)) = message_to_event(&msg) else {
        panic!("变体类型不符");
    };
    let calls = back.payload.tool_calls.expect("应有 tool_calls");
    assert_eq!(calls.len(), 2);
    assert_eq!((calls[0].tool_call_id.as_str(), calls[1].tool_call_id.as_str()), ("c1", "c2"));
    assert_eq!(calls[0].tool_name, "read");
    assert_eq!(calls[0].tool_args, "{\"a\":1}");
    assert_eq!(calls[1].tool_args, "null");
}
