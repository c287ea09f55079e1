use turn_core::chat::ChatRequest;
use turn_core::chat::ChatRequestBuilder;
use turn_core::items::ContentItem;
use turn_core::items::FunctionCallOutputPayload;
use turn_core::items::ResponseItem;
use turn_core::items::ReasoningItemContent;
use turn_core::items::SessionSource;
use turn_core::items::SubAgentSource;
use turn_core::items::ToolCallEntry;
use turn_core::wire::ChatError;
use turn_core::wire::ContentPart;
use turn_core::wire::WireContent;
use turn_core::wire::WireMessage;

fn user_msg(text: &str) -> ResponseItem {
    ResponseItem::Message {
        id: None,
        role: "user".to_string(),
        content: vec![ContentItem::InputText { text: text.to_string() }],
        reasoning_content: None,
        tool_calls: None,
    }
}

fn assistant_msg(text: &str) -> ResponseItem {
    ResponseItem::Message {
        id: None,
        role: "assistant".to_string(),
        content: vec![ContentItem::OutputText { text: text.to_string() }],
        reasoning_content: None,
        tool_calls: None,
    }
}

fn function_call(name: &str, arguments: &str, call_id: &str) -> ResponseItem {
    ResponseItem::FunctionCall {
        id: None,
        name: name.to_string(),
        arguments: arguments.to_string(),
        call_id: call_id.to_string(),
    }
}

fn function_output(call_id: &str, content: &str) -> ResponseItem {
    ResponseItem::FunctionCallOutput {
        call_id: call_id.to_string(),
        output: FunctionCallOutputPayload {
            content: content.to_string(),
            content_items: None,
            success: None,
        },
    }
}

fn header(req: &ChatRequest, name: &str) -> Option<String> {
    for (n, v) in &req.headers {
        if n == name {
            return Some(v.clone());
        }
    }
    None
}

fn build(input: &[ResponseItem]) -> Result<ChatRequest, ChatError> {
    ChatRequestBuilder::new("gpt-test", "inst", input, Vec::new(), None).build()
}

#[test]
fn attaches_conversation_and_subagent_headers() {
    let prompt_input = vec![user_msg("hi")];
    let req = ChatRequestBuilder::new("gpt-test", "inst", &prompt_input, Vec::new(), None)
        .conversation_id(Some("conv-1".into()))
        .session_source(Some(SessionSource::SubAgent(SubAgentSource::Review)))
        .build()
        .expect("request");

    assert_eq!(header(&req, "session_id"), Some("conv-1".to_string()));
    assert_eq!(header(&req, "x-openai-subagent"), Some("review".to_string()));
}

#[test]
fn groups_consecutive_tool_calls_into_a_single_assistant_message() {
    let prompt_input = vec![
        user_msg("read these"),
        function_call("read_file", r#"{"path":"a.txt"}"#, "call-a"),
        function_call("read_file", r#"{"path":"b.txt"}"#, "call-b"),
        function_call("read_file", r#"{"path":"c.txt"}"#, "call-c"),
        function_output("call-a", "A"),
        function_output("call-b", "B"),
        function_output("call-c", "C"),
    ];

    let req = ChatRequestBuilder::new("gpt-test", "inst", &prompt_input, Vec::new(), None)
        .build()
        .expect("request");

    let messages = &req.body.messages;
    // system + user + assistant(tool_calls=[...]) + 3 tool outputs
    assert_eq!(messages.len(), 6);

    assert_eq!(
        messages[0],
        WireMessage::Plain {
            role: "system".to_string(),
            content: WireContent::Text("inst".to_string()),
        }
    );
    assert_eq!(
        messages[1],
        WireMessage::Plain {
            role: "user".to_string(),
            content: WireContent::Text("read these".to_string()),
        }
    );

    match &messages[2] {
        WireMessage::AssistantToolCalls { tool_calls, reasoning_content } => {
            assert_eq!(tool_calls.len(), 3);
            assert_eq!(
                tool_calls[0],
                ToolCallEntry::Function {
                    id: "call-a".to_string(),
                    name: "read_file".to_string(),
                    arguments: r#"{"path":"a.txt"}"#.to_string(),
                }
            );
            assert_eq!(
                tool_calls[1],
                ToolCallEntry::Function {
                    id: "call-b".to_string(),
                    name: "read_file".to_string(),
                    arguments: r#"{"path":"b.txt"}"#.to_string(),
                }
            );
            assert_eq!(
                tool_calls[2],
                ToolCallEntry::Function {
                    id: "call-c".to_string(),
                    name: "read_file".to_string(),
                    arguments: r#"{"path":"c.txt"}"#.to_string(),
                }
            );
            assert_eq!(reasoning_content, "");
        },
        other => panic!("expected the grouped assistant message, got {:?}", other),
    }

    for (k, call_id) in [(3usize, "call-a"), (4, "call-b"), (5, "call-c")] {
        assert_eq!(
            messages[k],
            WireMessage::Tool {
                tool_call_id: call_id.to_string(),
                content: WireContent::Text(call_id[5..6].to_uppercase()),
            }
        );
    }
}

#[test]
fn developer_role_is_rewritten_to_user() {
    let input = vec![ResponseItem::Message {
        id: None,
        role: "developer".to_string(),
        content: vec![ContentItem::InputText { text: "ping".to_string() }],
        reasoning_content: None,
        tool_calls: None,
    }];
    let req = build(&input).expect("request");
    assert_eq!(req.body.messages.len(), 2);
    assert_eq!(
        req.body.messages[1],
        WireMessage::Plain {
            role: "user".to_string(),
            content: WireContent::Text("ping".to_string()),
        }
    );
}

#[test]
fn incomplete_tool_call_group_is_evicted_before_a_user_message() {
    let input = vec![
        user_msg("X"),
        function_call("f", "{}", "c1"),
        user_msg("Y"),
    ];
    let req = build(&input).expect("request");
    let messages = &req.body.messages;
    assert_eq!(messages.len(), 3);
    assert_eq!(
        messages[1],
        WireMessage::Plain {
            role: "user".to_string(),
            content: WireContent::Text("X".to_string()),
        }
    );
    assert_eq!(
        messages[2],
        WireMessage::Plain {
            role: "user".to_string(),
            content: WireContent::Text("Y".to_string()),
        }
    );
}

#[test]
fn missing_tool_response_fails_validation() {
    let input = vec![
        user_msg("X"),
        function_call("f", "{}", "c1"),
        assistant_msg("done"),
    ];
    let err = build(&input).expect_err("an unanswered call must fail");
    let ChatError::BadRequest { message } = err;
    assert!(message.contains("Missing tool message for tool_call_id: c1"));
}

#[test]
fn trailing_tool_calls_need_no_responses_yet() {
    let input = vec![user_msg("X"), function_call("f", "{}", "c1")];
    let req = build(&input).expect("a trailing group starts the current request");
    assert_eq!(req.body.messages.len(), 3);
}

#[test]
fn adjacent_duplicate_assistant_messages_collapse() {
    let input = vec![user_msg("hi"), assistant_msg("same"), assistant_msg("same")];
    let req = build(&input).expect("request");
    let messages = &req.body.messages;
    assert_eq!(messages.len(), 3);
    match &messages[2] {
        WireMessage::Assistant { content, .. } => assert_eq!(content, "same"),
        other => panic!("expected an assistant message, got {:?}", other),
    }
}

#[test]
fn distinct_assistant_messages_both_emit() {
    let input = vec![user_msg("hi"), assistant_msg("one"), assistant_msg("two")];
    let req = build(&input).expect("request");
    assert_eq!(req.body.messages.len(), 4);
}

#[test]
fn whitespace_only_reasoning_is_invisible() {
    let reasoning = ResponseItem::Reasoning {
        content: Some(vec![ReasoningItemContent::ReasoningText { text: " \t\n".to_string() }]),
    };
    let with = vec![user_msg("q"), reasoning, assistant_msg("a")];
    let without = vec![user_msg("q"), ResponseItem::Other, assistant_msg("a")];
    let req_with = build(&with).expect("request");
    let req_without = build(&without).expect("request");
    assert_eq!(req_with.body.messages, req_without.body.messages);
}

#[test]
fn reasoning_anchors_to_the_following_tool_call() {
    let reasoning = ResponseItem::Reasoning {
        content: Some(vec![
            ReasoningItemContent::ReasoningText { text: "thinking ".to_string() },
            ReasoningItemContent::Text { text: "hard".to_string() },
        ]),
    };
    let input = vec![
        user_msg("q"),
        reasoning,
        function_call("f", "{}", "c1"),
        function_output("c1", "out"),
    ];
    let req = build(&input).expect("request");
    match &req.body.messages[2] {
        WireMessage::AssistantToolCalls { reasoning_content, .. } => {
            assert_eq!(reasoning_content, "thinking hard");
        },
        other => panic!("expected the grouped assistant message, got {:?}", other),
    }
}

#[test]
fn reasoning_anchors_to_the_preceding_assistant_message() {
    let reasoning = ResponseItem::Reasoning {
        content: Some(vec![ReasoningItemContent::Text { text: "why".to_string() }]),
    };
    let input = vec![user_msg("q"), assistant_msg("a"), reasoning];
    let req = build(&input).expect("request");
    match &req.body.messages[2] {
        WireMessage::Assistant { content, reasoning, .. } => {
            assert_eq!(content, "a");
            assert_eq!(reasoning.as_deref(), Some("why"));
        },
        other => panic!("expected an assistant message, got {:?}", other),
    }
}

#[test]
fn anchoring_is_disabled_when_the_user_spoke_last() {
    let reasoning = ResponseItem::Reasoning {
        content: Some(vec![ReasoningItemContent::Text { text: "why".to_string() }]),
    };
    let input = vec![assistant_msg("a"), reasoning, user_msg("q")];
    let req = build(&input).expect("request");
    match &req.body.messages[1] {
        WireMessage::Assistant { reasoning, .. } => assert_eq!(*reasoning, None),
        other => panic!("expected an assistant message, got {:?}", other),
    }
}

#[test]
fn user_image_content_becomes_typed_parts() {
    let input = vec![ResponseItem::Message {
        id: None,
        role: "user".to_string(),
        content: vec![
            ContentItem::InputText { text: "look".to_string() },
            ContentItem::InputImage { image_url: "http://example/i.png".to_string() },
        ],
        reasoning_content: None,
        tool_calls: None,
    }];
    let req = build(&input).expect("request");
    assert_eq!(
        req.body.messages[1],
        WireMessage::Plain {
            role: "user".to_string(),
            content: WireContent::Parts(vec![
                ContentPart::Text { text: "look".to_string() },
                ContentPart::ImageUrl { url: "http://example/i.png".to_string() },
            ]),
        }
    );
}

#[test]
fn tool_role_message_with_id_becomes_a_tool_message() {
    let input = vec![
        user_msg("q"),
        ResponseItem::Message {
            id: Some("call-9".to_string()),
            role: "tool".to_string(),
            content: vec![ContentItem::OutputText { text: "result".to_string() }],
            reasoning_content: None,
            tool_calls: None,
        },
    ];
    let req = build(&input).expect("request");
    assert_eq!(
        req.body.messages[2],
        WireMessage::Tool {
            tool_call_id: "call-9".to_string(),
            content: WireContent::Text("result".to_string()),
        }
    );
}

#[test]
fn tool_role_message_without_id_is_skipped() {
    let input = vec![
        user_msg("q"),
        ResponseItem::Message {
            id: None,
            role: "tool".to_string(),
            content: vec![ContentItem::OutputText { text: "orphan".to_string() }],
            reasoning_content: None,
            tool_calls: None,
        },
    ];
    let req = build(&input).expect("request");
    assert_eq!(req.body.messages.len(), 2);
}

#[test]
fn assistant_reasoning_content_defaults_to_empty() {
    let input = vec![user_msg("q"), assistant_msg("a")];
    let req = build(&input).expect("request");
    match &req.body.messages[2] {
        WireMessage::Assistant { reasoning_content, .. } => assert_eq!(reasoning_content, ""),
        other => panic!("expected an assistant message, got {:?}", other),
    }
}

#[test]
fn builder_reasoning_content_is_attached_to_assistant_messages() {
    let input = vec![user_msg("q"), assistant_msg("a")];
    let req = ChatRequestBuilder::new(
        "gpt-test",
        "inst",
        &input,
        Vec::new(),
        Some("chain".to_string()),
    )
        .build()
        .expect("request");
    match &req.body.messages[2] {
        WireMessage::Assistant { reasoning_content, .. } => assert_eq!(reasoning_content, "chain"),
        other => panic!("expected an assistant message, got {:?}", other),
    }
}

#[test]
fn body_carries_model_stream_and_tools() {
    let tools = vec![serde_json::Value::Null];
    let input = vec![user_msg("q")];
    let req = ChatRequestBuilder::new("gpt-test", "inst", &input, tools, None)
        .build()
        .expect("request");
    assert_eq!(req.body.model, "gpt-test");
    assert!(req.body.stream);
    assert_eq!(req.body.tools, vec![serde_json::Value::Null]);
    assert!(req.headers.is_empty());
}

#[test]
fn replayed_tool_messages_skip_validation() {
    // A history that replays a tool transcript: an unanswered group would be
    // invalid, but the presence of tool messages skips the check.
    let input = vec![
        user_msg("q"),
        function_call("f", "{}", "c1"),
        function_output("c1", "out"),
        function_call("g", "{}", "c2"),
        assistant_msg("done"),
    ];
    let req = build(&input).expect("tool messages present, validation skipped");
    assert_eq!(req.body.messages.len(), 6);
}

#[test]
fn an_empty_history_yields_the_system_message_alone() {
    let req = build(&[]).expect("request");
    assert_eq!(
        req.body.messages,
        vec![WireMessage::Plain {
            role: "system".to_string(),
            content: WireContent::Text("inst".to_string()),
        }]
    );
}

#[test]
fn custom_and_local_shell_calls_join_the_same_group() {
    let input = vec![
        user_msg("go"),
        function_call("f", "{}", "c1"),
        ResponseItem::CustomToolCall {
            id: None,
            call_id: "c2".to_string(),
            name: "patch".to_string(),
            input: "diff".to_string(),
            status: None,
        },
        ResponseItem::LocalShellCall {
            id: Some("c3".to_string()),
            call_id: None,
            status: turn_core::items::LocalShellStatus::Completed,
            action: turn_core::items::LocalShellAction::Exec(
                turn_core::items::LocalShellExecAction {
                    command: vec!["ls".to_string()],
                    timeout_ms: None,
                    working_directory: None,
                },
            ),
        },
        function_output("c1", "A"),
        ResponseItem::CustomToolCallOutput { call_id: "c2".to_string(), output: "B".to_string() },
        function_output("c3", "C"),
    ];
    let req = build(&input).expect("request");
    let messages = &req.body.messages;
    assert_eq!(messages.len(), 6);
    match &messages[2] {
        WireMessage::AssistantToolCalls { tool_calls, .. } => {
            assert_eq!(tool_calls.len(), 3);
            assert!(matches!(&tool_calls[0], ToolCallEntry::Function { id, .. } if id == "c1"));
            assert!(matches!(&tool_calls[1], ToolCallEntry::Custom { id, .. } if id == "c2"));
            assert!(matches!(&tool_calls[2], ToolCallEntry::LocalShell { id, .. } if id == "c3"));
        },
        other => panic!("expected the grouped assistant message, got {:?}", other),
    }
    assert!(matches!(&messages[3], WireMessage::Tool { tool_call_id, .. } if tool_call_id == "c1"));
    assert!(matches!(&messages[4], WireMessage::Tool { tool_call_id, .. } if tool_call_id == "c2"));
    assert!(matches!(&messages[5], WireMessage::Tool { tool_call_id, .. } if tool_call_id == "c3"));
}

#[test]
fn function_output_with_typed_parts_emits_them() {
    let input = vec![
        user_msg("go"),
        function_call("f", "{}", "c1"),
        ResponseItem::FunctionCallOutput {
            call_id: "c1".to_string(),
            output: FunctionCallOutputPayload {
                content: "plain".to_string(),
                content_items: Some(vec![
                    turn_core::items::FunctionCallOutputContentItem::InputText {
                        text: "shown".to_string(),
                    },
                    turn_core::items::FunctionCallOutputContentItem::InputImage {
                        image_url: "http://example/o.png".to_string(),
                    },
                ]),
                success: None,
            },
        },
    ];
    let req = build(&input).expect("request");
    assert_eq!(
        req.body.messages[3],
        WireMessage::Tool {
            tool_call_id: "c1".to_string(),
            content: WireContent::Parts(vec![
                ContentPart::Text { text: "shown".to_string() },
                ContentPart::ImageUrl { url: "http://example/o.png".to_string() },
            ]),
        }
    );
}
