use turn_core::items::ContentItem;
use turn_core::items::FunctionCallError;
use turn_core::items::FunctionCallOutputPayload;
use turn_core::items::ResponseItem;
use turn_core::reducer::CallToolResult;
use turn_core::reducer::OutputItemPlan;
use turn_core::reducer::ResponseInputItem;
use turn_core::reducer::TurnAction;
use turn_core::reducer::handle_output_item_done;
use turn_core::reducer::last_assistant_message_from_item;
use turn_core::reducer::parse_turn_item;
use turn_core::reducer::plan_for_classification;
use turn_core::reducer::response_input_to_response_item;
use turn_core::router::McpDirectory;
use turn_core::router::ToolCall;
use turn_core::router::ToolPayload;

fn assistant_msg(text: &str) -> ResponseItem {
    ResponseItem::Message {
        id: None,
        role: "assistant".to_string(),
        content: vec![ContentItem::OutputText { text: text.to_string() }],
        reasoning_content: None,
        tool_calls: None,
    }
}

fn function_call(call_id: &str) -> ResponseItem {
    ResponseItem::FunctionCall {
        id: None,
        name: "read_file".to_string(),
        arguments: "{}".to_string(),
        call_id: call_id.to_string(),
    }
}

fn empty_shell_call() -> ResponseItem {
    ResponseItem::LocalShellCall {
        id: None,
        call_id: None,
        status: turn_core::items::LocalShellStatus::Completed,
        action: turn_core::items::LocalShellAction::Exec(
            turn_core::items::LocalShellExecAction {
                command: vec!["ls".to_string()],
                timeout_ms: None,
                working_directory: None,
            },
        ),
    }
}

fn record_index_of(plan: &OutputItemPlan, item: &ResponseItem) -> Option<usize> {
    for (k, action) in plan.actions.iter().enumerate() {
        if let TurnAction::Record(recorded) = action {
            if recorded == item {
                return Some(k);
            }
        }
    }
    None
}

#[test]
fn a_tool_call_is_recorded_before_it_is_scheduled() {
    let plan = handle_output_item_done(&McpDirectory::empty(), function_call("c1"), false)
        .expect("no fatal error");
    assert!(plan.needs_follow_up);
    assert_eq!(plan.last_agent_message, None);
    assert_eq!(plan.actions.len(), 2);
    let record = record_index_of(&plan, &function_call("c1")).expect("the item is recorded");
    let schedule = plan
        .actions
        .iter()
        .position(|a| matches!(a, TurnAction::ScheduleTool(_)))
        .expect("the call is scheduled");
    assert!(record < schedule);
    match &plan.actions[schedule] {
        TurnAction::ScheduleTool(call) => {
            assert_eq!(call.tool_name, "read_file");
            assert_eq!(call.call_id, "c1");
        },
        other => panic!("expected a scheduled call, got {:?}", other),
    }
}

#[test]
fn an_assistant_message_surfaces_and_records() {
    let item = assistant_msg("hello");
    let plan = handle_output_item_done(&McpDirectory::empty(), assistant_msg("hello"), false)
        .expect("no fatal error");
    assert!(!plan.needs_follow_up);
    assert_eq!(plan.last_agent_message, Some("hello".to_string()));
    assert_eq!(plan.actions.len(), 3);
    assert!(matches!(&plan.actions[0], TurnAction::EmitStarted(ti) if ti.item == item));
    assert!(matches!(&plan.actions[1], TurnAction::EmitCompleted(ti) if ti.item == item));
    assert!(matches!(&plan.actions[2], TurnAction::Record(r) if *r == item));
}

#[test]
fn an_active_item_emits_no_second_start() {
    let plan = handle_output_item_done(&McpDirectory::empty(), assistant_msg("hello"), true)
        .expect("no fatal error");
    assert_eq!(plan.actions.len(), 2);
    assert!(matches!(&plan.actions[0], TurnAction::EmitCompleted(_)));
}

#[test]
fn assistant_reasoning_content_is_stored() {
    let item = ResponseItem::Message {
        id: None,
        role: "assistant".to_string(),
        content: vec![ContentItem::OutputText { text: "a".to_string() }],
        reasoning_content: Some("chain".to_string()),
        tool_calls: None,
    };
    let plan = handle_output_item_done(&McpDirectory::empty(), item, false)
        .expect("no fatal error");
    assert!(matches!(&plan.actions[0], TurnAction::StoreReasoning(s) if s == "chain"));
}

#[test]
fn missing_shell_id_answers_the_model_and_follows_up() {
    let plan = handle_output_item_done(&McpDirectory::empty(), empty_shell_call(), false)
        .expect("no fatal error");
    assert!(plan.needs_follow_up);
    assert_eq!(plan.actions.len(), 3);
    assert!(matches!(
        &plan.actions[0],
        TurnAction::LogToolFailed { tool, message }
            if tool == "local_shell" && message == "LocalShellCall without call_id or id"
    ));
    assert!(matches!(&plan.actions[1], TurnAction::Record(r) if *r == empty_shell_call()));
    match &plan.actions[2] {
        TurnAction::Record(ResponseItem::FunctionCallOutput { call_id, output }) => {
            assert_eq!(call_id, "");
            assert_eq!(output.content, "LocalShellCall without call_id or id");
            assert_eq!(output.success, None);
        },
        other => panic!("expected the synthesized output, got {:?}", other),
    }
}

#[test]
fn respond_to_model_becomes_a_transcript_answer() {
    let plan = plan_for_classification(
        assistant_msg("x"),
        Err(FunctionCallError::RespondToModel("explained".to_string())),
        false,
    )
        .expect("no fatal error");
    assert!(plan.needs_follow_up);
    assert_eq!(plan.actions.len(), 2);
    match &plan.actions[1] {
        TurnAction::Record(ResponseItem::FunctionCallOutput { call_id, output }) => {
            assert_eq!(call_id, "");
            assert_eq!(output.content, "explained");
        },
        other => panic!("expected the synthesized output, got {:?}", other),
    }
}

#[test]
fn a_fatal_error_aborts_the_turn() {
    let fatal = plan_for_classification(
        assistant_msg("x"),
        Err(FunctionCallError::Fatal("broken pipe".to_string())),
        false,
    )
        .expect_err("fatal must abort");
    assert_eq!(fatal.message, "broken pipe");
}

#[test]
fn a_classified_call_passes_through_plan_for_classification() {
    let call = ToolCall {
        tool_name: "patch".to_string(),
        call_id: "c7".to_string(),
        payload: ToolPayload::Custom { input: "diff".to_string() },
    };
    let plan = plan_for_classification(assistant_msg("x"), Ok(Some(call)), false)
        .expect("no fatal error");
    assert!(plan.needs_follow_up);
    assert!(matches!(&plan.actions[1], TurnAction::ScheduleTool(c) if c.call_id == "c7"));
}

#[test]
fn tool_outputs_from_the_stream_surface_nothing() {
    let item = ResponseItem::FunctionCallOutput {
        call_id: "c1".to_string(),
        output: FunctionCallOutputPayload {
            content: "out".to_string(),
            content_items: None,
            success: None,
        },
    };
    let plan = handle_output_item_done(&McpDirectory::empty(), item, false)
        .expect("no fatal error");
    assert_eq!(plan.actions.len(), 1);
    assert!(matches!(&plan.actions[0], TurnAction::Record(_)));
    assert_eq!(plan.last_agent_message, None);
}

#[test]
fn parse_turn_item_keeps_display_artifacts_only() {
    assert!(parse_turn_item(&assistant_msg("a")).is_some());
    assert!(parse_turn_item(&ResponseItem::Reasoning { content: None }).is_some());
    assert!(parse_turn_item(&ResponseItem::Other).is_none());
    assert!(parse_turn_item(&function_call("c1")).is_none());
}

#[test]
fn last_assistant_message_takes_the_last_output_text() {
    let item = ResponseItem::Message {
        id: None,
        role: "assistant".to_string(),
        content: vec![
            ContentItem::OutputText { text: "first".to_string() },
            ContentItem::InputText { text: "ignored".to_string() },
            ContentItem::OutputText { text: "second".to_string() },
        ],
        reasoning_content: None,
        tool_calls: None,
    };
    assert_eq!(last_assistant_message_from_item(&item), Some("second".to_string()));
    assert_eq!(last_assistant_message_from_item(&function_call("c1")), None);
}

#[test]
fn mcp_results_convert_to_function_outputs() {
    let ok = ResponseInputItem::McpToolCallOutput {
        call_id: "m1".to_string(),
        result: Ok(CallToolResult { content: "found".to_string(), is_error: None }),
    };
    assert_eq!(
        response_input_to_response_item(&ok),
        Some(ResponseItem::FunctionCallOutput {
            call_id: "m1".to_string(),
            output: FunctionCallOutputPayload {
                content: "found".to_string(),
                content_items: None,
                success: Some(true),
            },
        })
    );

    let errored = ResponseInputItem::McpToolCallOutput {
        call_id: "m2".to_string(),
        result: Err("server unreachable".to_string()),
    };
    assert_eq!(
        response_input_to_response_item(&errored),
        Some(ResponseItem::FunctionCallOutput {
            call_id: "m2".to_string(),
            output: FunctionCallOutputPayload {
                content: "server unreachable".to_string(),
                content_items: None,
                success: Some(false),
            },
        })
    );

    let message = ResponseInputItem::Message { role: "user".to_string(), content: Vec::new() };
    assert_eq!(response_input_to_response_item(&message), None);
}
