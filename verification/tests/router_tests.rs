use turn_core::items::FunctionCallError;
use turn_core::items::FunctionCallOutputPayload;
use turn_core::items::LocalShellAction;
use turn_core::items::LocalShellExecAction;
use turn_core::items::LocalShellStatus;
use turn_core::items::ResponseItem;
use turn_core::reducer::ResponseInputItem;
use turn_core::router::ConfiguredToolSpec;
use turn_core::router::McpDirectory;
use turn_core::router::McpToolEntry;
use turn_core::router::SandboxPermissions;
use turn_core::router::ToolCall;
use turn_core::router::ToolPayload;
use turn_core::router::ToolRouter;
use turn_core::router::ToolSpec;

fn no_mcp() -> McpDirectory {
    McpDirectory::empty()
}

fn directory() -> McpDirectory {
    McpDirectory {
        entries: vec![McpToolEntry {
            qualified_name: "docs__search".to_string(),
            server: "docs".to_string(),
            tool: "search".to_string(),
        }],
    }
}

fn shell_call(id: Option<&str>, call_id: Option<&str>) -> ResponseItem {
    ResponseItem::LocalShellCall {
        id: id.map(|s| s.to_string()),
        call_id: call_id.map(|s| s.to_string()),
        status: LocalShellStatus::Completed,
        action: LocalShellAction::Exec(LocalShellExecAction {
            command: vec!["ls".to_string(), "-l".to_string()],
            timeout_ms: Some(1000),
            working_directory: Some("/tmp".to_string()),
        }),
    }
}

#[test]
fn function_call_classifies_as_function_payload() {
    let item = ResponseItem::FunctionCall {
        id: None,
        name: "read_file".to_string(),
        arguments: "{\"path\":\"a\"}".to_string(),
        call_id: "c1".to_string(),
    };
    let call = ToolRouter::build_tool_call(&no_mcp(), &item)
        .expect("no error")
        .expect("a call");
    assert_eq!(
        call,
        ToolCall {
            tool_name: "read_file".to_string(),
            call_id: "c1".to_string(),
            payload: ToolPayload::Function { arguments: "{\"path\":\"a\"}".to_string() },
        }
    );
}

#[test]
fn mcp_registered_name_classifies_as_mcp_payload() {
    let item = ResponseItem::FunctionCall {
        id: None,
        name: "docs__search".to_string(),
        arguments: "{\"q\":\"x\"}".to_string(),
        call_id: "c2".to_string(),
    };
    let call = ToolRouter::build_tool_call(&directory(), &item)
        .expect("no error")
        .expect("a call");
    assert_eq!(
        call.payload,
        ToolPayload::Mcp {
            server: "docs".to_string(),
            tool: "search".to_string(),
            raw_arguments: "{\"q\":\"x\"}".to_string(),
        }
    );
    assert_eq!(call.tool_name, "docs__search");
}

#[test]
fn custom_tool_call_classifies_as_custom_payload() {
    let item = ResponseItem::CustomToolCall {
        id: None,
        call_id: "c3".to_string(),
        name: "patch".to_string(),
        input: "diff".to_string(),
        status: None,
    };
    let call = ToolRouter::build_tool_call(&no_mcp(), &item)
        .expect("no error")
        .expect("a call");
    assert_eq!(call.tool_name, "patch");
    assert_eq!(call.call_id, "c3");
    assert_eq!(call.payload, ToolPayload::Custom { input: "diff".to_string() });
}

#[test]
fn local_shell_call_prefers_call_id_over_id() {
    let call = ToolRouter::build_tool_call(&no_mcp(), &shell_call(Some("i1"), Some("c4")))
        .expect("no error")
        .expect("a call");
    assert_eq!(call.tool_name, "local_shell");
    assert_eq!(call.call_id, "c4");
    match call.payload {
        ToolPayload::LocalShell { params } => {
            assert_eq!(params.command, vec!["ls".to_string(), "-l".to_string()]);
            assert_eq!(params.workdir, Some("/tmp".to_string()));
            assert_eq!(params.timeout_ms, Some(1000));
            assert_eq!(params.sandbox_permissions, Some(SandboxPermissions::UseDefault));
            assert_eq!(params.justification, None);
        },
        other => panic!("expected a local shell payload, got {:?}", other),
    }
}

#[test]
fn local_shell_call_falls_back_to_id() {
    let call = ToolRouter::build_tool_call(&no_mcp(), &shell_call(Some("i1"), None))
        .expect("no error")
        .expect("a call");
    assert_eq!(call.call_id, "i1");
}

#[test]
fn local_shell_call_without_ids_is_a_protocol_error() {
    let err = ToolRouter::build_tool_call(&no_mcp(), &shell_call(None, None))
        .expect_err("no id at all must fail");
    assert_eq!(err, FunctionCallError::MissingLocalShellCallId);
}

#[test]
fn non_call_items_classify_as_none() {
    let item = ResponseItem::Reasoning { content: None };
    assert_eq!(ToolRouter::build_tool_call(&no_mcp(), &item).expect("no error"), None);
    assert_eq!(
        ToolRouter::build_tool_call(&no_mcp(), &ResponseItem::Other).expect("no error"),
        None
    );
}

fn sample_call() -> ToolCall {
    ToolCall {
        tool_name: "read_file".to_string(),
        call_id: "c1".to_string(),
        payload: ToolPayload::Function { arguments: "{}".to_string() },
    }
}

fn custom_output(call_id: &str, output: &str) -> ResponseInputItem {
    ResponseInputItem::CustomToolCallOutput {
        call_id: call_id.to_string(),
        output: output.to_string(),
    }
}

#[test]
fn settle_passes_a_response_through() {
    let settled = ToolRouter::settle_dispatch(&sample_call(), Ok(custom_output("c1", "done")))
        .expect("a response passes through");
    assert_eq!(settled, custom_output("c1", "done"));
}

#[test]
fn settle_propagates_a_fatal_error() {
    let err = ToolRouter::settle_dispatch(
        &sample_call(),
        Err(FunctionCallError::Fatal("broken".to_string())),
    )
        .expect_err("fatal must propagate");
    assert_eq!(err, FunctionCallError::Fatal("broken".to_string()));
}

#[test]
fn settle_turns_other_errors_into_failure_outputs() {
    let settled = ToolRouter::settle_dispatch(
        &sample_call(),
        Err(FunctionCallError::RespondToModel("no such file".to_string())),
    )
        .expect("a non-fatal error settles into an output");
    assert_eq!(
        settled,
        ResponseInputItem::FunctionCallOutput {
            call_id: "c1".to_string(),
            output: FunctionCallOutputPayload {
                content: "no such file".to_string(),
                content_items: None,
                success: Some(false),
            },
        }
    );
}

#[test]
fn settle_answers_a_custom_payload_with_custom_output() {
    let call = ToolCall {
        tool_name: "patch".to_string(),
        call_id: "c9".to_string(),
        payload: ToolPayload::Custom { input: "diff".to_string() },
    };
    let settled = ToolRouter::settle_dispatch(
        &call,
        Err(FunctionCallError::RespondToModel("rejected".to_string())),
    )
        .expect("a non-fatal error settles into an output");
    assert_eq!(
        settled,
        ResponseInputItem::CustomToolCallOutput {
            call_id: "c9".to_string(),
            output: "rejected".to_string(),
        }
    );
}

#[test]
fn specs_and_parallel_support_follow_the_configuration() {
    let router = ToolRouter::new(vec![
        ConfiguredToolSpec {
            tool_spec: ToolSpec { name: "read_file".to_string() },
            supports_parallel_tool_calls: true,
        },
        ConfiguredToolSpec {
            tool_spec: ToolSpec { name: "local_shell".to_string() },
            supports_parallel_tool_calls: false,
        },
    ]);
    let specs = router.specs();
    assert_eq!(specs.len(), 2);
    assert_eq!(specs[0].name, "read_file");
    assert_eq!(specs[1].name, "local_shell");
    assert!(router.tool_supports_parallel("read_file"));
    assert!(!router.tool_supports_parallel("local_shell"));
    assert!(!router.tool_supports_parallel("unknown"));
}
