//! The tool router: classifies a model-emitted item as a tool call, and
//! settles what a handler's outcome becomes.
//!
//! An MCP-registered tool is recognized by looking the call's name up in the
//! session's directory of registered tools, which the router models as a
//! plain list of entries.

use vstd::prelude::*;
use crate::items::FunctionCallError;
use crate::items::FunctionCallErrorView;
use crate::items::FunctionCallOutputPayload;
use crate::items::FunctionCallOutputPayloadView;
use crate::items::LocalShellAction;
use crate::items::LocalShellActionView;
use crate::items::ResponseItem;
use crate::items::ResponseItemView;
use crate::items::clone_opt_string;
use crate::items::clone_string_vec;
use crate::items::spec_error_message;
use crate::items::str_eq;

verus! {

/// The sandbox permissions a shell call is dispatched under.
#[derive(Clone, Copy, Debug, PartialEq, Eq, Structural)]
pub enum SandboxPermissions {
    UseDefault,
}

/// The parameters of a local shell invocation handed to the shell handler.
#[derive(Debug, PartialEq)]
pub struct ShellToolCallParams {
    pub command: Vec<String>,
    pub workdir: Option<String>,
    pub timeout_ms: Option<u64>,
    pub sandbox_permissions: Option<SandboxPermissions>,
    pub justification: Option<String>,
}

#[verifier::ext_equal]
pub struct ShellToolCallParamsView {
    pub command: Seq<Seq<char>>,
    pub workdir: Option<Seq<char>>,
    pub timeout_ms: Option<u64>,
    pub sandbox_permissions: Option<SandboxPermissions>,
    pub justification: Option<Seq<char>>,
}

impl View for ShellToolCallParams {
    type V = ShellToolCallParamsView;

    open spec fn view(&self) -> ShellToolCallParamsView {
        ShellToolCallParamsView {
            command: self.command.deep_view(),
            workdir: self.workdir.deep_view(),
            timeout_ms: self.timeout_ms,
            sandbox_permissions: self.sandbox_permissions,
            justification: self.justification.deep_view(),
        }
    }
}

impl DeepView for ShellToolCallParams {
    type V = ShellToolCallParamsView;

    open spec fn deep_view(&self) -> ShellToolCallParamsView {
        self.view()
    }
}

/// What a tool call carries to its handler.
#[derive(Debug, PartialEq)]
pub enum ToolPayload {
    Function { arguments: String },
    Custom { input: String },
    LocalShell { params: ShellToolCallParams },
    Mcp { server: String, tool: String, raw_arguments: String },
}

#[verifier::ext_equal]
pub enum ToolPayloadView {
    Function { arguments: Seq<char> },
    Custom { input: Seq<char> },
    LocalShell { params: ShellToolCallParamsView },
    Mcp { server: Seq<char>, tool: Seq<char>, raw_arguments: Seq<char> },
}

impl View for ToolPayload {
    type V = ToolPayloadView;

    open spec fn view(&self) -> ToolPayloadView {
        match self {
            ToolPayload::Function { arguments } => ToolPayloadView::Function {
                arguments: arguments@,
            },
            ToolPayload::Custom { input } => ToolPayloadView::Custom { input: input@ },
            ToolPayload::LocalShell { params } => ToolPayloadView::LocalShell { params: params@ },
            ToolPayload::Mcp { server, tool, raw_arguments } => ToolPayloadView::Mcp {
                server: server@,
                tool: tool@,
                raw_arguments: raw_arguments@,
            },
        }
    }
}

impl DeepView for ToolPayload {
    type V = ToolPayloadView;

    open spec fn deep_view(&self) -> ToolPayloadView {
        self.view()
    }
}

/// A classified tool invocation.
#[derive(Debug, PartialEq)]
pub struct ToolCall {
    pub tool_name: String,
    pub call_id: String,
    pub payload: ToolPayload,
}

#[verifier::ext_equal]
pub struct ToolCallView {
    pub tool_name: Seq<char>,
    pub call_id: Seq<char>,
    pub payload: ToolPayloadView,
}

impl View for ToolCall {
    type V = ToolCallView;

    open spec fn view(&self) -> ToolCallView {
        ToolCallView {
            tool_name: self.tool_name@,
            call_id: self.call_id@,
            payload: self.payload@,
        }
    }
}

impl DeepView for ToolCall {
    type V = ToolCallView;

    open spec fn deep_view(&self) -> ToolCallView {
        self.view()
    }
}

/// One MCP-registered tool: the fully qualified name the model calls it by,
/// and the server and tool it resolves to.
#[derive(Debug, PartialEq)]
pub struct McpToolEntry {
    pub qualified_name: String,
    pub server: String,
    pub tool: String,
}

#[verifier::ext_equal]
pub struct McpToolEntryView {
    pub qualified_name: Seq<char>,
    pub server: Seq<char>,
    pub tool: Seq<char>,
}

impl View for McpToolEntry {
    type V = McpToolEntryView;

    open spec fn view(&self) -> McpToolEntryView {
        McpToolEntryView {
            qualified_name: self.qualified_name@,
            server: self.server@,
            tool: self.tool@,
        }
    }
}

impl DeepView for McpToolEntry {
    type V = McpToolEntryView;

    open spec fn deep_view(&self) -> McpToolEntryView {
        self.view()
    }
}

/// The session's directory of MCP-registered tools.
#[derive(Debug, PartialEq)]
pub struct McpDirectory {
    pub entries: Vec<McpToolEntry>,
}

#[verifier::ext_equal]
pub struct McpDirectoryView {
    pub entries: Seq<McpToolEntryView>,
}

impl View for McpDirectory {
    type V = McpDirectoryView;

    open spec fn view(&self) -> McpDirectoryView {
        McpDirectoryView { entries: self.entries.deep_view() }
    }
}

/// The first directory entry registered under the given name, when any.
pub open spec fn mcp_lookup_upto(entries: Seq<McpToolEntryView>, name: Seq<char>, n: int) -> Option<
    McpToolEntryView,
>
    decreases n,
    when 0 <= n <= entries.len()
{
    if n <= 0 {
        None
    } else {
        match mcp_lookup_upto(entries, name, n - 1) {
            Some(e) => Some(e),
            None => if entries[n - 1].qualified_name == name {
                Some(entries[n - 1])
            } else {
                None
            },
        }
    }
}

/// The resolution of a tool name in the directory.
pub open spec fn mcp_lookup(dir: McpDirectoryView, name: Seq<char>) -> Option<McpToolEntryView> {
    mcp_lookup_upto(dir.entries, name, dir.entries.len() as int)
}

impl McpDirectory {
    /// An empty directory: no MCP tools registered.
    pub fn empty() -> (r: Self)
        ensures
            r@.entries.len() == 0,
    {
        McpDirectory { entries: Vec::new() }
    }

    /// Resolves a fully qualified tool name to its server and tool, taking
    /// the first entry registered under the name.
    #[verifier::loop_isolation(false)]
    pub fn resolve(&self, name: &str) -> (r: Option<(String, String)>)
        ensures
            match r {
                Some(st) => mcp_lookup(self@, name@) matches Some(e) && st.0@ == e.server && st.1@
                    == e.tool,
                None => mcp_lookup(self@, name@) is None,
            },
    {
        let ghost ev = self.entries.deep_view();
        let mut i: usize = 0;
        while i < self.entries.len()
            invariant
                i <= self.entries.len(),
                ev == self.entries.deep_view(),
                mcp_lookup_upto(ev, name@, i as int) is None,
            decreases self.entries.len() - i,
        {
            let entry = &self.entries[i];
            if str_eq(entry.qualified_name.as_str(), name) {
                proof {
                    lemma_mcp_lookup_found(ev, name@, i as int, ev.len() as int);
                }
                return Some((entry.server.clone(), entry.tool.clone()));
            }
            i = i + 1;
        }
        None
    }
}

proof fn lemma_mcp_lookup_found(entries: Seq<McpToolEntryView>, name: Seq<char>, i: int, n: int)
    requires
        0 <= i < n <= entries.len(),
        mcp_lookup_upto(entries, name, i) is None,
        entries[i].qualified_name == name,
    ensures
        mcp_lookup_upto(entries, name, n) == Some(entries[i]),
    decreases n,
{
    if n - 1 > i {
        lemma_mcp_lookup_found(entries, name, i, n - 1);
    }
}

/// One configured tool: its published specification and whether its calls
/// may be awaited in parallel with their siblings.
#[derive(Debug, PartialEq)]
pub struct ToolSpec {
    pub name: String,
}

#[verifier::ext_equal]
pub struct ToolSpecView {
    pub name: Seq<char>,
}

impl View for ToolSpec {
    type V = ToolSpecView;

    open spec fn view(&self) -> ToolSpecView {
        ToolSpecView { name: self.name@ }
    }
}

impl DeepView for ToolSpec {
    type V = ToolSpecView;

    open spec fn deep_view(&self) -> ToolSpecView {
        self.view()
    }
}

impl Clone for ToolSpec {
    fn clone(&self) -> (r: Self)
        ensures
            r@ == self@,
    {
        ToolSpec { name: self.name.clone() }
    }
}

#[derive(Debug, PartialEq)]
pub struct ConfiguredToolSpec {
    pub tool_spec: ToolSpec,
    pub supports_parallel_tool_calls: bool,
}

#[verifier::ext_equal]
pub struct ConfiguredToolSpecView {
    pub tool_spec: ToolSpecView,
    pub supports_parallel_tool_calls: bool,
}

impl View for ConfiguredToolSpec {
    type V = ConfiguredToolSpecView;

    open spec fn view(&self) -> ConfiguredToolSpecView {
        ConfiguredToolSpecView {
            tool_spec: self.tool_spec@,
            supports_parallel_tool_calls: self.supports_parallel_tool_calls,
        }
    }
}

impl DeepView for ConfiguredToolSpec {
    type V = ConfiguredToolSpecView;

    open spec fn deep_view(&self) -> ConfiguredToolSpecView {
        self.view()
    }
}

/// The router: the configured tool specifications, immutable after
/// construction.  The handlers themselves live with the caller; the router
/// only classifies and settles.
pub struct ToolRouter {
    configured: Vec<ConfiguredToolSpec>,
}

#[verifier::ext_equal]
pub struct ToolRouterView {
    pub configured: Seq<ConfiguredToolSpecView>,
}

impl View for ToolRouter {
    type V = ToolRouterView;

    closed spec fn view(&self) -> ToolRouterView {
        ToolRouterView { configured: self.configured.deep_view() }
    }
}

impl ToolRouter {
    /// A router over the given configured tool specifications.
    pub fn new(configured: Vec<ConfiguredToolSpec>) -> (r: Self)
        ensures
            r@.configured == configured.deep_view(),
    {
        ToolRouter { configured }
    }

    /// The published specifications of the configured tools, in order.
    #[verifier::loop_isolation(false)]
    pub fn specs(&self) -> (r: Vec<ToolSpec>)
        ensures
            r.deep_view() == self@.configured.map_values(
                |c: ConfiguredToolSpecView| c.tool_spec,
            ),
    {
        let mut out: Vec<ToolSpec> = Vec::new();
        let mut i: usize = 0;
        while i < self.configured.len()
            invariant
                i <= self.configured.len(),
                out.len() == i,
                forall|j: int| 0 <= j < i ==> out.deep_view()[j] == self@.configured[j].tool_spec,
            decreases self.configured.len() - i,
        {
            let ghost pre = out.deep_view();
            out.push(self.configured[i].tool_spec.clone());
            proof {
                assert forall|j: int| 0 <= j < i + 1 implies out.deep_view()[j]
                    == self@.configured[j].tool_spec by {
                    if j < i {
                        assert(out.deep_view()[j] == pre[j]);
                    } else {
                        assert(out.deep_view()[i as int] == self@.configured[i as int].tool_spec);
                    }
                }
            }
            i = i + 1;
        }
        proof {
            assert(out.deep_view() =~= self@.configured.map_values(
                |c: ConfiguredToolSpecView| c.tool_spec,
            ));
        }
        out
    }

    /// Whether some configured tool of the given name supports parallel tool
    /// calls.
    #[verifier::loop_isolation(false)]
    pub fn tool_supports_parallel(&self, tool_name: &str) -> (r: bool)
        ensures
            r == exists|j: int|
                0 <= j < self@.configured.len() && #[trigger] self@.configured[j].supports_parallel_tool_calls
                    && self@.configured[j].tool_spec.name == tool_name@,
    {
        let mut i: usize = 0;
        while i < self.configured.len()
            invariant
                i <= self.configured.len(),
                forall|j: int| 0 <= j < i ==> !(#[trigger] self@.configured[j].supports_parallel_tool_calls
                    && self@.configured[j].tool_spec.name == tool_name@),
            decreases self.configured.len() - i,
        {
            let c = &self.configured[i];
            if c.supports_parallel_tool_calls && str_eq(c.tool_spec.name.as_str(), tool_name) {
                proof {
                    assert(self@.configured[i as int].supports_parallel_tool_calls
                        && self@.configured[i as int].tool_spec.name == tool_name@);
                }
                return true;
            }
            i = i + 1;
        }
        false
    }

    /// Classifies one completed item: a function call resolves through the
    /// MCP directory, custom and local shell calls carry their payloads, a
    /// local shell call without either id is a protocol error, and every
    /// other item is not a call.
    pub fn build_tool_call(mcp: &McpDirectory, item: &ResponseItem) -> (r: Result<
        Option<ToolCall>,
        FunctionCallError,
    >)
        ensures
            classification_view(r) == spec_classify(mcp@, item@),
    {
        match item {
            ResponseItem::FunctionCall { id: _, name, arguments, call_id } => {
                match mcp.resolve(name.as_str()) {
                    Some((server, tool)) => Ok(
                        Some(
                            ToolCall {
                                tool_name: name.clone(),
                                call_id: call_id.clone(),
                                payload: ToolPayload::Mcp {
                                    server,
                                    tool,
                                    raw_arguments: arguments.clone(),
                                },
                            },
                        ),
                    ),
                    None => Ok(
                        Some(
                            ToolCall {
                                tool_name: name.clone(),
                                call_id: call_id.clone(),
                                payload: ToolPayload::Function { arguments: arguments.clone() },
                            },
                        ),
                    ),
                }
            },
            ResponseItem::CustomToolCall { id: _, call_id, name, input, status: _ } => {
                Ok(
                    Some(
                        ToolCall {
                            tool_name: name.clone(),
                            call_id: call_id.clone(),
                            payload: ToolPayload::Custom { input: input.clone() },
                        },
                    ),
                )
            },
            ResponseItem::LocalShellCall { id, call_id, status: _, action } => {
                let final_call_id: String = match (call_id, id) {
                    (Some(c), _) => c.clone(),
                    (None, Some(i)) => i.clone(),
                    (None, None) => {
                        return Err(FunctionCallError::MissingLocalShellCallId);
                    },
                };
                match action {
                    LocalShellAction::Exec(exec) => {
                        let params = ShellToolCallParams {
                            command: clone_string_vec(&exec.command),
                            workdir: clone_opt_string(&exec.working_directory),
                            timeout_ms: exec.timeout_ms,
                            sandbox_permissions: Some(SandboxPermissions::UseDefault),
                            justification: None,
                        };
                        Ok(
                            Some(
                                ToolCall {
                                    tool_name: String::from_str("local_shell"),
                                    call_id: final_call_id,
                                    payload: ToolPayload::LocalShell { params },
                                },
                            ),
                        )
                    },
                }
            },
            _ => Ok(None),
        }
    }

    /// Settles what a handler's outcome becomes: a response passes through,
    /// a fatal error aborts the turn, and any other error becomes a failure
    /// output carrying the error's text, so the turn continues.
    pub fn settle_dispatch(call: &ToolCall, dispatch_result: Result<
        crate::reducer::ResponseInputItem,
        FunctionCallError,
    >) -> (r: Result<crate::reducer::ResponseInputItem, FunctionCallError>)
        ensures
            match dispatch_result {
                Ok(response) => r matches Ok(out) && out == response,
                Err(FunctionCallError::Fatal(m)) => r matches Err(e) && e@
                    == FunctionCallErrorView::Fatal(m@),
                Err(err) => r matches Ok(out) && out@ == spec_failure_response(
                    call@.call_id,
                    call@.payload is Custom,
                    err@,
                ),
            },
    {
        match dispatch_result {
            Ok(response) => Ok(response),
            Err(FunctionCallError::Fatal(message)) => Err(FunctionCallError::Fatal(message)),
            Err(err) => {
                let payload_outputs_custom = matches!(call.payload, ToolPayload::Custom { .. });
                Ok(Self::failure_response(call.call_id.clone(), payload_outputs_custom, &err))
            },
        }
    }

    /// The tool output a non-fatal handler error becomes: a custom tool
    /// answers with its plain text, any other tool with a payload marked
    /// unsuccessful.
    fn failure_response(
        call_id: String,
        payload_outputs_custom: bool,
        err: &FunctionCallError,
    ) -> (r: crate::reducer::ResponseInputItem)
        ensures
            r@ == spec_failure_response(call_id@, payload_outputs_custom, err@),
    {
        let message = err.message();
        if payload_outputs_custom {
            crate::reducer::ResponseInputItem::CustomToolCallOutput { call_id, output: message }
        } else {
            crate::reducer::ResponseInputItem::FunctionCallOutput {
                call_id,
                output: FunctionCallOutputPayload {
                    content: message,
                    content_items: None,
                    success: Some(false),
                },
            }
        }
    }
}

/// The failure output a non-fatal error settles to.
pub open spec fn spec_failure_response(
    call_id: Seq<char>,
    payload_outputs_custom: bool,
    err: FunctionCallErrorView,
) -> crate::reducer::ResponseInputItemView {
    if payload_outputs_custom {
        crate::reducer::ResponseInputItemView::CustomToolCallOutput {
            call_id,
            output: spec_error_message(err),
        }
    } else {
        crate::reducer::ResponseInputItemView::FunctionCallOutput {
            call_id,
            output: FunctionCallOutputPayloadView {
                content: spec_error_message(err),
                content_items: None,
                success: Some(false),
            },
        }
    }
}

/// The view of a classification result.
pub open spec fn classification_view(r: Result<Option<ToolCall>, FunctionCallError>) -> Result<
    Option<ToolCallView>,
    FunctionCallErrorView,
> {
    match r {
        Ok(Some(call)) => Ok(Some(call@)),
        Ok(None) => Ok(None),
        Err(e) => Err(e@),
    }
}

/// What one completed item classifies to: the call the router builds of it,
/// the protocol error a local shell call without ids raises, or nothing.
pub open spec fn spec_classify(mcp: McpDirectoryView, item: ResponseItemView) -> Result<
    Option<ToolCallView>,
    FunctionCallErrorView,
> {
    match item {
        ResponseItemView::FunctionCall { id: _, name, arguments, call_id } => {
            match mcp_lookup(mcp, name) {
                Some(e) => Ok(
                    Some(
                        ToolCallView {
                            tool_name: name,
                            call_id,
                            payload: ToolPayloadView::Mcp {
                                server: e.server,
                                tool: e.tool,
                                raw_arguments: arguments,
                            },
                        },
                    ),
                ),
                None => Ok(
                    Some(
                        ToolCallView {
                            tool_name: name,
                            call_id,
                            payload: ToolPayloadView::Function { arguments },
                        },
                    ),
                ),
            }
        },
        ResponseItemView::CustomToolCall { id: _, call_id, name, input, status: _ } => Ok(
            Some(
                ToolCallView {
                    tool_name: name,
                    call_id,
                    payload: ToolPayloadView::Custom { input },
                },
            ),
        ),
        ResponseItemView::LocalShellCall { id, call_id, status: _, action } => {
            match (call_id, id) {
                (None, None) => Err(FunctionCallErrorView::MissingLocalShellCallId),
                _ => {
                    let cid = match call_id {
                        Some(c) => c,
                        None => id->Some_0,
                    };
                    match action {
                        LocalShellActionView::Exec(exec) => Ok(
                            Some(
                                ToolCallView {
                                    tool_name: "local_shell"@,
                                    call_id: cid,
                                    payload: ToolPayloadView::LocalShell {
                                        params: ShellToolCallParamsView {
                                            command: exec.command,
                                            workdir: exec.working_directory,
                                            timeout_ms: exec.timeout_ms,
                                            sandbox_permissions: Some(
                                                SandboxPermissions::UseDefault,
                                            ),
                                            justification: None,
                                        },
                                    },
                                },
                            ),
                        ),
                    }
                },
            }
        },
        _ => Ok(None),
    }
}

} // verus!
