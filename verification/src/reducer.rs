//! The stream reducer: folds one completed item of the model stream into a
//! plan of effects — history records, lifecycle events, and the tool future
//! to schedule.
//!
//! The plan is an ordered action list; the caller performs the actions in
//! order.  Recording an item always stands before scheduling its tool call,
//! so the transcript never lacks an item whose effects began.

use vstd::prelude::*;
use crate::items::ContentItem;
use crate::items::ContentItemView;
use crate::items::FunctionCallError;
use crate::items::FunctionCallErrorView;
use crate::items::FunctionCallOutputPayload;
use crate::items::FunctionCallOutputPayloadView;
use crate::items::ResponseItem;
use crate::items::ResponseItemView;
use crate::items::str_eq;
use crate::router::McpDirectory;
use crate::router::ToolCall;
use crate::router::ToolCallView;
use crate::router::ToolRouter;
use crate::router::spec_classify;
use crate::router::classification_view;

verus! {

/// The result a tool handler answers with.
#[derive(Debug, PartialEq)]
pub struct CallToolResult {
    pub content: String,
    pub is_error: Option<bool>,
}

#[verifier::ext_equal]
pub struct CallToolResultView {
    pub content: Seq<char>,
    pub is_error: Option<bool>,
}

impl View for CallToolResult {
    type V = CallToolResultView;

    open spec fn view(&self) -> CallToolResultView {
        CallToolResultView { content: self.content@, is_error: self.is_error }
    }
}

impl DeepView for CallToolResult {
    type V = CallToolResultView;

    open spec fn deep_view(&self) -> CallToolResultView {
        self.view()
    }
}

/// The payload an MCP handler's result converts to: its content as the
/// output text, marked successful unless the result says it erred.
pub open spec fn spec_payload_of_call_tool_result(r: CallToolResultView) -> FunctionCallOutputPayloadView {
    FunctionCallOutputPayloadView {
        content: r.content,
        content_items: None,
        success: Some(!(r.is_error == Some(true))),
    }
}

impl FunctionCallOutputPayload {
    /// The payload an MCP tool result becomes.
    pub fn from_call_tool_result(r: &CallToolResult) -> (out: Self)
        ensures
            out@ == spec_payload_of_call_tool_result(r@),
    {
        let success = match r.is_error {
            Some(true) => false,
            _ => true,
        };
        FunctionCallOutputPayload {
            content: r.content.clone(),
            content_items: None,
            success: Some(success),
        }
    }
}

/// An item handed back into the model's input: a tool output of one of the
/// three kinds, or a message.
#[derive(Debug, PartialEq)]
pub enum ResponseInputItem {
    Message { role: String, content: Vec<ContentItem> },
    FunctionCallOutput { call_id: String, output: FunctionCallOutputPayload },
    CustomToolCallOutput { call_id: String, output: String },
    McpToolCallOutput { call_id: String, result: Result<CallToolResult, String> },
}

#[verifier::ext_equal]
pub enum ResponseInputItemView {
    Message { role: Seq<char>, content: Seq<ContentItemView> },
    FunctionCallOutput { call_id: Seq<char>, output: FunctionCallOutputPayloadView },
    CustomToolCallOutput { call_id: Seq<char>, output: Seq<char> },
    McpToolCallOutput { call_id: Seq<char>, result: Result<CallToolResultView, Seq<char>> },
}

impl View for ResponseInputItem {
    type V = ResponseInputItemView;

    open spec fn view(&self) -> ResponseInputItemView {
        match self {
            ResponseInputItem::Message { role, content } => ResponseInputItemView::Message {
                role: role@,
                content: content.deep_view(),
            },
            ResponseInputItem::FunctionCallOutput { call_id, output } => {
                ResponseInputItemView::FunctionCallOutput { call_id: call_id@, output: output@ }
            },
            ResponseInputItem::CustomToolCallOutput { call_id, output } => {
                ResponseInputItemView::CustomToolCallOutput { call_id: call_id@, output: output@ }
            },
            ResponseInputItem::McpToolCallOutput { call_id, result } => {
                ResponseInputItemView::McpToolCallOutput {
                    call_id: call_id@,
                    result: match result {
                        Ok(r) => Ok(r@),
                        Err(e) => Err(e@),
                    },
                }
            },
        }
    }
}

impl DeepView for ResponseInputItem {
    type V = ResponseInputItemView;

    open spec fn deep_view(&self) -> ResponseInputItemView {
        self.view()
    }
}

/// The history item a response input becomes, when it becomes one.
pub open spec fn spec_response_input_to_item(input: ResponseInputItemView) -> Option<
    ResponseItemView,
> {
    match input {
        ResponseInputItemView::FunctionCallOutput { call_id, output } => Some(
            ResponseItemView::FunctionCallOutput { call_id, output },
        ),
        ResponseInputItemView::CustomToolCallOutput { call_id, output } => Some(
            ResponseItemView::CustomToolCallOutput { call_id, output },
        ),
        ResponseInputItemView::McpToolCallOutput { call_id, result } => Some(
            ResponseItemView::FunctionCallOutput {
                call_id,
                output: match result {
                    Ok(r) => spec_payload_of_call_tool_result(r),
                    Err(e) => FunctionCallOutputPayloadView {
                        content: e,
                        content_items: None,
                        success: Some(false),
                    },
                },
            },
        ),
        ResponseInputItemView::Message { .. } => None,
    }
}

/// Converts a response input into the history item that records it: tool
/// outputs convert, a message does not.
pub fn response_input_to_response_item(input: &ResponseInputItem) -> (r: Option<ResponseItem>)
    ensures
        r.deep_view() == spec_response_input_to_item(input@),
{
    match input {
        ResponseInputItem::FunctionCallOutput { call_id, output } => Some(
            ResponseItem::FunctionCallOutput { call_id: call_id.clone(), output: output.clone() },
        ),
        ResponseInputItem::CustomToolCallOutput { call_id, output } => Some(
            ResponseItem::CustomToolCallOutput {
                call_id: call_id.clone(),
                output: output.clone(),
            },
        ),
        ResponseInputItem::McpToolCallOutput { call_id, result } => {
            let output = match result {
                Ok(call_tool_result) => FunctionCallOutputPayload::from_call_tool_result(
                    call_tool_result,
                ),
                Err(err) => FunctionCallOutputPayload {
                    content: err.clone(),
                    content_items: None,
                    success: Some(false),
                },
            };
            Some(ResponseItem::FunctionCallOutput { call_id: call_id.clone(), output })
        },
        ResponseInputItem::Message { .. } => None,
    }
}

/// A display artifact of the turn: the item as the user interface shows it.
#[derive(Debug, PartialEq)]
pub struct TurnItem {
    pub item: ResponseItem,
}

#[verifier::ext_equal]
pub struct TurnItemView {
    pub item: ResponseItemView,
}

impl View for TurnItem {
    type V = TurnItemView;

    open spec fn view(&self) -> TurnItemView {
        TurnItemView { item: self.item@ }
    }
}

impl DeepView for TurnItem {
    type V = TurnItemView;

    open spec fn deep_view(&self) -> TurnItemView {
        self.view()
    }
}

/// Whether the item is shown to the user: messages, reasoning and web
/// searches are; tool plumbing is not.
pub open spec fn spec_parse_turn_item(item: ResponseItemView) -> Option<TurnItemView> {
    match item {
        ResponseItemView::Message { .. } => Some(TurnItemView { item }),
        ResponseItemView::Reasoning { .. } => Some(TurnItemView { item }),
        ResponseItemView::WebSearchCall { .. } => Some(TurnItemView { item }),
        _ => None,
    }
}

/// Parses one item into the turn item the interface shows, when it is a
/// display artifact.
pub fn parse_turn_item(item: &ResponseItem) -> (r: Option<TurnItem>)
    ensures
        r.deep_view() == spec_parse_turn_item(item@),
{
    match item {
        ResponseItem::Message { .. } => Some(TurnItem { item: item.clone() }),
        ResponseItem::Reasoning { .. } => Some(TurnItem { item: item.clone() }),
        ResponseItem::WebSearchCall { .. } => Some(TurnItem { item: item.clone() }),
        _ => None,
    }
}

/// Converts one non-tool item into the turn item to surface: display
/// artifacts parse, tool outputs and the inert items yield nothing.
pub fn handle_non_tool_response_item(item: &ResponseItem) -> (r: Option<TurnItem>)
    ensures
        r.deep_view() == spec_parse_turn_item(item@),
{
    match item {
        ResponseItem::Message { .. } => parse_turn_item(item),
        ResponseItem::Reasoning { .. } => parse_turn_item(item),
        ResponseItem::WebSearchCall { .. } => parse_turn_item(item),
        ResponseItem::FunctionCallOutput { .. } => None,
        ResponseItem::CustomToolCallOutput { .. } => None,
        _ => None,
    }
}

/// The last output text of a content list, scanning from the end.
pub open spec fn last_output_text(content: Seq<ContentItemView>) -> Option<Seq<char>>
    decreases content.len(),
{
    if content.len() == 0 {
        None
    } else {
        match content.last() {
            ContentItemView::OutputText { text } => Some(text),
            _ => last_output_text(content.drop_last()),
        }
    }
}

/// The agent's message text an item carries: the last output text of an
/// assistant message.
pub open spec fn spec_last_assistant_message(item: ResponseItemView) -> Option<Seq<char>> {
    match item {
        ResponseItemView::Message { role, content, .. } => if role == "assistant"@ {
            last_output_text(content)
        } else {
            None
        },
        _ => None,
    }
}

/// The last output text of an assistant message, when the item is one.
#[verifier::loop_isolation(false)]
pub fn last_assistant_message_from_item(item: &ResponseItem) -> (r: Option<String>)
    ensures
        r.deep_view() == spec_last_assistant_message(item@),
{
    match item {
        ResponseItem::Message { role, content, .. } => {
            if str_eq(role.as_str(), "assistant") {
                let ghost cv = content.deep_view();
                let mut k: usize = content.len();
                proof {
                    assert(cv.take(cv.len() as int) =~= cv);
                }
                while k > 0
                    invariant
                        k <= content.len(),
                        last_output_text(cv) == last_output_text(cv.take(k as int)),
                    decreases k,
                {
                    proof {
                        assert(cv.take(k as int).drop_last() =~= cv.take(k - 1));
                        assert(cv.take(k as int).last() == cv[k - 1]);
                    }
                    match &content[k - 1] {
                        ContentItem::OutputText { text } => {
                            return Some(text.clone());
                        },
                        _ => {},
                    }
                    k = k - 1;
                }
                None
            } else {
                None
            }
        },
        _ => None,
    }
}

/// One effect of folding a completed item: a history record, a lifecycle
/// event, stored reasoning, a scheduled tool call, or a telemetry entry.
#[derive(Debug, PartialEq)]
pub enum TurnAction {
    Record(ResponseItem),
    EmitStarted(TurnItem),
    EmitCompleted(TurnItem),
    StoreReasoning(String),
    ScheduleTool(ToolCall),
    LogToolFailed { tool: String, message: String },
}

#[verifier::ext_equal]
pub enum TurnActionView {
    Record(ResponseItemView),
    EmitStarted(TurnItemView),
    EmitCompleted(TurnItemView),
    StoreReasoning(Seq<char>),
    ScheduleTool(ToolCallView),
    LogToolFailed { tool: Seq<char>, message: Seq<char> },
}

impl View for TurnAction {
    type V = TurnActionView;

    open spec fn view(&self) -> TurnActionView {
        match self {
            TurnAction::Record(item) => TurnActionView::Record(item@),
            TurnAction::EmitStarted(ti) => TurnActionView::EmitStarted(ti@),
            TurnAction::EmitCompleted(ti) => TurnActionView::EmitCompleted(ti@),
            TurnAction::StoreReasoning(s) => TurnActionView::StoreReasoning(s@),
            TurnAction::ScheduleTool(c) => TurnActionView::ScheduleTool(c@),
            TurnAction::LogToolFailed { tool, message } => TurnActionView::LogToolFailed {
                tool: tool@,
                message: message@,
            },
        }
    }
}

impl DeepView for TurnAction {
    type V = TurnActionView;

    open spec fn deep_view(&self) -> TurnActionView {
        self.view()
    }
}

/// The plan one completed item folds to: the effects to perform in order,
/// the agent's message text when the item carries one, and whether the turn
/// owes the model a follow-up.
#[derive(Debug, PartialEq)]
pub struct OutputItemPlan {
    pub actions: Vec<TurnAction>,
    pub last_agent_message: Option<String>,
    pub needs_follow_up: bool,
}

#[verifier::ext_equal]
pub struct OutputItemPlanView {
    pub actions: Seq<TurnActionView>,
    pub last_agent_message: Option<Seq<char>>,
    pub needs_follow_up: bool,
}

impl View for OutputItemPlan {
    type V = OutputItemPlanView;

    open spec fn view(&self) -> OutputItemPlanView {
        OutputItemPlanView {
            actions: self.actions.deep_view(),
            last_agent_message: self.last_agent_message.deep_view(),
            needs_follow_up: self.needs_follow_up,
        }
    }
}

/// The unrecoverable error that aborts a turn.
#[derive(Debug, PartialEq)]
pub struct FatalError {
    pub message: String,
}

#[verifier::ext_equal]
pub struct FatalErrorView {
    pub message: Seq<char>,
}

impl View for FatalError {
    type V = FatalErrorView;

    open spec fn view(&self) -> FatalErrorView {
        FatalErrorView { message: self.message@ }
    }
}

/// The error text of a local shell call that carries no id.
pub open spec fn missing_shell_id_text() -> Seq<char> {
    "LocalShellCall without call_id or id"@
}

/// The synthesized output that answers a guardrail error: an empty call id
/// and the message as its content.
pub open spec fn guardrail_output(message: Seq<char>) -> ResponseItemView {
    ResponseItemView::FunctionCallOutput {
        call_id: Seq::empty(),
        output: FunctionCallOutputPayloadView {
            content: message,
            content_items: None,
            success: None,
        },
    }
}

/// The reasoning text an assistant message stores into the session, when it
/// carries one.
pub open spec fn stored_reasoning(item: ResponseItemView) -> Option<Seq<char>> {
    match item {
        ResponseItemView::Message { role, reasoning_content, .. } => if role == "assistant"@ {
            reasoning_content
        } else {
            None
        },
        _ => None,
    }
}

/// The plan a classified item folds to.
///
/// A tool call is recorded, then scheduled.  A non-call stores its reasoning,
/// surfaces its turn item — started first unless one was already active —
/// and is recorded.  A missing shell id is logged and answered in the
/// transcript; a textual response to the model is answered likewise.  A
/// fatal error aborts with its message.
pub open spec fn spec_plan(
    item: ResponseItemView,
    classification: Result<Option<ToolCallView>, FunctionCallErrorView>,
    previously_active: bool,
) -> Result<OutputItemPlanView, Seq<char>> {
    match classification {
        Ok(Some(call)) => Ok(
            OutputItemPlanView {
                actions: seq![TurnActionView::Record(item), TurnActionView::ScheduleTool(call)],
                last_agent_message: None,
                needs_follow_up: true,
            },
        ),
        Ok(None) => {
            let store: Seq<TurnActionView> = match stored_reasoning(item) {
                Some(rc) => seq![TurnActionView::StoreReasoning(rc)],
                None => Seq::empty(),
            };
            let emits: Seq<TurnActionView> = match spec_parse_turn_item(item) {
                Some(ti) => if previously_active {
                    seq![TurnActionView::EmitCompleted(ti)]
                } else {
                    seq![TurnActionView::EmitStarted(ti), TurnActionView::EmitCompleted(ti)]
                },
                None => Seq::empty(),
            };
            Ok(
                OutputItemPlanView {
                    actions: store + emits + seq![TurnActionView::Record(item)],
                    last_agent_message: spec_last_assistant_message(item),
                    needs_follow_up: false,
                },
            )
        },
        Err(FunctionCallErrorView::MissingLocalShellCallId) => Ok(
            OutputItemPlanView {
                actions: seq![
                    TurnActionView::LogToolFailed {
                        tool: "local_shell"@,
                        message: missing_shell_id_text(),
                    },
                    TurnActionView::Record(item),
                    TurnActionView::Record(guardrail_output(missing_shell_id_text())),
                ],
                last_agent_message: None,
                needs_follow_up: true,
            },
        ),
        Err(FunctionCallErrorView::RespondToModel(message)) => Ok(
            OutputItemPlanView {
                actions: seq![
                    TurnActionView::Record(item),
                    TurnActionView::Record(guardrail_output(message)),
                ],
                last_agent_message: None,
                needs_follow_up: true,
            },
        ),
        Err(FunctionCallErrorView::Fatal(message)) => Err(message),
    }
}

/// What the plan functions ensure of their result.
pub open spec fn plan_post(
    item: ResponseItemView,
    classification: Result<Option<ToolCallView>, FunctionCallErrorView>,
    previously_active: bool,
    r: Result<OutputItemPlan, FatalError>,
) -> bool {
    match spec_plan(item, classification, previously_active) {
        Ok(p) => r matches Ok(plan) && plan@ == p,
        Err(m) => r matches Err(f) && f@.message == m,
    }
}

/// Folds one classified item into its plan.
pub fn plan_for_classification(
    item: ResponseItem,
    classification: Result<Option<ToolCall>, FunctionCallError>,
    previously_active: bool,
) -> (r: Result<OutputItemPlan, FatalError>)
    ensures
        plan_post(item@, classification_view(classification), previously_active, r),
{
    match classification {
        Ok(Some(call)) => {
            let mut actions: Vec<TurnAction> = Vec::new();
            actions.push(TurnAction::Record(item));
            actions.push(TurnAction::ScheduleTool(call));
            proof {
                assert(actions.deep_view() =~= spec_plan(
                    item@,
                    classification_view(classification),
                    previously_active,
                )->Ok_0.actions);
            }
            Ok(OutputItemPlan { actions, last_agent_message: None, needs_follow_up: true })
        },
        Ok(None) => {
            let mut actions: Vec<TurnAction> = Vec::new();
            match &item {
                ResponseItem::Message { role, reasoning_content, .. } => {
                    if str_eq(role.as_str(), "assistant") {
                        match reasoning_content {
                            Some(rc) => actions.push(TurnAction::StoreReasoning(rc.clone())),
                            None => {},
                        }
                    }
                },
                _ => {},
            }
            match handle_non_tool_response_item(&item) {
                Some(ti) => {
                    if !previously_active {
                        let started = TurnItem { item: ti.item.clone() };
                        actions.push(TurnAction::EmitStarted(started));
                    }
                    actions.push(TurnAction::EmitCompleted(ti));
                },
                None => {},
            }
            let last_agent_message = last_assistant_message_from_item(&item);
            actions.push(TurnAction::Record(item));
            proof {
                assert(actions.deep_view() =~= spec_plan(
                    item@,
                    classification_view(classification),
                    previously_active,
                )->Ok_0.actions);
            }
            Ok(OutputItemPlan { actions, last_agent_message, needs_follow_up: false })
        },
        Err(FunctionCallError::MissingLocalShellCallId) => {
            let err = FunctionCallError::MissingLocalShellCallId;
            let msg = err.message();
            let mut actions: Vec<TurnAction> = Vec::new();
            actions.push(
                TurnAction::LogToolFailed {
                    tool: String::from_str("local_shell"),
                    message: msg.clone(),
                },
            );
            actions.push(TurnAction::Record(item));
            let response = ResponseInputItem::FunctionCallOutput {
                call_id: String::new(),
                output: FunctionCallOutputPayload {
                    content: msg,
                    content_items: None,
                    success: None,
                },
            };
            match response_input_to_response_item(&response) {
                Some(response_item) => actions.push(TurnAction::Record(response_item)),
                None => {},
            }
            proof {
                assert(actions.deep_view() =~= spec_plan(
                    item@,
                    classification_view(classification),
                    previously_active,
                )->Ok_0.actions);
            }
            Ok(OutputItemPlan { actions, last_agent_message: None, needs_follow_up: true })
        },
        Err(FunctionCallError::RespondToModel(message)) => {
            let mut actions: Vec<TurnAction> = Vec::new();
            actions.push(TurnAction::Record(item));
            let response = ResponseInputItem::FunctionCallOutput {
                call_id: String::new(),
                output: FunctionCallOutputPayload {
                    content: message,
                    content_items: None,
                    success: None,
                },
            };
            match response_input_to_response_item(&response) {
                Some(response_item) => actions.push(TurnAction::Record(response_item)),
                None => {},
            }
            proof {
                assert(actions.deep_view() =~= spec_plan(
                    item@,
                    classification_view(classification),
                    previously_active,
                )->Ok_0.actions);
            }
            Ok(OutputItemPlan { actions, last_agent_message: None, needs_follow_up: true })
        },
        Err(FunctionCallError::Fatal(message)) => Err(FatalError { message }),
    }
}

/// Handles one completed output item: classifies it through the router, then
/// folds it into its plan.  Recording happens before scheduling, so history
/// and rollout stay in sync even if the turn is later cancelled.
pub fn handle_output_item_done(
    mcp: &McpDirectory,
    item: ResponseItem,
    previously_active: bool,
) -> (r: Result<OutputItemPlan, FatalError>)
    ensures
        plan_post(item@, spec_classify(mcp@, item@), previously_active, r),
{
    let classification = ToolRouter::build_tool_call(mcp, &item);
    plan_for_classification(item, classification, previously_active)
}

/// Recording precedes scheduling.  In any plan, every scheduled tool call
/// stands after a record of the item that produced it.
pub proof fn lemma_recording_precedes_scheduling(
    item: ResponseItemView,
    classification: Result<Option<ToolCallView>, FunctionCallErrorView>,
    previously_active: bool,
    p: OutputItemPlanView,
)
    requires
        spec_plan(item, classification, previously_active) == Ok::<OutputItemPlanView, Seq<char>>(p),
    ensures
        forall|k: int| 0 <= k < p.actions.len() && p.actions[k] is ScheduleTool ==> exists|i: int|
            0 <= i < k && p.actions[i] == TurnActionView::Record(item),
{
    match classification {
        Ok(Some(call)) => {
            assert forall|k: int| 0 <= k < p.actions.len() && p.actions[k] is ScheduleTool implies
            exists|i: int| 0 <= i < k && p.actions[i] == TurnActionView::Record(item) by {
                assert(p.actions[0] == TurnActionView::Record(item));
                assert(k == 1);
            }
        },
        Ok(None) => {
            assert(forall|k: int| 0 <= k < p.actions.len() ==> !(#[trigger] p.actions[k]
                is ScheduleTool));
        },
        Err(e) => {
            assert(forall|k: int| 0 <= k < p.actions.len() ==> !(#[trigger] p.actions[k]
                is ScheduleTool));
        },
    }
}

} // verus!
