//! The conversation data model: the items a turn's history is made of.
//!
//! A history is a sequence of `ResponseItem`s, created by the user, the model
//! stream, or tool outputs, and appended in causal order.  Every type carries a
//! mathematical view (`@`) built from sequences of characters, so that the
//! assembler's and reducer's contracts can speak about values, not storage.

use vstd::prelude::*;

verus! {

/// Compares two string slices by their character sequences.
pub fn str_eq(a: &str, b: &str) -> (r: bool)
    ensures
        r == (a@ == b@),
{
    let x: String = a.to_owned();
    let y: String = b.to_owned();
    x == y
}

/// Copies an optional string; the view is preserved.
pub fn clone_opt_string(o: &Option<String>) -> (r: Option<String>)
    ensures
        r.deep_view() == o.deep_view(),
{
    match o {
        Some(s) => Some(s.clone()),
        None => None,
    }
}

/// Copies a vector of strings; the views are preserved.
pub fn clone_string_vec(v: &Vec<String>) -> (r: Vec<String>)
    ensures
        r.deep_view() == v.deep_view(),
{
    let mut out: Vec<String> = Vec::new();
    let mut i: usize = 0;
    while i < v.len()
        invariant
            i <= v.len(),
            out.len() == i,
            forall|j: int| 0 <= j < i ==> out@[j]@ == v@[j]@,
        decreases v.len() - i,
    {
        out.push(v[i].clone());
        i = i + 1;
    }
    proof {
        assert(out.deep_view() =~= v.deep_view());
    }
    out
}

/// Whether a vector of strings holds one with the given characters.
pub fn vec_contains_string(v: &Vec<String>, s: &str) -> (r: bool)
    ensures
        r == exists|i: int| 0 <= i < v@.len() && v@[i]@ == s@,
{
    let mut i: usize = 0;
    while i < v.len()
        invariant
            i <= v.len(),
            forall|j: int| 0 <= j < i ==> v@[j]@ != s@,
        decreases v.len() - i,
    {
        if str_eq(v[i].as_str(), s) {
            return true;
        }
        i = i + 1;
    }
    false
}

/// One piece of a message's content.
#[derive(Debug, PartialEq)]
pub enum ContentItem {
    InputText { text: String },
    OutputText { text: String },
    InputImage { image_url: String },
}

#[verifier::ext_equal]
pub enum ContentItemView {
    InputText { text: Seq<char> },
    OutputText { text: Seq<char> },
    InputImage { image_url: Seq<char> },
}

impl View for ContentItem {
    type V = ContentItemView;

    open spec fn view(&self) -> ContentItemView {
        match self {
            ContentItem::InputText { text } => ContentItemView::InputText { text: text@ },
            ContentItem::OutputText { text } => ContentItemView::OutputText { text: text@ },
            ContentItem::InputImage { image_url } => ContentItemView::InputImage {
                image_url: image_url@,
            },
        }
    }
}

impl DeepView for ContentItem {
    type V = ContentItemView;

    open spec fn deep_view(&self) -> ContentItemView {
        self.view()
    }
}

impl Clone for ContentItem {
    fn clone(&self) -> (r: Self)
        ensures
            r@ == self@,
    {
        match self {
            ContentItem::InputText { text } => ContentItem::InputText { text: text.clone() },
            ContentItem::OutputText { text } => ContentItem::OutputText { text: text.clone() },
            ContentItem::InputImage { image_url } => ContentItem::InputImage {
                image_url: image_url.clone(),
            },
        }
    }
}

/// Copies a content vector; the views are preserved.
pub fn clone_content_items(v: &Vec<ContentItem>) -> (r: Vec<ContentItem>)
    ensures
        r.deep_view() == v.deep_view(),
{
    let mut out: Vec<ContentItem> = Vec::new();
    let mut i: usize = 0;
    while i < v.len()
        invariant
            i <= v.len(),
            out.len() == i,
            forall|j: int| 0 <= j < i ==> out@[j]@ == v@[j]@,
        decreases v.len() - i,
    {
        out.push(v[i].clone());
        i = i + 1;
    }
    proof {
        assert(out.deep_view() =~= v.deep_view());
    }
    out
}

/// One entry of a reasoning item's content.
#[derive(Debug, PartialEq)]
pub enum ReasoningItemContent {
    ReasoningText { text: String },
    Text { text: String },
}

#[verifier::ext_equal]
pub enum ReasoningItemContentView {
    ReasoningText { text: Seq<char> },
    Text { text: Seq<char> },
}

impl View for ReasoningItemContent {
    type V = ReasoningItemContentView;

    open spec fn view(&self) -> ReasoningItemContentView {
        match self {
            ReasoningItemContent::ReasoningText { text } => ReasoningItemContentView::ReasoningText {
                text: text@,
            },
            ReasoningItemContent::Text { text } => ReasoningItemContentView::Text { text: text@ },
        }
    }
}

impl DeepView for ReasoningItemContent {
    type V = ReasoningItemContentView;

    open spec fn deep_view(&self) -> ReasoningItemContentView {
        self.view()
    }
}

impl Clone for ReasoningItemContent {
    fn clone(&self) -> (r: Self)
        ensures
            r@ == self@,
    {
        match self {
            ReasoningItemContent::ReasoningText { text } => ReasoningItemContent::ReasoningText {
                text: text.clone(),
            },
            ReasoningItemContent::Text { text } => ReasoningItemContent::Text { text: text.clone() },
        }
    }
}

/// The text a reasoning content entry carries, whichever variant it is.
pub open spec fn reasoning_entry_text(e: ReasoningItemContentView) -> Seq<char> {
    match e {
        ReasoningItemContentView::ReasoningText { text } => text,
        ReasoningItemContentView::Text { text } => text,
    }
}

/// One typed part of a tool output's content.
#[derive(Debug, PartialEq)]
pub enum FunctionCallOutputContentItem {
    InputText { text: String },
    InputImage { image_url: String },
}

#[verifier::ext_equal]
pub enum FunctionCallOutputContentItemView {
    InputText { text: Seq<char> },
    InputImage { image_url: Seq<char> },
}

impl View for FunctionCallOutputContentItem {
    type V = FunctionCallOutputContentItemView;

    open spec fn view(&self) -> FunctionCallOutputContentItemView {
        match self {
            FunctionCallOutputContentItem::InputText { text } => {
                FunctionCallOutputContentItemView::InputText { text: text@ }
            },
            FunctionCallOutputContentItem::InputImage { image_url } => {
                FunctionCallOutputContentItemView::InputImage { image_url: image_url@ }
            },
        }
    }
}

impl DeepView for FunctionCallOutputContentItem {
    type V = FunctionCallOutputContentItemView;

    open spec fn deep_view(&self) -> FunctionCallOutputContentItemView {
        self.view()
    }
}

impl Clone for FunctionCallOutputContentItem {
    fn clone(&self) -> (r: Self)
        ensures
            r@ == self@,
    {
        match self {
            FunctionCallOutputContentItem::InputText { text } => {
                FunctionCallOutputContentItem::InputText { text: text.clone() }
            },
            FunctionCallOutputContentItem::InputImage { image_url } => {
                FunctionCallOutputContentItem::InputImage { image_url: image_url.clone() }
            },
        }
    }
}

/// The payload of a function call's output.
#[derive(Debug, PartialEq)]
pub struct FunctionCallOutputPayload {
    pub content: String,
    pub content_items: Option<Vec<FunctionCallOutputContentItem>>,
    pub success: Option<bool>,
}

#[verifier::ext_equal]
pub struct FunctionCallOutputPayloadView {
    pub content: Seq<char>,
    pub content_items: Option<Seq<FunctionCallOutputContentItemView>>,
    pub success: Option<bool>,
}

impl View for FunctionCallOutputPayload {
    type V = FunctionCallOutputPayloadView;

    open spec fn view(&self) -> FunctionCallOutputPayloadView {
        FunctionCallOutputPayloadView {
            content: self.content@,
            content_items: self.content_items.deep_view(),
            success: self.success,
        }
    }
}

impl DeepView for FunctionCallOutputPayload {
    type V = FunctionCallOutputPayloadView;

    open spec fn deep_view(&self) -> FunctionCallOutputPayloadView {
        self.view()
    }
}

impl Clone for FunctionCallOutputPayload {
    fn clone(&self) -> (r: Self)
        ensures
            r@ == self@,
    {
        let content_items: Option<Vec<FunctionCallOutputContentItem>> = match &self.content_items {
            Some(v) => {
                let mut out: Vec<FunctionCallOutputContentItem> = Vec::new();
                let mut i: usize = 0;
                while i < v.len()
                    invariant
                        i <= v.len(),
                        out.len() == i,
                        forall|j: int| 0 <= j < i ==> out@[j]@ == v@[j]@,
                    decreases v.len() - i,
                {
                    out.push(v[i].clone());
                    i = i + 1;
                }
                proof {
                    assert(out.deep_view() =~= v.deep_view());
                }
                Some(out)
            },
            None => None,
        };
        FunctionCallOutputPayload { content: self.content.clone(), content_items, success: self.success }
    }
}

impl Default for FunctionCallOutputPayload {
    /// The empty payload: empty content, no typed parts, no success flag.
    fn default() -> (r: Self)
        ensures
            r@.content == Seq::<char>::empty(),
            r@.content_items is None,
            r@.success is None,
    {
        FunctionCallOutputPayload { content: String::new(), content_items: None, success: None }
    }
}

/// The status a local shell call reports.
#[derive(Clone, Copy, Debug, PartialEq, Eq, Structural)]
pub enum LocalShellStatus {
    Completed,
    InProgress,
    Incomplete,
}

/// The command a local shell call asks to run.
#[derive(Debug, PartialEq)]
pub struct LocalShellExecAction {
    pub command: Vec<String>,
    pub timeout_ms: Option<u64>,
    pub working_directory: Option<String>,
}

#[verifier::ext_equal]
pub struct LocalShellExecActionView {
    pub command: Seq<Seq<char>>,
    pub timeout_ms: Option<u64>,
    pub working_directory: Option<Seq<char>>,
}

impl View for LocalShellExecAction {
    type V = LocalShellExecActionView;

    open spec fn view(&self) -> LocalShellExecActionView {
        LocalShellExecActionView {
            command: self.command.deep_view(),
            timeout_ms: self.timeout_ms,
            working_directory: self.working_directory.deep_view(),
        }
    }
}

impl DeepView for LocalShellExecAction {
    type V = LocalShellExecActionView;

    open spec fn deep_view(&self) -> LocalShellExecActionView {
        self.view()
    }
}

impl Clone for LocalShellExecAction {
    fn clone(&self) -> (r: Self)
        ensures
            r@ == self@,
    {
        LocalShellExecAction {
            command: clone_string_vec(&self.command),
            timeout_ms: self.timeout_ms,
            working_directory: clone_opt_string(&self.working_directory),
        }
    }
}

/// What a local shell call does.
#[derive(Debug, PartialEq)]
pub enum LocalShellAction {
    Exec(LocalShellExecAction),
}

#[verifier::ext_equal]
pub enum LocalShellActionView {
    Exec(LocalShellExecActionView),
}

impl View for LocalShellAction {
    type V = LocalShellActionView;

    open spec fn view(&self) -> LocalShellActionView {
        match self {
            LocalShellAction::Exec(a) => LocalShellActionView::Exec(a@),
        }
    }
}

impl DeepView for LocalShellAction {
    type V = LocalShellActionView;

    open spec fn deep_view(&self) -> LocalShellActionView {
        self.view()
    }
}

impl Clone for LocalShellAction {
    fn clone(&self) -> (r: Self)
        ensures
            r@ == self@,
    {
        match self {
            LocalShellAction::Exec(a) => LocalShellAction::Exec(a.clone()),
        }
    }
}

/// What a web search call did.
#[derive(Debug, PartialEq)]
pub enum WebSearchAction {
    Search { query: Option<String> },
    OpenPage { url: Option<String> },
    FindInPage { url: Option<String>, pattern: Option<String> },
    Other,
}

#[verifier::ext_equal]
pub enum WebSearchActionView {
    Search { query: Option<Seq<char>> },
    OpenPage { url: Option<Seq<char>> },
    FindInPage { url: Option<Seq<char>>, pattern: Option<Seq<char>> },
    Other,
}

impl View for WebSearchAction {
    type V = WebSearchActionView;

    open spec fn view(&self) -> WebSearchActionView {
        match self {
            WebSearchAction::Search { query } => WebSearchActionView::Search {
                query: query.deep_view(),
            },
            WebSearchAction::OpenPage { url } => WebSearchActionView::OpenPage {
                url: url.deep_view(),
            },
            WebSearchAction::FindInPage { url, pattern } => WebSearchActionView::FindInPage {
                url: url.deep_view(),
                pattern: pattern.deep_view(),
            },
            WebSearchAction::Other => WebSearchActionView::Other,
        }
    }
}

impl DeepView for WebSearchAction {
    type V = WebSearchActionView;

    open spec fn deep_view(&self) -> WebSearchActionView {
        self.view()
    }
}

impl Clone for WebSearchAction {
    fn clone(&self) -> (r: Self)
        ensures
            r@ == self@,
    {
        match self {
            WebSearchAction::Search { query } => WebSearchAction::Search {
                query: clone_opt_string(query),
            },
            WebSearchAction::OpenPage { url } => WebSearchAction::OpenPage {
                url: clone_opt_string(url),
            },
            WebSearchAction::FindInPage { url, pattern } => WebSearchAction::FindInPage {
                url: clone_opt_string(url),
                pattern: clone_opt_string(pattern),
            },
            WebSearchAction::Other => WebSearchAction::Other,
        }
    }
}

/// One entry of an assistant message's `tool_calls` array, already in the
/// shape the remote endpoint expects.
#[derive(Debug, PartialEq)]
pub enum ToolCallEntry {
    Function { id: String, name: String, arguments: String },
    LocalShell { id: String, status: LocalShellStatus, action: LocalShellAction },
    Custom { id: String, name: String, input: String },
}

#[verifier::ext_equal]
pub enum ToolCallEntryView {
    Function { id: Seq<char>, name: Seq<char>, arguments: Seq<char> },
    LocalShell { id: Seq<char>, status: LocalShellStatus, action: LocalShellActionView },
    Custom { id: Seq<char>, name: Seq<char>, input: Seq<char> },
}

impl ToolCallEntryView {
    /// The call id the entry is paired with.
    pub open spec fn call_id(self) -> Seq<char> {
        match self {
            ToolCallEntryView::Function { id, .. } => id,
            ToolCallEntryView::LocalShell { id, .. } => id,
            ToolCallEntryView::Custom { id, .. } => id,
        }
    }
}

impl View for ToolCallEntry {
    type V = ToolCallEntryView;

    open spec fn view(&self) -> ToolCallEntryView {
        match self {
            ToolCallEntry::Function { id, name, arguments } => ToolCallEntryView::Function {
                id: id@,
                name: name@,
                arguments: arguments@,
            },
            ToolCallEntry::LocalShell { id, status, action } => ToolCallEntryView::LocalShell {
                id: id@,
                status: *status,
                action: action@,
            },
            ToolCallEntry::Custom { id, name, input } => ToolCallEntryView::Custom {
                id: id@,
                name: name@,
                input: input@,
            },
        }
    }
}

impl DeepView for ToolCallEntry {
    type V = ToolCallEntryView;

    open spec fn deep_view(&self) -> ToolCallEntryView {
        self.view()
    }
}

impl Clone for ToolCallEntry {
    fn clone(&self) -> (r: Self)
        ensures
            r@ == self@,
    {
        match self {
            ToolCallEntry::Function { id, name, arguments } => ToolCallEntry::Function {
                id: id.clone(),
                name: name.clone(),
                arguments: arguments.clone(),
            },
            ToolCallEntry::LocalShell { id, status, action } => ToolCallEntry::LocalShell {
                id: id.clone(),
                status: *status,
                action: action.clone(),
            },
            ToolCallEntry::Custom { id, name, input } => ToolCallEntry::Custom {
                id: id.clone(),
                name: name.clone(),
                input: input.clone(),
            },
        }
    }
}

/// Copies a tool-call entry vector; the views are preserved.
pub fn clone_tool_call_entries(v: &Vec<ToolCallEntry>) -> (r: Vec<ToolCallEntry>)
    ensures
        r.deep_view() == v.deep_view(),
{
    let mut out: Vec<ToolCallEntry> = Vec::new();
    let mut i: usize = 0;
    while i < v.len()
        invariant
            i <= v.len(),
            out.len() == i,
            forall|j: int| 0 <= j < i ==> out@[j]@ == v@[j]@,
        decreases v.len() - i,
    {
        out.push(v[i].clone());
        i = i + 1;
    }
    proof {
        assert(out.deep_view() =~= v.deep_view());
    }
    out
}

/// The canonical unit of conversation history.
#[derive(Debug, PartialEq)]
pub enum ResponseItem {
    Message {
        id: Option<String>,
        role: String,
        content: Vec<ContentItem>,
        reasoning_content: Option<String>,
        tool_calls: Option<Vec<ToolCallEntry>>,
    },
    Reasoning { content: Option<Vec<ReasoningItemContent>> },
    FunctionCall { id: Option<String>, name: String, arguments: String, call_id: String },
    LocalShellCall {
        id: Option<String>,
        call_id: Option<String>,
        status: LocalShellStatus,
        action: LocalShellAction,
    },
    FunctionCallOutput { call_id: String, output: FunctionCallOutputPayload },
    CustomToolCall {
        id: Option<String>,
        call_id: String,
        name: String,
        input: String,
        status: Option<String>,
    },
    CustomToolCallOutput { call_id: String, output: String },
    WebSearchCall { id: Option<String>, action: WebSearchAction },
    GhostSnapshot,
    Compaction,
    Other,
}

#[verifier::ext_equal]
pub enum ResponseItemView {
    Message {
        id: Option<Seq<char>>,
        role: Seq<char>,
        content: Seq<ContentItemView>,
        reasoning_content: Option<Seq<char>>,
        tool_calls: Option<Seq<ToolCallEntryView>>,
    },
    Reasoning { content: Option<Seq<ReasoningItemContentView>> },
    FunctionCall { id: Option<Seq<char>>, name: Seq<char>, arguments: Seq<char>, call_id: Seq<char> },
    LocalShellCall {
        id: Option<Seq<char>>,
        call_id: Option<Seq<char>>,
        status: LocalShellStatus,
        action: LocalShellActionView,
    },
    FunctionCallOutput { call_id: Seq<char>, output: FunctionCallOutputPayloadView },
    CustomToolCall {
        id: Option<Seq<char>>,
        call_id: Seq<char>,
        name: Seq<char>,
        input: Seq<char>,
        status: Option<Seq<char>>,
    },
    CustomToolCallOutput { call_id: Seq<char>, output: Seq<char> },
    WebSearchCall { id: Option<Seq<char>>, action: WebSearchActionView },
    GhostSnapshot,
    Compaction,
    Other,
}

impl View for ResponseItem {
    type V = ResponseItemView;

    open spec fn view(&self) -> ResponseItemView {
        match self {
            ResponseItem::Message { id, role, content, reasoning_content, tool_calls } => {
                ResponseItemView::Message {
                    id: id.deep_view(),
                    role: role@,
                    content: content.deep_view(),
                    reasoning_content: reasoning_content.deep_view(),
                    tool_calls: tool_calls.deep_view(),
                }
            },
            ResponseItem::Reasoning { content } => ResponseItemView::Reasoning {
                content: content.deep_view(),
            },
            ResponseItem::FunctionCall { id, name, arguments, call_id } => {
                ResponseItemView::FunctionCall {
                    id: id.deep_view(),
                    name: name@,
                    arguments: arguments@,
                    call_id: call_id@,
                }
            },
            ResponseItem::LocalShellCall { id, call_id, status, action } => {
                ResponseItemView::LocalShellCall {
                    id: id.deep_view(),
                    call_id: call_id.deep_view(),
                    status: *status,
                    action: action@,
                }
            },
            ResponseItem::FunctionCallOutput { call_id, output } => {
                ResponseItemView::FunctionCallOutput { call_id: call_id@, output: output@ }
            },
            ResponseItem::CustomToolCall { id, call_id, name, input, status } => {
                ResponseItemView::CustomToolCall {
                    id: id.deep_view(),
                    call_id: call_id@,
                    name: name@,
                    input: input@,
                    status: status.deep_view(),
                }
            },
            ResponseItem::CustomToolCallOutput { call_id, output } => {
                ResponseItemView::CustomToolCallOutput { call_id: call_id@, output: output@ }
            },
            ResponseItem::WebSearchCall { id, action } => ResponseItemView::WebSearchCall {
                id: id.deep_view(),
                action: action@,
            },
            ResponseItem::GhostSnapshot => ResponseItemView::GhostSnapshot,
            ResponseItem::Compaction => ResponseItemView::Compaction,
            ResponseItem::Other => ResponseItemView::Other,
        }
    }
}

impl DeepView for ResponseItem {
    type V = ResponseItemView;

    open spec fn deep_view(&self) -> ResponseItemView {
        self.view()
    }
}

impl Clone for ResponseItem {
    fn clone(&self) -> (r: Self)
        ensures
            r@ == self@,
    {
        match self {
            ResponseItem::Message { id, role, content, reasoning_content, tool_calls } => {
                let tool_calls_out: Option<Vec<ToolCallEntry>> = match tool_calls {
                    Some(v) => Some(clone_tool_call_entries(v)),
                    None => None,
                };
                ResponseItem::Message {
                    id: clone_opt_string(id),
                    role: role.clone(),
                    content: clone_content_items(content),
                    reasoning_content: clone_opt_string(reasoning_content),
                    tool_calls: tool_calls_out,
                }
            },
            ResponseItem::Reasoning { content } => {
                let content_out: Option<Vec<ReasoningItemContent>> = match content {
                    Some(v) => {
                        let mut out: Vec<ReasoningItemContent> = Vec::new();
                        let mut i: usize = 0;
                        while i < v.len()
                            invariant
                                i <= v.len(),
                                out.len() == i,
                                forall|j: int| 0 <= j < i ==> out@[j]@ == v@[j]@,
                            decreases v.len() - i,
                        {
                            out.push(v[i].clone());
                            i = i + 1;
                        }
                        proof {
                            assert(out.deep_view() =~= v.deep_view());
                        }
                        Some(out)
                    },
                    None => None,
                };
                ResponseItem::Reasoning { content: content_out }
            },
            ResponseItem::FunctionCall { id, name, arguments, call_id } => {
                ResponseItem::FunctionCall {
                    id: clone_opt_string(id),
                    name: name.clone(),
                    arguments: arguments.clone(),
                    call_id: call_id.clone(),
                }
            },
            ResponseItem::LocalShellCall { id, call_id, status, action } => {
                ResponseItem::LocalShellCall {
                    id: clone_opt_string(id),
                    call_id: clone_opt_string(call_id),
                    status: *status,
                    action: action.clone(),
                }
            },
            ResponseItem::FunctionCallOutput { call_id, output } => {
                ResponseItem::FunctionCallOutput { call_id: call_id.clone(), output: output.clone() }
            },
            ResponseItem::CustomToolCall { id, call_id, name, input, status } => {
                ResponseItem::CustomToolCall {
                    id: clone_opt_string(id),
                    call_id: call_id.clone(),
                    name: name.clone(),
                    input: input.clone(),
                    status: clone_opt_string(status),
                }
            },
            ResponseItem::CustomToolCallOutput { call_id, output } => {
                ResponseItem::CustomToolCallOutput {
                    call_id: call_id.clone(),
                    output: output.clone(),
                }
            },
            ResponseItem::WebSearchCall { id, action } => ResponseItem::WebSearchCall {
                id: clone_opt_string(id),
                action: action.clone(),
            },
            ResponseItem::GhostSnapshot => ResponseItem::GhostSnapshot,
            ResponseItem::Compaction => ResponseItem::Compaction,
            ResponseItem::Other => ResponseItem::Other,
        }
    }
}

/// Where a session came from; a sub-agent session is marked on the wire.
#[derive(Clone, Copy, Debug, PartialEq, Eq, Structural)]
pub enum SubAgentSource {
    Review,
}

#[derive(Clone, Copy, Debug, PartialEq, Eq, Structural)]
pub enum SessionSource {
    Cli,
    Exec,
    Mcp,
    SubAgent(SubAgentSource),
}

/// The header value that marks a sub-agent session, when the source denotes one.
pub open spec fn spec_subagent_header(source: Option<SessionSource>) -> Option<Seq<char>> {
    match source {
        Some(SessionSource::SubAgent(SubAgentSource::Review)) => Some("review"@),
        _ => None,
    }
}

/// The `x-openai-subagent` value a session source maps to: `review` for a
/// review sub-agent, nothing for a session that is not a sub-agent.
pub fn subagent_header(source: &Option<SessionSource>) -> (r: Option<String>)
    ensures
        r.deep_view() == spec_subagent_header(*source),
{
    match source {
        Some(SessionSource::SubAgent(SubAgentSource::Review)) => {
            Some(String::from_str("review"))
        },
        _ => None,
    }
}

/// A user's answer to an approval prompt.
#[derive(Clone, Copy, Debug, PartialEq, Eq, Structural)]
pub enum ReviewDecision {
    Approved,
    ApprovedExecpolicyAmendment,
    ApprovedForSession,
    Denied,
    Abort,
}

impl ReviewDecision {
    /// Whether the decision authorizes the call.
    pub open spec fn spec_is_approval(self) -> bool {
        match self {
            ReviewDecision::Approved => true,
            ReviewDecision::ApprovedExecpolicyAmendment => true,
            ReviewDecision::ApprovedForSession => true,
            ReviewDecision::Denied => false,
            ReviewDecision::Abort => false,
        }
    }

    #[verifier::when_used_as_spec(spec_is_approval)]
    pub fn is_approval(self) -> (r: bool)
        ensures
            r == self.spec_is_approval(),
    {
        match self {
            ReviewDecision::Denied => false,
            ReviewDecision::Abort => false,
            _ => true,
        }
    }
}

/// An error a tool-call path surfaces.
///
/// `Fatal` aborts the turn; the other kinds are converted into tool outputs so
/// the model can see them and make progress.
#[derive(Debug, PartialEq)]
pub enum FunctionCallError {
    MissingLocalShellCallId,
    RespondToModel(String),
    Fatal(String),
}

#[verifier::ext_equal]
pub enum FunctionCallErrorView {
    MissingLocalShellCallId,
    RespondToModel(Seq<char>),
    Fatal(Seq<char>),
}

impl View for FunctionCallError {
    type V = FunctionCallErrorView;

    open spec fn view(&self) -> FunctionCallErrorView {
        match self {
            FunctionCallError::MissingLocalShellCallId => {
                FunctionCallErrorView::MissingLocalShellCallId
            },
            FunctionCallError::RespondToModel(m) => FunctionCallErrorView::RespondToModel(m@),
            FunctionCallError::Fatal(m) => FunctionCallErrorView::Fatal(m@),
        }
    }
}

impl DeepView for FunctionCallError {
    type V = FunctionCallErrorView;

    open spec fn deep_view(&self) -> FunctionCallErrorView {
        self.view()
    }
}

/// The message a `FunctionCallError` renders to.
pub open spec fn spec_error_message(e: FunctionCallErrorView) -> Seq<char> {
    match e {
        FunctionCallErrorView::MissingLocalShellCallId => "LocalShellCall without call_id or id"@,
        FunctionCallErrorView::RespondToModel(m) => m,
        FunctionCallErrorView::Fatal(m) => m,
    }
}

impl FunctionCallError {
    /// The error rendered as the text a tool output carries.
    pub fn message(&self) -> (r: String)
        ensures
            r@ == spec_error_message(self@),
    {
        match self {
            FunctionCallError::MissingLocalShellCallId => {
                String::from_str("LocalShellCall without call_id or id")
            },
            FunctionCallError::RespondToModel(m) => m.clone(),
            FunctionCallError::Fatal(m) => m.clone(),
        }
    }
}

} // verus!
