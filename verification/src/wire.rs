//! The wire shape of an assembled chat request.
//!
//! A `WireMessage` is one entry of the request's `messages` array.  The module
//! holds the grouping rule that folds consecutive tool calls into a single
//! assistant message, and the validation that every assistant message carrying
//! tool calls is answered before the next non-tool message.

use vstd::prelude::*;
use vstd::string::StringExecFns;
use crate::items::ToolCallEntry;
use crate::items::ToolCallEntryView;
use crate::items::str_eq;
use crate::items::vec_contains_string;

verus! {

/// One typed part of a message's content.
#[derive(Debug, PartialEq)]
pub enum ContentPart {
    Text { text: String },
    ImageUrl { url: String },
}

#[verifier::ext_equal]
pub enum ContentPartView {
    Text { text: Seq<char> },
    ImageUrl { url: Seq<char> },
}

impl View for ContentPart {
    type V = ContentPartView;

    open spec fn view(&self) -> ContentPartView {
        match self {
            ContentPart::Text { text } => ContentPartView::Text { text: text@ },
            ContentPart::ImageUrl { url } => ContentPartView::ImageUrl { url: url@ },
        }
    }
}

impl DeepView for ContentPart {
    type V = ContentPartView;

    open spec fn deep_view(&self) -> ContentPartView {
        self.view()
    }
}

/// A message's content: either one plain string or a list of typed parts.
#[derive(Debug, PartialEq)]
pub enum WireContent {
    Text(String),
    Parts(Vec<ContentPart>),
}

#[verifier::ext_equal]
pub enum WireContentView {
    Text(Seq<char>),
    Parts(Seq<ContentPartView>),
}

impl View for WireContent {
    type V = WireContentView;

    open spec fn view(&self) -> WireContentView {
        match self {
            WireContent::Text(t) => WireContentView::Text(t@),
            WireContent::Parts(p) => WireContentView::Parts(p.deep_view()),
        }
    }
}

impl DeepView for WireContent {
    type V = WireContentView;

    open spec fn deep_view(&self) -> WireContentView {
        self.view()
    }
}

/// One entry of the request's `messages` array.
///
/// An `Assistant` message carries text content; an `AssistantToolCalls`
/// message is the synthesized wrapper with `content: null` that groups
/// consecutive tool calls.  A `Tool` message answers one call id.
#[derive(Debug, PartialEq)]
pub enum WireMessage {
    Plain { role: String, content: WireContent },
    Assistant {
        content: String,
        reasoning_content: String,
        reasoning: Option<String>,
        tool_calls: Vec<ToolCallEntry>,
    },
    AssistantToolCalls { tool_calls: Vec<ToolCallEntry>, reasoning_content: String },
    Tool { tool_call_id: String, content: WireContent },
}

#[verifier::ext_equal]
pub enum WireMessageView {
    Plain { role: Seq<char>, content: WireContentView },
    Assistant {
        content: Seq<char>,
        reasoning_content: Seq<char>,
        reasoning: Option<Seq<char>>,
        tool_calls: Seq<ToolCallEntryView>,
    },
    AssistantToolCalls { tool_calls: Seq<ToolCallEntryView>, reasoning_content: Seq<char> },
    Tool { tool_call_id: Seq<char>, content: WireContentView },
}

impl View for WireMessage {
    type V = WireMessageView;

    open spec fn view(&self) -> WireMessageView {
        match self {
            WireMessage::Plain { role, content } => WireMessageView::Plain {
                role: role@,
                content: content@,
            },
            WireMessage::Assistant { content, reasoning_content, reasoning, tool_calls } => {
                WireMessageView::Assistant {
                    content: content@,
                    reasoning_content: reasoning_content@,
                    reasoning: reasoning.deep_view(),
                    tool_calls: tool_calls.deep_view(),
                }
            },
            WireMessage::AssistantToolCalls { tool_calls, reasoning_content } => {
                WireMessageView::AssistantToolCalls {
                    tool_calls: tool_calls.deep_view(),
                    reasoning_content: reasoning_content@,
                }
            },
            WireMessage::Tool { tool_call_id, content } => WireMessageView::Tool {
                tool_call_id: tool_call_id@,
                content: content@,
            },
        }
    }
}

impl DeepView for WireMessage {
    type V = WireMessageView;

    open spec fn deep_view(&self) -> WireMessageView {
        self.view()
    }
}

/// The role string a wire message is sent under.
pub open spec fn role_of(m: WireMessageView) -> Seq<char> {
    match m {
        WireMessageView::Plain { role, .. } => role,
        WireMessageView::Assistant { .. } => "assistant"@,
        WireMessageView::AssistantToolCalls { .. } => "assistant"@,
        WireMessageView::Tool { .. } => "tool"@,
    }
}

/// Whether the message travels under the `tool` role.
pub open spec fn is_tool_role(m: WireMessageView) -> bool {
    match m {
        WireMessageView::Plain { role, .. } => role == "tool"@,
        WireMessageView::Tool { .. } => true,
        _ => false,
    }
}

/// The call ids of the entries of a `tool_calls` sequence, in order.
pub open spec fn ids_of(tool_calls: Seq<ToolCallEntryView>) -> Seq<Seq<char>> {
    tool_calls.map_values(|c: ToolCallEntryView| c.call_id())
}

/// The call ids an assistant message's `tool_calls` array carries, when the
/// message carries one.
pub open spec fn tool_call_ids(m: WireMessageView) -> Option<Seq<Seq<char>>> {
    match m {
        WireMessageView::Assistant { tool_calls, .. } => if tool_calls.len() > 0 {
            Some(ids_of(tool_calls))
        } else {
            None
        },
        WireMessageView::AssistantToolCalls { tool_calls, .. } => Some(ids_of(tool_calls)),
        _ => None,
    }
}

/// Whether the message is a tool message answering the given call id.
pub open spec fn covers(m: WireMessageView, id: Seq<char>) -> bool {
    match m {
        WireMessageView::Tool { tool_call_id, .. } => tool_call_id == id,
        _ => false,
    }
}

/// The first index at or after `j` whose message is not under the `tool`
/// role; the length when every message from `j` on is.
pub open spec fn boundary(msgs: Seq<WireMessageView>, j: int) -> int
    decreases msgs.len() - j,
    when 0 <= j <= msgs.len()
{
    if j >= msgs.len() {
        msgs.len() as int
    } else if !is_tool_role(msgs[j]) {
        j
    } else {
        boundary(msgs, j + 1)
    }
}

/// Whether some tool message between index `i` and the next non-tool message
/// answers the given call id.
pub open spec fn covered(msgs: Seq<WireMessageView>, i: int, id: Seq<char>) -> bool {
    exists|k: int| i < k < boundary(msgs, i + 1) && covers(msgs[k], id)
}

/// Whether the assistant message at index `i` is answered: when a non-tool
/// message follows it, every call id it carries is covered before that
/// message.  A trailing group of calls, with nothing after it, is the start
/// of the current request and owes no answers yet.
pub open spec fn assistant_ok(msgs: Seq<WireMessageView>, i: int) -> bool {
    match tool_call_ids(msgs[i]) {
        Some(ids) => boundary(msgs, i + 1) < msgs.len() ==> forall|k: int|
            0 <= k < ids.len() ==> covered(msgs, i, ids[k]),
        None => true,
    }
}

/// The well-formed-wire condition: past the leading system message, every
/// assistant message carrying tool calls is answered.
pub open spec fn valid_wire(msgs: Seq<WireMessageView>) -> bool {
    forall|i: int| 1 <= i < msgs.len() ==> #[trigger] assistant_ok(msgs, i)
}

/// The error the assembler fails with.
#[derive(Debug, PartialEq)]
pub enum ChatError {
    BadRequest { message: String },
}

#[verifier::ext_equal]
pub enum ChatErrorView {
    BadRequest { message: Seq<char> },
}

impl View for ChatError {
    type V = ChatErrorView;

    open spec fn view(&self) -> ChatErrorView {
        match self {
            ChatError::BadRequest { message } => ChatErrorView::BadRequest { message: message@ },
        }
    }
}

impl DeepView for ChatError {
    type V = ChatErrorView;

    open spec fn deep_view(&self) -> ChatErrorView {
        self.view()
    }
}

impl ChatError {
    /// The text the error carries.
    pub fn message(&self) -> (r: &String)
        ensures
            self@ matches ChatErrorView::BadRequest { message } && r@ == message,
    {
        match self {
            ChatError::BadRequest { message } => message,
        }
    }
}

/// The message of the error that names an unanswered call id.
pub open spec fn spec_missing_tool_message(id: Seq<char>) -> Seq<char> {
    "Missing tool message for tool_call_id: "@ + id
        + ". An assistant message with 'tool_calls' must be followed by tool messages responding to each 'tool_call_id'."@
}

fn missing_tool_message(id: &str) -> (r: String)
    ensures
        r@ == spec_missing_tool_message(id@),
{
    let mut m: String = String::from_str("Missing tool message for tool_call_id: ");
    m.append(id);
    m.append(
        ". An assistant message with 'tool_calls' must be followed by tool messages responding to each 'tool_call_id'.",
    );
    proof {
        assert(m@ =~= spec_missing_tool_message(id@));
    }
    m
}

proof fn lemma_boundary_pinpoint(msgs: Seq<WireMessageView>, s: int, j0: int)
    requires
        0 <= s <= j0 <= msgs.len(),
        forall|l: int| s <= l < j0 ==> is_tool_role(#[trigger] msgs[l]),
        j0 == msgs.len() || !is_tool_role(msgs[j0]),
    ensures
        boundary(msgs, s) == j0,
    decreases j0 - s,
{
    if s < j0 {
        lemma_boundary_pinpoint(msgs, s + 1, j0);
    }
}

/// The call id a `tool_calls` entry is paired with.
pub fn call_id_of_entry(e: &ToolCallEntry) -> (r: String)
    ensures
        r@ == e@.call_id(),
{
    match e {
        ToolCallEntry::Function { id, .. } => id.clone(),
        ToolCallEntry::LocalShell { id, .. } => id.clone(),
        ToolCallEntry::Custom { id, .. } => id.clone(),
    }
}

fn collect_call_ids(tool_calls: &Vec<ToolCallEntry>) -> (r: Vec<String>)
    ensures
        r.deep_view() == ids_of(tool_calls.deep_view()),
{
    let mut out: Vec<String> = Vec::new();
    let mut i: usize = 0;
    while i < tool_calls.len()
        invariant
            i <= tool_calls.len(),
            out.len() == i,
            forall|j: int| 0 <= j < i ==> out@[j]@ == tool_calls.deep_view()[j].call_id(),
        decreases tool_calls.len() - i,
    {
        out.push(call_id_of_entry(&tool_calls[i]));
        i = i + 1;
    }
    proof {
        assert(out.deep_view() =~= ids_of(tool_calls.deep_view()));
    }
    out
}

/// Whether the string vector holds one with the given characters.
pub open spec fn holds_chars(v: Seq<String>, id: Seq<char>) -> bool {
    exists|q: int| 0 <= q < v.len() && v[q]@ == id
}

/// Walks the tool messages that follow index `start - 1`: returns the ids
/// they answer, the index of the first non-tool message (the length when
/// none follows), and whether such a message was seen.
fn scan_tool_block(messages: &Vec<WireMessage>, start: usize) -> (res: (Vec<String>, usize, bool))
    requires
        start <= messages.len(),
    ensures
        start <= res.1 <= messages.len(),
        res.2 == (res.1 < messages.len()),
        boundary(messages.deep_view(), start as int) == res.1,
        forall|id: Seq<char>|
            #[trigger] holds_chars(res.0@, id) <==> exists|k: int|
                start <= k < res.1 && covers(#[trigger] messages.deep_view()[k], id),
{
    let ghost m = messages.deep_view();
    let mut j: usize = start;
    let mut found: Vec<String> = Vec::new();
    while j < messages.len()
        invariant
            start <= j <= messages.len(),
            m == messages.deep_view(),
            forall|l: int| start <= l < j ==> is_tool_role(#[trigger] m[l]),
            forall|id: Seq<char>|
                #[trigger] holds_chars(found@, id) <==> exists|k: int|
                    start <= k < j && covers(#[trigger] m[k], id),
        decreases messages.len() - j,
    {
        let ghost f0 = found@;
        match &messages[j] {
            WireMessage::Tool { tool_call_id, .. } => {
                found.push(tool_call_id.clone());
                proof {
                    assert forall|id: Seq<char>|
                        #[trigger] holds_chars(found@, id) <==> (holds_chars(f0, id) || id
                            == m[j as int]->Tool_tool_call_id) by {
                        if holds_chars(found@, id) {
                            let q = choose|q: int| 0 <= q < found@.len() && found@[q]@ == id;
                            if q < f0.len() {
                                assert(f0[q]@ == id);
                                assert(holds_chars(f0, id));
                            }
                        }
                        if holds_chars(f0, id) {
                            let q = choose|q: int| 0 <= q < f0.len() && f0[q]@ == id;
                            assert(found@[q]@ == id);
                        }
                        if id == m[j as int]->Tool_tool_call_id {
                            assert(found@[f0.len() as int]@ == id);
                        }
                    };
                    assert forall|id: Seq<char>| #[trigger] holds_chars(found@, id) implies exists|k: int|
                        start <= k < j + 1 && covers(#[trigger] m[k], id) by {
                        if id == m[j as int]->Tool_tool_call_id {
                            assert(covers(m[j as int], id));
                        }
                    };
                }
            },
            WireMessage::Plain { role, .. } => {
                if !str_eq(role.as_str(), "tool") {
                    proof {
                        lemma_boundary_pinpoint(m, start as int, j as int);
                    }
                    return (found, j, true);
                }
            },
            _ => {
                proof {
                    lemma_boundary_pinpoint(m, start as int, j as int);
                }
                return (found, j, true);
            },
        }
        proof {
            assert(is_tool_role(m[j as int]));
            assert forall|id: Seq<char>|
                (exists|k: int| start <= k < j + 1 && covers(#[trigger] m[k], id)) implies
                #[trigger] holds_chars(found@, id) by {
                let k = choose|k: int| start <= k < j + 1 && covers(m[k], id);
                if k < j {
                    assert(holds_chars(f0, id));
                    if f0 =~= found@ {
                    } else {
                        let q = choose|q: int| 0 <= q < f0.len() && f0[q]@ == id;
                        assert(found@[q]@ == id);
                    }
                } else {
                    assert(covers(m[j as int], id));
                }
            };
        }
        j = j + 1;
    }
    proof {
        lemma_boundary_pinpoint(m, start as int, messages.len() as int);
    }
    (found, j, false)
}

/// The text a chat error carries.
pub open spec fn spec_chat_error_message(e: ChatErrorView) -> Seq<char> {
    match e {
        ChatErrorView::BadRequest { message } => message,
    }
}

/// Whether the validation error text names the `k`th call id of an assistant
/// message at index `i` that a later non-tool message leaves unanswered.
pub open spec fn names_missing_id(
    msgs: Seq<WireMessageView>,
    i: int,
    k: int,
    message: Seq<char>,
) -> bool {
    match tool_call_ids(msgs[i]) {
        Some(ids) => {
            &&& 1 <= i < msgs.len()
            &&& 0 <= k < ids.len()
            &&& boundary(msgs, i + 1) < msgs.len()
            &&& !covered(msgs, i, ids[k])
            &&& message == spec_missing_tool_message(ids[k])
        },
        None => false,
    }
}

/// What `validate_tool_calls_sequence` ensures: success exactly on a valid
/// wire, and a failure message that names an unanswered call id.
pub open spec fn validate_post(msgs: Seq<WireMessageView>, r: Result<(), ChatError>) -> bool {
    &&& (r is Ok <==> valid_wire(msgs))
    &&& (r matches Err(e) ==> exists|i: int, k: int|
        #[trigger] names_missing_id(msgs, i, k, spec_chat_error_message(e@)))
}

/// Checks that every assistant message carrying tool calls, other than a
/// trailing one, is answered by tool messages covering each of its call ids
/// before the next non-tool message.  Fails with a `BadRequest` that names
/// the first unanswered id.
#[verifier::loop_isolation(false)]
#[verifier::rlimit(50)]
pub fn validate_tool_calls_sequence(messages: &Vec<WireMessage>) -> (r: Result<(), ChatError>)
    ensures
        validate_post(messages.deep_view(), r),
{
    let ghost m = messages.deep_view();
    let mut i: usize = 1;
    while i < messages.len()
        invariant
            i >= 1,
            m == messages.deep_view(),
            forall|p: int| 1 <= p < i ==> assistant_ok(m, p),
        decreases messages.len() - i,
    {
        let expected: Option<Vec<String>> = match &messages[i] {
            WireMessage::Assistant { tool_calls, .. } => {
                if tool_calls.len() > 0 {
                    Some(collect_call_ids(tool_calls))
                } else {
                    None
                }
            },
            WireMessage::AssistantToolCalls { tool_calls, .. } => Some(collect_call_ids(tool_calls)),
            _ => None,
        };
        proof {
            assert(match tool_call_ids(m[i as int]) {
                Some(ids) => expected matches Some(v) && v.deep_view() == ids,
                None => expected is None,
            });
        }
        if let Some(ids) = expected {
            if ids.len() > 0 {
                let (found, _j0, saw_non_tool) = scan_tool_block(messages, i + 1);
                if saw_non_tool {
                    let mut k: usize = 0;
                    while k < ids.len()
                        invariant
                            k <= ids.len(),
                            m == messages.deep_view(),
                            1 <= i < messages.len(),
                            ids.deep_view() == tool_call_ids(m[i as int])->Some_0,
                            tool_call_ids(m[i as int]) is Some,
                            boundary(m, i as int + 1) < m.len(),
                            forall|q: int| 0 <= q < k ==> covered(m, i as int, #[trigger] ids.deep_view()[q]),
                        decreases ids.len() - k,
                    {
                        if !vec_contains_string(&found, ids[k].as_str()) {
                            let msg = missing_tool_message(ids[k].as_str());
                            let err = ChatError::BadRequest { message: msg };
                            proof {
                                let idv = ids.deep_view()[k as int];
                                assert(!holds_chars(found@, idv));
                                assert(!covered(m, i as int, idv));
                                assert(!assistant_ok(m, i as int));
                                assert(!valid_wire(m));
                                assert(names_missing_id(
                                    messages.deep_view(),
                                    i as int,
                                    k as int,
                                    spec_chat_error_message(err@),
                                ));
                                assert(exists|i2: int, k2: int|
                                    #[trigger] names_missing_id(
                                        messages.deep_view(),
                                        i2,
                                        k2,
                                        spec_chat_error_message(err@),
                                    ));
                                let r2: Result<(), ChatError> = Err(err);
                                assert(!(r2 is Ok));
                                assert(!valid_wire(messages.deep_view()));
                                assert(r2 matches Err(e2) && e2 == err);
                                assert(r2 matches Err(e2) ==> exists|i2: int, k2: int|
                                    #[trigger] names_missing_id(
                                        messages.deep_view(),
                                        i2,
                                        k2,
                                        spec_chat_error_message(e2@),
                                    ));
                                assert(validate_post(messages.deep_view(), r2));
                            }
                            return Err(err);
                        }
                        proof {
                            let idv = ids.deep_view()[k as int];
                            assert(holds_chars(found@, idv));
                            assert(covered(m, i as int, idv));
                        }
                        k = k + 1;
                    }
                }
            }
        }
        proof {
            assert(assistant_ok(m, i as int));
        }
        i = i + 1;
    }
    proof {
        assert(validate_post(messages.deep_view(), Ok(())));
    }
    Ok(())
}

/// What the grouping rule does to the open group's accumulated
/// `reasoning_content` when another call joins it.
pub open spec fn join_reasoning(rc: Seq<char>, reasoning: Option<Seq<char>>) -> Seq<char> {
    match reasoning {
        None => rc,
        Some(r) => if rc.len() > 0 {
            rc + "\n"@ + r
        } else {
            r
        },
    }
}

/// The grouping rule: a tool call appended to a message list.  When the last
/// message is the open assistant-with-tool-calls group the call joins its
/// array; otherwise a fresh group with `content: null` is opened.
pub open spec fn spec_push_tool_call(
    msgs: Seq<WireMessageView>,
    call: ToolCallEntryView,
    reasoning: Option<Seq<char>>,
) -> Seq<WireMessageView> {
    if msgs.len() > 0 && (msgs.last() matches WireMessageView::AssistantToolCalls { .. }) {
        match msgs.last() {
            WireMessageView::AssistantToolCalls { tool_calls, reasoning_content } => msgs.update(
                msgs.len() - 1,
                WireMessageView::AssistantToolCalls {
                    tool_calls: tool_calls.push(call),
                    reasoning_content: join_reasoning(reasoning_content, reasoning),
                },
            ),
            _ => msgs,
        }
    } else {
        msgs.push(
            WireMessageView::AssistantToolCalls {
                tool_calls: seq![call],
                reasoning_content: match reasoning {
                    Some(r) => r,
                    None => Seq::empty(),
                },
            },
        )
    }
}

fn new_tool_call_group(tool_call: ToolCallEntry, reasoning: Option<&str>) -> (r: WireMessage)
    ensures
        r@ == (WireMessageView::AssistantToolCalls {
            tool_calls: seq![tool_call@],
            reasoning_content: match reasoning.deep_view() {
                Some(s) => s,
                None => Seq::empty(),
            },
        }),
{
    let reasoning_content: String = match reasoning {
        Some(r) => r.to_owned(),
        None => String::new(),
    };
    let mut tool_calls: Vec<ToolCallEntry> = Vec::new();
    tool_calls.push(tool_call);
    proof {
        assert(tool_calls.deep_view() =~= seq![tool_calls@[0]@]);
    }
    WireMessage::AssistantToolCalls { tool_calls, reasoning_content }
}

/// Appends a tool call to the messages under the grouping rule, joining the
/// open group when the last message is one, opening a group otherwise.
pub fn push_tool_call_message(
    messages: &mut Vec<WireMessage>,
    tool_call: ToolCallEntry,
    reasoning: Option<&str>,
)
    ensures
        final(messages).deep_view() == spec_push_tool_call(
            old(messages).deep_view(),
            tool_call@,
            reasoning.deep_view(),
        ),
{
    let ghost m0 = messages.deep_view();
    match messages.pop() {
        None => {
            messages.push(new_tool_call_group(tool_call, reasoning));
            proof {
                assert(messages.deep_view() =~= spec_push_tool_call(
                    m0,
                    tool_call@,
                    reasoning.deep_view(),
                ));
            }
        },
        Some(WireMessage::AssistantToolCalls { mut tool_calls, mut reasoning_content }) => {
            let ghost tc0 = tool_calls.deep_view();
            let ghost rc0 = reasoning_content@;
            tool_calls.push(tool_call);
            match reasoning {
                Some(r) => {
                    if reasoning_content.as_str().is_empty() {
                        reasoning_content = r.to_owned();
                    } else {
                        reasoning_content.append("\n");
                        reasoning_content.append(r);
                    }
                },
                None => {},
            }
            messages.push(WireMessage::AssistantToolCalls { tool_calls, reasoning_content });
            proof {
                assert(tool_calls.deep_view() =~= tc0.push(tool_call@));
                assert(reasoning_content@ =~= join_reasoning(rc0, reasoning.deep_view()));
                assert(messages.deep_view() =~= spec_push_tool_call(
                    m0,
                    tool_call@,
                    reasoning.deep_view(),
                ));
            }
        },
        Some(other) => {
            messages.push(other);
            messages.push(new_tool_call_group(tool_call, reasoning));
            proof {
                assert(messages.deep_view() =~= spec_push_tool_call(
                    m0,
                    tool_call@,
                    reasoning.deep_view(),
                ));
            }
        },
    }
}

} // verus!
