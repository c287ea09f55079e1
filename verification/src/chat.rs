//! The wire assembler: from a conversation history to the streaming chat
//! request a Chat-Completions-style endpoint expects.
//!
//! The assembly is modeled by one step function over an emission state
//! (`emit_step`) folded over the history (`emit_upto`), so that the builder's
//! contract pins the whole `messages` array down: the leading system message,
//! the `developer` to `user` rewrite, reasoning anchoring, tool-call grouping,
//! duplicate-assistant suppression, eviction of unanswered tool-call groups,
//! and the final pairing validation.

use vstd::prelude::*;
use vstd::string::StrSliceExecFns;
use vstd::string::StringExecFns;
use crate::items::ContentItem;
use crate::items::ContentItemView;
use crate::items::FunctionCallOutputContentItem;
use crate::items::FunctionCallOutputContentItemView;
use crate::items::FunctionCallOutputPayload;
use crate::items::FunctionCallOutputPayloadView;
use crate::items::ReasoningItemContent;
use crate::items::ReasoningItemContentView;
use crate::items::ResponseItem;
use crate::items::ResponseItemView;
use crate::items::SessionSource;
use crate::items::ToolCallEntry;
use crate::items::ToolCallEntryView;
use crate::items::clone_tool_call_entries;
use crate::items::reasoning_entry_text;
use crate::items::spec_subagent_header;
use crate::items::str_eq;
use crate::items::subagent_header;
use crate::items::vec_contains_string;
use crate::wire::ChatError;
use crate::wire::ContentPart;
use crate::wire::ContentPartView;
use crate::wire::WireContent;
use crate::wire::WireContentView;
use crate::wire::WireMessage;
use crate::wire::WireMessageView;
use crate::wire::holds_chars;
use crate::wire::push_tool_call_message;
use crate::wire::spec_push_tool_call;
use crate::wire::validate_tool_calls_sequence;
use crate::wire::is_tool_role;
use crate::wire::role_of;
use crate::wire::valid_wire;
use crate::wire::names_missing_id;
use crate::wire::spec_chat_error_message;

verus! {

broadcast use vstd::string::group_string_axioms;

/// Relies on serde_json's `Value` type: an opaque JSON value the caller's
/// tool specifications are carried through in, untouched.
#[verifier::external_type_specification]
#[verifier::external_body]
pub struct ExValue(serde_json::Value);

/// The views of the items of a borrowed history.
pub open spec fn items_view(s: Seq<ResponseItem>) -> Seq<ResponseItemView> {
    s.map_values(|it: ResponseItem| it@)
}

// ---------------------------------------------------------------------------
// Text of message and reasoning content
// ---------------------------------------------------------------------------

/// The concatenated text of a message's content, images contributing nothing.
pub open spec fn message_text(content: Seq<ContentItemView>) -> Seq<char>
    decreases content.len(),
{
    if content.len() == 0 {
        Seq::empty()
    } else {
        message_text(content.drop_last()) + (match content.last() {
            ContentItemView::InputText { text } => text,
            ContentItemView::OutputText { text } => text,
            ContentItemView::InputImage { .. } => Seq::empty(),
        })
    }
}

/// Whether any content item is an image.
pub open spec fn has_image(content: Seq<ContentItemView>) -> bool {
    exists|i: int| 0 <= i < content.len() && content[i] is InputImage
}

/// One content item as a typed wire part.
pub open spec fn part_view(c: ContentItemView) -> ContentPartView {
    match c {
        ContentItemView::InputText { text } => ContentPartView::Text { text },
        ContentItemView::OutputText { text } => ContentPartView::Text { text },
        ContentItemView::InputImage { image_url } => ContentPartView::ImageUrl { url: image_url },
    }
}

/// A message's content as the list of typed wire parts, in order.
pub open spec fn parts_of(content: Seq<ContentItemView>) -> Seq<ContentPartView> {
    content.map_values(|c: ContentItemView| part_view(c))
}

/// One tool-output content item as a typed wire part.
pub open spec fn fco_part_view(c: FunctionCallOutputContentItemView) -> ContentPartView {
    match c {
        FunctionCallOutputContentItemView::InputText { text } => ContentPartView::Text { text },
        FunctionCallOutputContentItemView::InputImage { image_url } => ContentPartView::ImageUrl {
            url: image_url,
        },
    }
}

/// The wire content of a function call's output: the typed parts when the
/// payload carries them, its plain text otherwise.
pub open spec fn output_content_view(output: FunctionCallOutputPayloadView) -> WireContentView {
    match output.content_items {
        Some(items) => WireContentView::Parts(
            items.map_values(|c: FunctionCallOutputContentItemView| fco_part_view(c)),
        ),
        None => WireContentView::Text(output.content),
    }
}

/// The concatenated text of a reasoning item's content entries.
pub open spec fn concat_reasoning(entries: Seq<ReasoningItemContentView>) -> Seq<char>
    decreases entries.len(),
{
    if entries.len() == 0 {
        Seq::empty()
    } else {
        concat_reasoning(entries.drop_last()) + reasoning_entry_text(entries.last())
    }
}

/// An ASCII whitespace character.
pub open spec fn is_space_char(c: char) -> bool {
    c == ' ' || c == '\t' || c == '\n' || c == '\r' || c == '\u{b}' || c == '\u{c}'
}

/// Whether the text holds nothing but ASCII whitespace.
pub open spec fn is_blank(s: Seq<char>) -> bool {
    forall|i: int| 0 <= i < s.len() ==> is_space_char(#[trigger] s[i])
}

/// The accumulated reasoning text of a reasoning item, when it carries one.
pub open spec fn reasoning_of(it: ResponseItemView) -> Option<Seq<char>> {
    match it {
        ResponseItemView::Reasoning { content: Some(c) } => Some(concat_reasoning(c)),
        _ => None,
    }
}

// ---------------------------------------------------------------------------
// Reasoning anchoring
// ---------------------------------------------------------------------------

pub proof fn lemma_distinct_roles()
    ensures
        "system"@ != "developer"@,
        "user"@ != "developer"@,
        "assistant"@ != "developer"@,
        "tool"@ != "developer"@,
        "assistant"@ != "user"@,
        "tool"@ != "user"@,
        "system"@ != "user"@,
        "assistant"@ != "tool"@,
        "system"@ != "tool"@,
        "system"@ != "assistant"@,
{
    reveal_strlit("system");
    reveal_strlit("developer");
    reveal_strlit("user");
    reveal_strlit("assistant");
    reveal_strlit("tool");
    assert("system"@.len() == 6);
    assert("developer"@.len() == 9);
    assert("user"@.len() == 4);
    assert("assistant"@.len() == 9);
    assert("tool"@.len() == 4);
    assert("assistant"@[0] != "developer"@[0]);
    assert("tool"@[0] != "user"@[0]);
}

/// Whether the item is an assistant message.
pub open spec fn is_assistant_message(it: ResponseItemView) -> bool {
    match it {
        ResponseItemView::Message { role, .. } => role == "assistant"@,
        _ => false,
    }
}

/// Whether the item is a user message, under its raw role.
pub open spec fn is_user_message(it: ResponseItemView) -> bool {
    match it {
        ResponseItemView::Message { role, .. } => role == "user"@,
        _ => false,
    }
}

/// Whether a reasoning item may anchor forward to this item.
pub open spec fn is_call_anchor(it: ResponseItemView) -> bool {
    ||| it is FunctionCall
    ||| it is LocalShellCall
    ||| is_assistant_message(it)
}

/// The role the wire would last have emitted for the items before `n`:
/// messages carry their own role, tool calls emit as `assistant`, function
/// outputs as `tool`, and everything else is looked past.
pub open spec fn role_emitted(it: ResponseItemView) -> Option<Seq<char>> {
    match it {
        ResponseItemView::Message { role, .. } => Some(role),
        ResponseItemView::FunctionCall { .. } => Some("assistant"@),
        ResponseItemView::LocalShellCall { .. } => Some("assistant"@),
        ResponseItemView::FunctionCallOutput { .. } => Some("tool"@),
        _ => None,
    }
}

/// The last emitted role among the first `n` items.
pub open spec fn last_emitted_role_upto(items: Seq<ResponseItemView>, n: int) -> Option<Seq<char>>
    decreases n,
    when 0 <= n <= items.len()
{
    if n <= 0 {
        None
    } else {
        match role_emitted(items[n - 1]) {
            Some(r) => Some(r),
            None => last_emitted_role_upto(items, n - 1),
        }
    }
}

/// The index of the last user message among the first `n` items.
pub open spec fn last_user_index_upto(items: Seq<ResponseItemView>, n: int) -> Option<int>
    decreases n,
    when 0 <= n <= items.len()
{
    if n <= 0 {
        None
    } else if is_user_message(items[n - 1]) {
        Some(n - 1)
    } else {
        last_user_index_upto(items, n - 1)
    }
}

/// Whether reasoning anchoring applies at all: it is off when the last
/// emitted role is `user`.
pub open spec fn anchors_enabled(items: Seq<ResponseItemView>) -> bool {
    !(last_emitted_role_upto(items, items.len() as int) matches Some(r) && r == "user"@)
}

/// The index the reasoning item at `j` anchors to: the immediately preceding
/// assistant message, or failing that the immediately following tool call or
/// assistant message.
pub open spec fn anchor_target(items: Seq<ResponseItemView>, j: int) -> Option<int> {
    if 0 < j && is_assistant_message(items[j - 1]) {
        Some(j - 1)
    } else if j + 1 < items.len() && is_call_anchor(items[j + 1]) {
        Some(j + 1)
    } else {
        None
    }
}

/// Whether the item at `j` contributes reasoning text anchored to index `i`:
/// it is a reasoning item after the last user message, its text is not
/// blank, and its anchor target is `i`.
pub open spec fn contributes(items: Seq<ResponseItemView>, j: int, i: int) -> bool {
    &&& 0 <= j < items.len()
    &&& (match last_user_index_upto(items, items.len() as int) {
        Some(u) => j > u,
        None => true,
    })
    &&& (match reasoning_of(items[j]) {
        Some(t) => !is_blank(t),
        None => false,
    })
    &&& anchor_target(items, j) == Some(i)
}

/// The reasoning text anchored to index `i` by the items before `n`,
/// concatenated in history order.
pub open spec fn anchor_at_upto(items: Seq<ResponseItemView>, i: int, n: int) -> Seq<char>
    decreases n,
    when 0 <= n <= items.len()
{
    if n <= 0 {
        Seq::empty()
    } else {
        anchor_at_upto(items, i, n - 1) + (if contributes(items, n - 1, i) {
            reasoning_of(items[n - 1])->Some_0
        } else {
            Seq::empty()
        })
    }
}

/// Whether any of the first `n` items anchors reasoning to index `i`.
pub open spec fn has_anchor_upto(items: Seq<ResponseItemView>, i: int, n: int) -> bool {
    exists|j: int| 0 <= j < n && contributes(items, j, i)
}

/// The reasoning anchored to index `i`, when anchoring is enabled and some
/// item anchors there.
pub open spec fn anchor_opt(items: Seq<ResponseItemView>, i: int) -> Option<Seq<char>> {
    if anchors_enabled(items) && has_anchor_upto(items, i, items.len() as int) {
        Some(anchor_at_upto(items, i, items.len() as int))
    } else {
        None
    }
}

/// The anchored reasoning of every history index.
pub open spec fn anchors_view(items: Seq<ResponseItemView>) -> Seq<Option<Seq<char>>> {
    Seq::new(items.len(), |i: int| anchor_opt(items, i))
}

// ---------------------------------------------------------------------------
// The emission state and its step function
// ---------------------------------------------------------------------------

/// The set of the character views of a vector of id strings.
pub open spec fn strings_set(p: Seq<String>) -> Set<Seq<char>> {
    Set::new(|id: Seq<char>| holds_chars(p, id))
}

/// Whether the set holds any id.
pub open spec fn set_nonempty(s: Set<Seq<char>>) -> bool {
    exists|id: Seq<char>| s.contains(id)
}

/// The assembler's walking state, mathematically.
#[verifier::ext_equal]
pub struct EmitStateView {
    /// The messages emitted so far.
    pub messages: Seq<WireMessageView>,
    /// The text of the last emitted assistant message, for suppression.
    pub last_assistant_text: Option<Seq<char>>,
    /// The call ids of tool calls whose outputs have not appeared yet.
    pub pending: Set<Seq<char>>,
    /// The index of the open assistant-with-tool-calls group, when one is
    /// pending.
    pub open_group: Option<int>,
}

/// The assembler's walking state.
pub struct EmitState {
    pub messages: Vec<WireMessage>,
    pub last_assistant_text: Option<String>,
    pub pending: Vec<String>,
    pub open_group: Option<usize>,
}

impl View for EmitState {
    type V = EmitStateView;

    open spec fn view(&self) -> EmitStateView {
        EmitStateView {
            messages: self.messages.deep_view(),
            last_assistant_text: self.last_assistant_text.deep_view(),
            pending: strings_set(self.pending@),
            open_group: match self.open_group {
                Some(g) => Some(g as int),
                None => None,
            },
        }
    }
}

/// No two pending entries hold the same id.
pub open spec fn nodup_ids(p: Seq<String>) -> bool {
    forall|i: int, j: int| 0 <= i < j < p.len() ==> #[trigger] p[i]@ != #[trigger] p[j]@
}

/// What the executable state maintains beyond its view: pending ids are not
/// duplicated, and the open-group index is in range.
pub open spec fn wf_emit(st: EmitState) -> bool {
    &&& nodup_ids(st.pending@)
    &&& (match st.open_group {
        Some(g) => (g as int) < st.messages@.len(),
        None => true,
    })
}

/// Strips the open assistant-with-tool-calls group when a user message
/// arrives while calls are still unanswered: the group is an incomplete
/// fragment of a prior, aborted turn.  An assistant message does not evict;
/// an unanswered group before one is a validation error instead.
pub open spec fn evict_if_open(st: EmitStateView, role1: Seq<char>) -> EmitStateView {
    match st.open_group {
        Some(g) => if role1 == "user"@ && set_nonempty(st.pending) {
            EmitStateView {
                messages: st.messages.remove(g),
                last_assistant_text: st.last_assistant_text,
                pending: Set::empty(),
                open_group: None,
            }
        } else {
            st
        },
        None => st,
    }
}

/// A tool call emitted under the grouping rule: its id becomes pending and
/// the group it landed in becomes the open group.
pub open spec fn push_call_step(
    st: EmitStateView,
    entry: ToolCallEntryView,
    tracked_id: Seq<char>,
    anchor: Option<Seq<char>>,
) -> EmitStateView {
    let msgs = spec_push_tool_call(st.messages, entry, anchor);
    EmitStateView {
        messages: msgs,
        last_assistant_text: st.last_assistant_text,
        pending: st.pending.insert(tracked_id),
        open_group: Some(msgs.len() - 1),
    }
}

/// A tool output emitted as a tool message: its call id stops being pending,
/// and the open group closes when nothing is pending any more.
pub open spec fn output_step(
    st: EmitStateView,
    call_id: Seq<char>,
    content: WireContentView,
) -> EmitStateView {
    let pending1 = st.pending.remove(call_id);
    EmitStateView {
        messages: st.messages.push(WireMessageView::Tool { tool_call_id: call_id, content }),
        last_assistant_text: st.last_assistant_text,
        pending: pending1,
        open_group: if set_nonempty(pending1) {
            st.open_group
        } else {
            None
        },
    }
}

/// One step of the assembler's walk: what one history item does to the
/// emission state.
///
/// A `developer` message is rewritten to `user`.  A tool message without an
/// id is skipped.  An assistant message repeating the last assistant text is
/// suppressed.  A user or assistant message evicts an unanswered tool-call
/// group.  Tool calls run through the grouping rule; reasoning and the other
/// inert items emit nothing.
pub open spec fn emit_step(
    st: EmitStateView,
    item: ResponseItemView,
    anchor: Option<Seq<char>>,
    builder_rc: Option<Seq<char>>,
) -> EmitStateView {
    match item {
        ResponseItemView::Message { id, role, content, reasoning_content: _, tool_calls } => {
            let role1 = if role == "developer"@ {
                "user"@
            } else {
                role
            };
            let text = message_text(content);
            if role1 == "tool"@ {
                match id {
                    Some(call_id) => EmitStateView {
                        messages: st.messages.push(
                            WireMessageView::Tool {
                                tool_call_id: call_id,
                                content: WireContentView::Text(text),
                            },
                        ),
                        last_assistant_text: st.last_assistant_text,
                        pending: st.pending,
                        open_group: st.open_group,
                    },
                    None => st,
                }
            } else {
                let st1 = evict_if_open(st, role1);
                if role1 == "assistant"@ {
                    if st1.last_assistant_text == Some(text) {
                        st1
                    } else {
                        EmitStateView {
                            messages: st1.messages.push(
                                WireMessageView::Assistant {
                                    content: text,
                                    reasoning_content: match builder_rc {
                                        Some(rc) => rc,
                                        None => Seq::empty(),
                                    },
                                    reasoning: anchor,
                                    tool_calls: match tool_calls {
                                        Some(tc) => tc,
                                        None => Seq::empty(),
                                    },
                                },
                            ),
                            last_assistant_text: Some(text),
                            pending: st1.pending,
                            open_group: st1.open_group,
                        }
                    }
                } else {
                    EmitStateView {
                        messages: st1.messages.push(
                            WireMessageView::Plain {
                                role: role1,
                                content: if has_image(content) {
                                    WireContentView::Parts(parts_of(content))
                                } else {
                                    WireContentView::Text(text)
                                },
                            },
                        ),
                        last_assistant_text: st1.last_assistant_text,
                        pending: st1.pending,
                        open_group: st1.open_group,
                    }
                }
            }
        },
        ResponseItemView::FunctionCall { id: _, name, arguments, call_id } => push_call_step(
            st,
            ToolCallEntryView::Function { id: call_id, name, arguments },
            call_id,
            anchor,
        ),
        ResponseItemView::LocalShellCall { id, call_id: _, status, action } => {
            let cid = match id {
                Some(s) => s,
                None => Seq::empty(),
            };
            push_call_step(
                st,
                ToolCallEntryView::LocalShell { id: cid, status, action },
                cid,
                anchor,
            )
        },
        ResponseItemView::CustomToolCall { id, call_id, name, input, status: _ } => {
            let wire_id = match id {
                Some(s) => s,
                None => call_id,
            };
            push_call_step(
                st,
                ToolCallEntryView::Custom { id: wire_id, name, input },
                call_id,
                anchor,
            )
        },
        ResponseItemView::FunctionCallOutput { call_id, output } => output_step(
            st,
            call_id,
            output_content_view(output),
        ),
        ResponseItemView::CustomToolCallOutput { call_id, output } => output_step(
            st,
            call_id,
            WireContentView::Text(output),
        ),
        _ => st,
    }
}

/// The walk's state after the first `n` items.
pub open spec fn emit_upto(
    init: EmitStateView,
    items: Seq<ResponseItemView>,
    anchors: Seq<Option<Seq<char>>>,
    rc: Option<Seq<char>>,
    n: int,
) -> EmitStateView
    decreases n,
    when 0 <= n <= items.len() && anchors.len() == items.len()
{
    if n <= 0 {
        init
    } else {
        emit_step(emit_upto(init, items, anchors, rc, n - 1), items[n - 1], anchors[n - 1], rc)
    }
}

/// The state the walk starts from: the instructions as the system message.
pub open spec fn init_state(instructions: Seq<char>) -> EmitStateView {
    EmitStateView {
        messages: seq![
            WireMessageView::Plain {
                role: "system"@,
                content: WireContentView::Text(instructions),
            },
        ],
        last_assistant_text: None,
        pending: Set::empty(),
        open_group: None,
    }
}

/// The full assembled `messages` array of a history.
pub open spec fn assembled_messages(
    instructions: Seq<char>,
    items: Seq<ResponseItemView>,
    rc: Option<Seq<char>>,
) -> Seq<WireMessageView> {
    emit_upto(init_state(instructions), items, anchors_view(items), rc, items.len() as int).messages
}

/// Whether any assembled message travels under the `tool` role.
pub open spec fn has_tool_message(msgs: Seq<WireMessageView>) -> bool {
    exists|q: int| 0 <= q < msgs.len() && is_tool_role(#[trigger] msgs[q])
}

// ---------------------------------------------------------------------------
// Executable helpers over content
// ---------------------------------------------------------------------------

fn message_text_exec(content: &Vec<ContentItem>) -> (r: String)
    ensures
        r@ == message_text(content.deep_view()),
{
    let ghost cv = content.deep_view();
    let mut acc: String = String::new();
    let mut i: usize = 0;
    while i < content.len()
        invariant
            i <= content.len(),
            cv == content.deep_view(),
            acc@ == message_text(cv.take(i as int)),
        decreases content.len() - i,
    {
        match &content[i] {
            ContentItem::InputText { text } => acc.append(text.as_str()),
            ContentItem::OutputText { text } => acc.append(text.as_str()),
            ContentItem::InputImage { .. } => {},
        }
        proof {
            assert(cv.take(i + 1).drop_last() =~= cv.take(i as int));
            assert(cv.take(i + 1).last() == cv[i as int]);
        }
        i = i + 1;
    }
    proof {
        assert(cv.take(cv.len() as int) =~= cv);
    }
    acc
}

fn has_image_exec(content: &Vec<ContentItem>) -> (r: bool)
    ensures
        r == has_image(content.deep_view()),
{
    let ghost cv = content.deep_view();
    let mut i: usize = 0;
    while i < content.len()
        invariant
            i <= content.len(),
            cv == content.deep_view(),
            forall|j: int| 0 <= j < i ==> !(#[trigger] cv[j] is InputImage),
        decreases content.len() - i,
    {
        if let ContentItem::InputImage { .. } = &content[i] {
            proof {
                assert(cv[i as int] is InputImage);
            }
            return true;
        }
        i = i + 1;
    }
    false
}

fn parts_exec(content: &Vec<ContentItem>) -> (r: Vec<ContentPart>)
    ensures
        r.deep_view() == parts_of(content.deep_view()),
{
    let ghost cv = content.deep_view();
    let mut out: Vec<ContentPart> = Vec::new();
    let mut i: usize = 0;
    while i < content.len()
        invariant
            i <= content.len(),
            cv == content.deep_view(),
            out.len() == i,
            forall|j: int| 0 <= j < i ==> out.deep_view()[j] == part_view(#[trigger] cv[j]),
        decreases content.len() - i,
    {
        let part = match &content[i] {
            ContentItem::InputText { text } => ContentPart::Text { text: text.clone() },
            ContentItem::OutputText { text } => ContentPart::Text { text: text.clone() },
            ContentItem::InputImage { image_url } => ContentPart::ImageUrl {
                url: image_url.clone(),
            },
        };
        out.push(part);
        i = i + 1;
    }
    proof {
        assert(out.deep_view() =~= parts_of(cv));
    }
    out
}

fn output_content_exec(output: &FunctionCallOutputPayload) -> (r: WireContent)
    ensures
        r@ == output_content_view(output@),
{
    match &output.content_items {
        Some(items) => {
            let ghost iv = items.deep_view();
            let mut out: Vec<ContentPart> = Vec::new();
            let mut i: usize = 0;
            while i < items.len()
                invariant
                    i <= items.len(),
                    iv == items.deep_view(),
                    out.len() == i,
                    forall|j: int| 0 <= j < i ==> out.deep_view()[j] == fco_part_view(
                        #[trigger] iv[j],
                    ),
                decreases items.len() - i,
            {
                let part = match &items[i] {
                    FunctionCallOutputContentItem::InputText { text } => ContentPart::Text {
                        text: text.clone(),
                    },
                    FunctionCallOutputContentItem::InputImage { image_url } => {
                        ContentPart::ImageUrl { url: image_url.clone() }
                    },
                };
                out.push(part);
                i = i + 1;
            }
            proof {
                assert(out.deep_view() =~= iv.map_values(
                    |c: FunctionCallOutputContentItemView| fco_part_view(c),
                ));
            }
            WireContent::Parts(out)
        },
        None => WireContent::Text(output.content.clone()),
    }
}

fn reasoning_text_exec(entries: &Vec<ReasoningItemContent>) -> (r: String)
    ensures
        r@ == concat_reasoning(entries.deep_view()),
{
    let ghost ev = entries.deep_view();
    let mut acc: String = String::new();
    let mut i: usize = 0;
    while i < entries.len()
        invariant
            i <= entries.len(),
            ev == entries.deep_view(),
            acc@ == concat_reasoning(ev.take(i as int)),
        decreases entries.len() - i,
    {
        match &entries[i] {
            ReasoningItemContent::ReasoningText { text } => acc.append(text.as_str()),
            ReasoningItemContent::Text { text } => acc.append(text.as_str()),
        }
        proof {
            assert(ev.take(i + 1).drop_last() =~= ev.take(i as int));
            assert(ev.take(i + 1).last() == ev[i as int]);
        }
        i = i + 1;
    }
    proof {
        assert(ev.take(ev.len() as int) =~= ev);
    }
    acc
}

fn is_space_exec(c: char) -> (r: bool)
    ensures
        r == is_space_char(c),
{
    c == ' ' || c == '\t' || c == '\n' || c == '\r' || c == '\u{b}' || c == '\u{c}'
}

fn is_blank_str(s: &str) -> (r: bool)
    ensures
        r == is_blank(s@),
{
    let n = s.unicode_len();
    let mut i: usize = 0;
    while i < n
        invariant
            i <= n,
            n == s@.len(),
            forall|j: int| 0 <= j < i ==> is_space_char(#[trigger] s@[j]),
        decreases n - i,
    {
        if !is_space_exec(s.get_char(i)) {
            return false;
        }
        i = i + 1;
    }
    true
}

// ---------------------------------------------------------------------------
// The pending-id set
// ---------------------------------------------------------------------------

proof fn lemma_strings_set_nonempty(p: Seq<String>)
    ensures
        set_nonempty(strings_set(p)) <==> p.len() > 0,
{
    if p.len() > 0 {
        assert(holds_chars(p, p[0]@));
        assert(strings_set(p).contains(p[0]@));
    }
    if set_nonempty(strings_set(p)) {
        let id = choose|id: Seq<char>| strings_set(p).contains(id);
        assert(holds_chars(p, id));
    }
}

fn pending_insert(pending: &mut Vec<String>, id: String)
    requires
        nodup_ids(old(pending)@),
    ensures
        nodup_ids(final(pending)@),
        strings_set(final(pending)@) == strings_set(old(pending)@).insert(id@),
{
    let ghost p0 = pending@;
    let ghost idv = id@;
    if !vec_contains_string(pending, id.as_str()) {
        pending.push(id);
        proof {
            assert forall|x: Seq<char>| #[trigger] holds_chars(pending@, x) implies (holds_chars(
                p0,
                x,
            ) || x == idv) by {
                let q = choose|q: int| 0 <= q < pending@.len() && pending@[q]@ == x;
                if q < p0.len() {
                    assert(p0[q]@ == x);
                }
            }
            assert forall|x: Seq<char>| holds_chars(p0, x) || x == idv implies #[trigger] holds_chars(
                pending@,
                x,
            ) by {
                if holds_chars(p0, x) {
                    let q = choose|q: int| 0 <= q < p0.len() && p0[q]@ == x;
                    assert(pending@[q]@ == x);
                } else {
                    assert(pending@[p0.len() as int]@ == x);
                }
            }
            assert(strings_set(pending@) =~= strings_set(p0).insert(idv));
        }
    } else {
        proof {
            assert(holds_chars(p0, idv));
            assert(strings_set(pending@) =~= strings_set(p0).insert(idv));
        }
    }
}

#[verifier::loop_isolation(false)]
fn pending_remove(pending: &mut Vec<String>, id: &str)
    requires
        nodup_ids(old(pending)@),
    ensures
        nodup_ids(final(pending)@),
        strings_set(final(pending)@) == strings_set(old(pending)@).remove(id@),
        final(pending)@.len() == 0 <==> !set_nonempty(strings_set(final(pending)@)),
{
    let ghost p0 = pending@;
    let mut q: usize = 0;
    while q < pending.len()
        invariant
            q <= pending.len(),
            p0 == pending@,
            forall|l: int| 0 <= l < q ==> p0[l]@ != id@,
        decreases pending.len() - q,
    {
        if str_eq(pending[q].as_str(), id) {
            pending.remove(q);
            proof {
                assert forall|x: Seq<char>| #[trigger] holds_chars(pending@, x) implies (
                holds_chars(p0, x) && x != id@) by {
                    let l = choose|l: int| 0 <= l < pending@.len() && pending@[l]@ == x;
                    if l < q {
                        assert(p0[l]@ == x);
                        assert(p0[l]@ != p0[q as int]@);
                    } else {
                        assert(pending@[l] == p0[l + 1]);
                        assert(p0[l + 1]@ == x);
                        assert(p0[l + 1]@ != p0[q as int]@);
                    }
                }
                assert forall|x: Seq<char>| holds_chars(p0, x) && x != id@ implies #[trigger]
                holds_chars(pending@, x) by {
                    let l = choose|l: int| 0 <= l < p0.len() && p0[l]@ == x;
                    if l < q {
                        assert(pending@[l]@ == x);
                    } else {
                        assert(l != q);
                        assert(pending@[l - 1] == p0[l]);
                        assert(pending@[l - 1]@ == x);
                    }
                }
                assert(strings_set(pending@) =~= strings_set(p0).remove(id@));
                assert forall|i2: int, j2: int| 0 <= i2 < j2 < pending@.len() implies #[trigger]
                pending@[i2]@ != #[trigger] pending@[j2]@ by {
                    let oi = if i2 < q { i2 } else { i2 + 1 };
                    let oj = if j2 < q { j2 } else { j2 + 1 };
                    assert(pending@[i2] == p0[oi]);
                    assert(pending@[j2] == p0[oj]);
                }
                lemma_strings_set_nonempty(pending@);
            }
            return ;
        }
        q = q + 1;
    }
    proof {
        assert(!holds_chars(p0, id@));
        assert(strings_set(pending@) =~= strings_set(p0).remove(id@));
        lemma_strings_set_nonempty(pending@);
    }
}

// ---------------------------------------------------------------------------
// The executable emission step
// ---------------------------------------------------------------------------

fn push_call_exec(st: &mut EmitState, entry: ToolCallEntry, tracked_id: String, anchor: Option<&String>)
    requires
        wf_emit(*old(st)),
    ensures
        wf_emit(*final(st)),
        final(st)@ == push_call_step(old(st)@, entry@, tracked_id@, anchor.deep_view()),
{
    let ghost st0 = st@;
    match anchor {
        Some(a) => push_tool_call_message(&mut st.messages, entry, Some(a.as_str())),
        None => push_tool_call_message(&mut st.messages, entry, None),
    }
    pending_insert(&mut st.pending, tracked_id);
    proof {
        assert(st.messages.deep_view().len() >= 1);
    }
    st.open_group = Some(st.messages.len() - 1);
}

fn output_exec(st: &mut EmitState, call_id: &String, content: WireContent)
    requires
        wf_emit(*old(st)),
    ensures
        wf_emit(*final(st)),
        final(st)@ == output_step(old(st)@, call_id@, content@),
{
    pending_remove(&mut st.pending, call_id.as_str());
    if st.pending.len() == 0 {
        st.open_group = None;
    }
    st.messages.push(WireMessage::Tool { tool_call_id: call_id.clone(), content });
    proof {
        assert(st.messages.deep_view() =~= old(st).messages.deep_view().push(
            WireMessageView::Tool { tool_call_id: call_id@, content: content@ },
        ));
    }
}

/// One step of the assembler's walk, executably: what `emit_step` says.
fn emit_item(
    st: &mut EmitState,
    item: &ResponseItem,
    anchor: Option<&String>,
    builder_rc: &Option<String>,
)
    requires
        wf_emit(*old(st)),
    ensures
        wf_emit(*final(st)),
        final(st)@ == emit_step(old(st)@, item@, anchor.deep_view(), builder_rc.deep_view()),
{
    match item {
        ResponseItem::Message { id, role, content, reasoning_content: _, tool_calls } => {
            let is_dev = str_eq(role.as_str(), "developer");
            let role1: String = if is_dev {
                String::from_str("user")
            } else {
                role.clone()
            };
            let text = message_text_exec(content);
            if str_eq(role1.as_str(), "tool") {
                match id {
                    Some(call_id) => {
                        st.messages.push(
                            WireMessage::Tool {
                                tool_call_id: call_id.clone(),
                                content: WireContent::Text(text),
                            },
                        );
                        proof {
                            assert(st@.messages =~= emit_step(
                                old(st)@,
                                item@,
                                anchor.deep_view(),
                                builder_rc.deep_view(),
                            ).messages);
                        }
                    },
                    None => {},
                }
            } else {
                let is_user = str_eq(role1.as_str(), "user");
                let is_assistant = str_eq(role1.as_str(), "assistant");
                let ghost st_before_evict = st@;
                if is_user && st.pending.len() > 0 && st.open_group.is_some() {
                    let g = st.open_group.unwrap();
                    st.messages.remove(g);
                    st.pending.clear();
                    st.open_group = None;
                    proof {
                        lemma_strings_set_nonempty(old(st).pending@);
                        assert(strings_set(st.pending@) =~= Set::empty());
                        assert(st@.messages =~= st_before_evict.messages.remove(g as int));
                        assert(st@ == evict_if_open(st_before_evict, role1@));
                    }
                } else {
                    proof {
                        lemma_strings_set_nonempty(st.pending@);
                        assert(st@ == evict_if_open(st_before_evict, role1@));
                    }
                }
                let ghost st1 = st@;
                if is_assistant {
                    let dup = match &st.last_assistant_text {
                        Some(prev) => str_eq(prev.as_str(), text.as_str()),
                        None => false,
                    };
                    if !dup {
                        let tc: Vec<ToolCallEntry> = match tool_calls {
                            Some(v) => clone_tool_call_entries(v),
                            None => Vec::new(),
                        };
                        let rc: String = match builder_rc {
                            Some(s) => s.clone(),
                            None => String::new(),
                        };
                        let reasoning: Option<String> = match anchor {
                            Some(a) => Some(a.clone()),
                            None => None,
                        };
                        st.messages.push(
                            WireMessage::Assistant {
                                content: text.clone(),
                                reasoning_content: rc,
                                reasoning,
                                tool_calls: tc,
                            },
                        );
                        st.last_assistant_text = Some(text);
                        proof {
                            assert(st@.messages =~~= emit_step(
                                old(st)@,
                                item@,
                                anchor.deep_view(),
                                builder_rc.deep_view(),
                            ).messages);
                        }
                    }
                } else {
                    let content_w: WireContent = if has_image_exec(content) {
                        WireContent::Parts(parts_exec(content))
                    } else {
                        WireContent::Text(text)
                    };
                    st.messages.push(WireMessage::Plain { role: role1, content: content_w });
                    proof {
                        assert(st@.messages =~= emit_step(
                            old(st)@,
                            item@,
                            anchor.deep_view(),
                            builder_rc.deep_view(),
                        ).messages);
                    }
                }
            }
        },
        ResponseItem::FunctionCall { id: _, name, arguments, call_id } => {
            let entry = ToolCallEntry::Function {
                id: call_id.clone(),
                name: name.clone(),
                arguments: arguments.clone(),
            };
            push_call_exec(st, entry, call_id.clone(), anchor);
        },
        ResponseItem::LocalShellCall { id, call_id: _, status, action } => {
            let cid: String = match id {
                Some(s) => s.clone(),
                None => String::new(),
            };
            let entry = ToolCallEntry::LocalShell {
                id: cid.clone(),
                status: *status,
                action: action.clone(),
            };
            push_call_exec(st, entry, cid, anchor);
        },
        ResponseItem::CustomToolCall { id, call_id, name, input, status: _ } => {
            let wire_id: String = match id {
                Some(s) => s.clone(),
                None => call_id.clone(),
            };
            let entry = ToolCallEntry::Custom {
                id: wire_id,
                name: name.clone(),
                input: input.clone(),
            };
            push_call_exec(st, entry, call_id.clone(), anchor);
        },
        ResponseItem::FunctionCallOutput { call_id, output } => {
            let content = output_content_exec(output);
            output_exec(st, call_id, content);
        },
        ResponseItem::CustomToolCallOutput { call_id, output } => {
            output_exec(st, call_id, WireContent::Text(output.clone()));
        },
        ResponseItem::Reasoning { .. } => {},
        ResponseItem::WebSearchCall { .. } => {},
        ResponseItem::GhostSnapshot => {},
        ResponseItem::Compaction => {},
        ResponseItem::Other => {},
    }
}

// ---------------------------------------------------------------------------
// Executable anchor computation
// ---------------------------------------------------------------------------

fn is_assistant_message_exec(it: &ResponseItem) -> (r: bool)
    ensures
        r == is_assistant_message(it@),
{
    match it {
        ResponseItem::Message { role, .. } => str_eq(role.as_str(), "assistant"),
        _ => false,
    }
}

fn is_call_anchor_exec(it: &ResponseItem) -> (r: bool)
    ensures
        r == is_call_anchor(it@),
{
    match it {
        ResponseItem::FunctionCall { .. } => true,
        ResponseItem::LocalShellCall { .. } => true,
        ResponseItem::Message { role, .. } => str_eq(role.as_str(), "assistant"),
        _ => false,
    }
}

/// `Some(u as int)` for `Some(u)`.
pub open spec fn opt_usize_as_int(o: Option<usize>) -> Option<int> {
    match o {
        Some(u) => Some(u as int),
        None => None,
    }
}

#[verifier::loop_isolation(false)]
fn anchors_enabled_exec(input: &[ResponseItem]) -> (r: bool)
    ensures
        r == anchors_enabled(items_view(input@)),
{
    let ghost itemsv = items_view(input@);
    let mut k: usize = input.len();
    while k > 0
        invariant
            k <= input.len(),
            last_emitted_role_upto(itemsv, input@.len() as int) == last_emitted_role_upto(
                itemsv,
                k as int,
            ),
        decreases k,
    {
        proof {
            assert(itemsv[k - 1] == input@[k - 1]@);
        }
        match vstd::slice::slice_index_get(input, k - 1) {
            ResponseItem::Message { role, .. } => {
                return !str_eq(role.as_str(), "user");
            },
            ResponseItem::FunctionCall { .. } => {
                proof {
                    lemma_distinct_roles();
                }
                return true;
            },
            ResponseItem::LocalShellCall { .. } => {
                proof {
                    lemma_distinct_roles();
                }
                return true;
            },
            ResponseItem::FunctionCallOutput { .. } => {
                proof {
                    lemma_distinct_roles();
                }
                return true;
            },
            _ => {},
        }
        k = k - 1;
    }
    true
}

#[verifier::loop_isolation(false)]
fn last_user_index_exec(input: &[ResponseItem]) -> (r: Option<usize>)
    ensures
        opt_usize_as_int(r) == last_user_index_upto(items_view(input@), input@.len() as int),
{
    let ghost itemsv = items_view(input@);
    let mut k: usize = input.len();
    while k > 0
        invariant
            k <= input.len(),
            last_user_index_upto(itemsv, input@.len() as int) == last_user_index_upto(
                itemsv,
                k as int,
            ),
        decreases k,
    {
        proof {
            assert(itemsv[k - 1] == input@[k - 1]@);
        }
        match vstd::slice::slice_index_get(input, k - 1) {
            ResponseItem::Message { role, .. } => {
                if str_eq(role.as_str(), "user") {
                    return Some(k - 1);
                }
            },
            _ => {},
        }
        k = k - 1;
    }
    None
}

/// The reasoning text the item at `j` anchors to index `i`, when it does.
#[verifier::loop_isolation(false)]
fn contribution_exec(input: &[ResponseItem], lui: &Option<usize>, j: usize, i: usize) -> (r: Option<
    String,
>)
    requires
        opt_usize_as_int(*lui) == last_user_index_upto(items_view(input@), input@.len() as int),
        j < input@.len(),
    ensures
        match r {
            Some(t) => contributes(items_view(input@), j as int, i as int) && Some(t@)
                == reasoning_of(items_view(input@)[j as int]),
            None => !contributes(items_view(input@), j as int, i as int),
        },
{
    let ghost itemsv = items_view(input@);
    proof {
        assert(itemsv[j as int] == input@[j as int]@);
    }
    match vstd::slice::slice_index_get(input, j) {
        ResponseItem::Reasoning { content: Some(entries) } => {
            let gate_ok: bool = match lui {
                Some(u) => j > *u,
                None => true,
            };
            if !gate_ok {
                return None;
            }
            let text = reasoning_text_exec(entries);
            if is_blank_str(text.as_str()) {
                return None;
            }
            let n = input.len();
            let anchored_back: bool = if j > 0 {
                proof {
                    assert(itemsv[j - 1] == input@[j - 1]@);
                }
                is_assistant_message_exec(vstd::slice::slice_index_get(input, j - 1))
            } else {
                false
            };
            let target: Option<usize> = if anchored_back {
                Some(j - 1)
            } else if j + 1 < n {
                proof {
                    assert(itemsv[j + 1] == input@[j + 1]@);
                }
                if is_call_anchor_exec(vstd::slice::slice_index_get(input, j + 1)) {
                    Some(j + 1)
                } else {
                    None
                }
            } else {
                None
            };
            proof {
                assert(opt_usize_as_int(target) == anchor_target(itemsv, j as int));
            }
            match target {
                Some(t) => if t == i {
                    Some(text)
                } else {
                    None
                },
                None => None,
            }
        },
        _ => None,
    }
}

/// The reasoning anchored to index `i` over the whole history, when any.
#[verifier::loop_isolation(false)]
fn anchor_for(input: &[ResponseItem], lui: &Option<usize>, i: usize) -> (r: Option<String>)
    requires
        opt_usize_as_int(*lui) == last_user_index_upto(items_view(input@), input@.len() as int),
        i < input@.len(),
    ensures
        r.deep_view() == (if has_anchor_upto(items_view(input@), i as int, input@.len() as int) {
            Some(anchor_at_upto(items_view(input@), i as int, input@.len() as int))
        } else {
            None::<Seq<char>>
        }),
{
    let ghost itemsv = items_view(input@);
    let mut acc: String = String::new();
    let mut has: bool = false;
    let mut j: usize = 0;
    while j < input.len()
        invariant
            j <= input.len(),
            acc@ == anchor_at_upto(itemsv, i as int, j as int),
            has == has_anchor_upto(itemsv, i as int, j as int),
        decreases input.len() - j,
    {
        match contribution_exec(input, lui, j, i) {
            Some(t) => {
                acc.append(t.as_str());
                has = true;
            },
            None => {
                proof {
                    assert(acc@ =~= anchor_at_upto(itemsv, i as int, j + 1));
                }
            },
        }
        proof {
            assert(has == has_anchor_upto(itemsv, i as int, j + 1));
        }
        j = j + 1;
    }
    if has {
        Some(acc)
    } else {
        None
    }
}

/// The anchored reasoning of every history index, as `anchors_view` says.
#[verifier::loop_isolation(false)]
fn compute_anchors(input: &[ResponseItem]) -> (r: Vec<Option<String>>)
    ensures
        r.deep_view() == anchors_view(items_view(input@)),
{
    let ghost itemsv = items_view(input@);
    let enabled = anchors_enabled_exec(input);
    let lui = last_user_index_exec(input);
    let mut anchors: Vec<Option<String>> = Vec::new();
    let mut i: usize = 0;
    while i < input.len()
        invariant
            i <= input.len(),
            anchors.len() == i,
            forall|q: int| 0 <= q < i ==> anchors.deep_view()[q] == anchor_opt(itemsv, q),
        decreases input.len() - i,
    {
        if enabled {
            anchors.push(anchor_for(input, &lui, i));
        } else {
            anchors.push(None);
        }
        i = i + 1;
    }
    proof {
        assert(anchors.deep_view() =~= anchors_view(itemsv));
    }
    anchors
}

// ---------------------------------------------------------------------------
// The request builder
// ---------------------------------------------------------------------------

/// The body of the assembled request.
#[derive(Debug)]
pub struct ChatBody {
    pub model: String,
    pub messages: Vec<WireMessage>,
    pub stream: bool,
    pub tools: Vec<serde_json::Value>,
}

#[verifier::ext_equal]
pub struct ChatBodyView {
    pub model: Seq<char>,
    pub messages: Seq<WireMessageView>,
    pub stream: bool,
    pub tools: Seq<serde_json::Value>,
}

impl View for ChatBody {
    type V = ChatBodyView;

    open spec fn view(&self) -> ChatBodyView {
        ChatBodyView {
            model: self.model@,
            messages: self.messages.deep_view(),
            stream: self.stream,
            tools: self.tools@,
        }
    }
}

/// Assembled request body plus headers for a streaming chat call.
#[derive(Debug)]
pub struct ChatRequest {
    pub body: ChatBody,
    pub headers: Vec<(String, String)>,
}

#[verifier::ext_equal]
pub struct ChatRequestView {
    pub body: ChatBodyView,
    pub headers: Seq<(Seq<char>, Seq<char>)>,
}

impl View for ChatRequest {
    type V = ChatRequestView;

    open spec fn view(&self) -> ChatRequestView {
        ChatRequestView { body: self.body@, headers: self.headers.deep_view() }
    }
}

/// The headers a request travels with: the conversation id when one is
/// given, and the sub-agent mark when the session source denotes one.
pub open spec fn spec_headers(
    conversation_id: Option<Seq<char>>,
    source: Option<SessionSource>,
) -> Seq<(Seq<char>, Seq<char>)> {
    let base: Seq<(Seq<char>, Seq<char>)> = match conversation_id {
        Some(c) => seq![("session_id"@, c)],
        None => Seq::empty(),
    };
    match spec_subagent_header(source) {
        Some(s) => base.push(("x-openai-subagent"@, s)),
        None => base,
    }
}

/// Builds the request for one turn.
pub struct ChatRequestBuilder<'a> {
    model: &'a str,
    instructions: &'a str,
    input: &'a [ResponseItem],
    tools: Vec<serde_json::Value>,
    reasoning_content: Option<String>,
    conversation_id: Option<String>,
    session_source: Option<SessionSource>,
}

#[verifier::ext_equal]
pub struct ChatRequestBuilderView {
    pub model: Seq<char>,
    pub instructions: Seq<char>,
    pub input: Seq<ResponseItemView>,
    pub tools: Seq<serde_json::Value>,
    pub reasoning_content: Option<Seq<char>>,
    pub conversation_id: Option<Seq<char>>,
    pub session_source: Option<SessionSource>,
}

impl<'a> View for ChatRequestBuilder<'a> {
    type V = ChatRequestBuilderView;

    closed spec fn view(&self) -> ChatRequestBuilderView {
        ChatRequestBuilderView {
            model: self.model@,
            instructions: self.instructions@,
            input: items_view(self.input@),
            tools: self.tools@,
            reasoning_content: self.reasoning_content.deep_view(),
            conversation_id: self.conversation_id.deep_view(),
            session_source: self.session_source,
        }
    }
}

/// What `build` ensures, over the assembled messages of the builder's
/// history: success exactly when the wire is valid or carries tool messages
/// already; the request's exact body and headers on success; an error that
/// names an unanswered call id on failure; a leading system message; and no
/// `developer` role anywhere.
pub open spec fn build_post(b: ChatRequestBuilderView, r: Result<ChatRequest, ChatError>) -> bool {
    let msgs = assembled_messages(b.instructions, b.input, b.reasoning_content);
    &&& (r is Ok <==> (has_tool_message(msgs) || valid_wire(msgs)))
    &&& (r matches Ok(req) ==> req@ == (ChatRequestView {
        body: ChatBodyView { model: b.model, messages: msgs, stream: true, tools: b.tools },
        headers: spec_headers(b.conversation_id, b.session_source),
    }))
    &&& (r matches Err(e) ==> !has_tool_message(msgs) && exists|i: int, k: int|
        #[trigger] names_missing_id(msgs, i, k, spec_chat_error_message(e@)))
    &&& msgs.len() >= 1
    &&& msgs[0] == (WireMessageView::Plain {
        role: "system"@,
        content: WireContentView::Text(b.instructions),
    })
    &&& forall|q: int| 0 <= q < msgs.len() ==> role_of(#[trigger] msgs[q]) != "developer"@
}

/// The walking invariant: at least the system message, which stays at the
/// front untouched; a well-placed open group; and no `developer` role.
pub open spec fn emit_inv(st: EmitStateView, instructions: Seq<char>) -> bool {
    &&& st.messages.len() >= 1
    &&& st.messages[0] == (WireMessageView::Plain {
        role: "system"@,
        content: WireContentView::Text(instructions),
    })
    &&& (match st.open_group {
        Some(g) => 1 <= g < st.messages.len(),
        None => true,
    })
    &&& forall|q: int| 0 <= q < st.messages.len() ==> role_of(#[trigger] st.messages[q])
        != "developer"@
}

proof fn lemma_step_inv(
    st: EmitStateView,
    item: ResponseItemView,
    anchor: Option<Seq<char>>,
    rc: Option<Seq<char>>,
    instructions: Seq<char>,
)
    requires
        emit_inv(st, instructions),
    ensures
        emit_inv(emit_step(st, item, anchor, rc), instructions),
{
    lemma_distinct_roles();
    let st2 = emit_step(st, item, anchor, rc);
    match item {
        ResponseItemView::Message { id, role, content, reasoning_content: _, tool_calls } => {
            let role1 = if role == "developer"@ {
                "user"@
            } else {
                role
            };
            assert(role1 != "developer"@);
            let st1 = evict_if_open(st, role1);
            assert(emit_inv(st1, instructions));
        },
        _ => {},
    }
}

proof fn lemma_emit_upto_inv(
    init: EmitStateView,
    items: Seq<ResponseItemView>,
    anchors: Seq<Option<Seq<char>>>,
    rc: Option<Seq<char>>,
    instructions: Seq<char>,
    n: int,
)
    requires
        emit_inv(init, instructions),
        0 <= n <= items.len(),
        anchors.len() == items.len(),
    ensures
        emit_inv(emit_upto(init, items, anchors, rc, n), instructions),
    decreases n,
{
    if n > 0 {
        lemma_emit_upto_inv(init, items, anchors, rc, instructions, n - 1);
        lemma_step_inv(
            emit_upto(init, items, anchors, rc, n - 1),
            items[n - 1],
            anchors[n - 1],
            rc,
            instructions,
        );
    }
}

fn has_tool_role_message(messages: &Vec<WireMessage>) -> (r: bool)
    ensures
        r == has_tool_message(messages.deep_view()),
{
    let ghost m = messages.deep_view();
    let mut q: usize = 0;
    while q < messages.len()
        invariant
            q <= messages.len(),
            m == messages.deep_view(),
            forall|l: int| 0 <= l < q ==> !is_tool_role(#[trigger] m[l]),
        decreases messages.len() - q,
    {
        match &messages[q] {
            WireMessage::Tool { .. } => {
                proof {
                    assert(is_tool_role(m[q as int]));
                }
                return true;
            },
            WireMessage::Plain { role, .. } => {
                if str_eq(role.as_str(), "tool") {
                    proof {
                        assert(is_tool_role(m[q as int]));
                    }
                    return true;
                }
            },
            _ => {},
        }
        q = q + 1;
    }
    false
}

impl<'a> ChatRequestBuilder<'a> {
    /// A builder over the given model, instructions, history, tool
    /// specifications and model-level reasoning text, with no conversation id
    /// and no session source yet.
    pub fn new(
        model: &'a str,
        instructions: &'a str,
        input: &'a [ResponseItem],
        tools: Vec<serde_json::Value>,
        reasoning_content: Option<String>,
    ) -> (r: Self)
        ensures
            r@ == (ChatRequestBuilderView {
                model: model@,
                instructions: instructions@,
                input: items_view(input@),
                tools: tools@,
                reasoning_content: reasoning_content.deep_view(),
                conversation_id: None,
                session_source: None,
            }),
    {
        Self {
            model,
            instructions,
            input,
            tools,
            reasoning_content,
            conversation_id: None,
            session_source: None,
        }
    }

    /// Sets the conversation id the headers carry.
    pub fn conversation_id(self, id: Option<String>) -> (r: Self)
        ensures
            r@ == (ChatRequestBuilderView { conversation_id: id.deep_view(), ..self@ }),
    {
        Self { conversation_id: id, ..self }
    }

    /// Sets the session source the headers mark.
    pub fn session_source(self, source: Option<SessionSource>) -> (r: Self)
        ensures
            r@ == (ChatRequestBuilderView { session_source: source, ..self@ }),
    {
        Self { session_source: source, ..self }
    }

    /// Assembles the request: a leading system message, the history emitted
    /// under the role-rewriting, anchoring, grouping, suppression and
    /// eviction rules, then validated for tool-call pairing unless the
    /// history already replays tool messages.
    #[verifier::loop_isolation(false)]
    pub fn build(self) -> (r: Result<ChatRequest, ChatError>)
        ensures
            build_post(self@, r),
    {
        let ghost itemsv = items_view(self.input@);
        let ghost anchorsv = anchors_view(itemsv);
        let ghost rcv = self.reasoning_content.deep_view();
        let anchors = compute_anchors(self.input);
        proof {
            assert(anchors.deep_view() == anchorsv);
            assert(anchors@.len() == itemsv.len());
        }
        let mut st = EmitState {
            messages: Vec::new(),
            last_assistant_text: None,
            pending: Vec::new(),
            open_group: None,
        };
        st.messages.push(
            WireMessage::Plain {
                role: String::from_str("system"),
                content: WireContent::Text(self.instructions.to_owned()),
            },
        );
        proof {
            lemma_distinct_roles();
            assert(st@ =~~= init_state(self.instructions@));
            assert(strings_set(st.pending@) =~= Set::empty());
            assert(emit_inv(st@, self.instructions@));
        }
        let mut i: usize = 0;
        while i < self.input.len()
            invariant
                i <= self.input.len(),
                wf_emit(st),
                st@ == emit_upto(init_state(self.instructions@), itemsv, anchorsv, rcv, i as int),
            decreases self.input.len() - i,
        {
            let item = vstd::slice::slice_index_get(self.input, i);
            let anchor: Option<&String> = match &anchors[i] {
                Some(a) => Some(a),
                None => None,
            };
            proof {
                assert(itemsv[i as int] == self.input@[i as int]@);
                assert(anchor.deep_view() == anchorsv[i as int]);
            }
            emit_item(&mut st, item, anchor, &self.reasoning_content);
            i = i + 1;
        }
        proof {
            lemma_emit_upto_inv(
                init_state(self.instructions@),
                itemsv,
                anchorsv,
                rcv,
                self.instructions@,
                itemsv.len() as int,
            );
        }
        proof {
            assert(st.messages.deep_view() == assembled_messages(
                self@.instructions,
                self@.input,
                self@.reasoning_content,
            ));
        }
        let has_tool = has_tool_role_message(&st.messages);
        if !has_tool {
            let validation = validate_tool_calls_sequence(&st.messages);
            match validation {
                Ok(()) => {},
                Err(e) => {
                    proof {
                        let m2 = st.messages.deep_view();
                        let (i2, k2): (int, int) = choose|i2: int, k2: int|
                            names_missing_id(m2, i2, k2, spec_chat_error_message(e@));
                        assert(names_missing_id(
                            assembled_messages(
                                self@.instructions,
                                self@.input,
                                self@.reasoning_content,
                            ),
                            i2,
                            k2,
                            spec_chat_error_message(e@),
                        ));
                    }
                    let r2: Result<ChatRequest, ChatError> = Err(e);
                    proof {
                        let b = self@;
                        let msgs = assembled_messages(b.instructions, b.input, b.reasoning_content);
                        assert(!(r2 is Ok));
                        assert(!has_tool_message(msgs));
                        assert(!valid_wire(msgs));
                        assert(r2->Err_0 == e);
                        assert(exists|i3: int, k3: int|
                            #[trigger] names_missing_id(
                                msgs,
                                i3,
                                k3,
                                spec_chat_error_message(r2->Err_0@),
                            ));
                        assert(msgs.len() >= 1);
                        assert(msgs[0] == (WireMessageView::Plain {
                            role: "system"@,
                            content: WireContentView::Text(b.instructions),
                        }));
                        assert(forall|q: int| 0 <= q < msgs.len() ==> role_of(#[trigger] msgs[q])
                            != "developer"@);
                        assert(build_post(self@, r2));
                    }
                    return r2;
                },
            }
        }
        let mut headers: Vec<(String, String)> = Vec::new();
        match &self.conversation_id {
            Some(cid) => headers.push((String::from_str("session_id"), cid.clone())),
            None => {},
        }
        match subagent_header(&self.session_source) {
            Some(sub) => headers.push((String::from_str("x-openai-subagent"), sub)),
            None => {},
        }
        proof {
            assert(headers.deep_view() =~= spec_headers(
                self.conversation_id.deep_view(),
                self.session_source,
            ));
        }
        let req = ChatRequest {
            body: ChatBody {
                model: self.model.to_owned(),
                messages: st.messages,
                stream: true,
                tools: self.tools,
            },
            headers,
        };
        proof {
            assert(req@ =~~= (ChatRequestView {
                body: ChatBodyView {
                    model: self@.model,
                    messages: assembled_messages(self@.instructions, self@.input, self@.reasoning_content),
                    stream: true,
                    tools: self@.tools,
                },
                headers: spec_headers(self@.conversation_id, self@.session_source),
            }));
        }
        Ok(req)
    }
}

} // verus!
