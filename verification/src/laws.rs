//! Laws of the wire assembler, proved once and for all histories: the
//! grouping of consecutive tool calls, the suppression of repeated assistant
//! messages, and the invisibility of whitespace-only reasoning.

use vstd::prelude::*;
use crate::items::ResponseItemView;
use crate::items::ToolCallEntryView;
use crate::chat::EmitStateView;
use crate::chat::anchor_at_upto;
use crate::chat::anchor_opt;
use crate::chat::anchor_target;
use crate::chat::anchors_enabled;
use crate::chat::anchors_view;
use crate::chat::assembled_messages;
use crate::chat::contributes;
use crate::chat::emit_step;
use crate::chat::emit_upto;
use crate::chat::evict_if_open;
use crate::chat::has_anchor_upto;
use crate::chat::init_state;
use crate::chat::is_blank;
use crate::chat::is_user_message;
use crate::chat::last_emitted_role_upto;
use crate::chat::last_user_index_upto;
use crate::chat::message_text;
use crate::chat::reasoning_of;
use crate::chat::role_emitted;
use crate::wire::WireMessageView;

verus! {

/// Whether the item is one of the three tool-call kinds.
pub open spec fn is_tool_call_item(it: ResponseItemView) -> bool {
    ||| it is FunctionCall
    ||| it is LocalShellCall
    ||| it is CustomToolCall
}

/// The `tool_calls` entry a tool-call item is emitted as.
pub open spec fn wire_entry_of(it: ResponseItemView) -> ToolCallEntryView {
    match it {
        ResponseItemView::FunctionCall { id: _, name, arguments, call_id } => {
            ToolCallEntryView::Function { id: call_id, name, arguments }
        },
        ResponseItemView::LocalShellCall { id, call_id: _, status, action } => {
            ToolCallEntryView::LocalShell {
                id: match id {
                    Some(s) => s,
                    None => Seq::empty(),
                },
                status,
                action,
            }
        },
        ResponseItemView::CustomToolCall { id, call_id, name, input, status: _ } => {
            ToolCallEntryView::Custom {
                id: match id {
                    Some(s) => s,
                    None => call_id,
                },
                name,
                input,
            }
        },
        _ => vstd::pervasive::arbitrary(),
    }
}

/// Grouping law.  For any run of consecutive tool-call items, walked from a
/// state whose last message is not an open group, the assembler emits exactly
/// one assistant message, whose `tool_calls` array holds the run's calls in
/// input order; every message before it is untouched.
pub proof fn lemma_tool_call_grouping(
    st: EmitStateView,
    items: Seq<ResponseItemView>,
    anchors: Seq<Option<Seq<char>>>,
    rc: Option<Seq<char>>,
    n: int,
)
    requires
        1 <= n <= items.len(),
        anchors.len() == items.len(),
        forall|j: int| 0 <= j < items.len() ==> is_tool_call_item(#[trigger] items[j]),
        st.messages.len() == 0 || !(st.messages.last() matches WireMessageView::AssistantToolCalls {
            ..
        }),
    ensures
        emit_upto(st, items, anchors, rc, n).messages.len() == st.messages.len() + 1,
        forall|q: int| 0 <= q < st.messages.len() ==> emit_upto(st, items, anchors, rc, n).messages[q]
            == st.messages[q],
        emit_upto(st, items, anchors, rc, n).messages.last() matches WireMessageView::AssistantToolCalls {
            tool_calls,
            ..
        } && tool_calls == items.subrange(0, n).map_values(|it: ResponseItemView| wire_entry_of(it)),
    decreases n,
{
    if n == 1 {
        assert(items.subrange(0, 1).map_values(|it: ResponseItemView| wire_entry_of(it)) =~= seq![
            wire_entry_of(items[0]),
        ]);
    } else {
        lemma_tool_call_grouping(st, items, anchors, rc, n - 1);
        let prev = emit_upto(st, items, anchors, rc, n - 1);
        let curr = emit_upto(st, items, anchors, rc, n);
        assert(curr == emit_step(prev, items[n - 1], anchors[n - 1], rc));
        assert(prev.messages.last() matches WireMessageView::AssistantToolCalls { .. });
        assert(items.subrange(0, n).map_values(|it: ResponseItemView| wire_entry_of(it)) =~= items
            .subrange(0, n - 1)
            .map_values(|it: ResponseItemView| wire_entry_of(it))
            .push(wire_entry_of(items[n - 1])));
        assert(curr.messages.last() matches WireMessageView::AssistantToolCalls { tool_calls, .. }
            && tool_calls == items.subrange(0, n).map_values(
            |it: ResponseItemView| wire_entry_of(it),
        ));
    }
}

/// Duplicate-assistant suppression.  Walking the same assistant message
/// twice in a row leaves the state of the first walk untouched: adjacent
/// assistant messages with identical text yield exactly one emitted message.
pub proof fn lemma_duplicate_assistant_suppressed(
    st: EmitStateView,
    item: ResponseItemView,
    a1: Option<Seq<char>>,
    a2: Option<Seq<char>>,
    rc: Option<Seq<char>>,
)
    requires
        item matches ResponseItemView::Message { role, .. } && role == "assistant"@,
    ensures
        emit_step(emit_step(st, item, a1, rc), item, a2, rc) == emit_step(st, item, a1, rc),
{
    crate::chat::lemma_distinct_roles();
    let st1 = emit_step(st, item, a1, rc);
    match item {
        ResponseItemView::Message { id, role, content, reasoning_content: _, tool_calls } => {
            let text = message_text(content);
            assert(st1.last_assistant_text == Some(text));
            assert(evict_if_open(st1, "assistant"@) == st1);
            assert(emit_step(st1, item, a2, rc) == st1);
        },
        _ => {},
    }
}

/// Reasoning items emit nothing: one walk step on a reasoning item returns
/// the state unchanged.
pub proof fn lemma_reasoning_not_emitted(
    st: EmitStateView,
    item: ResponseItemView,
    anchor: Option<Seq<char>>,
    rc: Option<Seq<char>>,
)
    requires
        item is Reasoning,
    ensures
        emit_step(st, item, anchor, rc) == st,
{
}

/// Two histories that agree everywhere but at one index, where both items
/// determine no emitted role, have the same last emitted role.
proof fn lemma_ler_same(
    items1: Seq<ResponseItemView>,
    items2: Seq<ResponseItemView>,
    j: int,
    n: int,
)
    requires
        items1.len() == items2.len(),
        0 <= j < items1.len(),
        0 <= n <= items1.len(),
        forall|q: int| 0 <= q < items1.len() && q != j ==> #[trigger] items1[q] == items2[q],
        role_emitted(items1[j]) is None,
        role_emitted(items2[j]) is None,
    ensures
        last_emitted_role_upto(items1, n) == last_emitted_role_upto(items2, n),
    decreases n,
{
    if n > 0 {
        lemma_ler_same(items1, items2, j, n - 1);
    }
}

/// As `lemma_ler_same`, for the last user index, when neither item is a user
/// message.
proof fn lemma_lui_same(
    items1: Seq<ResponseItemView>,
    items2: Seq<ResponseItemView>,
    j: int,
    n: int,
)
    requires
        items1.len() == items2.len(),
        0 <= j < items1.len(),
        0 <= n <= items1.len(),
        forall|q: int| 0 <= q < items1.len() && q != j ==> #[trigger] items1[q] == items2[q],
        !is_user_message(items1[j]),
        !is_user_message(items2[j]),
    ensures
        last_user_index_upto(items1, n) == last_user_index_upto(items2, n),
    decreases n,
{
    if n > 0 {
        lemma_lui_same(items1, items2, j, n - 1);
    }
}

/// Idempotent reasoning.  A reasoning item whose text is missing or
/// whitespace-only is invisible in the output: replacing it by the inert
/// `Other` item leaves the assembled messages unchanged.
pub proof fn lemma_blank_reasoning_invisible(
    instructions: Seq<char>,
    items: Seq<ResponseItemView>,
    rc: Option<Seq<char>>,
    j: int,
)
    requires
        0 <= j < items.len(),
        items[j] is Reasoning,
        match reasoning_of(items[j]) {
            Some(t) => is_blank(t),
            None => true,
        },
    ensures
        assembled_messages(instructions, items.update(j, ResponseItemView::Other), rc)
            == assembled_messages(instructions, items, rc),
{
    let items2 = items.update(j, ResponseItemView::Other);
    assert(items2.len() == items.len());
    assert(forall|q: int| 0 <= q < items.len() && q != j ==> #[trigger] items[q] == items2[q]);
    lemma_ler_same(items, items2, j, items.len() as int);
    lemma_lui_same(items, items2, j, items.len() as int);
    assert(anchors_enabled(items2) == anchors_enabled(items));
    assert forall|j2: int, i: int| true implies #[trigger] contributes(items2, j2, i)
        == contributes(items, j2, i) by {
        if 0 <= j2 < items.len() {
            assert(anchor_target(items2, j2) == anchor_target(items, j2));
            if j2 == j {
                assert(!contributes(items, j2, i));
                assert(!contributes(items2, j2, i));
            }
        }
    }
    assert forall|i: int| true implies #[trigger] anchor_opt(items2, i) == anchor_opt(items, i) by {
        lemma_anchor_at_same(items, items2, i, items.len() as int);
        if has_anchor_upto(items2, i, items2.len() as int) {
            let jw = choose|jw: int| 0 <= jw < items2.len() && contributes(items2, jw, i);
            assert(contributes(items, jw, i));
        }
        if has_anchor_upto(items, i, items.len() as int) {
            let jw = choose|jw: int| 0 <= jw < items.len() && contributes(items, jw, i);
            assert(contributes(items2, jw, i));
        }
        assert(has_anchor_upto(items2, i, items2.len() as int) == has_anchor_upto(
            items,
            i,
            items.len() as int,
        ));
    }
    assert(anchors_view(items2) =~= anchors_view(items));
    lemma_emit_same(init_state(instructions), items, items2, anchors_view(items), rc, j, items.len() as int);
}

/// Anchored text agrees when contributions agree pointwise.
proof fn lemma_anchor_at_same(
    items1: Seq<ResponseItemView>,
    items2: Seq<ResponseItemView>,
    i: int,
    n: int,
)
    requires
        items1.len() == items2.len(),
        0 <= n <= items1.len(),
        forall|j2: int, i2: int| #[trigger] contributes(items2, j2, i2) == contributes(
            items1,
            j2,
            i2,
        ),
        forall|j2: int| 0 <= j2 < items1.len() && contributes(items1, j2, i) ==> reasoning_of(
            #[trigger] items1[j2],
        ) == reasoning_of(items2[j2]),
    ensures
        anchor_at_upto(items1, i, n) == anchor_at_upto(items2, i, n),
    decreases n,
{
    if n > 0 {
        lemma_anchor_at_same(items1, items2, i, n - 1);
    }
}

/// Two histories that agree everywhere but at one index, where both items
/// emit nothing, walk to the same state under the same anchors.
proof fn lemma_emit_same(
    init: EmitStateView,
    items1: Seq<ResponseItemView>,
    items2: Seq<ResponseItemView>,
    anchors: Seq<Option<Seq<char>>>,
    rc: Option<Seq<char>>,
    j: int,
    n: int,
)
    requires
        items1.len() == items2.len(),
        anchors.len() == items1.len(),
        0 <= j < items1.len(),
        0 <= n <= items1.len(),
        forall|q: int| 0 <= q < items1.len() && q != j ==> #[trigger] items1[q] == items2[q],
        items1[j] is Reasoning,
        items2[j] is Other,
    ensures
        emit_upto(init, items1, anchors, rc, n) == emit_upto(init, items2, anchors, rc, n),
    decreases n,
{
    if n > 0 {
        lemma_emit_same(init, items1, items2, anchors, rc, j, n - 1);
        let prev = emit_upto(init, items1, anchors, rc, n - 1);
        if n - 1 == j {
            assert(emit_step(prev, items1[n - 1], anchors[n - 1], rc) == prev);
            assert(emit_step(prev, items2[n - 1], anchors[n - 1], rc) == prev);
        }
    }
}

} // verus!
