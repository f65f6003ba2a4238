//! Which stored messages go back to the model, and how much context they
//! take: plumbing of sub-task dispatch stays out, the history window starts
//! at a user turn, and a tool reply never opens it.
use vstd::prelude::*;
use vstd::string::StringExecFns;
use crate::contract::{ChatMessage, ChatMessageContentPart, FunctionCall, OutboundToolCall, part_views};
use crate::content::{
    llm_parts, plain_text_of, segment_views, segments_to_llm_content_parts,
    segments_to_plain_text, ContentSegment,
};
use crate::json_text::{json_string, json_string_text};
use crate::text::{is_blank_str, opt_view, starts_with, str_eq, trim, trim_str};

verus! {

broadcast use vstd::string::group_string_axioms;

/// Most user turns the model sees.
pub const MAX_LLM_DIALOGUES: usize = 5;

/// Most user turns a dialogue query asks for.
pub const MAX_DIALOGUE_QUERY_LIMIT: usize = 50;

/// The tools that only drive sub-task processes.
pub open spec fn plumbing_tool(name: Seq<char>) -> bool {
    ||| name == "dispatch_claude"@
    ||| name == "dispatch_codex"@
    ||| name == "continue_claude_session"@
    ||| name == "continue_codex_session"@
    ||| name == "exit_claude_session"@
    ||| name == "exit_codex_session"@
}

pub fn is_dispatch_plumbing_tool_name(name: &str) -> (r: bool)
    ensures
        r == plumbing_tool(name@),
{
    str_eq(name, "dispatch_claude") || str_eq(name, "dispatch_codex") || str_eq(
        name,
        "continue_claude_session",
    ) || str_eq(name, "continue_codex_session") || str_eq(name, "exit_claude_session") || str_eq(
        name,
        "exit_codex_session",
    )
}

pub fn is_dispatch_plumbing_tool_call(call: &OutboundToolCall) -> (r: bool)
    ensures
        r == plumbing_tool(call.function.name@),
{
    is_dispatch_plumbing_tool_name(call.function.name.as_str())
}

/// Assistant texts that only report sub-task progress.
pub open spec fn process_only_text(content: Seq<char>) -> bool {
    let t = trim(content);
    ||| t == "🔄 子任务当前轮次已完成"@
    ||| t == "✅ 子任务进程已结束"@
    ||| t == "⚠️ 子任务进程已失败退出"@
    ||| t == "⏹️ 子任务进程已取消"@
    ||| t == "🔄 子任务当前轮次已完成，执行结果已同步供后续分析。"@
    ||| t == "✅ 子任务进程已结束，执行结果已同步供后续分析。"@
    ||| t == "⚠️ 子任务进程已失败退出，执行结果已同步供后续分析。"@
    ||| t == "⏹️ 子任务进程已取消，执行结果已同步供后续分析。"@
    ||| "📋 已自动批准 "@.is_prefix_of(t)
    ||| "📋 已提交 "@.is_prefix_of(content)
    ||| "📨 已向 "@.is_prefix_of(content)
    ||| "⏹️ 已向 "@.is_prefix_of(content)
}

pub fn is_process_only_assistant_message(content: &str) -> (r: bool)
    ensures
        r == process_only_text(content@),
{
    let t = trim_str(content);
    str_eq(t, "🔄 子任务当前轮次已完成") || str_eq(t, "✅ 子任务进程已结束") || str_eq(
        t,
        "⚠️ 子任务进程已失败退出",
    ) || str_eq(t, "⏹️ 子任务进程已取消") || str_eq(
        t,
        "🔄 子任务当前轮次已完成，执行结果已同步供后续分析。",
    ) || str_eq(t, "✅ 子任务进程已结束，执行结果已同步供后续分析。") || str_eq(
        t,
        "⚠️ 子任务进程已失败退出，执行结果已同步供后续分析。",
    ) || str_eq(t, "⏹️ 子任务进程已取消，执行结果已同步供后续分析。") || starts_with(
        t,
        "📋 已自动批准 ",
    ) || starts_with(content, "📋 已提交 ") || starts_with(content, "📨 已向 ") || starts_with(
        content,
        "⏹️ 已向 ",
    )
}

/// A message whose tool calls all only drive sub-task processes.
pub open spec fn plumbing_only_calls(m: ChatMessage) -> bool {
    match m.tool_calls {
        Some(calls) => calls@.len() > 0 && forall|k: int|
            0 <= k < calls@.len() ==> plumbing_tool((#[trigger] calls@[k]).function.name@),
        None => false,
    }
}

pub fn is_process_only_assistant_tool_call(message: &ChatMessage) -> (r: bool)
    ensures
        r == plumbing_only_calls(*message),
{
    match &message.tool_calls {
        None => false,
        Some(calls) => {
            if calls.len() == 0 {
                return false;
            }
            let mut i: usize = 0;
            while i < calls.len()
                invariant
                    i <= calls@.len(),
                    calls@.len() > 0,
                    message.tool_calls == Some(*calls),
                    forall|k: int| 0 <= k < i ==> plumbing_tool((#[trigger] calls@[k]).function.name@),
                decreases calls@.len() - i,
            {
                if !is_dispatch_plumbing_tool_call(&calls[i]) {
                    return false;
                }
                i = i + 1;
            }
            true
        },
    }
}

/// Whether a message goes back to the model: an assistant message that only
/// reports sub-task progress or only drives sub-tasks stays out, and so does
/// the reply of such a tool; everything else goes back.
pub open spec fn keeps_message(m: ChatMessage) -> bool {
    if m.role@ == "assistant"@ {
        !process_only_text(m.content@) && !plumbing_only_calls(m)
    } else if m.role@ == "tool"@ {
        !(match m.name {
            Some(n) => plumbing_tool(n@),
            None => false,
        })
    } else {
        true
    }
}

pub fn should_keep_llm_message(message: &ChatMessage) -> (r: bool)
    ensures
        r == keeps_message(*message),
{
    if str_eq(message.role.as_str(), "assistant") {
        !is_process_only_assistant_message(message.content.as_str())
            && !is_process_only_assistant_tool_call(message)
    } else if str_eq(message.role.as_str(), "tool") {
        match &message.name {
            Some(n) => !is_dispatch_plumbing_tool_name(n.as_str()),
            None => true,
        }
    } else {
        true
    }
}

/// A tool reply goes back to the model exactly when it is not the reply of
/// one of the six tools that drive sub-task processes (a reply without a
/// tool name always goes back); the kept messages are the given messages
/// so judged, in order.
pub proof fn law_tool_replies_kept_unless_process_plumbing(s: Seq<ChatMessage>, i: int)
    requires
        0 <= i < s.len(),
        s[i].role@ == "tool"@,
    ensures
        keeps_message(s[i]) <==> !(s[i].name matches Some(n) && {
            let t = n@;
            ||| t == "dispatch_claude"@
            ||| t == "dispatch_codex"@
            ||| t == "continue_claude_session"@
            ||| t == "continue_codex_session"@
            ||| t == "exit_claude_session"@
            ||| t == "exit_codex_session"@
        }),
        keeps_message(s[i]) ==> kept_messages(s).contains(s[i]),
        forall|k: int| 0 <= k < kept_messages(s).len() ==> s.contains(#[trigger] kept_messages(s)[k]),
{
    broadcast use vstd::seq_lib::group_filter_ensures;
    reveal_strlit("tool");
    reveal_strlit("assistant");
    assert("tool"@ != "assistant"@) by {
        assert("tool"@[0] != "assistant"@[0]);
    }
    let pred = |m: ChatMessage| keeps_message(m);
    if keeps_message(s[i]) {
        s.lemma_filter_contains(pred, i);
    }
    assert forall|k: int| 0 <= k < kept_messages(s).len() implies s.contains(#[trigger] kept_messages(s)[k]) by {
        assert(kept_messages(s).contains(kept_messages(s)[k]));
        s.lemma_filter_contains_rev(pred, kept_messages(s)[k]);
    }
}

/// The kept messages, in order.
pub open spec fn kept_messages(s: Seq<ChatMessage>) -> Seq<ChatMessage> {
    s.filter(|m: ChatMessage| keeps_message(m))
}

/// Index of the first message that is not a tool reply, or the length.
pub open spec fn first_non_tool(s: Seq<ChatMessage>) -> int
    decreases s.len(),
{
    if s.len() == 0 {
        0
    } else if s[0].role@ != "tool"@ {
        0
    } else {
        1 + first_non_tool(s.drop_first())
    }
}

/// The history the model sees: the kept messages, without tool replies at
/// its start.
pub open spec fn llm_history_of(s: Seq<ChatMessage>) -> Seq<ChatMessage> {
    let k = kept_messages(s);
    k.subrange(first_non_tool(k), k.len() as int)
}

proof fn lemma_first_non_tool_bounds(s: Seq<ChatMessage>)
    ensures
        0 <= first_non_tool(s) <= s.len(),
        forall|j: int| 0 <= j < first_non_tool(s) ==> (#[trigger] s[j]).role@ == "tool"@,
        first_non_tool(s) < s.len() ==> s[first_non_tool(s)].role@ != "tool"@,
    decreases s.len(),
{
    if s.len() > 0 && s[0].role@ == "tool"@ {
        let t = s.drop_first();
        lemma_first_non_tool_bounds(t);
        assert forall|j: int| 0 <= j < first_non_tool(s) implies (#[trigger] s[j]).role@
            == "tool"@ by {
            if j > 0 {
                assert(s[j] == t[j - 1]);
            }
        }
    }
}

proof fn lemma_first_non_tool_is(s: Seq<ChatMessage>, i: int)
    requires
        0 <= i <= s.len(),
        forall|j: int| 0 <= j < i ==> (#[trigger] s[j]).role@ == "tool"@,
        i < s.len() ==> s[i].role@ != "tool"@,
    ensures
        first_non_tool(s) == i,
    decreases i,
{
    if i > 0 {
        let t = s.drop_first();
        assert forall|j: int| 0 <= j < i - 1 implies (#[trigger] t[j]).role@ == "tool"@ by {
            assert(t[j] == s[j + 1]);
        }
        if i < s.len() {
            assert(t[i - 1] == s[i]);
        }
        lemma_first_non_tool_is(t, i - 1);
    }
}

proof fn lemma_kept_messages_push(s: Seq<ChatMessage>, m: ChatMessage)
    ensures
        kept_messages(s.push(m)) == if keeps_message(m) {
            kept_messages(s).push(m)
        } else {
            kept_messages(s)
        },
{
    reveal(Seq::filter);
    assert(s.push(m).drop_last() =~= s);
}

/// The model's history from the messages of its window, in order.
pub fn llm_history_from_messages(messages: Vec<ChatMessage>) -> (r: Vec<ChatMessage>)
    ensures
        r@ == llm_history_of(messages@),
{
    let ghost src = messages@;
    let mut kept: Vec<ChatMessage> = Vec::new();
    proof {
        assert(src.take(0) =~= Seq::<ChatMessage>::empty());
        reveal(Seq::filter);
        assert(kept_messages(Seq::<ChatMessage>::empty()) =~= Seq::<ChatMessage>::empty());
    }
    for m in it: messages.into_iter()
        invariant
            it.seq() == src,
            kept@ == kept_messages(src.take(it.index() as int)),
    {
        proof {
            assert(src.take(it.index() + 1) =~= src.take(it.index() as int).push(m));
            lemma_kept_messages_push(src.take(it.index() as int), m);
        }
        if should_keep_llm_message(&m) {
            kept.push(m);
        }
    }
    proof {
        assert(src.take(src.len() as int) =~= src);
    }
    let ghost k = kept@;
    let mut f: usize = 0;
    while f < kept.len() && str_eq(kept[f].role.as_str(), "tool")
        invariant
            kept@ == k,
            f <= k.len(),
            forall|j: int| 0 <= j < f ==> (#[trigger] k[j]).role@ == "tool"@,
        decreases k.len() - f,
    {
        f = f + 1;
    }
    proof {
        lemma_first_non_tool_is(k, f as int);
    }
    kept.split_off(f)
}

/// Where the model's window starts: the earliest of the latest user turns
/// (`rowids` are their row ids, latest first), or the start when there is none.
pub fn dialogue_cutoff_rowid(rowids: &Vec<i64>) -> (r: i64)
    ensures
        rowids@.len() == 0 ==> r == 0,
        rowids@.len() > 0 ==> rowids@.contains(r) && forall|k: int|
            0 <= k < rowids@.len() ==> r <= #[trigger] rowids@[k],
{
    if rowids.len() == 0 {
        return 0;
    }
    let mut best = rowids[0];
    let mut i: usize = 1;
    while i < rowids.len()
        invariant
            1 <= i <= rowids@.len(),
            rowids@.contains(best),
            forall|k: int| 0 <= k < i ==> best <= #[trigger] rowids@[k],
        decreases rowids@.len() - i,
    {
        if rowids[i] < best {
            best = rowids[i];
        }
        i = i + 1;
    }
    best
}

/// How many user turns a dialogue query asks for: between one and the query limit.
pub fn dialogue_query_limit(max_dialogues: usize) -> (r: usize)
    ensures
        r == (if max_dialogues < 1 {
            1
        } else if max_dialogues > MAX_DIALOGUE_QUERY_LIMIT {
            MAX_DIALOGUE_QUERY_LIMIT
        } else {
            max_dialogues
        }),
{
    if max_dialogues < 1 {
        1
    } else if max_dialogues > MAX_DIALOGUE_QUERY_LIMIT {
        MAX_DIALOGUE_QUERY_LIMIT
    } else {
        max_dialogues
    }
}

/// The model's history never starts with a tool reply and holds only kept
/// messages, in their order.
pub proof fn law_history_starts_with_a_turn(s: Seq<ChatMessage>)
    ensures
        llm_history_of(s).len() > 0 ==> llm_history_of(s)[0].role@ != "tool"@,
        forall|j: int|
            0 <= j < llm_history_of(s).len() ==> keeps_message(#[trigger] llm_history_of(s)[j]),
{
    let k = kept_messages(s);
    lemma_first_non_tool_bounds(k);
    assert forall|j: int| 0 <= j < k.len() implies keeps_message(#[trigger] k[j]) by {
        s.lemma_filter_pred(|m: ChatMessage| keeps_message(m), j);
    }
    assert forall|j: int| 0 <= j < llm_history_of(s).len() implies keeps_message(
        #[trigger] llm_history_of(s)[j],
    ) by {
        assert(llm_history_of(s)[j] == k[j + first_non_tool(k)]);
    }
}

} // verus!
