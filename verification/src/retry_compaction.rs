//! Compacting a tool retry that succeeded: the failed attempts of the same
//! tool in the current turn are dropped, with their calls in the assistant
//! messages that made them, so that the history keeps only the attempt that
//! worked.
use vstd::prelude::*;
use crate::contract::OutboundToolCall;
use crate::messages::{tool_calls_json, tool_calls_json_text};
use crate::text::{holds_string, is_blank_str, opt_view, starts_with, str_eq, string_views, trim};

verus! {

broadcast use vstd::string::group_string_axioms;

/// How the context of a failed tool attempt, handed back to the model for
/// correction, begins.
pub const TOOL_RETRY_CONTEXT_PREFIX: &'static str = "[工具调用失败，已交回模型修正重试]";

/// What the compaction reads of a stored message.
#[derive(Debug, Clone)]
pub struct StoredMessageRef {
    pub id: String,
    pub rowid: i64,
    pub role: String,
    pub tool_name: Option<String>,
    pub tool_call_id: Option<String>,
    pub context_payload: Option<String>,
}

/// The row of the latest user message, or 0 when there is none: the start
/// of the current turn.
pub open spec fn latest_user_rowid(msgs: Seq<StoredMessageRef>) -> i64
    decreases msgs.len(),
{
    if msgs.len() == 0 {
        0
    } else {
        let rest = latest_user_rowid(msgs.drop_last());
        let m = msgs.last();
        if m.role@ == "user"@ && m.rowid > rest {
            m.rowid
        } else {
            rest
        }
    }
}

/// Whether a message is a failed attempt of the tool in the current turn,
/// made by another call than the one that succeeded.
pub open spec fn is_failed_attempt(
    m: StoredMessageRef,
    tool_name: Seq<char>,
    current_call: Seq<char>,
    cutoff: i64,
    prefix: Seq<char>,
) -> bool {
    &&& m.role@ == "tool"@
    &&& opt_view(m.tool_name) == Some(tool_name)
    &&& m.rowid >= cutoff
    &&& m.tool_call_id matches Some(call) && call@ != current_call
    &&& m.context_payload matches Some(p) && prefix.is_prefix_of(p@)
}

/// The failed attempts, in order.
pub open spec fn failed_attempts(
    msgs: Seq<StoredMessageRef>,
    tool_name: Seq<char>,
    current_call: Seq<char>,
    cutoff: i64,
    prefix: Seq<char>,
) -> Seq<StoredMessageRef> {
    msgs.filter(|m: StoredMessageRef| is_failed_attempt(m, tool_name, current_call, cutoff, prefix))
}

/// What a compaction removes from the tool messages.
#[derive(Debug, Clone)]
pub struct RetryCompactionPlan {
    /// The row where the current turn starts.
    pub cutoff_rowid: i64,
    /// The failed attempts' messages, dropped with their artifacts.
    pub retry_message_ids: Vec<String>,
    /// Their tool calls, dropped from the assistant messages.
    pub failed_call_ids: Vec<String>,
}

fn latest_user_rowid_of(msgs: &Vec<StoredMessageRef>) -> (r: i64)
    ensures
        r == latest_user_rowid(msgs@),
{
    let mut best: i64 = 0;
    let n = msgs.len();
    for i in 0..n
        invariant
            n == msgs@.len(),
            best == latest_user_rowid(msgs@.take(i as int)),
    {
        proof {
            assert(msgs@.take(i + 1).drop_last() =~= msgs@.take(i as int));
        }
        if str_eq(msgs[i].role.as_str(), "user") && msgs[i].rowid > best {
            best = msgs[i].rowid;
        }
    }
    proof {
        assert(msgs@.take(n as int) =~= msgs@);
    }
    best
}

/// Finds the failed attempts of `tool_name` in the current turn, other than
/// the call `current_tool_call_id` that succeeded.
pub fn plan_retry_compaction(
    msgs: &Vec<StoredMessageRef>,
    tool_name: &str,
    current_tool_call_id: &str,
) -> (r: RetryCompactionPlan)
    ensures
        r.cutoff_rowid == latest_user_rowid(msgs@),
        ({
            let failed = failed_attempts(
                msgs@,
                tool_name@,
                current_tool_call_id@,
                r.cutoff_rowid,
                TOOL_RETRY_CONTEXT_PREFIX@,
            );
            &&& string_views(r.retry_message_ids@) == failed.map_values(|m: StoredMessageRef| m.id@)
            &&& string_views(r.failed_call_ids@) == failed.map_values(
                |m: StoredMessageRef| m.tool_call_id->Some_0@,
            )
        }),
{
    let cutoff = latest_user_rowid_of(msgs);
    let ghost prefix = TOOL_RETRY_CONTEXT_PREFIX@;
    let mut ids: Vec<String> = Vec::new();
    let mut calls: Vec<String> = Vec::new();
    let n = msgs.len();
    proof {
        reveal(Seq::filter);
        assert(msgs@.take(0) =~= Seq::<StoredMessageRef>::empty());
    }
    for i in 0..n
        invariant
            n == msgs@.len(),
            prefix == TOOL_RETRY_CONTEXT_PREFIX@,
            string_views(ids@) == failed_attempts(
                msgs@.take(i as int),
                tool_name@,
                current_tool_call_id@,
                cutoff,
                prefix,
            ).map_values(|m: StoredMessageRef| m.id@),
            string_views(calls@) == failed_attempts(
                msgs@.take(i as int),
                tool_name@,
                current_tool_call_id@,
                cutoff,
                prefix,
            ).map_values(|m: StoredMessageRef| m.tool_call_id->Some_0@),
    {
        let m = &msgs[i];
        let ghost before_f = failed_attempts(
            msgs@.take(i as int),
            tool_name@,
            current_tool_call_id@,
            cutoff,
            prefix,
        );
        proof {
            reveal(Seq::filter);
            assert(msgs@.take(i + 1).drop_last() =~= msgs@.take(i as int));
            assert(msgs@.take(i + 1).last() == *m);
        }
        let hit = str_eq(m.role.as_str(), "tool") && match &m.tool_name {
            Some(t) => str_eq(t.as_str(), tool_name),
            None => false,
        } && m.rowid >= cutoff && match &m.tool_call_id {
            Some(c) => !str_eq(c.as_str(), current_tool_call_id),
            None => false,
        } && match &m.context_payload {
            Some(p) => starts_with(p.as_str(), TOOL_RETRY_CONTEXT_PREFIX),
            None => false,
        };
        if hit {
            match &m.tool_call_id {
                Some(c) => {
                    let ghost ids_before = ids@;
                    let ghost calls_before = calls@;
                    ids.push(m.id.clone());
                    calls.push(c.clone());
                    proof {
                        let f = failed_attempts(
                            msgs@.take(i + 1),
                            tool_name@,
                            current_tool_call_id@,
                            cutoff,
                            prefix,
                        );
                        assert(f =~= before_f.push(*m));
                        assert(string_views(ids@) =~= string_views(ids_before).push(m.id@));
                        assert(string_views(calls@) =~= string_views(calls_before).push(c@));
                        assert(f.map_values(|x: StoredMessageRef| x.id@) =~= before_f.map_values(
                            |x: StoredMessageRef| x.id@,
                        ).push(m.id@));
                        assert(f.map_values(|x: StoredMessageRef| x.tool_call_id->Some_0@)
                            =~= before_f.map_values(
                            |x: StoredMessageRef| x.tool_call_id->Some_0@,
                        ).push(c@));
                    }
                },
                None => {},
            }
        } else {
            proof {
                let f = failed_attempts(
                    msgs@.take(i + 1),
                    tool_name@,
                    current_tool_call_id@,
                    cutoff,
                    prefix,
                );
                assert(f =~= before_f);
            }
        }
    }
    proof {
        assert(msgs@.take(n as int) =~= msgs@);
    }
    RetryCompactionPlan { cutoff_rowid: cutoff, retry_message_ids: ids, failed_call_ids: calls }
}

/// What becomes of an assistant message of the current turn.
#[derive(Debug, Clone)]
pub enum AssistantCompaction {
    /// None of its calls failed: it stays as it is.
    Unchanged,
    /// All its calls failed and it says nothing: it is dropped.
    Delete,
    /// Its tool calls become the given stored JSON, or none.
    Rewrite(Option<String>),
}

/// The calls that did not fail, in order.
pub open spec fn surviving_calls(calls: Seq<OutboundToolCall>, failed: Seq<Seq<char>>) -> Seq<
    OutboundToolCall,
> {
    calls.filter(|c: OutboundToolCall| !failed.contains(c.id@))
}

/// Drops the failed calls from an assistant message whose text, as
/// markdown, is `content_markdown`: unchanged when none of its calls failed;
/// dropped when no call is left and its text is blank; otherwise its calls
/// are rewritten to those left (none when none is left).
pub fn compact_assistant_tool_calls(
    calls: Vec<OutboundToolCall>,
    failed: &Vec<String>,
    content_markdown: &str,
) -> (r: AssistantCompaction)
    ensures
        ({
            let kept = surviving_calls(calls@, string_views(failed@));
            if kept.len() == calls@.len() {
                r is Unchanged
            } else if kept.len() == 0 && trim(content_markdown@).len() == 0 {
                r is Delete
            } else if kept.len() == 0 {
                r matches AssistantCompaction::Rewrite(None)
            } else {
                r matches AssistantCompaction::Rewrite(Some(j)) && j@ == tool_calls_json_text(kept)
            }
        }),
{
    let ghost fv = string_views(failed@);
    let mut kept: Vec<OutboundToolCall> = Vec::new();
    let n = calls.len();
    proof {
        reveal(Seq::filter);
        assert(calls@.take(0) =~= Seq::<OutboundToolCall>::empty());
    }
    for i in 0..n
        invariant
            n == calls@.len(),
            fv == string_views(failed@),
            kept@ == surviving_calls(calls@.take(i as int), fv),
    {
        proof {
            reveal(Seq::filter);
            assert(calls@.take(i + 1).drop_last() =~= calls@.take(i as int));
            assert(calls@.take(i + 1).last() == calls@[i as int]);
        }
        if !holds_string(failed, calls[i].id.as_str()) {
            kept.push(calls[i].copy());
        }
    }
    proof {
        assert(calls@.take(n as int) =~= calls@);
    }
    if kept.len() == n {
        AssistantCompaction::Unchanged
    } else if kept.len() == 0 {
        if is_blank_str(content_markdown) {
            AssistantCompaction::Delete
        } else {
            AssistantCompaction::Rewrite(None)
        }
    } else {
        AssistantCompaction::Rewrite(Some(tool_calls_json(&kept)))
    }
}


/// The call that succeeded is never compacted away: its attempt is not among
/// the failed ones, and it stays in any assistant message that made it.
pub proof fn law_successful_call_survives(
    msgs: Seq<StoredMessageRef>,
    tool_name: Seq<char>,
    current_call: Seq<char>,
    cutoff: i64,
    prefix: Seq<char>,
    calls: Seq<OutboundToolCall>,
    k: int,
)
    requires
        0 <= k < calls.len(),
        calls[k].id@ == current_call,
    ensures
        !failed_attempts(msgs, tool_name, current_call, cutoff, prefix).map_values(
            |m: StoredMessageRef| m.tool_call_id->Some_0@,
        ).contains(current_call),
        surviving_calls(
            calls,
            failed_attempts(msgs, tool_name, current_call, cutoff, prefix).map_values(
                |m: StoredMessageRef| m.tool_call_id->Some_0@,
            ),
        ).contains(calls[k]),
{
    let f = failed_attempts(msgs, tool_name, current_call, cutoff, prefix);
    let ids = f.map_values(|m: StoredMessageRef| m.tool_call_id->Some_0@);
    assert forall|j: int| 0 <= j < ids.len() implies ids[j] != current_call by {
        msgs.lemma_filter_pred(
            |m: StoredMessageRef| is_failed_attempt(m, tool_name, current_call, cutoff, prefix),
            j,
        );
    }
    calls.lemma_filter_contains(|c: OutboundToolCall| !ids.contains(c.id@), k);
}

} // verus!
