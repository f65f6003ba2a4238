//! Truncating a conversation from one message on ("regenerate from here"):
//! which messages, tool runs and sub-agent traces go, and from which instant
//! graph plans are dropped. Token usage, keywords and image files stay.
use vstd::prelude::*;
use crate::stamps::{parse_rfc3339_instant, rfc3339_instant};
use crate::text::{chars_of, holds_string, string_views};

verus! {

broadcast use vstd::string::group_string_axioms;

/// Whether `a` sorts at or after `b` when texts are compared character by
/// character by code point, which for UTF-8 text is SQLite's binary order.
pub open spec fn text_at_least(a: Seq<char>, b: Seq<char>) -> bool
    decreases a.len(),
{
    if b.len() == 0 {
        true
    } else if a.len() == 0 {
        false
    } else if a[0] != b[0] {
        a[0] > b[0]
    } else {
        text_at_least(a.drop_first(), b.drop_first())
    }
}

proof fn lemma_text_at_least_skip(a: Seq<char>, b: Seq<char>, i: int)
    requires
        0 <= i < a.len(),
        i < b.len(),
        a[i] == b[i],
    ensures
        text_at_least(a.skip(i), b.skip(i)) == text_at_least(a.skip(i + 1), b.skip(i + 1)),
{
    assert(a.skip(i).drop_first() =~= a.skip(i + 1));
    assert(b.skip(i).drop_first() =~= b.skip(i + 1));
}

/// Compares two texts as [`text_at_least`] does.
pub fn text_at_least_str(a: &str, b: &str) -> (r: bool)
    ensures
        r == text_at_least(a@, b@),
{
    let x = chars_of(a);
    let y = chars_of(b);
    let mut i: usize = 0;
    proof {
        assert(a@.skip(0) =~= a@);
        assert(b@.skip(0) =~= b@);
    }
    while i < x.len() && i < y.len()
        invariant
            i <= x@.len(),
            i <= y@.len(),
            x@ == a@,
            y@ == b@,
            text_at_least(a@, b@) == text_at_least(a@.skip(i as int), b@.skip(i as int)),
        decreases x@.len() - i,
    {
        if x[i] != y[i] {
            proof {
                assert(a@.skip(i as int)[0] == x@[i as int]);
                assert(b@.skip(i as int)[0] == y@[i as int]);
            }
            return x[i] > y[i];
        }
        proof {
            lemma_text_at_least_skip(a@, b@, i as int);
        }
        i = i + 1;
    }
    i == y.len()
}

/// A message of the conversation, by id and insertion order.
#[derive(Debug, Clone)]
pub struct TruncationMessage {
    pub id: String,
    pub rowid: i64,
}

/// A tool run of the conversation: the message it is bound to, if any, when
/// it was created, and the model's tool call it served.
#[derive(Debug, Clone)]
pub struct TruncationRun {
    pub run_id: String,
    pub message_id: Option<String>,
    pub created_at: String,
    pub tool_call_id: String,
}

/// What a truncation removes.
#[derive(Debug, Clone)]
pub struct TruncationPlan {
    /// The messages from the target on.
    pub removed_message_ids: Vec<String>,
    /// The tool runs that go with them.
    pub removed_run_ids: Vec<String>,
    /// The tool calls of those runs, each once, whose sub-agent traces go.
    pub trace_call_ids: Vec<String>,
    /// Graph plans created at or after this instant (epoch milliseconds) go.
    pub graph_cutoff_ms: i64,
}

/// The ids of the messages at or after the target, in order.
pub open spec fn removed_message_ids(msgs: Seq<TruncationMessage>, target_rowid: i64) -> Seq<
    Seq<char>,
>
    decreases msgs.len(),
{
    if msgs.len() == 0 {
        Seq::empty()
    } else {
        let rest = removed_message_ids(msgs.drop_last(), target_rowid);
        if msgs.last().rowid >= target_rowid {
            rest.push(msgs.last().id@)
        } else {
            rest
        }
    }
}

/// A run goes when it is bound to a removed message, or when it is bound to
/// none and was created at or after the target message.
pub open spec fn run_removed(
    run: TruncationRun,
    removed: Seq<Seq<char>>,
    target_created_at: Seq<char>,
) -> bool {
    match run.message_id {
        Some(m) => removed.contains(m@),
        None => text_at_least(run.created_at@, target_created_at),
    }
}

/// The ids of the runs that go, in order.
pub open spec fn removed_run_ids(
    runs: Seq<TruncationRun>,
    removed: Seq<Seq<char>>,
    target_created_at: Seq<char>,
) -> Seq<Seq<char>>
    decreases runs.len(),
{
    if runs.len() == 0 {
        Seq::empty()
    } else {
        let rest = removed_run_ids(runs.drop_last(), removed, target_created_at);
        if run_removed(runs.last(), removed, target_created_at) {
            rest.push(runs.last().run_id@)
        } else {
            rest
        }
    }
}

/// The tool calls of the runs that go, each at its first occurrence.
pub open spec fn removed_call_ids(
    runs: Seq<TruncationRun>,
    removed: Seq<Seq<char>>,
    target_created_at: Seq<char>,
) -> Seq<Seq<char>>
    decreases runs.len(),
{
    if runs.len() == 0 {
        Seq::empty()
    } else {
        let rest = removed_call_ids(runs.drop_last(), removed, target_created_at);
        let call = runs.last().tool_call_id@;
        if run_removed(runs.last(), removed, target_created_at) && !rest.contains(call) {
            rest.push(call)
        } else {
            rest
        }
    }
}

/// Milliseconds since the epoch of an instant given as seconds and
/// nanoseconds, as `chrono`'s `timestamp_millis` counts them.
pub open spec fn epoch_millis(instant: (i64, u32)) -> int {
    instant.0 * 1000 + (instant.1 / 1_000_000) as int
}

/// The graph-plan cutoff for a target message created at `created_at`:
/// `Some` of its epoch milliseconds, `None` when the text is not RFC 3339.
pub open spec fn graph_cutoff(created_at: Seq<char>) -> Option<int> {
    match rfc3339_instant(created_at) {
        Some(instant) => Some(epoch_millis(instant)),
        None => None,
    }
}

proof fn lemma_removed_ids_member(msgs: Seq<TruncationMessage>, t: i64, x: Seq<char>)
    ensures
        removed_message_ids(msgs, t).contains(x) <==> exists|i: int|
            0 <= i < msgs.len() && msgs[i].rowid >= t && #[trigger] msgs[i].id@ == x,
    decreases msgs.len(),
{
    if msgs.len() > 0 {
        let init = msgs.drop_last();
        lemma_removed_ids_member(init, t, x);
        let rest = removed_message_ids(init, t);
        let whole = removed_message_ids(msgs, t);
        if whole.contains(x) {
            if rest.contains(x) {
                let i = choose|i: int| 0 <= i < init.len() && init[i].rowid >= t && #[trigger] init[i].id@ == x;
                assert(msgs[i] == init[i]);
                assert(msgs[i].id@ == x);
            } else {
                let k = choose|k: int| 0 <= k < whole.len() && whole[k] == x;
                if msgs[msgs.len() - 1].rowid >= t {
                    assert(whole == rest.push(msgs[msgs.len() - 1].id@));
                    if k < rest.len() {
                        assert(rest[k] == x);
                    }
                    assert(msgs[msgs.len() - 1].id@ == x);
                } else {
                    assert(whole == rest);
                }
            }
        }
        if exists|i: int| 0 <= i < msgs.len() && msgs[i].rowid >= t && #[trigger] msgs[i].id@ == x {
            let i = choose|i: int| 0 <= i < msgs.len() && msgs[i].rowid >= t && #[trigger] msgs[i].id@ == x;
            if i < msgs.len() - 1 {
                assert(init[i] == msgs[i]);
                assert(init[i].id@ == x);
                assert(rest.contains(x));
                let k = choose|k: int| 0 <= k < rest.len() && rest[k] == x;
                if msgs[msgs.len() - 1].rowid >= t {
                    assert(whole == rest.push(msgs[msgs.len() - 1].id@));
                    assert(whole[k] == x);
                } else {
                    assert(whole == rest);
                }
            } else {
                assert(removed_message_ids(msgs, t) == rest.push(x));
                assert(removed_message_ids(msgs, t)[rest.len() as int] == x);
            }
        }
    }
}

/// Message ids of a conversation are distinct.
pub open spec fn distinct_message_ids(msgs: Seq<TruncationMessage>) -> bool {
    forall|i: int, j: int| 0 <= i < j < msgs.len() ==> msgs[i].id@ != msgs[j].id@
}

/// Truncating at a message removes exactly that message and those after it:
/// every message before it stays.
pub proof fn law_truncation_removes_from_target_on(msgs: Seq<TruncationMessage>, t: i64, i: int)
    requires
        distinct_message_ids(msgs),
        0 <= i < msgs.len(),
    ensures
        removed_message_ids(msgs, t).contains(msgs[i].id@) <==> msgs[i].rowid >= t,
{
    lemma_removed_ids_member(msgs, t, msgs[i].id@);
    if removed_message_ids(msgs, t).contains(msgs[i].id@) {
        let k = choose|k: int| 0 <= k < msgs.len() && msgs[k].rowid >= t && #[trigger] msgs[k].id@ == msgs[i].id@;
        if k != i {
            if k < i {
                assert(msgs[k].id@ != msgs[i].id@);
            } else {
                assert(msgs[i].id@ != msgs[k].id@);
            }
        }
    }
}

/// A tool run bound to a message that stays is never removed by a
/// truncation, whatever its creation time.
pub proof fn law_runs_of_kept_messages_stay(
    msgs: Seq<TruncationMessage>,
    t: i64,
    i: int,
    run: TruncationRun,
    target_created_at: Seq<char>,
)
    requires
        distinct_message_ids(msgs),
        0 <= i < msgs.len(),
        msgs[i].rowid < t,
        run.message_id matches Some(m) && m@ == msgs[i].id@,
    ensures
        !run_removed(run, removed_message_ids(msgs, t), target_created_at),
{
    law_truncation_removes_from_target_on(msgs, t, i);
}

proof fn lemma_call_ids(runs: Seq<TruncationRun>, removed: Seq<Seq<char>>, tc: Seq<char>, x: Seq<char>)
    ensures
        removed_call_ids(runs, removed, tc).no_duplicates(),
        removed_call_ids(runs, removed, tc).contains(x) <==> exists|j: int|
            0 <= j < runs.len() && run_removed(runs[j], removed, tc) && #[trigger] runs[j].tool_call_id@
                == x,
    decreases runs.len(),
{
    if runs.len() > 0 {
        let init = runs.drop_last();
        lemma_call_ids(init, removed, tc, x);
        let rest = removed_call_ids(init, removed, tc);
        let last = runs[runs.len() - 1];
        let whole = removed_call_ids(runs, removed, tc);
        if run_removed(last, removed, tc) && !rest.contains(last.tool_call_id@) {
            assert(whole == rest.push(last.tool_call_id@));
            assert forall|a: int, b: int| 0 <= a < b < whole.len() implies whole[a] != whole[b] by {
                if b == rest.len() {
                    assert(rest[a] == whole[a]);
                }
            }
            assert(whole[rest.len() as int] == last.tool_call_id@);
        }
        if whole.contains(x) {
            if rest.contains(x) {
                let j = choose|j: int| 0 <= j < init.len() && run_removed(init[j], removed, tc) && #[trigger] init[j].tool_call_id@ == x;
                assert(runs[j] == init[j]);
            } else {
                assert(runs[runs.len() - 1].tool_call_id@ == x);
            }
        }
        if exists|j: int| 0 <= j < runs.len() && run_removed(runs[j], removed, tc) && #[trigger] runs[j].tool_call_id@ == x {
            let j = choose|j: int| 0 <= j < runs.len() && run_removed(runs[j], removed, tc) && #[trigger] runs[j].tool_call_id@ == x;
            if j < runs.len() - 1 {
                assert(init[j] == runs[j]);
                assert(rest.contains(x));
                if !(run_removed(last, removed, tc) && !rest.contains(last.tool_call_id@)) {
                    assert(whole == rest);
                } else {
                    let k = choose|k: int| 0 <= k < rest.len() && rest[k] == x;
                    assert(whole[k] == x);
                }
            } else if rest.contains(x) {
                let k = choose|k: int| 0 <= k < rest.len() && rest[k] == x;
                assert(whole[k] == x);
            } else {
                assert(whole[rest.len() as int] == x);
            }
        }
    }
}

/// The sub-agent traces a truncation drops are those of the removed runs'
/// tool calls, each named once.
pub proof fn law_trace_calls_are_those_of_removed_runs(
    runs: Seq<TruncationRun>,
    removed: Seq<Seq<char>>,
    target_created_at: Seq<char>,
    call: Seq<char>,
)
    ensures
        removed_call_ids(runs, removed, target_created_at).no_duplicates(),
        removed_call_ids(runs, removed, target_created_at).contains(call) <==> exists|j: int|
            0 <= j < runs.len() && run_removed(runs[j], removed, target_created_at)
                && #[trigger] runs[j].tool_call_id@ == call,
{
    lemma_call_ids(runs, removed, target_created_at, call);
}

/// How two texts compare: a text sorts at or after itself and after its own
/// prefixes; at the first differing character the larger character decides;
/// and of any two texts one sorts at or after the other.
pub proof fn law_text_order(a: Seq<char>, b: Seq<char>)
    ensures
        text_at_least(a, a),
        b.is_prefix_of(a) ==> text_at_least(a, b),
        a.len() > 0 && b.len() > 0 && a[0] > b[0] ==> text_at_least(a, b) && !text_at_least(b, a),
        text_at_least(a, b) || text_at_least(b, a),
    decreases a.len(),
{
    if a.len() > 0 {
        law_text_order(a.drop_first(), a.drop_first());
        if b.len() > 0 && a[0] == b[0] {
            law_text_order(a.drop_first(), b.drop_first());
            if b.is_prefix_of(a) {
                assert(b.drop_first().is_prefix_of(a.drop_first())) by {
                    assert forall|k: int| 0 <= k < b.drop_first().len() implies b.drop_first()[k]
                        == a.drop_first()[k] by {
                        assert(b[k + 1] == a[k + 1]);
                    }
                }
            }
        }
        if b.len() > 0 && a[0] != b[0] {
            assert(!b.is_prefix_of(a)) by {
                assert(b[0] != a[0]);
            }
        }
    } else if b.len() > 0 {
        assert(!b.is_prefix_of(a));
    }
}

/// A tool run bound to no message goes exactly when it was created at or
/// after the target message, its creation time sorting at or after the
/// target's; runs created before the target stay.
pub proof fn law_unbound_run_goes_iff_created_since(
    run: TruncationRun,
    removed: Seq<Seq<char>>,
    target_created_at: Seq<char>,
)
    requires
        run.message_id is None,
    ensures
        run_removed(run, removed, target_created_at) <==> text_at_least(run.created_at@, target_created_at),
        text_at_least(target_created_at, run.created_at@) && run.created_at@ != target_created_at
            ==> !run_removed(run, removed, target_created_at),
{
    lemma_text_order_antisymmetric(run.created_at@, target_created_at);
}

proof fn lemma_text_order_antisymmetric(a: Seq<char>, b: Seq<char>)
    ensures
        text_at_least(a, b) && text_at_least(b, a) ==> a == b,
    decreases a.len(),
{
    if a.len() > 0 && b.len() > 0 && a[0] == b[0] {
        lemma_text_order_antisymmetric(a.drop_first(), b.drop_first());
        if text_at_least(a, b) && text_at_least(b, a) {
            assert(a =~= seq![a[0]] + a.drop_first());
            assert(b =~= seq![b[0]] + b.drop_first());
        }
    }
}

proof fn lemma_run_ids_member(runs: Seq<TruncationRun>, removed: Seq<Seq<char>>, tc: Seq<char>, x: Seq<char>)
    ensures
        removed_run_ids(runs, removed, tc).contains(x) <==> exists|j: int|
            0 <= j < runs.len() && run_removed(runs[j], removed, tc) && #[trigger] runs[j].run_id@ == x,
    decreases runs.len(),
{
    if runs.len() > 0 {
        let init = runs.drop_last();
        lemma_run_ids_member(init, removed, tc, x);
        let rest = removed_run_ids(init, removed, tc);
        let whole = removed_run_ids(runs, removed, tc);
        let last = runs[runs.len() - 1];
        if whole.contains(x) {
            if rest.contains(x) {
                let j = choose|j: int| 0 <= j < init.len() && run_removed(init[j], removed, tc) && #[trigger] init[j].run_id@ == x;
                assert(runs[j] == init[j]);
            } else {
                assert(runs[runs.len() - 1].run_id@ == x);
            }
        }
        if exists|j: int| 0 <= j < runs.len() && run_removed(runs[j], removed, tc) && #[trigger] runs[j].run_id@ == x {
            let j = choose|j: int| 0 <= j < runs.len() && run_removed(runs[j], removed, tc) && #[trigger] runs[j].run_id@ == x;
            if j < runs.len() - 1 {
                assert(init[j] == runs[j]);
                assert(rest.contains(x));
                let k = choose|k: int| 0 <= k < rest.len() && rest[k] == x;
                if run_removed(last, removed, tc) {
                    assert(whole == rest.push(last.run_id@));
                    assert(whole[k] == x);
                } else {
                    assert(whole == rest);
                }
            } else {
                assert(whole == rest.push(last.run_id@));
                assert(whole[rest.len() as int] == x);
            }
        }
    }
}

/// The runs a truncation removes: with distinct run ids, a run bound to no
/// message is among them exactly when it was created at or after the target
/// message, and a run bound to a message exactly when that message goes.
pub proof fn law_removed_runs(
    runs: Seq<TruncationRun>,
    removed: Seq<Seq<char>>,
    target_created_at: Seq<char>,
    j: int,
)
    requires
        0 <= j < runs.len(),
        forall|a: int, b: int| 0 <= a < b < runs.len() ==> runs[a].run_id@ != runs[b].run_id@,
    ensures
        runs[j].message_id is None ==> (removed_run_ids(runs, removed, target_created_at).contains(
            runs[j].run_id@,
        ) <==> text_at_least(runs[j].created_at@, target_created_at)),
        runs[j].message_id matches Some(m) ==> (removed_run_ids(runs, removed, target_created_at).contains(
            runs[j].run_id@,
        ) <==> removed.contains(m@)),
{
    lemma_run_ids_member(runs, removed, target_created_at, runs[j].run_id@);
    if removed_run_ids(runs, removed, target_created_at).contains(runs[j].run_id@) {
        let k = choose|k: int| 0 <= k < runs.len() && run_removed(runs[k], removed, target_created_at) && #[trigger] runs[k].run_id@ == runs[j].run_id@;
        if k != j {
            if k < j {
                assert(runs[k].run_id@ != runs[j].run_id@);
            } else {
                assert(runs[j].run_id@ != runs[k].run_id@);
            }
        }
    }
}

/// The epoch milliseconds from which graph plans are dropped; an error names
/// a creation time that cannot be read, and nothing is then truncated.
pub fn graph_cutoff_ms(created_at: &str) -> (r: Result<i64, String>)
    ensures
        match r {
            Ok(ms) => graph_cutoff(created_at@) == Some(ms as int),
            Err(e) => e@ == "parse truncated message created_at "@ + created_at@ && (graph_cutoff(
                created_at@,
            ) is None || !(i64::MIN <= graph_cutoff(created_at@)->Some_0 <= i64::MAX)),
        },
{
    let fail = {
        let mut e = String::from_str("parse truncated message created_at ");
        e.append(created_at);
        e
    };
    match parse_rfc3339_instant(created_at) {
        None => Err(fail),
        Some((secs, nanos)) => {
            let total: i128 = (secs as i128) * 1000 + ((nanos / 1_000_000) as i128);
            if total < (i64::MIN as i128) || total > (i64::MAX as i128) {
                Err(fail)
            } else {
                Ok(total as i64)
            }
        },
    }
}

/// Plans truncating a conversation at the message with `target_rowid`,
/// created at `target_created_at`: the messages from it on go, with the runs
/// bound to them and the unbound runs created since, the sub-agent traces of
/// those runs' tool calls, and the graph plans created since. Fails, removing
/// nothing, when the creation time cannot be read.
pub fn plan_truncation(
    messages: &Vec<TruncationMessage>,
    runs: &Vec<TruncationRun>,
    target_rowid: i64,
    target_created_at: &str,
) -> (r: Result<TruncationPlan, String>)
    ensures
        match r {
            Ok(plan) => {
                let removed = removed_message_ids(messages@, target_rowid);
                &&& string_views(plan.removed_message_ids@) == removed
                &&& string_views(plan.removed_run_ids@) == removed_run_ids(
                    runs@,
                    removed,
                    target_created_at@,
                )
                &&& string_views(plan.trace_call_ids@) == removed_call_ids(
                    runs@,
                    removed,
                    target_created_at@,
                )
                &&& graph_cutoff(target_created_at@) == Some(plan.graph_cutoff_ms as int)
            },
            Err(e) => e@ == "parse truncated message created_at "@ + target_created_at@
                && (graph_cutoff(target_created_at@) is None || !(i64::MIN <= graph_cutoff(
                target_created_at@,
            )->Some_0 <= i64::MAX)),
        },
{
    let cutoff = match graph_cutoff_ms(target_created_at) {
        Ok(ms) => ms,
        Err(e) => return Err(e),
    };
    let mut removed: Vec<String> = Vec::new();
    let n = messages.len();
    for i in 0..n
        invariant
            n == messages@.len(),
            string_views(removed@) == removed_message_ids(messages@.take(i as int), target_rowid),
    {
        proof {
            assert(messages@.take(i + 1).drop_last() =~= messages@.take(i as int));
        }
        let ghost before = removed@;
        if messages[i].rowid >= target_rowid {
            removed.push(messages[i].id.clone());
            proof {
                assert(string_views(removed@) =~= string_views(before).push(messages@[i as int].id@));
            }
        }
    }
    proof {
        assert(messages@.take(n as int) =~= messages@);
    }
    let ghost removed_view = string_views(removed@);
    let mut run_ids: Vec<String> = Vec::new();
    let mut call_ids: Vec<String> = Vec::new();
    let m = runs.len();
    for j in 0..m
        invariant
            m == runs@.len(),
            removed_view == string_views(removed@),
            string_views(run_ids@) == removed_run_ids(
                runs@.take(j as int),
                removed_view,
                target_created_at@,
            ),
            string_views(call_ids@) == removed_call_ids(
                runs@.take(j as int),
                removed_view,
                target_created_at@,
            ),
    {
        proof {
            assert(runs@.take(j + 1).drop_last() =~= runs@.take(j as int));
        }
        let run = &runs[j];
        let goes = match &run.message_id {
            Some(mid) => holds_string(&removed, mid.as_str()),
            None => text_at_least_str(run.created_at.as_str(), target_created_at),
        };
        if goes {
            let ghost runs_before = run_ids@;
            run_ids.push(run.run_id.clone());
            proof {
                assert(string_views(run_ids@) =~= string_views(runs_before).push(run.run_id@));
            }
            if !holds_string(&call_ids, run.tool_call_id.as_str()) {
                let ghost calls_before = call_ids@;
                call_ids.push(run.tool_call_id.clone());
                proof {
                    assert(string_views(call_ids@) =~= string_views(calls_before).push(
                        run.tool_call_id@,
                    ));
                }
            }
        }
    }
    proof {
        assert(runs@.take(m as int) =~= runs@);
    }
    Ok(
        TruncationPlan {
            removed_message_ids: removed,
            removed_run_ids: run_ids,
            trace_call_ids: call_ids,
            graph_cutoff_ms: cutoff,
        },
    )
}

} // verus!
