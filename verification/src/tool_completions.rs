//! Tool completions: a settled tool's terminal fact, recorded once, replied
//! to its call once, and delivered to the model as an observation once.
use vstd::prelude::*;
use vstd::string::StringExecFns;
use crate::artifacts::{bounded_content, raw_preview, ToolArtifactDraft};
use crate::json_text::{json_string, json_string_text};
use crate::text::{i64_to_decimal, signed_decimal, str_eq};
use crate::tool_runs::{is_terminal_run_status, terminal_status};

verus! {

broadcast use vstd::string::group_string_axioms;

/// A settled tool's completion event.
#[derive(Debug, Clone)]
pub struct ToolCompletion {
    pub event_id: i64,
    pub tool_run_id: String,
    pub tool_name: String,
    pub tool_call_id: String,
    pub dispatch_round: i64,
    pub agent_run_id: String,
    pub scope_id: String,
    pub status: String,
    pub error_kind: Option<String>,
    pub fatal: bool,
    pub retryable: bool,
    pub display_content: String,
    pub context_payload: String,
    pub result_mode: String,
    pub usage_json: Option<String>,
    pub delivery_message_id: Option<String>,
    pub observed_request_step: Option<i64>,
}

/// What a tool reports when it settles.
#[derive(Debug, Clone)]
pub struct CompletionDraft {
    pub tool_run_id: String,
    pub status: String,
    pub error_kind: Option<String>,
    pub fatal: bool,
    pub retryable: bool,
    pub display_content: String,
    pub context_payload: String,
    pub result_mode: String,
    pub usage_json: Option<String>,
    pub artifact: ToolArtifactDraft,
}

/// The ledger state of the run being settled.
#[derive(Debug, Clone)]
pub struct SettlementRun {
    pub status: String,
    pub agent_run_id: Option<String>,
    pub scope_id: Option<String>,
}

/// What settling does.
#[derive(Debug, Clone, PartialEq, Eq)]
pub enum Settlement {
    /// The run already has its completion event: settling again returns it.
    AlreadySettled { event_id: i64 },
    /// Record the completion for the run's agent run and scope.
    Record { agent_run_id: String, scope_id: String },
}

pub open spec fn illegal_status_message(status: Seq<char>) -> Seq<char> {
    "非法工具终态："@ + status
}

pub open spec fn finished_without_event_message(tool_run_id: Seq<char>) -> Seq<char> {
    "工具已终结但没有完成事件："@ + tool_run_id
}

/// Decides a settlement. The status must be terminal; a run that already has
/// its event keeps it (`existing_event`), so settling twice records nothing
/// new; otherwise the run (`run`, as read from the ledger) must still be
/// planned or running, and must belong to an agent run and a scope.
pub fn settlement_decision(
    draft_status: &str,
    tool_run_id: &str,
    existing_event: Option<i64>,
    run: Option<SettlementRun>,
) -> (r: Result<Settlement, String>)
    ensures
        !terminal_status(draft_status@) ==> r is Err && r->Err_0@ == illegal_status_message(
            draft_status@,
        ),
        terminal_status(draft_status@) && existing_event is Some ==> r == Ok::<Settlement, String>(
            Settlement::AlreadySettled { event_id: existing_event->Some_0 },
        ),
        terminal_status(draft_status@) && existing_event is None ==> match run {
            None => r is Err && r->Err_0@ == "读取待结算工具台账"@,
            Some(run) => if !(run.status@ == "planned"@ || run.status@ == "running"@) {
                r is Err && r->Err_0@ == finished_without_event_message(tool_run_id@)
            } else if run.agent_run_id is None {
                r is Err && r->Err_0@ == "工具缺少 agent_run_id"@
            } else if run.scope_id is None {
                r is Err && r->Err_0@ == "工具缺少 scope_id"@
            } else {
                r matches Ok(Settlement::Record { agent_run_id, scope_id }) && agent_run_id
                    == run.agent_run_id->Some_0 && scope_id == run.scope_id->Some_0
            },
        },
{
    if !is_terminal_run_status(draft_status) {
        let mut m = String::from_str("非法工具终态：");
        m.append(draft_status);
        return Err(m);
    }
    if let Some(event_id) = existing_event {
        return Ok(Settlement::AlreadySettled { event_id });
    }
    match run {
        None => Err(String::from_str("读取待结算工具台账")),
        Some(run) => {
            if !(str_eq(run.status.as_str(), "planned") || str_eq(run.status.as_str(), "running")) {
                let mut m = String::from_str("工具已终结但没有完成事件：");
                m.append(tool_run_id);
                return Err(m);
            }
            match (run.agent_run_id, run.scope_id) {
                (None, _) => Err(String::from_str("工具缺少 agent_run_id")),
                (Some(_), None) => Err(String::from_str("工具缺少 scope_id")),
                (Some(agent_run_id), Some(scope_id)) => Ok(
                    Settlement::Record { agent_run_id, scope_id },
                ),
            }
        },
    }
}

/// The failure a run interrupted by a restart settles with: a run that had
/// started has an unknown outcome and is never run again; one that had not
/// started did not run.
pub open spec fn interruption_text(started: bool) -> (Seq<char>, Seq<char>) {
    if started {
        (
            "external_state_unknown"@,
            "应用已重启，已开始的工具未结算，执行结果未知；禁止自动重跑副作用。"@,
        )
    } else {
        ("interrupted_not_started"@, "应用已重启，该工具在实际执行前被中断，未执行。"@)
    }
}

pub open spec fn interruption_payload(task_id: Seq<char>, started: bool) -> Seq<char> {
    "错误："@ + interruption_text(started).1 + " task_id="@ + task_id
}

/// The completion that records a run interrupted by a restart: failed, not
/// fatal, not retryable, with the interruption as its text and raw artifact.
pub fn interrupted_completion_draft(task_id: &str, tool_name: &str, started: bool) -> (r:
    CompletionDraft)
    ensures
        r.tool_run_id@ == task_id@,
        r.status@ == "failed"@,
        r.error_kind.is_some() && r.error_kind->Some_0@ == interruption_text(started).0,
        !r.fatal && !r.retryable,
        r.display_content@ == interruption_payload(task_id@, started),
        r.context_payload@ == interruption_payload(task_id@, started),
        r.result_mode@ == "raw"@,
        r.usage_json is None,
        r.artifact.content@ == bounded_content(interruption_payload(task_id@, started)),
        r.artifact.preview@ == raw_preview(interruption_payload(task_id@, started)),
        r.artifact.title@ == tool_name@ + " 原始结果"@,
{
    let (kind, message) = if started {
        (
            "external_state_unknown",
            "应用已重启，已开始的工具未结算，执行结果未知；禁止自动重跑副作用。",
        )
    } else {
        ("interrupted_not_started", "应用已重启，该工具在实际执行前被中断，未执行。")
    };
    let mut payload = String::from_str("错误：");
    payload.append(message);
    payload.append(" task_id=");
    payload.append(task_id);
    let artifact = ToolArtifactDraft::raw_tool_output(tool_name, payload.as_str());
    CompletionDraft {
        tool_run_id: String::from_str(task_id),
        status: String::from_str("failed"),
        error_kind: Some(String::from_str(kind)),
        fatal: false,
        retryable: false,
        display_content: payload.clone(),
        context_payload: payload,
        result_mode: String::from_str("raw"),
        usage_json: None,
        artifact,
    }
}

/// How a tool call is answered.
#[derive(Debug, Clone)]
pub enum ToolReply {
    /// The call was answered before: the same answer stands.
    Existing { message_id: String },
    /// Answer with this display text, payload and result mode; `immediate`
    /// when it carries the actual result, else the call was accepted.
    Insert { display: String, payload: String, result_mode: String, immediate: bool },
}

/// The body that answers an accepted call.
pub open spec fn accepted_body(task_id: Seq<char>, phase: Seq<char>) -> Seq<char> {
    "{\"state\":"@ + json_string_text(phase) + ",\"status\":\"accepted\",\"task_id\":"@
        + json_string_text(task_id) + "}"@
}

/// Decides the one answer of a tool call: an existing answer stands; with
/// the actual result (`actual`: display, payload, result mode) the call is
/// answered with it; otherwise the call is answered as accepted in its
/// current phase, which it must have.
pub fn tool_reply_decision(
    task_id: &str,
    existing_reply: Option<String>,
    actual: Option<(String, String, String)>,
    phase: Option<String>,
) -> (r: Result<ToolReply, String>)
    ensures
        existing_reply is Some ==> (r matches Ok(ToolReply::Existing { message_id })
            && message_id == existing_reply->Some_0),
        existing_reply is None && actual is Some ==> (r matches Ok(
            ToolReply::Insert { display, payload, result_mode, immediate },
        ) && display == actual->Some_0.0 && payload == actual->Some_0.1 && result_mode
            == actual->Some_0.2 && immediate),
        existing_reply is None && actual is None && phase is None ==> r is Err && r->Err_0@
            == "accepted 任务缺少执行阶段"@,
        existing_reply is None && actual is None && phase is Some ==> (r matches Ok(
            ToolReply::Insert { display, payload, result_mode, immediate },
        ) && display@ == accepted_body(task_id@, phase->Some_0@) && payload@ == display@
            && result_mode@ == "accepted"@ && !immediate),
{
    if let Some(message_id) = existing_reply {
        return Ok(ToolReply::Existing { message_id });
    }
    match actual {
        Some((display, payload, result_mode)) => Ok(
            ToolReply::Insert { display, payload, result_mode, immediate: true },
        ),
        None => match phase {
            None => Err(String::from_str("accepted 任务缺少执行阶段")),
            Some(phase) => {
                let mut body = String::from_str("{\"state\":");
                let p = json_string(phase.as_str());
                body.append(p.as_str());
                body.append(",\"status\":\"accepted\",\"task_id\":");
                let t = json_string(task_id);
                body.append(t.as_str());
                body.append("}");
                Ok(
                    ToolReply::Insert {
                        display: body.clone(),
                        payload: body,
                        result_mode: String::from_str("accepted"),
                        immediate: false,
                    },
                )
            },
        },
    }
}

/// The observation that delivers a late completion to the model.
pub open spec fn observation_body(
    task_id: Seq<char>,
    tool_call_id: Seq<char>,
    status: Seq<char>,
    payload: Seq<char>,
) -> Seq<char> {
    "{\"context_payload\":"@ + json_string_text(payload)
        + ",\"kind\":\"tool_completion\",\"status\":"@ + json_string_text(status)
        + ",\"task_id\":"@ + json_string_text(task_id) + ",\"tool_call_id\":"@ + json_string_text(
        tool_call_id,
    ) + "}"@
}

/// How a completion is delivered.
#[derive(Debug, Clone)]
pub enum Delivery {
    /// Delivered before: the same message stands.
    Existing { message_id: String },
    /// Deliver as a runtime message with this observation.
    Insert { observation: String },
}

/// Decides the one delivery of a completion: an existing delivery stands; a
/// call not answered yet cannot be observed; otherwise the observation
/// carries the task, its call, the status and the payload.
pub fn delivery_decision(
    task_id: &str,
    tool_call_id: &str,
    status: &str,
    payload: &str,
    delivered: Option<String>,
    replied: bool,
) -> (r: Result<Delivery, String>)
    ensures
        delivered is Some ==> (r matches Ok(Delivery::Existing { message_id }) && message_id
            == delivered->Some_0),
        delivered is None && !replied ==> r is Err && r->Err_0@ == "工具调用尚未应答，禁止插入完成观察"@,
        delivered is None && replied ==> (r matches Ok(Delivery::Insert { observation })
            && observation@ == observation_body(task_id@, tool_call_id@, status@, payload@)),
{
    if let Some(message_id) = delivered {
        return Ok(Delivery::Existing { message_id });
    }
    if !replied {
        return Err(String::from_str("工具调用尚未应答，禁止插入完成观察"));
    }
    let mut body = String::from_str("{\"context_payload\":");
    let p = json_string(payload);
    body.append(p.as_str());
    body.append(",\"kind\":\"tool_completion\",\"status\":");
    let s = json_string(status);
    body.append(s.as_str());
    body.append(",\"task_id\":");
    let t = json_string(task_id);
    body.append(t.as_str());
    body.append(",\"tool_call_id\":");
    let c = json_string(tool_call_id);
    body.append(c.as_str());
    body.append("}");
    Ok(Delivery::Insert { observation: body })
}

/// Checks that a model request may confirm the completions it saw: the
/// request number is not negative, and each event (`delivered[k]` tells
/// whether event `events[k]` of this scope was delivered) was delivered.
pub fn observation_check(request_step: i64, events: &Vec<i64>, delivered: &Vec<bool>) -> (r: Result<
    (),
    String,
>)
    requires
        events@.len() == delivered@.len(),
    ensures
        request_step < 0 ==> r is Err && r->Err_0@ == "请求序号不能为负数"@,
        request_step >= 0 && (forall|k: int| 0 <= k < delivered@.len() ==> #[trigger] delivered@[k])
            ==> r is Ok,
        request_step >= 0 && (exists|k: int| 0 <= k < delivered@.len() && !#[trigger] delivered@[k])
            ==> r is Err && exists|k: int|
            0 <= k < delivered@.len() && !#[trigger] delivered@[k] && (forall|j: int|
                0 <= j < k ==> delivered@[j]) && r->Err_0@ == "不能确认未交付或其他 scope 的完成事件："@
                + signed_decimal(events@[k] as int),
{
    if request_step < 0 {
        return Err(String::from_str("请求序号不能为负数"));
    }
    let mut i: usize = 0;
    while i < events.len()
        invariant
            events@.len() == delivered@.len(),
            request_step >= 0,
            i <= events@.len(),
            forall|k: int| 0 <= k < i ==> #[trigger] delivered@[k],
        decreases events@.len() - i,
    {
        if !delivered[i] {
            let mut m = String::from_str("不能确认未交付或其他 scope 的完成事件：");
            let e = i64_to_decimal(events[i]);
            m.append(e.as_str());
            return Err(m);
        }
        i = i + 1;
    }
    Ok(())
}

/// The phases a pending tool task may be in.
pub open spec fn valid_task_phase(phase: Seq<char>) -> bool {
    ||| phase == "queued"@
    ||| phase == "reviewing"@
    ||| phase == "running"@
    ||| phase == "preparing"@
    ||| phase == "cancelling"@
}

pub fn check_tool_task_phase(phase: &str) -> (r: Result<(), String>)
    ensures
        valid_task_phase(phase@) ==> r is Ok,
        !valid_task_phase(phase@) ==> r is Err && r->Err_0@ == "无效工具阶段"@,
{
    if str_eq(phase, "queued") || str_eq(phase, "reviewing") || str_eq(phase, "running") || str_eq(
        phase,
        "preparing",
    ) || str_eq(phase, "cancelling") {
        Ok(())
    } else {
        Err(String::from_str("无效工具阶段"))
    }
}

/// The dispatch round a stored completion reads as; a missing one is round 0.
pub fn completion_dispatch_round(stored: Option<i64>) -> (r: i64)
    ensures
        r == match stored {
            Some(v) => v,
            None => 0,
        },
{
    match stored {
        Some(v) => v,
        None => 0,
    }
}

/// A run as a restart finds it in the ledger.
#[derive(Debug, Clone)]
pub struct LedgerRun {
    pub task_id: String,
    pub tool_name: String,
    pub status: String,
    /// Bound to an agent run and a scope.
    pub bound: bool,
    /// Marked as started before the restart.
    pub started: bool,
    /// Its completion event, once settled.
    pub completion: Option<i64>,
}

/// What recovery reads of a ledger run.
pub struct LedgerRunView {
    pub task_id: Seq<char>,
    pub status: Seq<char>,
    pub bound: bool,
    pub started: bool,
    pub completion: Option<i64>,
}

impl View for LedgerRun {
    type V = LedgerRunView;

    open spec fn view(&self) -> LedgerRunView {
        LedgerRunView {
            task_id: self.task_id@,
            status: self.status@,
            bound: self.bound,
            started: self.started,
            completion: self.completion,
        }
    }
}

/// A restart settles a run as interrupted when it is bound to an agent run
/// and a scope, is still planned or running, and has no completion event.
pub open spec fn needs_recovery(r: LedgerRunView) -> bool {
    &&& r.bound
    &&& (r.status == "planned"@ || r.status == "running"@)
    &&& r.completion is None
}

/// One run a restart settles, by its position in the ledger, with the
/// draft it is settled with.
#[derive(Debug, Clone)]
pub struct RecoveryStep {
    pub run_index: usize,
    pub draft: CompletionDraft,
}

/// The draft settles run `r` as interrupted.
pub open spec fn recovers(d: CompletionDraft, r: LedgerRunView) -> bool {
    &&& d.tool_run_id@ == r.task_id
    &&& d.status@ == "failed"@
    &&& d.error_kind is Some
    &&& d.error_kind->Some_0@ == interruption_text(r.started).0
    &&& !d.fatal
    &&& !d.retryable
    &&& d.context_payload@ == interruption_payload(r.task_id, r.started)
}

/// The runs a restart settles, in ledger order: exactly those that need
/// recovery, each with its interruption draft. Runs that already have a
/// completion are left as they are.
pub fn recovery_steps(runs: &Vec<LedgerRun>) -> (r: Vec<RecoveryStep>)
    ensures
        forall|k: int|
            0 <= k < r@.len() ==> {
                &&& (#[trigger] r@[k]).run_index < runs@.len()
                &&& needs_recovery(runs@[r@[k].run_index as int]@)
                &&& recovers(r@[k].draft, runs@[r@[k].run_index as int]@)
            },
        forall|j: int, k: int| 0 <= j < k < r@.len() ==> r@[j].run_index < r@[k].run_index,
        forall|i: int|
            0 <= i < runs@.len() && needs_recovery(#[trigger] runs@[i]@) ==> exists|k: int|
                0 <= k < r@.len() && r@[k].run_index == i,
{
    let mut out: Vec<RecoveryStep> = Vec::new();
    let n = runs.len();
    for i in 0..n
        invariant
            n == runs@.len(),
            forall|k: int|
                0 <= k < out@.len() ==> {
                    &&& (#[trigger] out@[k]).run_index < i
                    &&& needs_recovery(runs@[out@[k].run_index as int]@)
                    &&& recovers(out@[k].draft, runs@[out@[k].run_index as int]@)
                },
            forall|j: int, k: int| 0 <= j < k < out@.len() ==> out@[j].run_index < out@[k].run_index,
            forall|m: int|
                0 <= m < i && needs_recovery(#[trigger] runs@[m]@) ==> exists|k: int|
                    0 <= k < out@.len() && out@[k].run_index == m,
    {
        let run = &runs[i];
        let live = str_eq(run.status.as_str(), "planned") || str_eq(run.status.as_str(), "running");
        if run.bound && live && run.completion.is_none() {
            let draft = interrupted_completion_draft(run.task_id.as_str(), run.tool_name.as_str(), run.started);
            let ghost before = out@;
            out.push(RecoveryStep { run_index: i, draft });
            proof {
                assert(out@[before.len() as int].run_index == i);
                assert forall|m: int|
                    0 <= m < i + 1 && needs_recovery(#[trigger] runs@[m]@) implies exists|k: int|
                    0 <= k < out@.len() && out@[k].run_index == m by {
                    if m < i {
                        let k0 = choose|k: int| 0 <= k < before.len() && before[k].run_index == m;
                        assert(out@[k0] == before[k0]);
                    } else {
                        assert(out@[before.len() as int].run_index == m);
                    }
                }
            }
        } else {
            proof {
                assert(!needs_recovery(runs@[i as int]@));
            }
        }
    }
    out
}

/// The ledger after a restart settled every run that needed it, run `i`
/// receiving event `events[i]` and the failed status of its draft.
pub open spec fn after_recovery(ledger: Seq<LedgerRunView>, events: Seq<i64>) -> Seq<LedgerRunView> {
    Seq::new(
        ledger.len(),
        |i: int|
            if needs_recovery(ledger[i]) {
                LedgerRunView { status: "failed"@, completion: Some(events[i]), ..ledger[i] }
            } else {
                ledger[i]
            },
    )
}

/// Recovering after a restart is once-only: once the runs it settles have
/// their events, no run needs recovery any more, so recovering again
/// settles nothing; a run that had its completion before keeps it; and
/// every run it settled holds its event and a terminal status, which is
/// what `settlement_decision` answers a further settlement of it with.
pub proof fn law_recovery_is_once_only(ledger: Seq<LedgerRunView>, events: Seq<i64>)
    requires
        events.len() == ledger.len(),
    ensures
        after_recovery(ledger, events).len() == ledger.len(),
        forall|i: int|
            0 <= i < ledger.len() ==> !needs_recovery(#[trigger] after_recovery(ledger, events)[i]),
        forall|i: int|
            0 <= i < ledger.len() && ledger[i].completion is Some ==> #[trigger] after_recovery(
                ledger,
                events,
            )[i] == ledger[i],
        forall|i: int|
            0 <= i < ledger.len() && needs_recovery(ledger[i]) ==> {
                &&& #[trigger] after_recovery(ledger, events)[i].completion == Some(events[i])
                &&& terminal_status(after_recovery(ledger, events)[i].status)
            },
{
    assert forall|i: int| 0 <= i < ledger.len() implies !needs_recovery(
        #[trigger] after_recovery(ledger, events)[i],
    ) by {
        if needs_recovery(ledger[i]) {
            reveal_strlit("failed");
            reveal_strlit("planned");
            reveal_strlit("running");
            assert("failed"@[0] != "planned"@[0]);
            assert("failed"@[0] != "running"@[0]);
        }
    }
}

} // verus!
