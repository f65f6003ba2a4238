//! The tool-run ledger: one record per tool call, moving one way through its
//! lifecycle, planned, then running, then a terminal status that the first
//! finish settles for good.
use vstd::prelude::*;
use vstd::string::StringExecFns;
use crate::stamps::{new_uuid, now_rfc3339, parse_rfc3339_instant, rfc3339_instant, ClockReading};
use crate::text::{clone_opt, opt_view, str_eq, trim, trim_str};

verus! {

broadcast use vstd::string::group_string_axioms;

/// Origin of a run the model asked for.
pub const TOOL_RUN_ORIGIN_MODEL: &'static str = "model";

/// The columns a run is read with.
pub const TOOL_RUN_SELECT_COLUMNS: &'static str = "r.id, r.workspace_id, r.tool_call_id, r.parent_run_id, r.origin, r.step_id, r.sequence,
     r.tool_name, r.provider, r.category, r.status, r.arguments_json,
     r.effective_arguments_json, r.result_mode, r.message_id, r.error_kind,
     r.error_message, r.action_kind, r.started_at, r.finished_at, r.duration_ms,
     r.metadata_json, r.created_at, r.updated_at";

#[derive(Debug, Clone)]
pub struct DispatcherToolRunRecord {
    pub id: String,
    pub workspace_id: String,
    pub tool_call_id: String,
    pub parent_run_id: Option<String>,
    pub origin: String,
    pub step_id: Option<String>,
    pub sequence: u64,
    pub tool_name: String,
    pub provider: String,
    pub category: String,
    pub status: String,
    pub arguments_json: String,
    pub effective_arguments_json: String,
    pub result_mode: Option<String>,
    pub message_id: Option<String>,
    pub error_kind: Option<String>,
    pub error_message: Option<String>,
    pub action_kind: Option<String>,
    pub started_at: Option<String>,
    pub finished_at: Option<String>,
    pub duration_ms: u64,
    pub metadata_json: String,
    pub created_at: String,
    pub updated_at: String,
}

#[derive(Debug, Clone)]
pub struct NewToolRun {
    pub workspace_id: String,
    pub tool_call_id: String,
    pub tool_name: String,
    pub provider: String,
    pub category: String,
    pub arguments_json: String,
    pub effective_arguments_json: String,
    pub metadata_json: String,
}

/// Where a tool call stands in its call tree; a root call has no parent.
#[derive(Debug, Clone)]
pub struct ToolRunTraceContext {
    pub parent_run_id: Option<String>,
    pub origin: String,
    pub step_id: Option<String>,
    pub sequence: u64,
}

impl Default for ToolRunTraceContext {
    fn default() -> (r: Self)
        ensures
            r.parent_run_id is None,
            r.origin@ == TOOL_RUN_ORIGIN_MODEL@,
            r.step_id is None,
            r.sequence == 0,
    {
        ToolRunTraceContext {
            parent_run_id: None,
            origin: String::from_str(TOOL_RUN_ORIGIN_MODEL),
            step_id: None,
            sequence: 0,
        }
    }
}

/// How a run ended; absent optional fields keep what the run has.
#[derive(Debug, Clone, Default)]
pub struct FinishToolRun {
    pub status: String,
    pub result_mode: Option<String>,
    pub message_id: Option<String>,
    pub error_kind: Option<String>,
    pub error_message: Option<String>,
    pub action_kind: Option<String>,
    pub metadata_json: Option<String>,
}

/// The statuses that end a run.
pub open spec fn terminal_status(s: Seq<char>) -> bool {
    ||| s == "succeeded"@
    ||| s == "recoverable_error"@
    ||| s == "fatal_error"@
    ||| s == "cancelled"@
    ||| s == "failed"@
    ||| s == "internal_error"@
}

pub fn is_terminal_run_status(status: &str) -> (r: bool)
    ensures
        r == terminal_status(status@),
{
    str_eq(status, "succeeded") || str_eq(status, "recoverable_error") || str_eq(
        status,
        "fatal_error",
    ) || str_eq(status, "cancelled") || str_eq(status, "failed") || str_eq(
        status,
        "internal_error",
    )
}

/// A stored run row as the database hands it back.
#[derive(Debug, Clone)]
pub struct ToolRunRow {
    pub id: String,
    pub workspace_id: String,
    pub tool_call_id: String,
    pub parent_run_id: Option<String>,
    pub origin: String,
    pub step_id: Option<String>,
    pub sequence: Option<i64>,
    pub tool_name: String,
    pub provider: String,
    pub category: String,
    pub status: String,
    pub arguments_json: String,
    pub effective_arguments_json: String,
    pub result_mode: Option<String>,
    pub message_id: Option<String>,
    pub error_kind: Option<String>,
    pub error_message: Option<String>,
    pub action_kind: Option<String>,
    pub started_at: Option<String>,
    pub finished_at: Option<String>,
    pub duration_ms: Option<i64>,
    pub metadata_json: String,
    pub created_at: String,
    pub updated_at: String,
}

/// A stored count: missing or negative reads as zero.
pub open spec fn stored_count(v: Option<i64>) -> u64 {
    match v {
        Some(x) => if x < 0 {
            0
        } else {
            x as u64
        },
        None => 0,
    }
}

fn count_from_sql(v: Option<i64>) -> (r: u64)
    ensures
        r == stored_count(v),
{
    match v {
        Some(x) => if x < 0 {
            0
        } else {
            x as u64
        },
        None => 0,
    }
}

/// The run a stored row stands for; a missing or negative duration or
/// sequence reads as zero.
pub fn map_tool_run(row: ToolRunRow) -> (r: DispatcherToolRunRecord)
    ensures
        r.sequence == stored_count(row.sequence),
        r.duration_ms == stored_count(row.duration_ms),
        r.id == row.id,
        r.workspace_id == row.workspace_id,
        r.status == row.status,
        r.started_at == row.started_at,
        r.finished_at == row.finished_at,
        r.result_mode == row.result_mode,
        r.message_id == row.message_id,
        r.error_kind == row.error_kind,
        r.error_message == row.error_message,
        r.action_kind == row.action_kind,
        r.metadata_json == row.metadata_json,
        r.updated_at == row.updated_at,
{
    DispatcherToolRunRecord {
        id: row.id,
        workspace_id: row.workspace_id,
        tool_call_id: row.tool_call_id,
        parent_run_id: row.parent_run_id,
        origin: row.origin,
        step_id: row.step_id,
        sequence: count_from_sql(row.sequence),
        tool_name: row.tool_name,
        provider: row.provider,
        category: row.category,
        status: row.status,
        arguments_json: row.arguments_json,
        effective_arguments_json: row.effective_arguments_json,
        result_mode: row.result_mode,
        message_id: row.message_id,
        error_kind: row.error_kind,
        error_message: row.error_message,
        action_kind: row.action_kind,
        started_at: row.started_at,
        finished_at: row.finished_at,
        duration_ms: count_from_sql(row.duration_ms),
        metadata_json: row.metadata_json,
        created_at: row.created_at,
        updated_at: row.updated_at,
    }
}

/// The lifecycle-relevant state of a run.
pub struct RunState {
    pub status: Seq<char>,
    pub started_at: Option<Seq<char>>,
    pub finished_at: Option<Seq<char>>,
    pub duration_ms: u64,
    pub result_mode: Option<Seq<char>>,
    pub message_id: Option<Seq<char>>,
    pub error_kind: Option<Seq<char>>,
    pub error_message: Option<Seq<char>>,
    pub action_kind: Option<Seq<char>>,
    pub metadata_json: Seq<char>,
    pub updated_at: Seq<char>,
}

/// Everything of a run but its lifecycle state.
pub open spec fn same_identity(a: DispatcherToolRunRecord, b: DispatcherToolRunRecord) -> bool {
    &&& a.id == b.id
    &&& a.workspace_id == b.workspace_id
    &&& a.tool_call_id == b.tool_call_id
    &&& a.parent_run_id == b.parent_run_id
    &&& a.origin == b.origin
    &&& a.step_id == b.step_id
    &&& a.sequence == b.sequence
    &&& a.tool_name == b.tool_name
    &&& a.provider == b.provider
    &&& a.category == b.category
    &&& a.arguments_json == b.arguments_json
    &&& a.effective_arguments_json == b.effective_arguments_json
    &&& a.created_at == b.created_at
}

pub open spec fn run_state(r: DispatcherToolRunRecord) -> RunState {
    RunState {
        status: r.status@,
        started_at: opt_view(r.started_at),
        finished_at: opt_view(r.finished_at),
        duration_ms: r.duration_ms,
        result_mode: opt_view(r.result_mode),
        message_id: opt_view(r.message_id),
        error_kind: opt_view(r.error_kind),
        error_message: opt_view(r.error_message),
        action_kind: opt_view(r.action_kind),
        metadata_json: r.metadata_json@,
        updated_at: r.updated_at@,
    }
}

/// A run once started at `at`: only a planned run moves, to running, keeping
/// a start time it already has.
pub open spec fn started_state(s: RunState, at: Seq<char>) -> RunState {
    if s.status == "planned"@ {
        RunState {
            status: "running"@,
            started_at: match s.started_at {
                Some(t) => Some(t),
                None => Some(at),
            },
            updated_at: at,
            ..s
        }
    } else {
        s
    }
}

/// The new value of an optional field: the given one, or else the old one.
pub open spec fn coalesce(new: Option<Seq<char>>, old: Option<Seq<char>>) -> Option<Seq<char>> {
    match new {
        Some(v) => Some(v),
        None => old,
    }
}

/// A run once finished at `at` after `duration` milliseconds: a terminal run
/// stays as it is; any other takes the finish's status, the finish's optional
/// fields where given (its own otherwise), and the finish time and duration.
pub open spec fn finished_state(s: RunState, f: FinishToolRun, at: Seq<char>, duration: u64) -> RunState {
    if terminal_status(s.status) {
        s
    } else {
        RunState {
            status: f.status@,
            result_mode: coalesce(opt_view(f.result_mode), s.result_mode),
            message_id: coalesce(opt_view(f.message_id), s.message_id),
            error_kind: coalesce(opt_view(f.error_kind), s.error_kind),
            error_message: coalesce(opt_view(f.error_message), s.error_message),
            action_kind: coalesce(opt_view(f.action_kind), s.action_kind),
            finished_at: Some(at),
            duration_ms: duration,
            metadata_json: match f.metadata_json {
                Some(m) => m@,
                None => s.metadata_json,
            },
            updated_at: at,
            ..s
        }
    }
}

/// Marks a planned run as running from `timestamp`; any other run is left as
/// it is, so a run never moves back.
pub fn mark_tool_run_started(run: &mut DispatcherToolRunRecord, timestamp: String)
    ensures
        run_state(*final(run)) == started_state(run_state(*old(run)), timestamp@),
        same_identity(*final(run), *old(run)),
{
    if str_eq(run.status.as_str(), "planned") {
        run.status = String::from_str("running");
        if run.started_at.is_none() {
            run.started_at = Some(timestamp.clone());
        }
        run.updated_at = timestamp;
    }
}

fn coalesce_field(new: Option<String>, old: &Option<String>) -> (r: Option<String>)
    ensures
        opt_view(r) == coalesce(opt_view(new), opt_view(*old)),
{
    match new {
        Some(v) => Some(v),
        None => clone_opt(old),
    }
}

/// Settles a run with `finish` at `finished_at`, after `duration_ms`
/// milliseconds; a run already in a terminal status is left as it is.
pub fn apply_finish(
    run: &mut DispatcherToolRunRecord,
    finish: FinishToolRun,
    finished_at: String,
    duration_ms: u64,
)
    ensures
        run_state(*final(run)) == finished_state(
            run_state(*old(run)),
            finish,
            finished_at@,
            duration_ms,
        ),
        same_identity(*final(run), *old(run)),
{
    if is_terminal_run_status(run.status.as_str()) {
        return;
    }
    let ghost f = finish;
    let FinishToolRun {
        status,
        result_mode,
        message_id,
        error_kind,
        error_message,
        action_kind,
        metadata_json,
    } = finish;
    run.status = status;
    run.result_mode = coalesce_field(result_mode, &run.result_mode);
    run.message_id = coalesce_field(message_id, &run.message_id);
    run.error_kind = coalesce_field(error_kind, &run.error_kind);
    run.error_message = coalesce_field(error_message, &run.error_message);
    run.action_kind = coalesce_field(action_kind, &run.action_kind);
    run.finished_at = Some(finished_at.clone());
    run.duration_ms = duration_ms;
    match metadata_json {
        Some(m) => {
            run.metadata_json = m;
        },
        None => {},
    }
    run.updated_at = finished_at;
}

/// Whole milliseconds from `started` to `finished`, each an instant as whole
/// seconds and nanoseconds; zero when the finish is not after the start or
/// either instant is missing, and at most `i64::MAX`, what the database holds.
pub open spec fn millis_between(started: Option<(i64, u32)>, finished: Option<(i64, u32)>) -> int {
    match (started, finished) {
        (Some(s), Some(f)) => {
            let nanos = (f.0 - s.0) * 1_000_000_000 + (f.1 - s.1);
            if nanos <= 0 {
                0
            } else if nanos / 1_000_000 > i64::MAX {
                i64::MAX as int
            } else {
                nanos / 1_000_000
            }
        },
        _ => 0,
    }
}

/// The duration of a run from its start and finish instants.
pub fn duration_between_ms(started: Option<(i64, u32)>, finished: Option<(i64, u32)>) -> (r: u64)
    ensures
        r == millis_between(started, finished),
{
    match (started, finished) {
        (Some(s), Some(f)) => {
            let nanos: i128 = (f.0 as i128 - s.0 as i128) * 1_000_000_000 + (f.1 as i128
                - s.1 as i128);
            if nanos <= 0 {
                0
            } else {
                let ms = nanos / 1_000_000;
                if ms > i64::MAX as i128 {
                    i64::MAX as u64
                } else {
                    ms as u64
                }
            }
        },
        _ => 0,
    }
}

/// The duration of a run from its stored start time to `finished_at`: zero
/// when there is no start time or either time is not RFC 3339.
pub fn duration_since_started_ms(started_at: Option<&str>, finished_at: &str) -> (r: u64)
    ensures
        r == millis_between(
            match started_at {
                Some(s) => rfc3339_instant(s@),
                None => None,
            },
            rfc3339_instant(finished_at@),
        ),
{
    match started_at {
        None => 0,
        Some(s) => {
            let started = parse_rfc3339_instant(s);
            let finished = parse_rfc3339_instant(finished_at);
            duration_between_ms(started, finished)
        },
    }
}

/// The instant a run started, if it has an RFC 3339 start time.
pub open spec fn start_instant(r: DispatcherToolRunRecord) -> Option<(i64, u32)> {
    match r.started_at {
        Some(s) => rfc3339_instant(s@),
        None => None,
    }
}

/// A run finished with `f` at time `at`, its duration measured from its start.
pub open spec fn finished_at_time(r: DispatcherToolRunRecord, f: FinishToolRun, at: Seq<char>) -> RunState {
    finished_state(
        run_state(r),
        f,
        at,
        millis_between(start_instant(r), rfc3339_instant(at)) as u64,
    )
}

/// Settles a run with `finish` now; a run already in a terminal status is
/// left as it is. The finish time is the time of the call, a reading of the
/// clock that is handed back, and the duration is measured from the run's
/// start time to it.
pub fn finish_tool_run(run: &mut DispatcherToolRunRecord, finish: FinishToolRun) -> (r: Option<ClockReading>)
    ensures
        terminal_status(old(run).status@) ==> *final(run) == *old(run) && r is None,
        !terminal_status(old(run).status@) ==> (r matches Some(at) && run_state(*final(run))
            == finished_at_time(*old(run), finish, at@)),
        !terminal_status(old(run).status@) ==> exists|at: Seq<char>|
            run_state(*final(run)) == #[trigger] finished_at_time(*old(run), finish, at),
        same_identity(*final(run), *old(run)),
{
    if is_terminal_run_status(run.status.as_str()) {
        return None;
    }
    let reading = ClockReading::now();
    let finished_at = String::from_str(reading.text());
    let duration = match &run.started_at {
        Some(s) => duration_since_started_ms(Some(s.as_str()), finished_at.as_str()),
        None => duration_since_started_ms(None, finished_at.as_str()),
    };
    let ghost at = finished_at@;
    let ghost before = *run;
    apply_finish(run, finish, finished_at, duration);
    assert(run_state(*run) == finished_at_time(before, finish, at));
    Some(reading)
}

/// Finishing a run that is not yet terminal records the finish time and the
/// duration from the run's start to it (zero without a start time), takes
/// the finish's status, and keeps the start time; a terminal run keeps its
/// state whatever the finish says.
pub proof fn law_finish_records_time_and_duration(r: DispatcherToolRunRecord, f: FinishToolRun, at: Seq<char>)
    ensures
        !terminal_status(r.status@) ==> {
            &&& finished_at_time(r, f, at).finished_at == Some(at)
            &&& finished_at_time(r, f, at).status == f.status@
            &&& finished_at_time(r, f, at).started_at == opt_view(r.started_at)
            &&& finished_at_time(r, f, at).duration_ms == millis_between(
                start_instant(r),
                rfc3339_instant(at),
            ) as u64
            &&& (r.started_at is None ==> finished_at_time(r, f, at).duration_ms == 0)
        },
        terminal_status(r.status@) ==> finished_at_time(r, f, at) == run_state(r),
{
}

/// Why a new run was refused.
#[derive(Debug, Clone, PartialEq, Eq)]
pub enum ToolRunError {
    EmptyOrigin,
    SequenceOutOfRange,
    ParentNotFound { parent_run_id: String },
    ParentInOtherWorkspace { parent_run_id: String, parent_workspace_id: String, workspace_id: String },
}

pub open spec fn tool_run_error_text(e: ToolRunError) -> Seq<char> {
    match e {
        ToolRunError::EmptyOrigin => "dispatcher tool run origin must not be empty"@,
        ToolRunError::SequenceOutOfRange => "dispatcher tool run sequence exceeds sqlite INTEGER range"@,
        ToolRunError::ParentNotFound { parent_run_id } => "parent dispatcher tool run not found: "@
            + parent_run_id@,
        ToolRunError::ParentInOtherWorkspace { parent_run_id, parent_workspace_id, workspace_id } =>
            "parent dispatcher tool run "@ + parent_run_id@ + " belongs to workspace "@
            + parent_workspace_id@ + ", not "@ + workspace_id@,
    }
}

impl ToolRunError {
    /// The error's message.
    pub fn message(&self) -> (r: String)
        ensures
            r@ == tool_run_error_text(*self),
    {
        match self {
            ToolRunError::EmptyOrigin => String::from_str(
                "dispatcher tool run origin must not be empty",
            ),
            ToolRunError::SequenceOutOfRange => String::from_str(
                "dispatcher tool run sequence exceeds sqlite INTEGER range",
            ),
            ToolRunError::ParentNotFound { parent_run_id } => {
                let mut m = String::from_str("parent dispatcher tool run not found: ");
                m.append(parent_run_id.as_str());
                m
            },
            ToolRunError::ParentInOtherWorkspace {
                parent_run_id,
                parent_workspace_id,
                workspace_id,
            } => {
                let mut m = String::from_str("parent dispatcher tool run ");
                m.append(parent_run_id.as_str());
                m.append(" belongs to workspace ");
                m.append(parent_workspace_id.as_str());
                m.append(", not ");
                m.append(workspace_id.as_str());
                m
            },
        }
    }
}

/// Checks a new run's place in its call tree: the origin must not be blank,
/// the sequence must fit a database integer, and a parent must exist
/// (`parent_workspace_id` is the workspace the parent was found in) and belong
/// to the same workspace.
pub fn validate_tool_run_trace(
    workspace_id: &str,
    trace: &ToolRunTraceContext,
    parent_workspace_id: &Option<String>,
) -> (r: Result<(), ToolRunError>)
    ensures
        trim(trace.origin@).len() == 0 ==> r == Err::<(), ToolRunError>(ToolRunError::EmptyOrigin),
        trim(trace.origin@).len() > 0 && trace.sequence > i64::MAX ==> r == Err::<(), ToolRunError>(
            ToolRunError::SequenceOutOfRange,
        ),
        trim(trace.origin@).len() > 0 && trace.sequence <= i64::MAX ==> match trace.parent_run_id {
            None => r is Ok,
            Some(p) => match parent_workspace_id {
                None => r matches Err(ToolRunError::ParentNotFound { parent_run_id }) && parent_run_id@
                    == p@,
                Some(w) => if w@ == workspace_id@ {
                    r is Ok
                } else {
                    r matches Err(
                        ToolRunError::ParentInOtherWorkspace {
                            parent_run_id,
                            parent_workspace_id,
                            workspace_id: ws,
                        },
                    ) && parent_run_id@ == p@ && parent_workspace_id@ == w@ && ws@ == workspace_id@
                },
            },
        },
{
    let origin = trim_str(trace.origin.as_str());
    if origin.unicode_len() == 0 {
        return Err(ToolRunError::EmptyOrigin);
    }
    if trace.sequence > i64::MAX as u64 {
        return Err(ToolRunError::SequenceOutOfRange);
    }
    match &trace.parent_run_id {
        None => Ok(()),
        Some(p) => match parent_workspace_id {
            None => Err(ToolRunError::ParentNotFound { parent_run_id: p.clone() }),
            Some(w) => if str_eq(w.as_str(), workspace_id) {
                Ok(())
            } else {
                Err(
                    ToolRunError::ParentInOtherWorkspace {
                        parent_run_id: p.clone(),
                        parent_workspace_id: w.clone(),
                        workspace_id: String::from_str(workspace_id),
                    },
                )
            },
        },
    }
}

/// The planned run a new tool call is recorded as, with a fresh identifier
/// and the current time, once its trace passes `validate_tool_run_trace`.
pub fn new_tool_run_record(
    run: NewToolRun,
    trace: ToolRunTraceContext,
    parent_workspace_id: &Option<String>,
) -> (r: Result<DispatcherToolRunRecord, ToolRunError>)
    ensures
        r is Ok <==> validate_tool_run_trace_ok(run.workspace_id@, trace, *parent_workspace_id),
        r matches Ok(rec) ==> {
            &&& rec.id@.len() == 36
            &&& rec.workspace_id == run.workspace_id
            &&& rec.tool_call_id == run.tool_call_id
            &&& rec.parent_run_id == trace.parent_run_id
            &&& rec.origin@ == trim(trace.origin@)
            &&& rec.step_id == trace.step_id
            &&& rec.sequence == trace.sequence
            &&& rec.tool_name == run.tool_name
            &&& rec.provider == run.provider
            &&& rec.category == run.category
            &&& rec.status@ == "planned"@
            &&& rec.arguments_json == run.arguments_json
            &&& rec.effective_arguments_json == run.effective_arguments_json
            &&& rec.metadata_json == run.metadata_json
            &&& rec.result_mode is None && rec.message_id is None && rec.error_kind is None
            &&& rec.error_message is None && rec.action_kind is None
            &&& rec.started_at is None && rec.finished_at is None && rec.duration_ms == 0
            &&& rec.created_at == rec.updated_at
        },
{
    match validate_tool_run_trace(run.workspace_id.as_str(), &trace, parent_workspace_id) {
        Err(e) => Err(e),
        Ok(()) => {
            let timestamp = now_rfc3339();
            let origin = String::from_str(trim_str(trace.origin.as_str()));
            Ok(
                DispatcherToolRunRecord {
                    id: new_uuid(),
                    workspace_id: run.workspace_id,
                    tool_call_id: run.tool_call_id,
                    parent_run_id: trace.parent_run_id,
                    origin,
                    step_id: trace.step_id,
                    sequence: trace.sequence,
                    tool_name: run.tool_name,
                    provider: run.provider,
                    category: run.category,
                    status: String::from_str("planned"),
                    arguments_json: run.arguments_json,
                    effective_arguments_json: run.effective_arguments_json,
                    result_mode: None,
                    message_id: None,
                    error_kind: None,
                    error_message: None,
                    action_kind: None,
                    started_at: None,
                    finished_at: None,
                    duration_ms: 0,
                    metadata_json: run.metadata_json,
                    created_at: timestamp.clone(),
                    updated_at: timestamp,
                },
            )
        },
    }
}

/// Whether `validate_tool_run_trace` accepts the trace.
pub open spec fn validate_tool_run_trace_ok(
    workspace_id: Seq<char>,
    trace: ToolRunTraceContext,
    parent_workspace_id: Option<String>,
) -> bool {
    &&& trim(trace.origin@).len() > 0
    &&& trace.sequence <= i64::MAX
    &&& match trace.parent_run_id {
        None => true,
        Some(_) => match parent_workspace_id {
            None => false,
            Some(w) => w@ == workspace_id,
        },
    }
}

/// A terminal run stays as it is, whatever finish comes after: the first
/// finish settles it for good.
pub proof fn law_terminal_state_is_final(s: RunState, f: FinishToolRun, at: Seq<char>, d: u64)
    requires
        terminal_status(s.status),
    ensures
        finished_state(s, f, at, d) == s,
        started_state(s, at) == s,
{
    reveal_strlit("planned");
    reveal_strlit("succeeded");
    reveal_strlit("recoverable_error");
    reveal_strlit("fatal_error");
    reveal_strlit("cancelled");
    reveal_strlit("failed");
    reveal_strlit("internal_error");
    assert(s.status != "planned"@) by {
        assert("planned"@.len() == 7);
        assert(s.status.len() != 7);
    }
}

/// Starting never moves a run back: only a planned run changes, and a run
/// that is running or settled is left as it is.
pub proof fn law_started_does_not_regress(s: RunState, at: Seq<char>)
    requires
        s.status != "planned"@,
    ensures
        started_state(s, at) == s,
{
}

/// A finish with a terminal status settles a running run; a second finish
/// then changes nothing.
pub proof fn law_second_finish_is_ignored(
    s: RunState,
    first: FinishToolRun,
    second: FinishToolRun,
    at1: Seq<char>,
    at2: Seq<char>,
    d1: u64,
    d2: u64,
)
    requires
        !terminal_status(s.status),
        terminal_status(first.status@),
    ensures
        finished_state(finished_state(s, first, at1, d1), second, at2, d2) == finished_state(
            s,
            first,
            at1,
            d1,
        ),
{
}

/// A finish never clears an optional field that the run already has.
pub proof fn law_finish_keeps_recorded_fields(s: RunState, f: FinishToolRun, at: Seq<char>, d: u64)
    ensures
        s.result_mode is Some ==> finished_state(s, f, at, d).result_mode is Some,
        s.message_id is Some ==> finished_state(s, f, at, d).message_id is Some,
        s.error_kind is Some ==> finished_state(s, f, at, d).error_kind is Some,
        s.error_message is Some ==> finished_state(s, f, at, d).error_message is Some,
        s.action_kind is Some ==> finished_state(s, f, at, d).action_kind is Some,
{
}

/// A duration is never negative, and is zero without a start time.
pub proof fn law_duration_is_nonnegative(started: Option<(i64, u32)>, finished: Option<(i64, u32)>)
    ensures
        millis_between(started, finished) >= 0,
        started is None ==> millis_between(started, finished) == 0,
{
}


/// The message for a run that does not exist.
pub fn tool_run_not_found(run_id: &str) -> (r: String)
    ensures
        r@ == "dispatcher tool run not found: "@ + run_id@,
{
    let mut m = String::from_str("dispatcher tool run not found: ");
    m.append(run_id);
    m
}

} // verus!
