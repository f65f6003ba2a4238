//! Per-session token usage: the stored source kinds, how a stored row is read
//! back, and how a provider report accumulates into a session's totals.
use vstd::prelude::*;
use vstd::string::StringExecFns;
use crate::contract::LlmUsage;
use crate::text::{decimal, str_eq, u64_to_decimal};

verus! {

broadcast use vstd::string::group_string_axioms;

/// Context window assumed for every model.
pub const DEFAULT_CONTEXT_WINDOW_CAPACITY_TOKENS: u64 = 1_000_000;

/// The context window capacity recorded for `model`.
pub fn default_context_window_capacity(model: &str) -> (r: u64)
    ensures
        r == DEFAULT_CONTEXT_WINDOW_CAPACITY_TOKENS,
{
    DEFAULT_CONTEXT_WINDOW_CAPACITY_TOKENS
}

#[derive(Debug, Clone, Copy, PartialEq, Eq, Structural)]
pub enum DispatcherSessionTokenUsageSource {
    Primary,
    Summary,
}

pub open spec fn source_text(s: DispatcherSessionTokenUsageSource) -> Seq<char> {
    match s {
        DispatcherSessionTokenUsageSource::Primary => "primary"@,
        DispatcherSessionTokenUsageSource::Summary => "summary"@,
    }
}

pub open spec fn unknown_source_message(value: Seq<char>) -> Seq<char> {
    "未知的 token 用量来源类型："@ + value
}

impl DispatcherSessionTokenUsageSource {
    pub fn as_sql_value(self) -> (r: &'static str)
        ensures
            r@ == source_text(self),
    {
        match self {
            DispatcherSessionTokenUsageSource::Primary => "primary",
            DispatcherSessionTokenUsageSource::Summary => "summary",
        }
    }

    /// Reads a stored source kind; an unknown value is an error, not a default.
    pub fn from_sql_value(value: &str) -> (r: Result<Self, String>)
        ensures
            value@ == "primary"@ ==> r == Ok::<Self, String>(
                DispatcherSessionTokenUsageSource::Primary,
            ),
            value@ == "summary"@ ==> r == Ok::<Self, String>(
                DispatcherSessionTokenUsageSource::Summary,
            ),
            value@ != "primary"@ && value@ != "summary"@ ==> r is Err && r->Err_0@
                == unknown_source_message(value@),
    {
        proof {
            reveal_strlit("primary");
            reveal_strlit("summary");
            assert("primary"@[0] != "summary"@[0]);
        }
        if str_eq(value, "primary") {
            Ok(DispatcherSessionTokenUsageSource::Primary)
        } else if str_eq(value, "summary") {
            Ok(DispatcherSessionTokenUsageSource::Summary)
        } else {
            let mut message = String::from_str("未知的 token 用量来源类型：");
            message.append(value);
            Err(message)
        }
    }
}

#[derive(Debug, Clone)]
pub struct DispatcherSessionTokenUsageRecord {
    pub workspace_id: String,
    pub model: String,
    pub source_kind: DispatcherSessionTokenUsageSource,
    pub prompt_tokens: u64,
    pub completion_tokens: u64,
    pub total_tokens: u64,
    pub cached_tokens: u64,
    pub context_window_tokens: u64,
    pub context_window_capacity: u64,
    pub updated_at: String,
}

/// A stored usage row as the database hands it back.
#[derive(Debug, Clone)]
pub struct TokenUsageRow {
    pub workspace_id: String,
    pub model: String,
    pub source_kind_raw: String,
    pub prompt_tokens: i64,
    pub completion_tokens: i64,
    pub total_tokens: i64,
    pub cached_tokens: i64,
    pub context_window_tokens: i64,
    pub context_window_capacity: i64,
    pub updated_at: String,
}

pub open spec fn clamp_count(v: i64) -> u64 {
    if v < 0 {
        0
    } else {
        v as u64
    }
}

/// A stored count; a negative value is treated as zero.
pub fn u64_from_sql(value: i64) -> (r: u64)
    ensures
        r == clamp_count(value),
{
    if value < 0 {
        0
    } else {
        value as u64
    }
}

pub open spec fn out_of_range_message(field: Seq<char>, value: u64) -> Seq<char> {
    field + " 超出 SQLite INTEGER 范围："@ + decimal(value as nat)
}

/// A count as a database integer; counts beyond `i64::MAX` are refused.
pub fn i64_from_u64(value: u64, field: &str) -> (r: Result<i64, String>)
    ensures
        value <= i64::MAX ==> r == Ok::<i64, String>(value as i64),
        value > i64::MAX ==> r is Err && r->Err_0@ == out_of_range_message(field@, value),
{
    if value <= i64::MAX as u64 {
        Ok(value as i64)
    } else {
        let mut message = String::from_str(field);
        message.append(" 超出 SQLite INTEGER 范围：");
        let digits = u64_to_decimal(value);
        message.append(digits.as_str());
        Err(message)
    }
}

/// The record a stored row stands for, with the given source kind.
pub fn build_token_usage_record(raw: TokenUsageRow, source_kind: DispatcherSessionTokenUsageSource) -> (r:
    DispatcherSessionTokenUsageRecord)
    ensures
        r.workspace_id == raw.workspace_id,
        r.model == raw.model,
        r.source_kind == source_kind,
        r.prompt_tokens == clamp_count(raw.prompt_tokens),
        r.completion_tokens == clamp_count(raw.completion_tokens),
        r.total_tokens == clamp_count(raw.total_tokens),
        r.cached_tokens == clamp_count(raw.cached_tokens),
        r.context_window_tokens == clamp_count(raw.context_window_tokens),
        r.context_window_capacity == clamp_count(raw.context_window_capacity),
        r.updated_at == raw.updated_at,
{
    DispatcherSessionTokenUsageRecord {
        workspace_id: raw.workspace_id,
        model: raw.model,
        source_kind,
        prompt_tokens: u64_from_sql(raw.prompt_tokens),
        completion_tokens: u64_from_sql(raw.completion_tokens),
        total_tokens: u64_from_sql(raw.total_tokens),
        cached_tokens: u64_from_sql(raw.cached_tokens),
        context_window_tokens: u64_from_sql(raw.context_window_tokens),
        context_window_capacity: u64_from_sql(raw.context_window_capacity),
        updated_at: raw.updated_at,
    }
}

/// Reads a row back after this library wrote it: an unknown source kind means
/// the row was damaged, and is an error.
pub fn map_token_usage_record_strict(raw: TokenUsageRow) -> (r: Result<
    DispatcherSessionTokenUsageRecord,
    String,
>)
    ensures
        raw.source_kind_raw@ == "primary"@ ==> r is Ok && r->Ok_0.source_kind
            == DispatcherSessionTokenUsageSource::Primary,
        raw.source_kind_raw@ == "summary"@ ==> r is Ok && r->Ok_0.source_kind
            == DispatcherSessionTokenUsageSource::Summary,
        raw.source_kind_raw@ != "primary"@ && raw.source_kind_raw@ != "summary"@ ==> r is Err
            && r->Err_0@ == unknown_source_message(raw.source_kind_raw@),
        r is Ok ==> r->Ok_0.prompt_tokens == clamp_count(raw.prompt_tokens) && r->Ok_0.total_tokens
            == clamp_count(raw.total_tokens) && r->Ok_0.model == raw.model,
{
    match DispatcherSessionTokenUsageSource::from_sql_value(raw.source_kind_raw.as_str()) {
        Ok(kind) => Ok(build_token_usage_record(raw, kind)),
        Err(message) => Err(message),
    }
}

/// Reads a stored row leniently: an unknown source kind counts as primary, so
/// one damaged row does not hide a session's whole usage list.
pub fn map_token_usage_record_lenient(raw: TokenUsageRow) -> (r: DispatcherSessionTokenUsageRecord)
    ensures
        raw.source_kind_raw@ == "summary"@ ==> r.source_kind
            == DispatcherSessionTokenUsageSource::Summary,
        raw.source_kind_raw@ != "summary"@ ==> r.source_kind
            == DispatcherSessionTokenUsageSource::Primary,
        r.prompt_tokens == clamp_count(raw.prompt_tokens),
        r.completion_tokens == clamp_count(raw.completion_tokens),
        r.total_tokens == clamp_count(raw.total_tokens),
        r.model == raw.model,
{
    let kind = match DispatcherSessionTokenUsageSource::from_sql_value(raw.source_kind_raw.as_str()) {
        Ok(kind) => kind,
        Err(_) => DispatcherSessionTokenUsageSource::Primary,
    };
    build_token_usage_record(raw, kind)
}

/// Total tokens of a report: prompt plus completion, never the provider's own
/// total, saturating at `u64::MAX`.
pub open spec fn usage_total(usage: LlmUsage) -> u64 {
    if usage.prompt_tokens + usage.completion_tokens > u64::MAX {
        u64::MAX
    } else {
        (usage.prompt_tokens + usage.completion_tokens) as u64
    }
}

pub fn saturating_total_tokens(usage: &LlmUsage) -> (r: u64)
    ensures
        r == usage_total(*usage),
{
    usage.prompt_tokens.saturating_add(usage.completion_tokens)
}

/// What one provider report contributes to the stored row of
/// (`workspace_id`, `model`, `source_kind`).
pub fn new_token_usage_contribution(
    workspace_id: &str,
    model: &str,
    source_kind: DispatcherSessionTokenUsageSource,
    usage: &LlmUsage,
    updated_at: String,
) -> (r: DispatcherSessionTokenUsageRecord)
    ensures
        r.workspace_id@ == workspace_id@,
        r.model@ == model@,
        r.source_kind == source_kind,
        r.prompt_tokens == usage.prompt_tokens,
        r.completion_tokens == usage.completion_tokens,
        r.total_tokens == usage_total(*usage),
        r.cached_tokens == usage.spec_cached_tokens(),
        r.context_window_tokens == usage.prompt_tokens,
        r.context_window_capacity == DEFAULT_CONTEXT_WINDOW_CAPACITY_TOKENS,
        r.updated_at == updated_at,
{
    DispatcherSessionTokenUsageRecord {
        workspace_id: String::from_str(workspace_id),
        model: String::from_str(model),
        source_kind,
        prompt_tokens: usage.prompt_tokens,
        completion_tokens: usage.completion_tokens,
        total_tokens: saturating_total_tokens(usage),
        cached_tokens: usage.cached_tokens(),
        context_window_tokens: usage.prompt_tokens,
        context_window_capacity: default_context_window_capacity(model),
        updated_at,
    }
}

/// Whether every count of the record fits a database integer.
pub open spec fn storable(r: DispatcherSessionTokenUsageRecord) -> bool {
    &&& r.prompt_tokens <= i64::MAX
    &&& r.completion_tokens <= i64::MAX
    &&& r.total_tokens <= i64::MAX
    &&& r.cached_tokens <= i64::MAX
    &&& r.context_window_tokens <= i64::MAX
    &&& r.context_window_capacity <= i64::MAX
}

/// Whether adding `incoming` to `existing` keeps every running count in range.
pub open spec fn can_accumulate(
    existing: DispatcherSessionTokenUsageRecord,
    incoming: DispatcherSessionTokenUsageRecord,
) -> bool {
    &&& existing.prompt_tokens + incoming.prompt_tokens <= i64::MAX
    &&& existing.completion_tokens + incoming.completion_tokens <= i64::MAX
    &&& existing.prompt_tokens + incoming.prompt_tokens + existing.completion_tokens
        + incoming.completion_tokens <= i64::MAX
    &&& existing.cached_tokens + incoming.cached_tokens <= i64::MAX
}

/// The stored row after a report: prompt, completion and cached tokens add up,
/// the total is recomputed from the sums, and the context window figures and
/// the time are those of the latest report.
pub open spec fn accumulated(
    existing: DispatcherSessionTokenUsageRecord,
    incoming: DispatcherSessionTokenUsageRecord,
) -> DispatcherSessionTokenUsageRecord {
    DispatcherSessionTokenUsageRecord {
        workspace_id: existing.workspace_id,
        model: existing.model,
        source_kind: existing.source_kind,
        prompt_tokens: (existing.prompt_tokens + incoming.prompt_tokens) as u64,
        completion_tokens: (existing.completion_tokens + incoming.completion_tokens) as u64,
        total_tokens: (existing.prompt_tokens + incoming.prompt_tokens + existing.completion_tokens
            + incoming.completion_tokens) as u64,
        cached_tokens: (existing.cached_tokens + incoming.cached_tokens) as u64,
        context_window_tokens: incoming.context_window_tokens,
        context_window_capacity: incoming.context_window_capacity,
        updated_at: incoming.updated_at,
    }
}

/// Folds a report into the stored row of its key: the first report is stored
/// as it is; a later one adds up as `accumulated` says. `None` when a running
/// count would leave the database's integer range, in which case nothing is
/// stored.
pub fn accumulate_token_usage(
    existing: Option<DispatcherSessionTokenUsageRecord>,
    incoming: DispatcherSessionTokenUsageRecord,
) -> (r: Option<DispatcherSessionTokenUsageRecord>)
    ensures
        existing is None ==> (r is Some <==> storable(incoming)) && (r is Some ==> r->Some_0
            == incoming),
        existing is Some ==> (r is Some <==> (storable(incoming) && can_accumulate(
            existing->Some_0,
            incoming,
        ))) && (r is Some ==> r->Some_0 == accumulated(existing->Some_0, incoming)),
{
    let fits = incoming.prompt_tokens <= i64::MAX as u64 && incoming.completion_tokens
        <= i64::MAX as u64 && incoming.total_tokens <= i64::MAX as u64 && incoming.cached_tokens
        <= i64::MAX as u64 && incoming.context_window_tokens <= i64::MAX as u64
        && incoming.context_window_capacity <= i64::MAX as u64;
    if !fits {
        return None;
    }
    match existing {
        None => Some(incoming),
        Some(old) => {
            let limit = i64::MAX as u64;
            if old.prompt_tokens > limit || old.completion_tokens > limit || old.cached_tokens
                > limit {
                return None;
            }
            if old.prompt_tokens > limit - incoming.prompt_tokens {
                return None;
            }
            let prompt = old.prompt_tokens + incoming.prompt_tokens;
            if old.completion_tokens > limit - incoming.completion_tokens {
                return None;
            }
            let completion = old.completion_tokens + incoming.completion_tokens;
            if prompt > limit - completion {
                return None;
            }
            if old.cached_tokens > limit - incoming.cached_tokens {
                return None;
            }
            Some(
                DispatcherSessionTokenUsageRecord {
                    workspace_id: old.workspace_id,
                    model: old.model,
                    source_kind: old.source_kind,
                    prompt_tokens: prompt,
                    completion_tokens: completion,
                    total_tokens: prompt + completion,
                    cached_tokens: old.cached_tokens + incoming.cached_tokens,
                    context_window_tokens: incoming.context_window_tokens,
                    context_window_capacity: incoming.context_window_capacity,
                    updated_at: incoming.updated_at,
                },
            )
        },
    }
}

/// After any report the stored total is the sum of the stored prompt and
/// completion tokens, whatever total the provider reported.
pub proof fn law_accumulated_total_is_sum(
    existing: DispatcherSessionTokenUsageRecord,
    incoming: DispatcherSessionTokenUsageRecord,
)
    requires
        existing.total_tokens == existing.prompt_tokens + existing.completion_tokens,
        can_accumulate(existing, incoming),
    ensures
        accumulated(existing, incoming).total_tokens == accumulated(existing, incoming).prompt_tokens
            + accumulated(existing, incoming).completion_tokens,
{
}

/// A first report is stored with its total recomputed as prompt plus completion.
pub proof fn law_contribution_total_is_sum(usage: LlmUsage)
    requires
        usage.prompt_tokens + usage.completion_tokens <= u64::MAX,
    ensures
        usage_total(usage) == usage.prompt_tokens + usage.completion_tokens,
{
}

/// Prompt, completion and cached counts only grow; the context window figures
/// are those of the latest report.
pub proof fn law_accumulation_is_monotone(
    existing: DispatcherSessionTokenUsageRecord,
    incoming: DispatcherSessionTokenUsageRecord,
)
    requires
        can_accumulate(existing, incoming),
    ensures
        accumulated(existing, incoming).prompt_tokens >= existing.prompt_tokens,
        accumulated(existing, incoming).completion_tokens >= existing.completion_tokens,
        accumulated(existing, incoming).cached_tokens >= existing.cached_tokens,
        accumulated(existing, incoming).context_window_tokens == incoming.context_window_tokens,
{
}

} // verus!
