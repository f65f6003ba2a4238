use dispatcher_store::contract::{LlmPromptTokensDetails, LlmUsage};
use dispatcher_store::token_usage::{
    accumulate_token_usage, new_token_usage_contribution, saturating_total_tokens,
    DispatcherSessionTokenUsageRecord, DispatcherSessionTokenUsageSource,
};

fn sample_usage(prompt_tokens: u64, completion_tokens: u64, cached_tokens: u64) -> LlmUsage {
    LlmUsage {
        prompt_tokens,
        completion_tokens,
        total_tokens: prompt_tokens + completion_tokens,
        prompt_tokens_details: Some(LlmPromptTokensDetails { cached_tokens }),
    }
}

/// One upsert: the report's contribution folded into the stored row.
fn upsert(
    stored: Option<DispatcherSessionTokenUsageRecord>,
    workspace_id: &str,
    model: &str,
    source: DispatcherSessionTokenUsageSource,
    usage: &LlmUsage,
) -> DispatcherSessionTokenUsageRecord {
    let contribution = new_token_usage_contribution(
        workspace_id,
        model,
        source,
        usage,
        "2026-05-09T00:00:00Z".to_string(),
    );
    accumulate_token_usage(stored, contribution).expect("counts fit")
}

#[test]
fn session_token_usage_accumulates_per_model_and_source() {
    let workspace_id = "session-usage";
    let first = upsert(
        None,
        workspace_id,
        "deepseek-chat",
        DispatcherSessionTokenUsageSource::Primary,
        &sample_usage(100, 20, 12),
    );
    let primary = upsert(
        Some(first),
        workspace_id,
        "deepseek-chat",
        DispatcherSessionTokenUsageSource::Primary,
        &sample_usage(80, 15, 8),
    );
    let summary = upsert(
        None,
        workspace_id,
        "deepseek-chat",
        DispatcherSessionTokenUsageSource::Summary,
        &sample_usage(30, 5, 3),
    );

    assert_eq!(primary.prompt_tokens, 180);
    assert_eq!(primary.completion_tokens, 35);
    assert_eq!(primary.total_tokens, 215);
    assert_eq!(primary.cached_tokens, 20);
    assert_eq!(primary.context_window_tokens, 80);

    assert_eq!(summary.source_kind, DispatcherSessionTokenUsageSource::Summary);
    assert_eq!(summary.prompt_tokens, 30);
    assert_eq!(summary.total_tokens, 35);
}

#[test]
fn session_token_usage_derives_total_when_provider_omits_it() {
    let usage = LlmUsage {
        prompt_tokens: 12,
        completion_tokens: 3,
        total_tokens: 0,
        prompt_tokens_details: None,
    };
    let record = upsert(
        None,
        "session-usage",
        "minimal-compat-model",
        DispatcherSessionTokenUsageSource::Primary,
        &usage,
    );
    assert_eq!(record.total_tokens, 15);
}

#[test]
fn upsert_recomputes_total_from_prompt_and_completion() {
    let usage = LlmUsage {
        prompt_tokens: 100,
        completion_tokens: 40,
        total_tokens: 999,
        prompt_tokens_details: None,
    };
    let record = upsert(None, "session-a", "model-x", DispatcherSessionTokenUsageSource::Primary, &usage);
    assert_eq!(record.prompt_tokens, 100);
    assert_eq!(record.completion_tokens, 40);
    assert_eq!(record.total_tokens, 140);

    let record = upsert(
        Some(record),
        "session-a",
        "model-x",
        DispatcherSessionTokenUsageSource::Primary,
        &usage,
    );
    assert_eq!(record.prompt_tokens, 200);
    assert_eq!(record.completion_tokens, 80);
    assert_eq!(record.total_tokens, 280);
}

#[test]
fn report_total_saturates() {
    let usage = LlmUsage {
        prompt_tokens: u64::MAX,
        completion_tokens: 5,
        total_tokens: 0,
        prompt_tokens_details: None,
    };
    assert_eq!(saturating_total_tokens(&usage), u64::MAX);
}

#[test]
fn accumulation_refuses_counts_beyond_sqlite_range() {
    let big = LlmUsage {
        prompt_tokens: i64::MAX as u64,
        completion_tokens: 0,
        total_tokens: 0,
        prompt_tokens_details: None,
    };
    let first = upsert(None, "s", "m", DispatcherSessionTokenUsageSource::Primary, &big);
    let contribution = new_token_usage_contribution(
        "s",
        "m",
        DispatcherSessionTokenUsageSource::Primary,
        &sample_usage(1, 0, 0),
        "t".to_string(),
    );
    assert!(accumulate_token_usage(Some(first), contribution).is_none());
}
