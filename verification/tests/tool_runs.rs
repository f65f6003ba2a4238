use dispatcher_store::tool_runs::{
    finish_tool_run, is_terminal_run_status, mark_tool_run_started, new_tool_run_record,
    tool_run_not_found, validate_tool_run_trace, DispatcherToolRunRecord, FinishToolRun,
    NewToolRun, ToolRunError, ToolRunTraceContext,
};

fn new_run(workspace_id: &str) -> NewToolRun {
    NewToolRun {
        workspace_id: workspace_id.to_string(),
        tool_call_id: "call-1".to_string(),
        tool_name: "demo_tool".to_string(),
        provider: "builtin".to_string(),
        category: "general".to_string(),
        arguments_json: "{}".to_string(),
        effective_arguments_json: "{}".to_string(),
        metadata_json: "{}".to_string(),
    }
}

fn create(workspace_id: &str) -> DispatcherToolRunRecord {
    new_tool_run_record(new_run(workspace_id), ToolRunTraceContext::default(), &None)
        .expect("create run")
}

fn finish(status: &str) -> FinishToolRun {
    FinishToolRun {
        status: status.to_string(),
        ..Default::default()
    }
}

#[test]
fn finish_advances_lifecycle_and_records_duration() {
    let mut run = create("ws");
    assert_eq!(run.status, "planned");
    assert_eq!(run.id.chars().count(), 36);

    mark_tool_run_started(&mut run, "2026-05-09T00:00:00Z".to_string());
    assert_eq!(run.status, "running");
    assert!(run.started_at.is_some());

    finish_tool_run(&mut run, finish("succeeded"));
    assert_eq!(run.status, "succeeded");
    assert!(run.finished_at.is_some());
    assert!(run.started_at.is_some());
}

#[test]
fn terminal_state_is_not_overwritten_by_second_finish() {
    let mut run = create("ws");
    mark_tool_run_started(&mut run, "2026-05-09T00:00:00Z".to_string());
    finish_tool_run(
        &mut run,
        FinishToolRun {
            status: "recoverable_error".to_string(),
            error_kind: Some("retryable".to_string()),
            error_message: Some("boom".to_string()),
            ..Default::default()
        },
    );
    assert_eq!(run.status, "recoverable_error");
    assert_eq!(run.error_message.as_deref(), Some("boom"));

    finish_tool_run(
        &mut run,
        FinishToolRun {
            status: "succeeded".to_string(),
            error_kind: None,
            error_message: None,
            ..Default::default()
        },
    );
    assert_eq!(run.status, "recoverable_error");
    assert_eq!(run.error_message.as_deref(), Some("boom"));
}

#[test]
fn started_does_not_regress_terminal_state() {
    let mut run = create("ws");
    mark_tool_run_started(&mut run, "2026-05-09T00:00:00Z".to_string());
    finish_tool_run(&mut run, finish("succeeded"));
    mark_tool_run_started(&mut run, "2026-05-09T00:01:00Z".to_string());
    assert_eq!(run.status, "succeeded");
}

#[test]
fn finish_missing_run_errors() {
    assert!(tool_run_not_found("no-such-run").contains("not found"));
    assert_eq!(tool_run_not_found("x"), "dispatcher tool run not found: x");
}

#[test]
fn duration_is_nonnegative_even_with_missing_started_at() {
    let mut run = create("ws");
    finish_tool_run(&mut run, finish("cancelled"));
    assert_eq!(run.status, "cancelled");
    assert_eq!(run.duration_ms, 0);
    assert!(run.started_at.is_none());
}

#[test]
fn failed_and_internal_error_are_terminal() {
    for status in ["failed", "internal_error"] {
        let mut run = create("ws");
        mark_tool_run_started(&mut run, "2026-05-09T00:00:00Z".to_string());
        finish_tool_run(&mut run, finish(status));
        assert_eq!(run.status, status);
        finish_tool_run(&mut run, finish("succeeded"));
        assert_eq!(run.status, status);
    }
}

#[test]
fn cross_workspace_parent_is_refused() {
    let trace = ToolRunTraceContext {
        parent_run_id: Some("parent".to_string()),
        origin: "tool_program".to_string(),
        step_id: None,
        sequence: 1,
    };
    let err = validate_tool_run_trace("ws", &trace, &Some("other".to_string())).unwrap_err();
    assert!(err.message().contains("belongs to workspace"));
    assert_eq!(
        err.message(),
        "parent dispatcher tool run parent belongs to workspace other, not ws"
    );
    assert_eq!(
        validate_tool_run_trace("ws", &trace, &None),
        Err(ToolRunError::ParentNotFound { parent_run_id: "parent".to_string() })
    );
    assert_eq!(validate_tool_run_trace("ws", &trace, &Some("ws".to_string())), Ok(()));
    let blank = ToolRunTraceContext { origin: "  ".to_string(), ..ToolRunTraceContext::default() };
    assert_eq!(validate_tool_run_trace("ws", &blank, &None), Err(ToolRunError::EmptyOrigin));
    let huge = ToolRunTraceContext { sequence: u64::MAX, ..ToolRunTraceContext::default() };
    assert_eq!(
        validate_tool_run_trace("ws", &huge, &None),
        Err(ToolRunError::SequenceOutOfRange)
    );
}

#[test]
fn terminal_statuses_are_recognised() {
    for s in ["succeeded", "recoverable_error", "fatal_error", "cancelled", "failed", "internal_error"] {
        assert!(is_terminal_run_status(s));
    }
    assert!(!is_terminal_run_status("planned"));
    assert!(!is_terminal_run_status("running"));
}

#[test]
fn new_run_echoes_its_request() {
    let run = create("ws");
    assert_eq!(run.workspace_id, "ws");
    assert_eq!(run.tool_call_id, "call-1");
    assert_eq!(run.tool_name, "demo_tool");
    assert_eq!(run.provider, "builtin");
    assert_eq!(run.category, "general");
    assert_eq!(run.arguments_json, "{}");
    assert_eq!(run.origin, "model");
    assert_eq!(run.sequence, 0);
    assert!(run.parent_run_id.is_none());
    assert!(run.started_at.is_none());
}
