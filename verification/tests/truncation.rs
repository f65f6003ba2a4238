use dispatcher_store::truncation::{
    graph_cutoff_ms, plan_truncation, text_at_least_str, TruncationMessage, TruncationRun,
};

fn message(id: &str, rowid: i64) -> TruncationMessage {
    TruncationMessage { id: id.to_string(), rowid }
}

fn run(id: &str, call: &str, message_id: Option<&str>, created_at: &str) -> TruncationRun {
    TruncationRun {
        run_id: id.to_string(),
        message_id: message_id.map(|m| m.to_string()),
        created_at: created_at.to_string(),
        tool_call_id: call.to_string(),
    }
}

#[test]
fn truncate_messages_from_cleans_traces_and_graph_plans() {
    let m2_at = "2026-05-09T10:00:01.000000+00:00";
    let m3_at = "2026-05-09T10:00:02.000000+00:00";
    let m4_at = "2026-05-09T10:00:03.000000+00:00";
    let messages = vec![message("m1", 1), message("m2", 2), message("m3", 3), message("m4", 4)];
    let runs = vec![
        run("run-kept", "call-kept", Some("m2"), m2_at),
        run("run-gone", "call-gone", Some("m4"), m4_at),
        run("run-pending", "call-pending", None, m3_at),
    ];
    let plan = plan_truncation(&messages, &runs, 3, m3_at).expect("truncate");

    assert_eq!(plan.removed_message_ids, vec!["m3", "m4"]);
    assert_eq!(plan.removed_run_ids, vec!["run-gone", "run-pending"]);
    assert_eq!(plan.trace_call_ids, vec!["call-gone", "call-pending"]);

    let target_ms = 1_778_320_802_000_i64;
    assert_eq!(plan.graph_cutoff_ms, target_ms);
    // A plan from an hour before stays; one created after the target goes.
    assert!(target_ms - 3_600_000 < plan.graph_cutoff_ms);
    assert!(target_ms + 1_000 >= plan.graph_cutoff_ms);
}

#[test]
fn unreadable_creation_time_refuses_truncation() {
    let err = plan_truncation(&vec![message("m1", 1)], &vec![], 1, "yesterday").unwrap_err();
    assert_eq!(err, "parse truncated message created_at yesterday");
}

#[test]
fn cutoff_counts_milliseconds_of_the_offset_instant() {
    assert_eq!(graph_cutoff_ms("1970-01-01T00:00:01.250Z"), Ok(1_250));
    assert_eq!(graph_cutoff_ms("1970-01-01T08:00:00+08:00"), Ok(0));
    assert_eq!(graph_cutoff_ms("1969-12-31T23:59:59.500Z"), Ok(-500));
}

#[test]
fn repeated_tool_calls_are_named_once() {
    let runs = vec![
        run("r1", "call-x", Some("m2"), "b"),
        run("r2", "call-x", Some("m2"), "b"),
        run("r3", "call-y", Some("m1"), "a"),
    ];
    let messages = vec![message("m1", 1), message("m2", 2)];
    let plan = plan_truncation(&messages, &runs, 2, "2026-01-01T00:00:00Z").unwrap();
    assert_eq!(plan.removed_run_ids, vec!["r1", "r2"]);
    assert_eq!(plan.trace_call_ids, vec!["call-x"]);
}

#[test]
fn text_order_is_by_code_point() {
    assert!(text_at_least_str("b", "a"));
    assert!(text_at_least_str("ab", "ab"));
    assert!(text_at_least_str("abc", "ab"));
    assert!(!text_at_least_str("ab", "abc"));
    assert!(!text_at_least_str("2026-05-09T10", "2026-05-09T11"));
    assert!(text_at_least_str("x", ""));
}
