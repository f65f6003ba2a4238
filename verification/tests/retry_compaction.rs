use dispatcher_store::contract::{FunctionCall, OutboundToolCall};
use dispatcher_store::retry_compaction::{
    compact_assistant_tool_calls, plan_retry_compaction, AssistantCompaction, StoredMessageRef,
    TOOL_RETRY_CONTEXT_PREFIX,
};

fn msg(id: &str, rowid: i64, role: &str, tool: Option<&str>, call: Option<&str>, payload: Option<&str>) -> StoredMessageRef {
    StoredMessageRef {
        id: id.to_string(),
        rowid,
        role: role.to_string(),
        tool_name: tool.map(|s| s.to_string()),
        tool_call_id: call.map(|s| s.to_string()),
        context_payload: payload.map(|s| s.to_string()),
    }
}

fn call(id: &str) -> OutboundToolCall {
    OutboundToolCall {
        id: id.to_string(),
        kind: "function".to_string(),
        function: FunctionCall { name: "exec".to_string(), arguments: "{}".to_string() },
    }
}

#[test]
fn failed_attempts_of_the_current_turn_are_found() {
    let failed = format!("{TOOL_RETRY_CONTEXT_PREFIX} bad args");
    let msgs = vec![
        msg("old-user", 1, "user", None, None, None),
        msg("old-fail", 2, "tool", Some("exec"), Some("c0"), Some(&failed)),
        msg("user", 3, "user", None, None, None),
        msg("fail-1", 4, "tool", Some("exec"), Some("c1"), Some(&failed)),
        msg("other-tool", 5, "tool", Some("read"), Some("c2"), Some(&failed)),
        msg("fine", 6, "tool", Some("exec"), Some("c3"), Some("ok")),
        msg("current", 7, "tool", Some("exec"), Some("c4"), Some(&failed)),
    ];
    let plan = plan_retry_compaction(&msgs, "exec", "c4");
    assert_eq!(plan.cutoff_rowid, 3);
    assert_eq!(plan.retry_message_ids, vec!["fail-1"]);
    assert_eq!(plan.failed_call_ids, vec!["c1"]);
}

#[test]
fn assistant_calls_lose_only_the_failed_ones() {
    let failed = vec!["c1".to_string()];
    assert!(matches!(
        compact_assistant_tool_calls(vec![call("c2")], &failed, ""),
        AssistantCompaction::Unchanged
    ));
    assert!(matches!(
        compact_assistant_tool_calls(vec![call("c1")], &failed, "  "),
        AssistantCompaction::Delete
    ));
    assert!(matches!(
        compact_assistant_tool_calls(vec![call("c1")], &failed, "let me retry"),
        AssistantCompaction::Rewrite(None)
    ));
    match compact_assistant_tool_calls(vec![call("c1"), call("c2")], &failed, "") {
        AssistantCompaction::Rewrite(Some(json)) => assert_eq!(
            json,
            "[{\"id\":\"c2\",\"type\":\"function\",\"function\":{\"name\":\"exec\",\"arguments\":\"{}\"}}]"
        ),
        other => panic!("unexpected {other:?}"),
    }
}

#[test]
fn no_user_message_means_the_whole_history_is_the_turn() {
    let failed = format!("{TOOL_RETRY_CONTEXT_PREFIX}x");
    let msgs = vec![msg("f", 1, "tool", Some("exec"), Some("c1"), Some(&failed))];
    let plan = plan_retry_compaction(&msgs, "exec", "c9");
    assert_eq!(plan.cutoff_rowid, 0);
    assert_eq!(plan.retry_message_ids, vec!["f"]);
}
