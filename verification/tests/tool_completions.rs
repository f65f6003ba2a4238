use dispatcher_store::tool_completions::{
    check_tool_task_phase, delivery_decision, interrupted_completion_draft, observation_check,
    recovery_steps, settlement_decision, tool_reply_decision, Delivery, LedgerRun, Settlement,
    SettlementRun, ToolReply,
};

fn running() -> SettlementRun {
    SettlementRun {
        status: "running".to_string(),
        agent_run_id: Some("root".to_string()),
        scope_id: Some("child".to_string()),
    }
}

#[test]
fn settling_twice_returns_the_first_event() {
    let first = settlement_decision("succeeded", "t1", None, Some(running())).unwrap();
    assert_eq!(
        first,
        Settlement::Record { agent_run_id: "root".to_string(), scope_id: "child".to_string() }
    );
    assert_eq!(
        settlement_decision("succeeded", "t1", Some(7), Some(running())),
        Ok(Settlement::AlreadySettled { event_id: 7 })
    );
}

#[test]
fn settlement_refuses_bad_states() {
    assert_eq!(
        settlement_decision("running", "t1", None, Some(running())),
        Err("非法工具终态：running".to_string())
    );
    let done = SettlementRun { status: "succeeded".to_string(), ..running() };
    assert_eq!(
        settlement_decision("failed", "t1", None, Some(done)),
        Err("工具已终结但没有完成事件：t1".to_string())
    );
    let orphan = SettlementRun { scope_id: None, ..running() };
    assert_eq!(
        settlement_decision("failed", "t1", None, Some(orphan)),
        Err("工具缺少 scope_id".to_string())
    );
}

#[test]
fn restart_records_interruption_without_replaying() {
    let started = interrupted_completion_draft("task-1", "exec", true);
    assert_eq!(started.status, "failed");
    assert_eq!(started.error_kind.as_deref(), Some("external_state_unknown"));
    assert_eq!(
        started.context_payload,
        "错误：应用已重启，已开始的工具未结算，执行结果未知；禁止自动重跑副作用。 task_id=task-1"
    );
    assert!(!started.retryable);
    let queued = interrupted_completion_draft("task-2", "exec", false);
    assert_eq!(queued.error_kind.as_deref(), Some("interrupted_not_started"));
    assert_eq!(queued.display_content, queued.context_payload);
}

#[test]
fn a_call_is_answered_once() {
    match tool_reply_decision("t", Some("m1".to_string()), None, None).unwrap() {
        ToolReply::Existing { message_id } => assert_eq!(message_id, "m1"),
        other => panic!("unexpected {other:?}"),
    }
    match tool_reply_decision("t", None, None, Some("queued".to_string())).unwrap() {
        ToolReply::Insert { display, result_mode, immediate, .. } => {
            assert_eq!(display, "{\"state\":\"queued\",\"status\":\"accepted\",\"task_id\":\"t\"}");
            assert_eq!(result_mode, "accepted");
            assert!(!immediate);
        }
        other => panic!("unexpected {other:?}"),
    }
    assert!(tool_reply_decision("t", None, None, None).is_err());
}

#[test]
fn completion_is_delivered_once_and_only_after_the_reply() {
    assert!(matches!(
        delivery_decision("t", "c", "succeeded", "x", Some("m".to_string()), true),
        Ok(Delivery::Existing { .. })
    ));
    assert!(delivery_decision("t", "c", "succeeded", "x", None, false).is_err());
    match delivery_decision("t", "c", "succeeded", "a\"b", None, true).unwrap() {
        Delivery::Insert { observation } => assert_eq!(
            observation,
            "{\"context_payload\":\"a\\\"b\",\"kind\":\"tool_completion\",\"status\":\"succeeded\",\"task_id\":\"t\",\"tool_call_id\":\"c\"}"
        ),
        other => panic!("unexpected {other:?}"),
    }
}

#[test]
fn phases_and_observations_are_checked() {
    assert!(check_tool_task_phase("queued").is_ok());
    assert!(check_tool_task_phase("sleeping").is_err());
    assert!(observation_check(1, &vec![3, 4], &vec![true, true]).is_ok());
    assert!(observation_check(1, &vec![3, 4], &vec![true, false]).is_err());
    assert!(observation_check(-1, &vec![], &vec![]).is_err());
}

fn ledger_run(id: &str, status: &str, bound: bool, started: bool, completion: Option<i64>) -> LedgerRun {
    LedgerRun {
        task_id: id.to_string(),
        tool_name: "echo".to_string(),
        status: status.to_string(),
        bound,
        started,
        completion,
    }
}

#[test]
fn recovery_settles_only_interrupted_bound_runs_once() {
    let ledger = vec![
        ledger_run("q", "planned", true, false, None),
        ledger_run("p", "running", true, true, None),
        ledger_run("done", "planned", true, false, Some(7)),
        ledger_run("loose", "planned", false, false, None),
        ledger_run("old", "succeeded", true, true, None),
    ];
    let steps = recovery_steps(&ledger);
    assert_eq!(steps.iter().map(|s| s.run_index).collect::<Vec<_>>(), vec![0, 1]);
    assert_eq!(steps[0].draft.tool_run_id, "q");
    assert_eq!(steps[0].draft.status, "failed");
    assert_eq!(steps[0].draft.error_kind.as_deref(), Some("interrupted_not_started"));
    assert_eq!(steps[1].draft.error_kind.as_deref(), Some("external_state_unknown"));
    assert!(!steps[1].draft.fatal && !steps[1].draft.retryable);

    let settled = vec![
        ledger_run("q", "failed", true, false, Some(1)),
        ledger_run("p", "failed", true, true, Some(2)),
        ledger_run("done", "planned", true, false, Some(7)),
        ledger_run("loose", "planned", false, false, None),
        ledger_run("old", "succeeded", true, true, None),
    ];
    assert!(recovery_steps(&settled).is_empty());
}
