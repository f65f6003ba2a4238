use dispatcher_store::debug_log::{
    needs_rotation, render_log_entry, ContextDebugLogger, DebugSection, MAX_DEBUG_LOG_BYTES,
};

#[test]
fn entry_lists_time_event_metadata_and_sections() {
    let text = render_log_entry(
        "2026-05-09T00:00:00Z",
        "request",
        &vec![("model".to_string(), "m".to_string())],
        &vec![
            DebugSection::new("提示".to_string(), "body".to_string()),
            DebugSection::new("结果".to_string(), "done\n".to_string()),
        ],
    );
    let expected = format!(
        "\n{}\n时间：2026-05-09T00:00:00Z\n事件：request\n元数据：\n- model：m\n\n【提示】\nbody\n\n\n【结果】\ndone\n\n",
        "=".repeat(96)
    );
    assert_eq!(text, expected);
}

#[test]
fn entry_without_metadata_has_no_heading() {
    let text = render_log_entry("t", "e", &vec![], &vec![]);
    assert_eq!(text, format!("\n{}\n时间：t\n事件：e\n", "=".repeat(96)));
}

#[test]
fn log_rolls_over_past_ten_megabytes() {
    assert_eq!(MAX_DEBUG_LOG_BYTES, 10 * 1024 * 1024);
    assert!(!needs_rotation(MAX_DEBUG_LOG_BYTES));
    assert!(needs_rotation(MAX_DEBUG_LOG_BYTES + 1));
}

#[test]
fn logger_keeps_its_switch_and_root() {
    let logger = ContextDebugLogger::new(true, "/repo".to_string());
    assert!(logger.enabled());
    assert_eq!(logger.project_root(), "/repo");
    assert!(!ContextDebugLogger::new(false, String::new()).enabled());
}
