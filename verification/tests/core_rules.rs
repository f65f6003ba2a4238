use dispatcher_store::content::{segments_to_llm_content_parts, segments_to_markdown, segments_to_plain_text, ContentSegment};
use dispatcher_store::contract::{ChatMessage, ChatMessageContentPart, FunctionCall, OutboundToolCall};
use dispatcher_store::json_text::{json_string, json_string_array};
use dispatcher_store::llm_history::{
    dialogue_cutoff_rowid, is_process_only_assistant_message, llm_history_from_messages,
};
use dispatcher_store::model_config::{normalize_model_configs, DispatcherModelConfig};
use dispatcher_store::runtime_state::{
    attach_checklist_subprocess, clear_checklist_dispatch, ChecklistPlanItem, ChecklistPlanState,
    ChecklistStepStatus,
};

fn config(model: &str, active: bool) -> DispatcherModelConfig {
    let mut c = DispatcherModelConfig::new("https://x/v1", "k", model);
    c.active = active;
    c
}

#[test]
fn normalising_keeps_exactly_one_active_entry() {
    let out = normalize_model_configs(vec![config("a", false), config("b", true), config("c", true)]);
    let active: Vec<bool> = out.iter().map(|c| c.active).collect();
    assert_eq!(active, vec![false, true, false]);
    let again = normalize_model_configs(out.clone());
    let again_active: Vec<bool> = again.iter().map(|c| c.active).collect();
    assert_eq!(again_active, active);
    let none = normalize_model_configs(vec![config("a", false), config("b", false)]);
    assert!(none[0].active && !none[1].active);
}

fn msg(role: &str, content: &str) -> ChatMessage {
    ChatMessage {
        role: role.to_string(),
        content: content.to_string(),
        content_parts: vec![],
        reasoning_content: None,
        tool_calls: None,
        tool_call_id: None,
        name: None,
    }
}

#[test]
fn history_never_starts_with_a_tool_reply_and_drops_progress_notes() {
    let mut plumbing = msg("assistant", "");
    plumbing.tool_calls = Some(vec![OutboundToolCall {
        id: "c".to_string(),
        kind: "function".to_string(),
        function: FunctionCall { name: "dispatch_codex".to_string(), arguments: "{}".to_string() },
    }]);
    let history = llm_history_from_messages(vec![
        msg("tool", "orphan reply"),
        msg("user", "hi"),
        msg("assistant", "✅ 子任务进程已结束"),
        plumbing,
        msg("assistant", "answer"),
    ]);
    let roles: Vec<&str> = history.iter().map(|m| m.role.as_str()).collect();
    assert_eq!(roles, vec!["user", "assistant"]);
    assert_eq!(history[1].content, "answer");
    assert!(is_process_only_assistant_message("  ⏹️ 子任务进程已取消 "));
    assert!(!is_process_only_assistant_message("普通回答"));
}

#[test]
fn dialogue_cutoff_is_the_oldest_of_the_kept_user_turns() {
    assert_eq!(dialogue_cutoff_rowid(&vec![]), 0);
    assert_eq!(dialogue_cutoff_rowid(&vec![9, 3, 7]), 3);
}

fn step(id: &str, dispatch: Option<&str>) -> ChecklistPlanItem {
    ChecklistPlanItem {
        id: Some(id.to_string()),
        step: format!("step {id}"),
        status: ChecklistStepStatus::Pending,
        agent: None,
        dispatch_id: dispatch.map(|d| d.to_string()),
        subprocess_task_id: None,
        detail: None,
    }
}

#[test]
fn attaching_then_clearing_a_dispatch_releases_its_step() {
    let mut plan = ChecklistPlanState {
        explanation: Some("plan".to_string()),
        items: vec![step("1", None), step("2", Some("d1")), step("3", Some("d1"))],
        updated_at: "t0".to_string(),
    };
    assert!(attach_checklist_subprocess(&mut plan, "d1", "task-9", "t1".to_string()));
    assert_eq!(plan.items[1].subprocess_task_id.as_deref(), Some("task-9"));
    assert!(matches!(plan.items[1].status, ChecklistStepStatus::InProgress));
    assert!(plan.items[2].subprocess_task_id.is_none());
    assert_eq!(plan.updated_at, "t1");
    assert!(!attach_checklist_subprocess(&mut plan, "nope", "x", "t2".to_string()));
    assert_eq!(plan.updated_at, "t1");

    assert!(clear_checklist_dispatch(&mut plan, "d1", "t3".to_string()));
    assert!(plan.items.iter().all(|i| i.dispatch_id.is_none()));
    assert_eq!(plan.updated_at, "t3");
    assert!(!clear_checklist_dispatch(&mut plan, "d1", "t4".to_string()));
    assert_eq!(plan.updated_at, "t3");
}

fn image(id: &str) -> ContentSegment {
    ContentSegment::Image {
        id: "s".to_string(),
        image_id: id.to_string(),
        alt: None,
        width: None,
        height: None,
        mime_type: None,
        source: "paste".to_string(),
        generation_prompt: None,
    }
}

#[test]
fn image_only_segment_produces_markdown_content() {
    let segments = vec![image("img-1")];
    let markdown = segments_to_markdown(&segments);
    assert!(markdown.contains("chat-image://img-1"));
    assert!(!markdown.trim().is_empty());
}

#[test]
fn image_reference_note_follows_user_images_only() {
    let segments = vec![
        ContentSegment::Text { id: "t".to_string(), text: "看这个".to_string() },
        image("img-2"),
    ];
    let user = segments_to_llm_content_parts("user", &segments);
    assert_eq!(user.len(), 3);
    assert!(matches!(&user[2], ChatMessageContentPart::Text { text } if text.contains("chat-image://img-2")));
    let assistant = segments_to_llm_content_parts("assistant", &segments);
    assert!(assistant.is_empty());
    assert_eq!(segments_to_plain_text(&segments), "看这个");
}

#[test]
fn json_strings_are_escaped_like_serde_json() {
    assert_eq!(json_string("a\"b\\c\n\u{1}"), "\"a\\\"b\\\\c\\n\\u0001\"");
    assert_eq!(json_string_array(&vec!["x", "y"]), "[\"x\",\"y\"]");
    assert_eq!(json_string_array(&vec![]), "[]");
}
