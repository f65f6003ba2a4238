use dispatcher_store::keywords::{
    escape_like, in_placeholders, keyword_ops, matched_keywords, plan_session_search,
    KeywordActionRequest, KeywordOp,
};
use dispatcher_store::sessions::DispatcherSessionKind;

fn action(kind: &str, keyword: Option<&str>, from: Option<Vec<&str>>, to: Option<&str>) -> KeywordActionRequest {
    KeywordActionRequest {
        action: kind.to_string(),
        keyword: keyword.map(|k| k.to_string()),
        from: from.map(|f| f.into_iter().map(|s| s.to_string()).collect()),
        to: to.map(|t| t.to_string()),
    }
}

#[test]
fn project_search_requires_project_scope() {
    let error = plan_session_search("rust", DispatcherSessionKind::Project, None, 20)
        .expect_err("missing project scope must fail");
    assert!(error.contains("project session search requires project_id"));
}

#[test]
fn session_pages_include_weight_sorted_keywords_and_search_escapes_wildcards() {
    let plan = plan_session_search("%", DispatcherSessionKind::Chat, None, 20)
        .unwrap()
        .expect("a query that is not blank is searched");
    assert_eq!(plan.query, "%");
    assert_eq!(plan.prefix_pattern, "\\%%");
    assert_eq!(plan.contains_pattern, "%\\%%");
    assert_eq!(plan.kind_value, "chat");
    assert!(plan.project_filter.is_none());
}

#[test]
fn blank_query_finds_nothing_and_limit_is_clamped() {
    assert!(plan_session_search("   ", DispatcherSessionKind::Chat, None, 20).unwrap().is_none());
    let plan = plan_session_search(" rust ", DispatcherSessionKind::Project, Some("p1"), 500)
        .unwrap()
        .unwrap();
    assert_eq!(plan.query, "rust");
    assert_eq!(plan.limit, 100);
    assert_eq!(plan.project_filter.as_deref(), Some("p1"));
    assert_eq!(plan.kind_value, "project");
    let plan = plan_session_search("x", DispatcherSessionKind::Chat, None, 0).unwrap().unwrap();
    assert_eq!(plan.limit, 1);
}

#[test]
fn like_escaping_covers_wildcards_and_escape() {
    assert_eq!(escape_like("100% a_b \\"), "100\\% a\\_b \\\\");
    assert_eq!(escape_like("plain"), "plain");
}

#[test]
fn keyword_actions_become_ordered_changes() {
    let actions = vec![
        action("add", Some(" rust "), None, None),
        action("remove", Some("old"), None, None),
        action("merge", None, Some(vec!["a", " ", "b"]), Some(" ab ")),
        action("keep", Some("x"), None, None),
        action("add", Some("   "), None, None),
        action("merge", None, Some(vec!["c"]), Some("  ")),
    ];
    let ops = keyword_ops(&actions);
    assert_eq!(ops.len(), 5);
    assert!(matches!(&ops[0], KeywordOp::Upsert { keyword, action_index: 0 } if keyword == "rust"));
    assert!(matches!(&ops[1], KeywordOp::Delete { keyword } if keyword == "old"));
    assert!(matches!(&ops[2], KeywordOp::Delete { keyword } if keyword == "a"));
    assert!(matches!(&ops[3], KeywordOp::Delete { keyword } if keyword == "b"));
    assert!(matches!(&ops[4], KeywordOp::Upsert { keyword, action_index: 2 } if keyword == "ab"));
}

#[test]
fn keyword_matching_ignores_case() {
    let keywords = vec!["Rust".to_string(), "tokio".to_string(), "RUSTC".to_string()];
    assert_eq!(matched_keywords(&keywords, "rust"), vec!["Rust", "RUSTC"]);
    assert!(matched_keywords(&keywords, "go").is_empty());
}

#[test]
fn placeholders_list_one_mark_per_value() {
    assert_eq!(in_placeholders(0), "");
    assert_eq!(in_placeholders(1), "?");
    assert_eq!(in_placeholders(3), "?, ?, ?");
}
