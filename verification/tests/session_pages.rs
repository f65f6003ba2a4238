use dispatcher_store::sessions::chat_session_page_sql;

#[test]
fn chat_page_query_numbers_its_parameters_in_order() {
    assert_eq!(
        chat_session_page_sql(true, true),
        "SELECT id, title, category, created_at, updated_at FROM chat_sessions WHERE category = ?1 AND (updated_at < ?2 OR (updated_at = ?2 AND id < ?3)) ORDER BY updated_at DESC, id DESC LIMIT ?4"
    );
    assert!(chat_session_page_sql(true, false).ends_with("WHERE category = ?1 ORDER BY updated_at DESC, id DESC LIMIT ?2"));
    assert!(chat_session_page_sql(false, true).contains("WHERE updated_at < ?1 OR (updated_at = ?1 AND id < ?2)"));
    assert!(chat_session_page_sql(false, false).ends_with("FROM chat_sessions ORDER BY updated_at DESC, id DESC LIMIT ?1"));
}
