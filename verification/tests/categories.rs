use dispatcher_store::categories::{
    agent_config_from_row, agent_config_repair, default_chat_category_agent_config,
    new_category_agent_config, parse_category_json_list, AgentConfigRepair,
    ChatCategoryAgentConfigRow,
};

#[test]
fn creating_category_can_override_agent_config() {
    let defaults = default_chat_category_agent_config("custom-id", None, "plain prompt");
    let (tools, prompt) = new_category_agent_config(
        defaults,
        Some(vec!["browser_read_text".to_string()]),
        Some("custom prompt"),
    );
    assert_eq!(prompt, "custom prompt");
    assert_eq!(parse_category_json_list(&tools), vec!["browser_read_text".to_string()]);
}

#[test]
fn new_category_falls_back_to_default_config() {
    let defaults = default_chat_category_agent_config("custom-id", Some("[\"a\"]".to_string()), "plain prompt");
    let (tools, prompt) = new_category_agent_config(defaults, None, Some("   "));
    assert_eq!(tools, "[\"a\"]");
    assert_eq!(prompt, "plain prompt");
}

#[test]
fn corrupt_config_json_degrades_on_read_and_self_heals_on_save() {
    let row = ChatCategoryAgentConfigRow {
        category_id: "tech".to_string(),
        category_name: "技术".to_string(),
        allowed_tools_json: "{not valid json".to_string(),
        sub_agent_ids_json: "oops".to_string(),
        system_prompt: "p".to_string(),
        created_at: "c".to_string(),
        updated_at: "u".to_string(),
    };
    let repair = agent_config_repair(&row.allowed_tools_json, &row.sub_agent_ids_json);
    assert_eq!(
        repair,
        Some(AgentConfigRepair { reset_allowed_tools: true, reset_sub_agent_ids: true })
    );
    let config = agent_config_from_row(row);
    assert!(config.allowed_tools.is_empty());
    assert!(config.sub_agent_ids.is_empty());
    assert_eq!(config.category_id, "tech");
    assert_eq!(config.system_prompt, "p");
}

#[test]
fn only_the_damaged_field_is_reset() {
    assert_eq!(agent_config_repair("[\"a\"]", "[]"), None);
    assert_eq!(
        agent_config_repair("[\"a\"]", "{"),
        Some(AgentConfigRepair { reset_allowed_tools: false, reset_sub_agent_ids: true })
    );
    assert_eq!(parse_category_json_list("[\"x\",\"y\"]"), vec!["x", "y"]);
}

#[test]
fn scenario_categories_start_with_their_own_tools() {
    let (tools, prompt) = default_chat_category_agent_config("learning", Some("[\"ignored\"]".to_string()), "plain");
    assert!(tools.starts_with("[\"browser_open_url\""));
    assert_ne!(prompt, "plain");
}
