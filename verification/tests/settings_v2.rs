use dispatcher_store::json_text::json_string_array_of_strings;
use dispatcher_store::model_config::{DispatcherModelConfig, ModelLibraryEntry};
use dispatcher_store::settings::{
    allowed_tools_from_stored, normalize_settings_for_save, normalize_theme_preference, settings_from_row, stored_settings,
    AhaSettingsV2, SettingsV2Row, SshReviewConfig,
};

fn library_entry(id: &str, enabled: bool) -> ModelLibraryEntry {
    ModelLibraryEntry {
        id: id.to_string(),
        category: "text".to_string(),
        url: "https://api.example.com/v1".to_string(),
        api_key: "sk-lib".to_string(),
        model: "lib-model".to_string(),
        alias: "库条目".to_string(),
        enabled,
    }
}

fn reference(id: &str, active: bool) -> DispatcherModelConfig {
    DispatcherModelConfig {
        library_id: id.to_string(),
        active,
        ..Default::default()
    }
}

/// Saves and reads back as the store does: normalise, store the stripped
/// form, read the row back.
fn save_and_load(settings: &AhaSettingsV2) -> (AhaSettingsV2, AhaSettingsV2) {
    let normalized = normalize_settings_for_save(settings);
    let stored = stored_settings(&normalized);
    let row = SettingsV2Row {
        shared_vision_model_configs: stored.shared.vision_model_configs.clone(),
        shared_image_model_configs: stored.shared.image_model_configs.clone(),
        shared_image_edit_model_configs: stored.shared.image_edit_model_configs.clone(),
        shared_asr_model_configs: stored.shared.asr_model_configs.clone(),
        shared_tts_model_configs: stored.shared.tts_model_configs.clone(),
        shared_embedding_model_configs: stored.shared.embedding_model_configs.clone(),
        project_chat_model_configs: stored.project.chat_model_configs.clone(),
        project_summary_model_configs: stored.project.summary_model_configs.clone(),
        project_allowed_tools_json: json_string_array_of_strings(&stored.project.allowed_tools),
        chat_agent_chat_model_configs: stored.chat.chat_model_configs.clone(),
        chat_agent_summary_model_configs: stored.chat.summary_model_configs.clone(),
        chat_agent_allowed_tools_json: json_string_array_of_strings(&stored.chat.allowed_tools),
        context_debug: if stored.context_debug { 1 } else { 0 },
        review_model_config: stored.review.model_config.clone(),
        review_system_prompt: stored.review.system_prompt.clone(),
        model_library: stored.model_library.clone(),
        graph: stored.graph,
        theme: stored.theme.clone(),
    };
    (stored, settings_from_row(row))
}

#[test]
fn reference_entries_strip_credentials_on_store_and_resolve_on_load() {
    let mut settings = AhaSettingsV2 {
        model_library: vec![library_entry("e1", true)],
        ..Default::default()
    };
    settings.project.chat_model_configs = vec![reference("e1", true)];
    settings.review.model_config = reference("e1", false);

    let (stored, loaded) = save_and_load(&settings);
    let raw = &stored.project.chat_model_configs[0];
    assert_eq!(raw.library_id, "e1");
    assert!(raw.api_key.is_empty());

    let chat = &loaded.project.chat_model_configs[0];
    assert_eq!(chat.library_id, "e1");
    assert_eq!(chat.api_key, "sk-lib");
    assert_eq!(chat.model, "lib-model");
    assert_eq!(loaded.review.model_config.api_key, "sk-lib");
    assert!(loaded.review.is_configured());
}

#[test]
fn reference_to_disabled_entry_resolves_empty() {
    let mut settings = AhaSettingsV2 {
        model_library: vec![library_entry("e1", false)],
        ..Default::default()
    };
    settings.chat.chat_model_configs = vec![reference("e1", true)];
    let (_, loaded) = save_and_load(&settings);
    let entry = &loaded.chat.chat_model_configs[0];
    assert_eq!(entry.library_id, "e1");
    assert!(entry.url.is_empty() && entry.api_key.is_empty() && entry.model.is_empty());
}

#[test]
fn chat_agent_models_lose_their_system_prompts_and_theme_is_normalised() {
    let mut settings = AhaSettingsV2::default();
    let mut c = DispatcherModelConfig::new("u", "k", "m");
    c.system_prompt = "be brief".to_string();
    settings.chat.chat_model_configs = vec![c.clone()];
    settings.project.chat_model_configs = vec![c];
    settings.theme = "neon".to_string();
    let saved = normalize_settings_for_save(&settings);
    assert_eq!(saved.chat.chat_model_configs[0].system_prompt, "");
    assert_eq!(saved.project.chat_model_configs[0].system_prompt, "be brief");
    assert_eq!(saved.theme, "system");
    assert_eq!(normalize_theme_preference(" dark "), "dark");
}

#[test]
fn default_settings_have_default_review_prompt_and_graph_pause() {
    let settings = AhaSettingsV2::default();
    assert!(settings.graph.pause_before_write);
    assert_eq!(settings.theme, "system");
    assert!(!settings.review.is_configured());
}

#[test]
fn review_with_only_a_url_is_not_configured() {
    let mut review = SshReviewConfig::default();
    review.model_config = DispatcherModelConfig::new("https://review.example.com/v1", "", "");
    assert!(!review.is_configured());
    review.model_config = DispatcherModelConfig::new("https://review.example.com/v1", "sk", " ");
    assert!(!review.is_configured());
    review.model_config = DispatcherModelConfig::new("https://review.example.com/v1", "sk", "m");
    assert!(review.is_configured());
}

fn same_list(a: &[DispatcherModelConfig], b: &[DispatcherModelConfig]) -> bool {
    a.len() == b.len()
        && a.iter().zip(b.iter()).all(|(x, y)| {
            x.url == y.url
                && x.api_key == y.api_key
                && x.model == y.model
                && x.active == y.active
                && x.system_prompt == y.system_prompt
                && x.library_id == y.library_id
        })
}

#[test]
fn settings_without_references_read_back_without_drift() {
    let mut settings = AhaSettingsV2::default();
    settings.project.chat_model_configs = vec![
        DispatcherModelConfig::new(" https://a.example.com ", "sk-a", "model-a"),
        DispatcherModelConfig::new("https://b.example.com", "sk-b", "model-b"),
    ];
    settings.chat.chat_model_configs = vec![DispatcherModelConfig::new("u", "k", "m")];
    settings.shared.vision_model_configs = vec![DispatcherModelConfig::new("v", "kv", "vision")];
    settings.review.model_config = DispatcherModelConfig::new("https://r.example.com", "sk-r", "rev");
    settings.context_debug = true;
    settings.theme = "dark".to_string();
    let saved = normalize_settings_for_save(&settings);
    let (_, loaded) = save_and_load(&settings);
    assert!(same_list(&loaded.project.chat_model_configs, &saved.project.chat_model_configs));
    assert!(same_list(&loaded.chat.chat_model_configs, &saved.chat.chat_model_configs));
    assert!(same_list(&loaded.shared.vision_model_configs, &saved.shared.vision_model_configs));
    assert!(loaded.shared.tts_model_configs.is_empty());
    assert!(same_list(
        std::slice::from_ref(&loaded.review.model_config),
        std::slice::from_ref(&saved.review.model_config)
    ));
    assert_eq!(loaded.review.system_prompt, saved.review.system_prompt);
    assert!(loaded.context_debug);
    assert_eq!(loaded.theme, "dark");
    assert_eq!(loaded.project.chat_model_configs[0].url, "https://a.example.com");
}

#[test]
fn stored_tool_lists_read_back() {
    let tools = vec!["read_file".to_string(), "say \"hi\"".to_string()];
    let text = json_string_array_of_strings(&tools);
    assert_eq!(allowed_tools_from_stored(&text), tools);
    assert!(allowed_tools_from_stored("{not json").is_empty());
    assert!(allowed_tools_from_stored("[1, 2]").is_empty());
    assert_eq!(allowed_tools_from_stored("[]"), Vec::<String>::new());

    let mut settings = AhaSettingsV2::default();
    settings.project.allowed_tools = tools.clone();
    settings.chat.allowed_tools = vec!["web_search".to_string()];
    let (_, loaded) = save_and_load(&settings);
    assert_eq!(loaded.project.allowed_tools, tools);
    assert_eq!(loaded.chat.allowed_tools, vec!["web_search".to_string()]);
}
