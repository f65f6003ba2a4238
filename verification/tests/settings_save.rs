use dispatcher_store::model_config::DispatcherModelConfig;
use dispatcher_store::settings_record::{
    resolve_saved_settings, settings_record_from_row, DispatcherSettingsModelConfigs,
    DispatcherSettingsRecord, LegacySettingsFields, SettingsRow, StoredSlot, DEFAULT_ASR_MODEL,
    DEFAULT_IMAGE_MODEL, DEFAULT_IMAGE_MODEL_URL, DEFAULT_SUMMARY_MODEL,
};

#[allow(clippy::too_many_arguments)]
fn legacy(
    api_base: &str,
    api_key: &str,
    model: &str,
    summary_model: &str,
    vision_model: &str,
    asr_api_key: &str,
    asr_websocket_url: &str,
    image_model_url: &str,
    image_model_api_key: &str,
    image_model: &str,
    image_edit_model: &str,
) -> LegacySettingsFields {
    LegacySettingsFields {
        api_base: api_base.to_string(),
        api_key: api_key.to_string(),
        model: model.to_string(),
        summary_model: summary_model.to_string(),
        vision_model: vision_model.to_string(),
        asr_api_key: asr_api_key.to_string(),
        asr_websocket_url: asr_websocket_url.to_string(),
        image_model_url: image_model_url.to_string(),
        image_model_api_key: image_model_api_key.to_string(),
        image_model: image_model.to_string(),
        image_edit_model: image_edit_model.to_string(),
    }
}

fn blank_legacy() -> LegacySettingsFields {
    legacy("", "", "", "", "", "", "", "", "", "", "")
}

fn config(url: &str, api_key: &str, model: &str, active: bool) -> DispatcherModelConfig {
    let mut c = DispatcherModelConfig::new(url, api_key, model);
    c.active = active;
    c
}

fn slot(primary: &DispatcherModelConfig, list: &[DispatcherModelConfig]) -> StoredSlot {
    StoredSlot {
        url: primary.url.clone(),
        api_key: primary.api_key.clone(),
        model: primary.model.clone(),
        configs: list.to_vec(),
    }
}

/// The row the store writes for a saved record, read back.
fn reload(saved: &DispatcherSettingsRecord) -> DispatcherSettingsRecord {
    let row = SettingsRow {
        legacy: legacy(
            &saved.api_base,
            &saved.api_key,
            &saved.model,
            &saved.summary_model,
            &saved.vision_model,
            &saved.asr_api_key,
            &saved.asr_websocket_url,
            &saved.image_model_url,
            &saved.image_model_api_key,
            &saved.image_model,
            &saved.image_edit_model,
        ),
        auto_approve_dispatch: if saved.auto_approve_dispatch { 1 } else { 0 },
        context_debug: if saved.context_debug { 1 } else { 0 },
        chat: slot(&saved.chat_model_config, &saved.chat_model_configs),
        summary: slot(&saved.summary_model_config, &saved.summary_model_configs),
        vision: slot(&saved.vision_model_config, &saved.vision_model_configs),
        image: slot(&saved.image_model_config, &saved.image_model_configs),
        image_edit: slot(&saved.image_edit_model_config, &saved.image_edit_model_configs),
        asr: slot(&saved.asr_model_config, &saved.asr_model_configs),
        tts: slot(&saved.tts_model_config, &saved.tts_model_configs),
        embedding: slot(&saved.embedding_model_config, &saved.embedding_model_configs),
    };
    settings_record_from_row(row)
}

fn same_config(a: &DispatcherModelConfig, b: &DispatcherModelConfig) -> bool {
    a.url == b.url
        && a.api_key == b.api_key
        && a.model == b.model
        && a.active == b.active
        && a.system_prompt == b.system_prompt
        && a.library_id == b.library_id
}

#[test]
fn save_settings_maps_legacy_fields_into_model_configs() {
    let saved = resolve_saved_settings(
        &legacy(
            " https://chat.example.com/v1 ",
            " sk-chat ",
            " chat-main ",
            " ",
            " vision-main ",
            " sk-asr ",
            " wss://asr.example.com/ws ",
            " https://image.example.com/api/v1 ",
            " sk-image ",
            " image-gen ",
            "",
        ),
        true,
        true,
        DispatcherSettingsModelConfigs::default(),
    );

    assert_eq!(saved.chat_model_config.url, "https://chat.example.com/v1");
    assert_eq!(saved.chat_model_config.api_key, "sk-chat");
    assert_eq!(saved.chat_model_config.model, "chat-main");
    assert_eq!(saved.summary_model_config.model, DEFAULT_SUMMARY_MODEL);
    assert_eq!(saved.vision_model_config.model, "vision-main");
    assert_eq!(saved.asr_model_config.url, "wss://asr.example.com/ws");
    assert_eq!(saved.asr_model_config.api_key, "sk-asr");
    assert_eq!(saved.asr_model_config.model, DEFAULT_ASR_MODEL);
    assert_eq!(saved.image_edit_model_config.model, "image-gen");
    assert_eq!(saved.image_edit_model, "image-gen");

    let loaded = reload(&saved);
    assert!(same_config(&loaded.chat_model_config, &saved.chat_model_config));
    assert_eq!(loaded.image_edit_model_config.model, "image-gen");
}

#[test]
fn save_settings_with_structured_configs_preserves_legacy_compat_fields() {
    let saved = resolve_saved_settings(
        &blank_legacy(),
        false,
        false,
        DispatcherSettingsModelConfigs {
            chat_model_config: Some(DispatcherModelConfig::new(
                "https://chat.example.com/v1",
                "sk-chat",
                "chat-main",
            )),
            summary_model_config: Some(DispatcherModelConfig::new(
                "https://summary.example.com/v1",
                "sk-summary",
                "",
            )),
            vision_model_config: Some(DispatcherModelConfig::new(
                "https://vision.example.com/v1",
                "sk-vision",
                "vision-main",
            )),
            image_model_config: Some(DispatcherModelConfig::new(
                "https://image.example.com/api/v1",
                "sk-image",
                "image-gen",
            )),
            image_edit_model_config: Some(DispatcherModelConfig::new("", "", "")),
            asr_model_config: Some(DispatcherModelConfig::new("wss://asr.example.com/ws", "sk-asr", "")),
            tts_model_config: Some(DispatcherModelConfig::new(
                "https://tts.example.com/v1",
                "sk-tts",
                "tts-main",
            )),
            embedding_model_config: Some(DispatcherModelConfig::new(
                "https://embed.example.com/v1",
                "sk-embed",
                "embed-main",
            )),
            ..Default::default()
        },
    );

    assert_eq!(saved.api_base, "https://chat.example.com/v1");
    assert_eq!(saved.api_key, "sk-chat");
    assert_eq!(saved.model, "chat-main");
    assert_eq!(saved.summary_model, DEFAULT_SUMMARY_MODEL);
    assert_eq!(saved.vision_model, "vision-main");
    assert_eq!(saved.image_model_url, "https://image.example.com/api/v1");
    assert_eq!(saved.image_model_api_key, "sk-image");
    assert_eq!(saved.image_model, "image-gen");
    assert_eq!(saved.image_edit_model, "image-gen");
    assert_eq!(saved.asr_websocket_url, "wss://asr.example.com/ws");
    assert_eq!(saved.asr_api_key, "sk-asr");
    assert_eq!(saved.asr_model_config.model, DEFAULT_ASR_MODEL);
    assert_eq!(saved.tts_model_config.model, "tts-main");
    assert_eq!(saved.embedding_model_config.model, "embed-main");
}

#[test]
fn save_settings_uses_active_provider_from_model_config_lists() {
    let saved = resolve_saved_settings(
        &blank_legacy(),
        false,
        false,
        DispatcherSettingsModelConfigs {
            chat_model_configs: Some(vec![
                config("https://chat-a.example.com/v1", "sk-a", "chat-a", false),
                config("https://chat-b.example.com/v1", "sk-b", "chat-b", true),
            ]),
            image_model_configs: Some(vec![DispatcherModelConfig::new(
                "https://image.example.com/api/v1",
                "sk-image",
                "image-gen",
            )]),
            ..Default::default()
        },
    );

    assert_eq!(saved.api_base, "https://chat-b.example.com/v1");
    assert_eq!(saved.api_key, "sk-b");
    assert_eq!(saved.model, "chat-b");
    assert_eq!(saved.chat_model_config.model, "chat-b");
    assert_eq!(saved.chat_model_configs.len(), 2);
    assert!(!saved.chat_model_configs[0].active);
    assert!(saved.chat_model_configs[1].active);

    let loaded = reload(&saved);
    assert_eq!(loaded.model, "chat-b");
    assert_eq!(loaded.chat_model_configs.len(), 2);
    assert!(loaded.chat_model_configs[1].active);
}

#[test]
fn model_config_lists_activate_first_entry_when_none_is_active() {
    let saved = resolve_saved_settings(
        &blank_legacy(),
        false,
        false,
        DispatcherSettingsModelConfigs {
            chat_model_configs: Some(vec![
                config("https://chat-a.example.com/v1", "sk-a", "chat-a", false),
                config("https://chat-b.example.com/v1", "sk-b", "chat-b", false),
            ]),
            ..Default::default()
        },
    );

    assert_eq!(saved.model, "chat-a");
    assert!(saved.chat_model_configs[0].active);
    assert!(!saved.chat_model_configs[1].active);
}

#[test]
fn image_edit_defaults_use_image_config_after_image_defaults() {
    let saved = resolve_saved_settings(
        &blank_legacy(),
        false,
        false,
        DispatcherSettingsModelConfigs {
            image_model_config: Some(DispatcherModelConfig::new("", "sk-image", "")),
            image_edit_model_config: Some(DispatcherModelConfig::new("", "", "")),
            ..Default::default()
        },
    );

    assert_eq!(saved.image_model_config.url, DEFAULT_IMAGE_MODEL_URL);
    assert_eq!(saved.image_model_config.model, DEFAULT_IMAGE_MODEL);
    assert_eq!(saved.image_edit_model_config.url, DEFAULT_IMAGE_MODEL_URL);
    assert_eq!(saved.image_edit_model_config.api_key, "sk-image");
    assert_eq!(saved.image_edit_model_config.model, DEFAULT_IMAGE_MODEL);
}

#[test]
fn saved_settings_read_back_unchanged() {
    let saved = resolve_saved_settings(
        &legacy("https://chat.example.com/v1", "sk-chat", "chat-main", "", "", "", "", "", "", "", ""),
        true,
        false,
        DispatcherSettingsModelConfigs::default(),
    );
    let loaded = reload(&saved);
    assert_eq!(loaded.model, saved.model);
    assert_eq!(loaded.api_base, saved.api_base);
    assert!(loaded.auto_approve_dispatch);
    assert!(!loaded.context_debug);
    for (a, b) in loaded.chat_model_configs.iter().zip(saved.chat_model_configs.iter()) {
        assert!(same_config(a, b));
    }
    assert_eq!(loaded.summary_model, DEFAULT_SUMMARY_MODEL);
}

#[test]
fn ordinary_save_reads_back_slot_by_slot() {
    let saved = resolve_saved_settings(
        &legacy("https://chat.example.com/v1", "sk-chat", "chat-main", "", "", "", "", "", "", "", ""),
        false,
        true,
        DispatcherSettingsModelConfigs::default(),
    );
    assert!(saved.tts_model_configs.is_empty());
    assert!(saved.embedding_model_configs.is_empty());
    let loaded = reload(&saved);
    assert!(loaded.tts_model_configs.is_empty());
    assert!(loaded.embedding_model_configs.is_empty());
    assert!(same_config(&loaded.tts_model_config, &saved.tts_model_config));
    assert!(same_config(&loaded.embedding_model_config, &saved.embedding_model_config));
    assert_eq!(loaded.chat_model_configs.len(), saved.chat_model_configs.len());
    for (a, b) in loaded.chat_model_configs.iter().zip(saved.chat_model_configs.iter()) {
        assert!(same_config(a, b));
    }
    assert!(same_config(&loaded.chat_model_config, &saved.chat_model_config));
    assert!(!loaded.auto_approve_dispatch);
    assert!(loaded.context_debug);
}
