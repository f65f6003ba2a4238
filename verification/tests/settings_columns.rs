use dispatcher_store::settings_record::{
    settings_column_index, settings_legacy_columns, settings_select_columns, ModelSlot,
};

#[test]
fn settings_column_offsets_match_generated_select_columns() {
    let columns = settings_select_columns();
    assert_eq!(
        columns.len(),
        settings_legacy_columns().len() + ModelSlot::all().len() * 4
    );
    assert_eq!(
        columns[settings_column_index("auto_approve_dispatch")],
        "auto_approve_dispatch"
    );
    assert_eq!(
        columns[settings_column_index("context_debug")],
        "context_debug"
    );

    for slot in ModelSlot::all() {
        let slot_columns = slot.columns();
        let config_col = slot.config_col_offset();
        assert_eq!(columns[config_col], slot_columns.url);
        assert_eq!(columns[config_col + 1], slot_columns.api_key);
        assert_eq!(columns[config_col + 2], slot_columns.model);
        assert_eq!(columns[slot.json_col()], slot_columns.json);
    }
}
