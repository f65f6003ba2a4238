use dispatcher_store::schema::{
    fresh_database_decision, schema_version_decision, SchemaInitError, SchemaOpening, SCHEMA_VERSION,
};

#[test]
fn newer_database_version_is_rejected() {
    let error = schema_version_decision(SCHEMA_VERSION + 1).unwrap_err();
    assert_eq!(error, SchemaInitError::Newer { current_version: SCHEMA_VERSION + 1 });
    let message = error.message();
    assert!(message.contains("不兼容"));
    assert!(message.contains("reset-dev-data.sh"));
}

#[test]
fn legacy_pre_baseline_database_is_rejected() {
    assert_eq!(schema_version_decision(0), Ok(SchemaOpening::InspectTables));
    let error = fresh_database_decision(1).unwrap_err();
    assert_eq!(error, SchemaInitError::LegacyPreBaseline);
    assert!(error.message().contains("reset-dev-data"));
}

#[test]
fn empty_unversioned_database_is_built_fresh() {
    assert_eq!(schema_version_decision(0), Ok(SchemaOpening::InspectTables));
    assert_eq!(fresh_database_decision(0), Ok(()));
}

#[test]
fn current_version_opens_as_is() {
    assert_eq!(schema_version_decision(SCHEMA_VERSION), Ok(SchemaOpening::UpToDate));
}

#[test]
fn version_message_names_both_versions() {
    let message = SchemaInitError::Newer { current_version: 7 }.message();
    assert!(message.starts_with("数据库版本(7)与当前基线版本(1)不兼容"));
}

#[test]
fn reopening_a_freshly_built_database_builds_nothing() {
    assert_eq!(schema_version_decision(0), Ok(SchemaOpening::InspectTables));
    assert!(fresh_database_decision(0).is_ok());
    // The build stamps the current version; the next open uses it as it is.
    assert_eq!(schema_version_decision(SCHEMA_VERSION), Ok(SchemaOpening::UpToDate));
}
