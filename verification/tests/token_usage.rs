use dispatcher_store::token_usage::{u64_from_sql, DispatcherSessionTokenUsageSource};

#[test]
fn from_sql_value_accepts_known_kinds() {
    assert_eq!(
        DispatcherSessionTokenUsageSource::from_sql_value("primary"),
        Ok(DispatcherSessionTokenUsageSource::Primary)
    );
    assert_eq!(
        DispatcherSessionTokenUsageSource::from_sql_value("summary"),
        Ok(DispatcherSessionTokenUsageSource::Summary)
    );
}

#[test]
fn from_sql_value_rejects_unknown_values() {
    assert!(DispatcherSessionTokenUsageSource::from_sql_value("primry").is_err());
    assert!(DispatcherSessionTokenUsageSource::from_sql_value("").is_err());
    assert!(DispatcherSessionTokenUsageSource::from_sql_value("legacy").is_err());
}

#[test]
fn negative_counts_clamp_to_zero() {
    assert_eq!(u64_from_sql(-5), 0);
    assert_eq!(u64_from_sql(0), 0);
    assert_eq!(u64_from_sql(42), 42);
}
