use training_modpack::config::{
    format_time_string, now_utc, recovery_for, ConfigLoadError, ConfigRecovery,
    TrainingModpackConfig, UpdaterConfig,
};

#[test]
fn epoch_is_formatted() {
    assert_eq!(format_time_string(0), "1970-01-01T00:00:00Z");
}

#[test]
fn known_timestamps_are_formatted() {
    assert_eq!(format_time_string(951782400), "2000-02-29T00:00:00Z");
    assert_eq!(format_time_string(1658456346), "2022-07-22T02:19:06Z");
    assert_eq!(format_time_string(1704067199), "2023-12-31T23:59:59Z");
    assert_eq!(format_time_string(4107542400), "2100-03-01T00:00:00Z");
}

#[test]
fn leap_day_and_year_ends() {
    // 2024-02-29T12:34:56Z
    assert_eq!(format_time_string(1709210096), "2024-02-29T12:34:56Z");
    // 1999-12-31T23:59:59Z
    assert_eq!(format_time_string(946684799), "1999-12-31T23:59:59Z");
}

#[test]
fn far_future_year_is_not_truncated() {
    // 10000-01-01T00:00:00Z
    assert_eq!(format_time_string(253402300800), "10000-01-01T00:00:00Z");
}

#[test]
fn default_config_records_a_timestamp() {
    let c = TrainingModpackConfig::new();
    let s = c.update.last_update_version;
    assert_eq!(s.len(), 20);
    assert!(s.ends_with('Z'));
    let u = UpdaterConfig::default();
    assert_eq!(u.last_update_version.len(), 20);
    assert_eq!(now_utc().len(), 20);
}

#[test]
fn recovery_of_load_errors() {
    assert_eq!(recovery_for(ConfigLoadError::NotFound), ConfigRecovery::CreateDefaultThenLoad);
    assert_eq!(recovery_for(ConfigLoadError::Malformed), ConfigRecovery::ReplaceWithDefaultThenLoad);
    assert_eq!(recovery_for(ConfigLoadError::Other), ConfigRecovery::Propagate);
}
