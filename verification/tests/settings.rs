use xcode_discord_rpc::settings::Settings;

#[test]
fn settings_keep_their_values() {
    let settings = Settings::new(5, 2, 10, 300, true, false).unwrap();
    assert_eq!(settings.poll_interval(), 5);
    assert_eq!(settings.activity_poll_interval(), 2);
    assert_eq!(settings.liveness_recheck_period(), 10);
    assert_eq!(settings.idle_threshold(), 300);
    assert!(settings.hide_project());
    assert!(!settings.hide_file());
}

#[test]
fn settings_accept_the_longest_poll_interval_that_can_be_scaled() {
    let longest = u64::MAX / 8;
    let settings = Settings::new(longest, u64::MAX, u8::MAX, i64::MIN, false, true).unwrap();
    assert_eq!(settings.poll_interval(), longest);
    assert_eq!(settings.activity_poll_interval(), u64::MAX);
    assert_eq!(settings.liveness_recheck_period(), u8::MAX);
    assert_eq!(settings.idle_threshold(), i64::MIN);
}

#[test]
fn settings_refuse_a_poll_interval_that_cannot_be_scaled() {
    assert_eq!(Settings::new(u64::MAX / 8 + 1, 2, 10, 300, false, false), None);
    assert_eq!(Settings::new(u64::MAX, 2, 10, 300, false, false), None);
}

#[test]
fn settings_accept_zero_intervals() {
    let settings = Settings::new(0, 0, 0, 0, false, false).unwrap();
    assert_eq!(settings.poll_interval(), 0);
    assert_eq!(settings.liveness_recheck_period(), 0);
}
