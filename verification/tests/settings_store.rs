use cpu_monitor::settings::AppSettings;
use cpu_monitor::settings::TrayDisplayMode;
use cpu_monitor::store::AppState;
use cpu_monitor::store::SettingsStore;

#[test]
fn default_settings_match_the_documented_values() {
    let s = AppSettings::default();
    assert!(s.auto_refresh);
    assert_eq!(s.refresh_interval, 3);
    assert!(s.tray_show_process);
    assert!(s.tray_show_percentage);
    assert_eq!(s.tray_display_mode, TrayDisplayMode::Always);
    assert!(s.high_cpu_alert_enabled);
    assert_eq!(s.high_cpu_threshold, 10_000);
    assert_eq!(s.high_cpu_duration, 30);
    assert!(!s.enable_high_cpu_popup);
}

#[test]
fn a_read_returns_the_whole_written_value() {
    let store = SettingsStore::new(AppSettings::default());
    let mut wanted = AppSettings::default();
    wanted.refresh_interval = 10;
    wanted.tray_display_mode = TrayDisplayMode::WarningOnly;
    wanted.high_cpu_threshold = 8_500;
    wanted.enable_high_cpu_popup = true;
    store.write(wanted);
    // The store replaces the structure as a whole: the read sees every
    // field of the written value, never a mix with the old one.
    let got = store.read();
    assert_eq!(got, wanted);
}

#[test]
fn writes_are_seen_in_order() {
    let store = SettingsStore::new(AppSettings::default());
    let mut first = AppSettings::default();
    first.high_cpu_duration = 60;
    let mut second = AppSettings::default();
    second.high_cpu_duration = 90;
    store.write(first);
    store.write(second);
    assert_eq!(store.read().high_cpu_duration, 90);
}

#[test]
fn app_state_starts_with_the_defaults() {
    let state = AppState::new();
    assert_eq!(state.settings.read(), AppSettings::default());
}
