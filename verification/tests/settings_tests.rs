use chuck_norust::settings::{
    read_notification_interval, read_silent_notification, write_notification_interval,
    write_silent_notification, SettingsStore,
};

#[test]
fn interval_read_before_any_write_returns_default() {
    let store = SettingsStore::new();
    assert_eq!(read_notification_interval(&store), 10000);
}

#[test]
fn interval_write_then_read_round_trips() {
    let mut store = SettingsStore::new();
    write_notification_interval(&mut store, 60000);
    assert_eq!(read_notification_interval(&store), 60000);
    write_notification_interval(&mut store, 3600000);
    assert_eq!(read_notification_interval(&store), 3600000);
}

#[test]
fn silent_read_before_any_write_returns_default() {
    let store = SettingsStore::new();
    assert!(read_silent_notification(&store));
}

#[test]
fn silent_write_then_read_round_trips_both_ways() {
    let mut store = SettingsStore::new();
    write_silent_notification(&mut store, false);
    assert!(!read_silent_notification(&store));
    write_silent_notification(&mut store, true);
    assert!(read_silent_notification(&store));
}

#[test]
fn writes_to_one_key_leave_the_other_alone() {
    let mut store = SettingsStore::new();
    write_notification_interval(&mut store, 120000);
    write_silent_notification(&mut store, false);
    assert_eq!(read_notification_interval(&store), 120000);
    assert!(!read_silent_notification(&store));
    write_notification_interval(&mut store, 45000);
    assert!(!read_silent_notification(&store));
}
