use env_monitor::alarm::AlarmStatus;
use env_monitor::system_status::SystemStatus;
use env_monitor::util::DisplayBool;

fn busy_status() -> SystemStatus {
    SystemStatus {
        uptime_sec: 1234,
        alarm: AlarmStatus::On,
        alarm_warmed_up: true,
        record_count: 17,
        storage_connected: true,
        storage_full: true,
        storage_error: true,
    }
}

#[test]
fn default_status_is_all_clear() {
    let status = SystemStatus::default();
    assert_eq!(status.uptime_sec, 0);
    assert_eq!(status.alarm, AlarmStatus::Off);
    assert!(!status.alarm_warmed_up);
    assert_eq!(status.record_count, 0);
    assert!(!status.storage_connected);
    assert!(!status.storage_full);
    assert!(!status.storage_error);
}

#[test]
fn clearing_the_storage_status_resets_what_was_known_of_the_card() {
    let mut status = busy_status();
    status.clear_storage_status();
    assert_eq!(status.record_count, 0);
    assert!(!status.storage_full);
    assert!(!status.storage_error);
}

#[test]
fn clearing_the_storage_status_leaves_the_rest() {
    let mut status = busy_status();
    status.clear_storage_status();
    assert!(status.storage_connected);
    assert_eq!(status.uptime_sec, 1234);
    assert_eq!(status.alarm, AlarmStatus::On);
    assert!(status.alarm_warmed_up);
    assert_eq!(
        status,
        SystemStatus { record_count: 0, storage_full: false, storage_error: false, ..busy_status() }
    );
}

#[test]
fn clearing_twice_is_clearing_once() {
    let mut once = busy_status();
    once.clear_storage_status();
    let mut twice = once;
    twice.clear_storage_status();
    assert_eq!(once, twice);
}

#[test]
fn records_are_counted_one_by_one() {
    let mut status = SystemStatus::default();
    for n in 1..=10u32 {
        status.inc_records();
        assert_eq!(status.record_count, n);
    }
    assert_eq!(status, SystemStatus { record_count: 10, ..SystemStatus::default() });
}

#[test]
fn record_count_saturates() {
    let mut status = SystemStatus { record_count: u32::MAX - 1, ..SystemStatus::default() };
    status.inc_records();
    assert_eq!(status.record_count, u32::MAX);
    status.inc_records();
    assert_eq!(status.record_count, u32::MAX);
    status.inc_records();
    assert_eq!(status.record_count, u32::MAX);
}

#[test]
fn display_bool_letters() {
    assert_eq!(DisplayBool(true).text(), "Y");
    assert_eq!(DisplayBool(false).text(), "N");
}

#[test]
fn display_bool_converts_both_ways() {
    assert_eq!(DisplayBool::from(true), DisplayBool(true));
    assert_eq!(DisplayBool::from(false), DisplayBool(false));
    assert!(bool::from(DisplayBool(true)));
    assert!(!bool::from(DisplayBool(false)));
    assert_eq!(DisplayBool::default(), DisplayBool(false));
}
