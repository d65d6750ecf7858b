use env_monitor::time::Instant;
use env_monitor::view_mode_switcher::{ViewMode, ViewModeSwitcher, VIEW_DURATION};

#[test]
fn views_follow_each_other_in_a_cycle() {
    assert_eq!(ViewMode::Time.next(), ViewMode::Date);
    assert_eq!(ViewMode::Date.next(), ViewMode::SensorReadings);
    assert_eq!(ViewMode::SensorReadings.next(), ViewMode::SystemStatus);
    assert_eq!(ViewMode::SystemStatus.next(), ViewMode::Time);
}

#[test]
fn default_view_is_time() {
    assert_eq!(ViewMode::default(), ViewMode::Time);
    assert_eq!(VIEW_DURATION, 5);
}

#[test]
fn rotation_starts_with_the_time() {
    let mut views = ViewModeSwitcher::new(Instant::new(0));
    assert_eq!(views.current(), ViewMode::Time);
    assert_eq!(views.mode(&Instant::new(0)), ViewMode::Time);
}

#[test]
fn view_changes_every_five_seconds() {
    let mut views = ViewModeSwitcher::new(Instant::new(0));
    assert_eq!(views.mode(&Instant::new(4)), ViewMode::Time);
    assert_eq!(views.mode(&Instant::new(5)), ViewMode::Date);
    assert_eq!(views.mode(&Instant::new(9)), ViewMode::Date);
    assert_eq!(views.mode(&Instant::new(10)), ViewMode::SensorReadings);
    assert_eq!(views.mode(&Instant::new(14)), ViewMode::SensorReadings);
    assert_eq!(views.mode(&Instant::new(15)), ViewMode::SystemStatus);
    assert_eq!(views.mode(&Instant::new(19)), ViewMode::SystemStatus);
    assert_eq!(views.mode(&Instant::new(20)), ViewMode::Time);
}

#[test]
fn view_changes_every_five_seconds_when_asked_every_second() {
    let mut views = ViewModeSwitcher::new(Instant::new(100));
    let order = [
        ViewMode::Time,
        ViewMode::Date,
        ViewMode::SensorReadings,
        ViewMode::SystemStatus,
    ];
    for second in 0..60u32 {
        let expected = order[((second / 5) % 4) as usize];
        assert_eq!(views.mode(&Instant::new(100 + second)), expected, "at {}", second);
    }
}

#[test]
fn late_ask_moves_on_by_one_view_only() {
    let mut views = ViewModeSwitcher::new(Instant::new(0));
    assert_eq!(views.mode(&Instant::new(1000)), ViewMode::Date);
    assert_eq!(views.mode(&Instant::new(1000)), ViewMode::Date);
    assert_eq!(views.mode(&Instant::new(1004)), ViewMode::Date);
    assert_eq!(views.mode(&Instant::new(1005)), ViewMode::SensorReadings);
}

#[test]
fn skip_extends_the_dwell_without_changing_the_view() {
    let mut views = ViewModeSwitcher::new(Instant::new(0));
    assert_eq!(views.mode(&Instant::new(5)), ViewMode::Date);
    assert_eq!(views.mode(&Instant::new(10)), ViewMode::SensorReadings);
    views.skip(&Instant::new(10));
    assert_eq!(views.current(), ViewMode::SensorReadings);
    views.skip(&Instant::new(14));
    assert_eq!(views.current(), ViewMode::SensorReadings);
    assert_eq!(views.mode(&Instant::new(15)), ViewMode::SensorReadings);
    assert_eq!(views.mode(&Instant::new(18)), ViewMode::SensorReadings);
    assert_eq!(views.mode(&Instant::new(19)), ViewMode::SystemStatus);
}

#[test]
fn forced_view_shows_at_once() {
    let mut views = ViewModeSwitcher::new(Instant::new(0));
    views.set_mode(ViewMode::SystemStatus, &Instant::new(3));
    assert_eq!(views.current(), ViewMode::SystemStatus);
    assert_eq!(views.mode(&Instant::new(3)), ViewMode::SystemStatus);
    assert_eq!(views.mode(&Instant::new(7)), ViewMode::SystemStatus);
    assert_eq!(views.mode(&Instant::new(8)), ViewMode::Time);
}

#[test]
fn forced_view_shows_whatever_the_timer_was() {
    // the dwell time of the first view is long over when the view is forced
    let mut views = ViewModeSwitcher::new(Instant::new(0));
    views.set_mode(ViewMode::SystemStatus, &Instant::new(500));
    assert_eq!(views.mode(&Instant::new(500)), ViewMode::SystemStatus);
    // and a view can be forced onto itself, which starts its dwell anew
    views.set_mode(ViewMode::SystemStatus, &Instant::new(504));
    assert_eq!(views.mode(&Instant::new(508)), ViewMode::SystemStatus);
    assert_eq!(views.mode(&Instant::new(509)), ViewMode::Time);
}

#[test]
fn rotation_ignores_an_instant_before_the_view_came_up() {
    let mut views = ViewModeSwitcher::new(Instant::new(100));
    assert_eq!(views.mode(&Instant::new(0)), ViewMode::Time);
    assert_eq!(views.mode(&Instant::new(99)), ViewMode::Time);
    assert_eq!(views.mode(&Instant::new(105)), ViewMode::Date);
}
