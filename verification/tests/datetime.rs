use env_monitor::datetime::{Date, DateTime, Time, MAX_YEAR, MIN_YEAR};

#[test]
fn valid_dates_are_accepted() {
    let date = Date::new(2024, 3, 5).unwrap();
    assert_eq!(date.year(), 2024);
    assert_eq!(date.month(), 3);
    assert_eq!(date.day(), 5);
    assert!(Date::new(2024, 1, 31).is_some());
    assert!(Date::new(2024, 4, 30).is_some());
    assert!(Date::new(2024, 12, 31).is_some());
    assert!(Date::new(MIN_YEAR, 1, 1).is_some());
    assert!(Date::new(MAX_YEAR, 12, 31).is_some());
}

#[test]
fn invalid_dates_are_refused() {
    assert!(Date::new(2024, 0, 1).is_none());
    assert!(Date::new(2024, 13, 1).is_none());
    assert!(Date::new(2024, 1, 0).is_none());
    assert!(Date::new(2024, 1, 32).is_none());
    assert!(Date::new(2024, 4, 31).is_none());
    assert!(Date::new(2024, 6, 31).is_none());
    assert!(Date::new(2024, 9, 31).is_none());
    assert!(Date::new(2024, 11, 31).is_none());
    assert!(Date::new(-1, 1, 1).is_none());
    assert!(Date::new(10_000, 1, 1).is_none());
    assert!(Date::new(i32::MIN, 1, 1).is_none());
    assert!(Date::new(i32::MAX, 1, 1).is_none());
    assert!(Date::new(2024, u32::MAX, 1).is_none());
    assert!(Date::new(2024, 1, u32::MAX).is_none());
}

#[test]
fn february_follows_the_leap_years() {
    assert!(Date::new(2024, 2, 29).is_some());
    assert!(Date::new(2023, 2, 29).is_none());
    assert!(Date::new(2023, 2, 28).is_some());
    assert!(Date::new(2000, 2, 29).is_some());
    assert!(Date::new(1900, 2, 29).is_none());
    assert!(Date::new(2100, 2, 29).is_none());
    assert!(Date::new(2024, 2, 30).is_none());
    assert!(Date::new(0, 2, 29).is_some());
}

#[test]
fn dates_agree_with_the_calendar_of_chrono() {
    for year in [0, 1, 4, 100, 400, 1900, 1999, 2000, 2023, 2024, 2100, 9999] {
        for month in 0..=13u32 {
            for day in 0..=32u32 {
                let ours = Date::new(year, month, day).is_some();
                let theirs = chrono::NaiveDate::from_ymd_opt(year, month, day).is_some();
                assert_eq!(ours, theirs, "{}-{}-{}", year, month, day);
            }
        }
    }
}

#[test]
fn valid_times_are_accepted() {
    let time = Time::new(23, 59, 58).unwrap();
    assert_eq!(time.hour(), 23);
    assert_eq!(time.minute(), 59);
    assert_eq!(time.second(), 58);
    assert!(Time::new(0, 0, 0).is_some());
    assert!(Time::new(23, 59, 59).is_some());
}

#[test]
fn invalid_times_are_refused() {
    assert!(Time::new(24, 0, 0).is_none());
    assert!(Time::new(0, 60, 0).is_none());
    assert!(Time::new(0, 0, 60).is_none());
    assert!(Time::new(u32::MAX, 0, 0).is_none());
}

#[test]
fn twelve_hour_dial() {
    let dial = |hour: u32| Time::new(hour, 0, 0).unwrap().hour12();
    assert_eq!(dial(0), (false, 12));
    assert_eq!(dial(1), (false, 1));
    assert_eq!(dial(11), (false, 11));
    assert_eq!(dial(12), (true, 12));
    assert_eq!(dial(13), (true, 1));
    assert_eq!(dial(23), (true, 11));
}

#[test]
fn twelve_hour_dial_agrees_with_chrono() {
    for hour in 0..24u32 {
        let ours = Time::new(hour, 30, 0).unwrap().hour12();
        let theirs = chrono::Timelike::hour12(&chrono::NaiveTime::from_hms_opt(hour, 30, 0).unwrap());
        assert_eq!(ours, theirs);
    }
}

#[test]
fn date_and_time_compare_by_their_numbers() {
    let a = DateTime { date: Date::new(2024, 3, 5).unwrap(), time: Time::new(7, 8, 9).unwrap() };
    let b = DateTime { date: Date::new(2024, 3, 5).unwrap(), time: Time::new(7, 8, 9).unwrap() };
    let c = DateTime { date: Date::new(2024, 3, 6).unwrap(), time: Time::new(7, 8, 9).unwrap() };
    assert_eq!(a, b);
    assert_ne!(a, c);
}
