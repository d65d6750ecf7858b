use env_monitor::alarm::AlarmStatus;
use env_monitor::datetime::{Date, Time};
use env_monitor::display::{
    Baseline, Brightness, Display, DisplayView, Font, Frame, HEIGHT,
};
use env_monitor::sensor::SensorReading;
use env_monitor::system_status::SystemStatus;

fn some_reading() -> SensorReading {
    SensorReading {
        temperature: 2111,
        pressure: 101_325,
        humidity: 45_123,
        gas_resistance: 12_345,
        gas_valid: true,
    }
}

fn laid_out(view: DisplayView) -> Frame {
    Display::new().draw_view(view).unwrap()
}

fn texts(frame: &Frame) -> Vec<String> {
    frame.lines.iter().map(|line| line.text.as_str().to_string()).collect()
}

fn places(frame: &Frame) -> Vec<(i32, i32, Baseline)> {
    frame.lines.iter().map(|line| (line.x, line.y, line.baseline)).collect()
}

#[test]
fn display_starts_at_its_brightest() {
    assert_eq!(Display::new().brightness(), Brightness::Brightest);
    assert_eq!(HEIGHT, 64);
}

#[test]
fn display_is_dim_at_night() {
    for hour in 0..24u32 {
        let time = Time::new(hour, 30, 0).unwrap();
        let expected = if hour >= 20 || hour <= 7 {
            Brightness::Dimmest
        } else {
            Brightness::Brightest
        };
        let bright = Display::new();
        let change = bright.update_brightness(&time);
        if expected == Brightness::Dimmest {
            assert_eq!(change, Some(Brightness::Dimmest), "at {} h", hour);
        } else {
            assert_eq!(change, None, "at {} h", hour);
        }
        let mut dim = Display::new();
        dim.brightness_set(Brightness::Dimmest);
        let change = dim.update_brightness(&time);
        if expected == Brightness::Brightest {
            assert_eq!(change, Some(Brightness::Brightest), "at {} h", hour);
        } else {
            assert_eq!(change, None, "at {} h", hour);
        }
    }
}

#[test]
fn brightness_is_only_reported_when_it_changes() {
    let mut display = Display::new();
    let mut ask = |display: &mut Display, hour: u32, minute: u32, second: u32| {
        let change = display.update_brightness(&Time::new(hour, minute, second).unwrap());
        if let Some(brightness) = change {
            display.brightness_set(brightness);
        }
        change
    };
    assert_eq!(ask(&mut display, 12, 0, 0), None);
    assert_eq!(ask(&mut display, 19, 59, 59), None);
    assert_eq!(ask(&mut display, 20, 0, 0), Some(Brightness::Dimmest));
    assert_eq!(ask(&mut display, 20, 0, 1), None);
    assert_eq!(ask(&mut display, 3, 0, 0), None);
    assert_eq!(ask(&mut display, 7, 59, 59), None);
    assert_eq!(ask(&mut display, 8, 0, 0), Some(Brightness::Brightest));
    assert_eq!(ask(&mut display, 8, 0, 1), None);
}

#[test]
fn brightness_is_stored_only_when_the_driver_took_it() {
    let mut display = Display::new();
    let night = Time::new(22, 0, 0).unwrap();
    // the driver fails: the display stays as it was, and is asked for again
    assert_eq!(display.update_brightness(&night), Some(Brightness::Dimmest));
    assert_eq!(display.brightness(), Brightness::Brightest);
    assert_eq!(display.update_brightness(&night), Some(Brightness::Dimmest));
    assert_eq!(display.brightness(), Brightness::Brightest);
    // the driver succeeds
    display.brightness_set(Brightness::Dimmest);
    assert_eq!(display.brightness(), Brightness::Dimmest);
    assert_eq!(display.update_brightness(&night), None);
}

#[test]
fn time_view_shows_the_twelve_hour_dial() {
    let frame = laid_out(DisplayView::Time { data: Time::new(13, 5, 59).unwrap() });
    assert_eq!(frame.font, Font::Large);
    assert_eq!(texts(&frame), vec!["01:05"]);
    assert_eq!(places(&frame), vec![(24, 32, Baseline::Middle)]);
    let midnight = laid_out(DisplayView::Time { data: Time::new(0, 30, 0).unwrap() });
    assert_eq!(texts(&midnight), vec!["12:30"]);
    let noon = laid_out(DisplayView::Time { data: Time::new(12, 0, 0).unwrap() });
    assert_eq!(texts(&noon), vec!["12:00"]);
    let late = laid_out(DisplayView::Time { data: Time::new(23, 59, 0).unwrap() });
    assert_eq!(texts(&late), vec!["11:59"]);
}

#[test]
fn date_view_shows_day_month_and_year() {
    let frame = laid_out(DisplayView::Date { data: Date::new(2024, 3, 5).unwrap() });
    assert_eq!(frame.font, Font::Large);
    assert_eq!(texts(&frame), vec![" 05 Mar", "  2024"]);
    assert_eq!(places(&frame), vec![(0, 0, Baseline::Top), (0, 32, Baseline::Top)]);
}

#[test]
fn date_view_names_every_month() {
    let names =
        ["Jan", "Feb", "Mar", "Apr", "May", "Jun", "Jul", "Aug", "Sep", "Oct", "Nov", "Dec"];
    for month in 1..=12u32 {
        let frame = laid_out(DisplayView::Date { data: Date::new(1999, month, 28).unwrap() });
        let expected = format!(" 28 {}", names[(month - 1) as usize]);
        assert_eq!(texts(&frame), vec![expected, "  1999".to_string()]);
    }
}

#[test]
fn sensor_view_shows_the_four_readings() {
    let frame = laid_out(DisplayView::SensorReadings { data: some_reading() });
    assert_eq!(frame.font, Font::Small);
    assert_eq!(
        texts(&frame),
        vec!["Temp     70 F", "Humidity 45 %", "Pressure 1013", "Gas    012345"]
    );
    assert_eq!(
        places(&frame),
        vec![
            (0, 0, Baseline::Top),
            (0, 16, Baseline::Top),
            (0, 32, Baseline::Top),
            (0, 48, Baseline::Top)
        ]
    );
}

#[test]
fn sensor_view_holds_temperature_and_humidity_between_0_and_99() {
    let cold = SensorReading { temperature: -4000, humidity: 0, ..some_reading() };
    assert_eq!(
        texts(&laid_out(DisplayView::SensorReadings { data: cold }))[0..2],
        ["Temp     00 F", "Humidity 00 %"]
    );
    let hot = SensorReading { temperature: 9000, humidity: 100_000, ..some_reading() };
    assert_eq!(
        texts(&laid_out(DisplayView::SensorReadings { data: hot }))[0..2],
        ["Temp     99 F", "Humidity 99 %"]
    );
    let extreme = SensorReading { temperature: i16::MAX, humidity: u32::MAX, ..some_reading() };
    assert_eq!(
        texts(&laid_out(DisplayView::SensorReadings { data: extreme }))[0..2],
        ["Temp     99 F", "Humidity 99 %"]
    );
}

#[test]
fn sensor_view_rounds_to_the_nearest_whole_number() {
    let shown = |data: SensorReading| texts(&laid_out(DisplayView::SensorReadings { data }));
    // 45.499 % and 45.501 %
    assert_eq!(shown(SensorReading { humidity: 45_499, ..some_reading() })[1], "Humidity 45 %");
    assert_eq!(shown(SensorReading { humidity: 45_501, ..some_reading() })[1], "Humidity 46 %");
    // halfway goes to the even number
    assert_eq!(shown(SensorReading { humidity: 44_500, ..some_reading() })[1], "Humidity 44 %");
    assert_eq!(shown(SensorReading { humidity: 45_500, ..some_reading() })[1], "Humidity 46 %");
    // 2.50 °C is 36.5 °F, 3.6111 °C would be 38.5 °F
    assert_eq!(shown(SensorReading { temperature: 250, ..some_reading() })[0], "Temp     36 F");
    assert_eq!(shown(SensorReading { temperature: 1111, ..some_reading() })[0], "Temp     52 F");
    // 1013.49 hPa, 1013.50 hPa (odd below), 1014.50 hPa (even below)
    assert_eq!(shown(SensorReading { pressure: 101_349, ..some_reading() })[2], "Pressure 1013");
    assert_eq!(shown(SensorReading { pressure: 101_350, ..some_reading() })[2], "Pressure 1014");
    assert_eq!(shown(SensorReading { pressure: 101_450, ..some_reading() })[2], "Pressure 1014");
}

#[test]
fn sensor_view_rounds_as_floating_point_formatting_does() {
    for humidity in [0u32, 499, 500, 501, 1_500, 2_500, 45_123, 98_499, 98_500, 99_000] {
        let data = SensorReading { humidity, ..some_reading() };
        let frame = laid_out(DisplayView::SensorReadings { data });
        let expected = format!("Humidity {:02.0} %", humidity as f64 / 1000.0);
        assert_eq!(texts(&frame)[1], expected);
    }
    for pressure in [0u32, 49, 50, 51, 150, 250, 99_999, 101_325, 110_000] {
        let data = SensorReading { pressure, ..some_reading() };
        let frame = laid_out(DisplayView::SensorReadings { data });
        let expected = format!("Pressure {:04.0}", pressure as f64 / 100.0);
        assert_eq!(texts(&frame)[2], expected);
    }
}

#[test]
fn sensor_view_pads_pressure_and_gas() {
    let low = SensorReading {
        pressure: 949,
        gas_resistance: 7,
        gas_valid: true,
        ..some_reading()
    };
    let frame = laid_out(DisplayView::SensorReadings { data: low });
    assert_eq!(texts(&frame)[2], "Pressure 0009");
    assert_eq!(texts(&frame)[3], "Gas    000007");
    let high = SensorReading {
        pressure: u32::MAX,
        gas_resistance: u32::MAX,
        gas_valid: true,
        ..some_reading()
    };
    let frame = laid_out(DisplayView::SensorReadings { data: high });
    assert_eq!(texts(&frame)[2], "Pressure 42949673");
    assert_eq!(texts(&frame)[3], "Gas    4294967295");
}

#[test]
fn sensor_view_shows_zero_for_an_invalid_gas_reading() {
    let data = SensorReading { gas_valid: false, ..some_reading() };
    let frame = laid_out(DisplayView::SensorReadings { data });
    assert_eq!(texts(&frame)[3], "Gas    000000");
}

#[test]
fn status_view_shows_the_health_of_the_device() {
    let status = SystemStatus {
        uptime_sec: 901,
        alarm: AlarmStatus::NotMonitoring,
        alarm_warmed_up: true,
        record_count: 1,
        storage_connected: true,
        storage_full: false,
        storage_error: false,
    };
    let frame = laid_out(DisplayView::SystemStatus { data: status });
    assert_eq!(frame.font, Font::Small);
    assert_eq!(texts(&frame), vec!["UT 901", "CNT 1", "ALRM X  CON Y", "FULL N  ERR N"]);
    assert_eq!(
        places(&frame),
        vec![
            (0, 0, Baseline::Top),
            (0, 16, Baseline::Top),
            (0, 32, Baseline::Top),
            (0, 48, Baseline::Top)
        ]
    );
}

#[test]
fn status_view_shows_every_flag() {
    let status = SystemStatus {
        uptime_sec: 0,
        alarm: AlarmStatus::On,
        alarm_warmed_up: false,
        record_count: 0,
        storage_connected: false,
        storage_full: true,
        storage_error: true,
    };
    let frame = laid_out(DisplayView::SystemStatus { data: status });
    assert_eq!(texts(&frame), vec!["UT 0", "CNT 0", "ALRM Y  CON N", "FULL Y  ERR Y"]);
    let off = SystemStatus { alarm: AlarmStatus::Off, ..status };
    assert_eq!(texts(&laid_out(DisplayView::SystemStatus { data: off }))[2], "ALRM N  CON N");
}

#[test]
fn status_view_caps_its_counters() {
    let status = SystemStatus {
        uptime_sec: u32::MAX,
        record_count: u32::MAX,
        ..SystemStatus::default()
    };
    let frame = laid_out(DisplayView::SystemStatus { data: status });
    assert_eq!(texts(&frame)[0], "UT 999999999");
    assert_eq!(texts(&frame)[1], "CNT 99999999");
    let below = SystemStatus {
        uptime_sec: 999_999_998,
        record_count: 99_999_998,
        ..SystemStatus::default()
    };
    let frame = laid_out(DisplayView::SystemStatus { data: below });
    assert_eq!(texts(&frame)[0], "UT 999999998");
    assert_eq!(texts(&frame)[1], "CNT 99999998");
}
