use env_monitor::datetime::{Date, DateTime, Time};
use env_monitor::record::{Record, CSV_LINE_MAX};
use env_monitor::sensor::SensorReading;
use env_monitor::text::LINE_CAP;

fn at(year: i32, month: u32, day: u32, hour: u32, minute: u32, second: u32) -> DateTime {
    DateTime {
        date: Date::new(year, month, day).unwrap(),
        time: Time::new(hour, minute, second).unwrap(),
    }
}

fn some_reading() -> SensorReading {
    SensorReading {
        temperature: 2111,
        pressure: 101_325,
        humidity: 45_123,
        gas_resistance: 12_345,
        gas_valid: true,
    }
}

fn line_of(datetime: &DateTime, data: &SensorReading) -> String {
    Record::new(datetime, data).to_csv_line().unwrap().as_str().to_string()
}

#[test]
fn record_keeps_the_reading_in_fahrenheit() {
    let record = Record::new(&at(2024, 3, 5, 7, 8, 9), &some_reading());
    assert_eq!(record.timestamp, at(2024, 3, 5, 7, 8, 9));
    assert_eq!(record.temperature, 69_998);
    assert_eq!(record.humidity, 45_123);
    assert_eq!(record.pressure, 101_325);
    assert_eq!(record.gas_resistance, Some(12_345));
}

#[test]
fn record_without_a_valid_gas_reading_has_none() {
    let data = SensorReading { gas_valid: false, ..some_reading() };
    let record = Record::new(&at(2024, 3, 5, 7, 8, 9), &data);
    assert_eq!(record.gas_resistance, None);
}

#[test]
fn csv_line_of_a_reading() {
    assert_eq!(
        line_of(&at(2024, 3, 5, 7, 8, 9), &some_reading()),
        "2024-03-05T07:08:09,69.998,45.123,1013.25,12345\n"
    );
}

#[test]
fn csv_line_writes_zero_for_an_invalid_gas_reading() {
    let data = SensorReading { gas_valid: false, ..some_reading() };
    assert_eq!(
        line_of(&at(2024, 12, 31, 23, 59, 59), &data),
        "2024-12-31T23:59:59,69.998,45.123,1013.25,0\n"
    );
}

#[test]
fn csv_line_writes_whole_numbers_without_a_point() {
    let data = SensorReading {
        temperature: 0,
        pressure: 0,
        humidity: 0,
        gas_resistance: 0,
        gas_valid: false,
    };
    assert_eq!(line_of(&at(2021, 3, 4, 5, 6, 7), &data), "2021-03-04T05:06:07,32,0,0,0\n");
    // 100 °C, 50 %, 1000 hPa
    let data = SensorReading {
        temperature: 10_000,
        pressure: 100_000,
        humidity: 50_000,
        gas_resistance: 100,
        gas_valid: true,
    };
    assert_eq!(line_of(&at(2021, 3, 4, 5, 6, 7), &data), "2021-03-04T05:06:07,212,50,1000,100\n");
}

#[test]
fn csv_line_keeps_the_zeros_in_front_of_the_decimals() {
    let data = SensorReading {
        temperature: 0,
        pressure: 100_005,
        humidity: 7,
        gas_resistance: 0,
        gas_valid: true,
    };
    assert_eq!(
        line_of(&at(2000, 1, 1, 0, 0, 0), &data),
        "2000-01-01T00:00:00,32,0.007,1000.05,0\n"
    );
}

#[test]
fn csv_line_leaves_out_the_zeros_at_the_end_of_the_decimals() {
    // 25 °C is 77 °F, 25.05 °C is 77.09 °F, 25.5 °C is 77.9 °F
    let shown = |temperature: i16, humidity: u32, pressure: u32| {
        let data = SensorReading {
            temperature,
            pressure,
            humidity,
            gas_resistance: 0,
            gas_valid: false,
        };
        line_of(&at(2000, 1, 1, 0, 0, 0), &data)
    };
    assert_eq!(shown(2500, 45_100, 101_320), "2000-01-01T00:00:00,77,45.1,1013.2,0\n");
    assert_eq!(shown(2505, 45_120, 101_300), "2000-01-01T00:00:00,77.09,45.12,1013,0\n");
    assert_eq!(shown(2550, 45_010, 101_301), "2000-01-01T00:00:00,77.9,45.01,1013.01,0\n");
    assert_eq!(shown(2551, 40_000, 10), "2000-01-01T00:00:00,77.918,40,0.1,0\n");
    assert_eq!(shown(2551, 1, 1), "2000-01-01T00:00:00,77.918,0.001,0.01,0\n");
}

#[test]
fn csv_line_of_a_temperature_below_zero() {
    let cold = SensorReading { temperature: -4000, ..some_reading() };
    assert_eq!(
        line_of(&at(2024, 1, 2, 3, 4, 5), &cold),
        "2024-01-02T03:04:05,-40,45.123,1013.25,12345\n"
    );
    let just_below = SensorReading { temperature: -1778, ..some_reading() };
    assert_eq!(
        line_of(&at(2024, 1, 2, 3, 4, 5), &just_below),
        "2024-01-02T03:04:05,-0.004,45.123,1013.25,12345\n"
    );
    // -45 °C is -49 °F, -45.5 °C is -49.9 °F
    let colder = SensorReading { temperature: -4550, ..some_reading() };
    assert_eq!(
        line_of(&at(2024, 1, 2, 3, 4, 5), &colder),
        "2024-01-02T03:04:05,-49.9,45.123,1013.25,12345\n"
    );
}

#[test]
fn csv_line_does_not_pad_the_year() {
    let zero = SensorReading {
        temperature: 0,
        pressure: 0,
        humidity: 0,
        gas_resistance: 0,
        gas_valid: false,
    };
    assert_eq!(line_of(&at(0, 1, 1, 0, 0, 0), &zero), "0-01-01T00:00:00,32,0,0,0\n");
    assert_eq!(line_of(&at(987, 6, 5, 4, 3, 2), &zero), "987-06-05T04:03:02,32,0,0,0\n");
}

#[test]
fn longest_csv_line_fits_the_buffer() {
    let record = Record {
        timestamp: at(9999, 12, 31, 23, 59, 59),
        temperature: i32::MIN,
        humidity: u32::MAX,
        pressure: u32::MAX,
        gas_resistance: Some(u32::MAX),
    };
    let line = record.to_csv_line().unwrap();
    assert_eq!(
        line.as_str(),
        "9999-12-31T23:59:59,-2147483.648,4294967.295,42949672.95,4294967295\n"
    );
    assert_eq!(line.len(), CSV_LINE_MAX);
    assert!(CSV_LINE_MAX <= LINE_CAP);
    assert_eq!(line.capacity(), LINE_CAP);
}

#[test]
fn csv_line_of_the_largest_temperature() {
    let record = Record {
        timestamp: at(2024, 3, 5, 7, 8, 9),
        temperature: i32::MAX,
        humidity: 0,
        pressure: 0,
        gas_resistance: None,
    };
    assert_eq!(
        record.to_csv_line().unwrap().as_str(),
        "2024-03-05T07:08:09,2147483.647,0,0,0\n"
    );
}

#[test]
fn csv_line_is_the_same_every_time() {
    let record = Record::new(&at(2024, 3, 5, 7, 8, 9), &some_reading());
    let first = record.to_csv_line().unwrap();
    let second = record.to_csv_line().unwrap();
    assert_eq!(first.as_str(), second.as_str());
    assert!(first.as_str().ends_with('\n'));
    assert_eq!(first.as_str().matches(',').count(), 4);
}

#[test]
fn csv_numbers_are_in_the_shortest_form() {
    for value in [0u32, 1, 7, 10, 50, 99, 100, 101, 110, 500, 1000, 1001, 45_120, 101_300] {
        let data = SensorReading {
            temperature: 0,
            pressure: value,
            humidity: value,
            gas_resistance: 0,
            gas_valid: false,
        };
        let line = line_of(&at(2024, 3, 5, 7, 8, 9), &data);
        let fields: Vec<&str> = line.trim_end().split(',').collect();
        assert_eq!(fields[2], format!("{}", value as f64 / 1000.0), "humidity {}", value);
        assert_eq!(fields[3], format!("{}", value as f64 / 100.0), "pressure {}", value);
    }
    for t in i16::MIN..=i16::MAX {
        let data = SensorReading { temperature: t, ..some_reading() };
        let line = line_of(&at(2024, 3, 5, 7, 8, 9), &data);
        let fields: Vec<&str> = line.trim_end().split(',').collect();
        let exact = (t as i64 * 18 + 32_000) as f64 / 1000.0;
        assert_eq!(fields[1], format!("{}", exact), "at {}", t);
    }
}

#[test]
fn csv_numbers_agree_with_floating_point() {
    for t in [-4000i16, -1778, -1, 0, 1, 1888, 2111, 2334, 8500] {
        let data = SensorReading { temperature: t, ..some_reading() };
        let line = line_of(&at(2024, 3, 5, 7, 8, 9), &data);
        let fields: Vec<&str> = line.trim_end().split(',').collect();
        let written: f64 = fields[1].parse().unwrap();
        let float = (t as f64 / 100.0) * 1.8 + 32.0;
        assert!((written - float).abs() < 1e-9, "at {}", t);
        let humidity: f64 = fields[2].parse().unwrap();
        assert!((humidity - 45.123).abs() < 1e-9);
        let pressure: f64 = fields[3].parse().unwrap();
        assert!((pressure - 1013.25).abs() < 1e-9);
    }
}
