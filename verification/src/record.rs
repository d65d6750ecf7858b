//! One line of the log that the device keeps on its storage card.

use vstd::prelude::*;
use crate::datetime::{Date, DateTime, Time};
use crate::sensor::SensorReading;
use crate::text::{
    decimal, fixed_point, lemma_decimal_is_ascii, lemma_decimal_len, lemma_fixed_point_len,
    line_text, zero_padded, Line, LineWriter, LINE_CAP,
};
use crate::util::{celsius_to_fahrenheit, fahrenheit};

verus! {

/// The most characters that a record's line can have.
pub const CSV_LINE_MAX: usize = 68;

#[derive(Copy, Clone, Eq, PartialEq, Structural, Hash, Debug)]
pub enum Error {
    /// Could not format string
    StringFormatting,
}

/// A measurement and the time at which it was taken.
#[derive(Copy, Clone, Debug)]
pub struct Record {
    /// Date and time of the measurement, without time zone.
    pub timestamp: DateTime,
    /// Temperature in thousandths of a degree fahrenheit (°F)
    pub temperature: i32,
    /// Humidity in thousandths of a percent of relative humidity
    pub humidity: u32,
    /// Pressure in hundredths of a hectopascal (hPA)
    pub pressure: u32,
    /// Gas resistance, present if the sensor measured one.
    /// If not valid, value 0 is used
    pub gas_resistance: Option<u32>,
}

/// A date in the form `YYYY-MM-DD`.
pub open spec fn date_text(date: Date) -> Seq<char> {
    decimal(date.year() as nat).push('-') + zero_padded(date.month() as nat, 2).push('-')
        + zero_padded(date.day() as nat, 2)
}

/// A time of day in the form `hh:mm:ss`.
pub open spec fn time_text(time: Time) -> Seq<char> {
    zero_padded(time.hour() as nat, 2).push(':') + zero_padded(time.minute() as nat, 2).push(':')
        + zero_padded(time.second() as nat, 2)
}

/// A date and a time in the form `YYYY-MM-DDThh:mm:ss`.
pub open spec fn timestamp_text(datetime: DateTime) -> Seq<char> {
    date_text(datetime.date).push('T') + time_text(datetime.time)
}

impl Record {
    /// The record of a measurement taken at `datetime`.
    pub open spec fn of(datetime: DateTime, data: SensorReading) -> Record {
        Record {
            timestamp: datetime,
            temperature: fahrenheit(data.temperature as int) as i32,
            humidity: data.humidity,
            pressure: data.pressure,
            gas_resistance: data.gas_resistance_spec(),
        }
    }

    /// The gas resistance as the line shows it.
    pub open spec fn gas_or_zero(self) -> u32 {
        match self.gas_resistance {
            Some(ohm) => ohm,
            None => 0,
        }
    }

    /// The line of the record: the time stamp and four numbers, with
    /// commas between them and a line feed at the end. The numbers are the
    /// temperature in degrees Fahrenheit, the humidity in percent, the
    /// pressure in hectopascal and the gas resistance in ohm, each in its
    /// shortest form: `32`, `0.007`, `1013.25`, `-40`.
    pub open spec fn csv_text(self) -> Seq<char> {
        timestamp_text(self.timestamp).push(',') + fixed_point(self.temperature as int, 3).push(
            ',',
        ) + fixed_point(self.humidity as int, 3).push(',') + fixed_point(
            self.pressure as int,
            2,
        ).push(',') + decimal(self.gas_or_zero() as nat).push('\n')
    }

    pub fn new(datetime: &DateTime, data: &SensorReading) -> (record: Record)
        ensures
            record == Record::of(*datetime, *data),
    {
        Record {
            timestamp: *datetime,
            temperature: celsius_to_fahrenheit(data.temperature),
            humidity: data.humidity,
            pressure: data.pressure,
            gas_resistance: data.gas_resistance_ohm(),
        }
    }

    /// Writes the record's line. The line always fits its buffer.
    pub fn to_csv_line(&self) -> (r: Result<Line, Error>)
        ensures
            r matches Ok(line) && line_text(line) == self.csv_text(),
    {
        let mut writer = LineWriter::new();
        write_timestamp(&mut writer, &self.timestamp);
        writer.char(',');
        writer.fixed_point(self.temperature as i64, 3);
        writer.char(',');
        writer.fixed_point(self.humidity as i64, 3);
        writer.char(',');
        writer.fixed_point(self.pressure as i64, 2);
        writer.char(',');
        let gas: u32 = match self.gas_resistance {
            Some(ohm) => ohm,
            None => 0,
        };
        writer.decimal(gas);
        writer.char('\n');
        proof {
            lemma_csv_line_fits(*self);
        }
        match writer.finish() {
            Some(line) => Ok(line),
            None => Err(Error::StringFormatting),
        }
    }
}

fn write_date(writer: &mut LineWriter, date: &Date)
    requires
        old(writer).wf(),
    ensures
        final(writer).wf(),
        final(writer)@ == old(writer)@ + date_text(*date),
        date.is_valid(),
{
    let year: i32 = date.year();
    writer.decimal(year as u32);
    writer.char('-');
    writer.zero_padded(date.month(), 2);
    writer.char('-');
    writer.zero_padded(date.day(), 2);
}

fn write_time(writer: &mut LineWriter, time: &Time)
    requires
        old(writer).wf(),
    ensures
        final(writer).wf(),
        final(writer)@ == old(writer)@ + time_text(*time),
        time.is_valid(),
{
    writer.zero_padded(time.hour(), 2);
    writer.char(':');
    writer.zero_padded(time.minute(), 2);
    writer.char(':');
    writer.zero_padded(time.second(), 2);
}

/// Writes a date and a time in the form `YYYY-MM-DDThh:mm:ss`.
fn write_timestamp(writer: &mut LineWriter, datetime: &DateTime)
    requires
        old(writer).wf(),
    ensures
        final(writer).wf(),
        final(writer)@ == old(writer)@ + timestamp_text(*datetime),
        datetime.is_valid(),
{
    write_date(writer, &datetime.date);
    writer.char('T');
    write_time(writer, &datetime.time);
}

/// A time stamp is at most nineteen characters long.
pub proof fn lemma_timestamp_len(datetime: DateTime)
    requires
        datetime.is_valid(),
    ensures
        timestamp_text(datetime).len() <= 19,
{
    lemma_decimal_len(datetime.date.year() as nat);
    lemma_decimal_len(datetime.date.month() as nat);
    lemma_decimal_len(datetime.date.day() as nat);
    lemma_decimal_len(datetime.time.hour() as nat);
    lemma_decimal_len(datetime.time.minute() as nat);
    lemma_decimal_len(datetime.time.second() as nat);
}

/// A record's line is never longer than [`CSV_LINE_MAX`] characters, so it
/// fits a [`Line`] with room to spare.
pub proof fn lemma_csv_line_fits(record: Record)
    requires
        record.timestamp.is_valid(),
    ensures
        record.csv_text().len() <= CSV_LINE_MAX,
        CSV_LINE_MAX <= LINE_CAP,
{
    lemma_timestamp_len(record.timestamp);
    lemma_decimal_is_ascii(record.gas_or_zero() as nat);
    lemma_fixed_point_len(record.temperature as int, 3);
    lemma_fixed_point_len(record.humidity as int, 3);
    lemma_fixed_point_len(record.pressure as int, 2);
}

} // verus!
