//! What the display shows: which view, with which data, and how bright.

use vstd::prelude::*;
use crate::datetime::{Date, Time};
use crate::sensor::SensorReading;
use crate::system_status::SystemStatus;
use crate::text::{
    decimal, lemma_decimal_is_ascii, lemma_zero_padded_bound, line_text, zero_padded, Line,
    LineWriter,
};
use crate::util::{celsius_to_fahrenheit, fahrenheit, DisplayBool};

verus! {

/// The two levels of brightness that the display is run at.
#[derive(Copy, Clone, Eq, PartialEq, Structural, Hash, Debug)]
pub enum Brightness {
    Dimmest,
    Brightest,
}

/// The brightness that belongs to an hour of the day: dim from eight in
/// the evening until eight in the morning, bright for the rest of the day.
pub open spec fn brightness_at(hour: int) -> Brightness {
    if (20 <= hour <= 23) || (0 <= hour <= 7) {
        Brightness::Dimmest
    } else {
        Brightness::Brightest
    }
}

/// One view of the display together with the data that it shows.
#[derive(Copy, Clone, Debug)]
#[allow(inconsistent_fields)]
pub enum DisplayView {
    Time { data: Time },
    Date { data: Date },
    SensorReadings { data: SensorReading },
    SystemStatus { data: SystemStatus },
}

/// The height of the display in pixels.
pub const HEIGHT: i32 = 64;

/// The two sizes of type that the views are set in.
#[derive(Copy, Clone, Eq, PartialEq, Structural, Hash, Debug)]
pub enum Font {
    /// 24 point, for the time and the date.
    Large,
    /// 14 point, for the readings and the status.
    Small,
}

/// Where a line of text sits relative to the point it is placed at.
#[derive(Copy, Clone, Eq, PartialEq, Structural, Hash, Debug)]
pub enum Baseline {
    Top,
    Middle,
}

/// A line of text and its place on the display.
pub struct PlacedText {
    pub x: int,
    pub y: int,
    pub baseline: Baseline,
    pub text: Seq<char>,
}

/// A line of text, ready to be drawn at its place on the display.
#[derive(Debug)]
pub struct TextLine {
    pub x: i32,
    pub y: i32,
    pub baseline: Baseline,
    pub text: Line,
}

impl View for TextLine {
    type V = PlacedText;

    open spec fn view(&self) -> PlacedText {
        PlacedText {
            x: self.x as int,
            y: self.y as int,
            baseline: self.baseline,
            text: line_text(self.text),
        }
    }
}

/// All that is drawn for one view: the display is cleared, and the lines
/// are drawn in the one font.
#[derive(Debug)]
pub struct Frame {
    pub font: Font,
    pub lines: Vec<TextLine>,
}

/// Why a view could not be laid out.
#[derive(Copy, Clone, Eq, PartialEq, Structural, Hash, Debug)]
pub enum DisplayError {
    /// A line did not fit its buffer.
    InvalidFormatError,
}

/// The name of a month in three letters; the months count from zero.
pub open spec fn month_name(month0: int) -> Seq<char> {
    if month0 <= 0 {
        "Jan"@
    } else if month0 == 1 {
        "Feb"@
    } else if month0 == 2 {
        "Mar"@
    } else if month0 == 3 {
        "Apr"@
    } else if month0 == 4 {
        "May"@
    } else if month0 == 5 {
        "Jun"@
    } else if month0 == 6 {
        "Jul"@
    } else if month0 == 7 {
        "Aug"@
    } else if month0 == 8 {
        "Sep"@
    } else if month0 == 9 {
        "Oct"@
    } else if month0 == 10 {
        "Nov"@
    } else {
        "Dec"@
    }
}

/// A value held between two bounds.
pub open spec fn clamped(value: int, low: int, high: int) -> int {
    if value < low {
        low
    } else if value > high {
        high
    } else {
        value
    }
}

/// A value given in units of `1 / unit`, rounded to the nearest whole
/// number; a value halfway between two goes to the even one.
pub open spec fn rounded(value: nat, unit: nat) -> nat {
    let whole = value / unit;
    let rest = value % unit;
    if 2 * rest > unit || (2 * rest == unit && whole % 2 == 1) {
        whole + 1
    } else {
        whole
    }
}

/// The time view's line: the hour on the twelve-hour dial and the minute.
pub open spec fn time_line_text(time: Time) -> Seq<char> {
    zero_padded(time.hour12().1 as nat, 2).push(':') + zero_padded(time.minute() as nat, 2)
}

/// The date view's first line: the day and the month.
pub open spec fn day_line_text(date: Date) -> Seq<char> {
    " "@ + zero_padded(date.day() as nat, 2) + " "@ + month_name(date.month() - 1)
}

/// The date view's second line: the year.
pub open spec fn year_line_text(date: Date) -> Seq<char> {
    "  "@ + decimal(date.year() as nat)
}

/// The temperature in whole degrees Fahrenheit, held between 0 and 99.
pub open spec fn shown_temperature(data: SensorReading) -> nat {
    rounded(clamped(fahrenheit(data.temperature as int), 0, 99_000) as nat, 1000)
}

/// The humidity in whole percent, held between 0 and 99.
pub open spec fn shown_humidity(data: SensorReading) -> nat {
    rounded(clamped(data.humidity as int, 0, 99_000) as nat, 1000)
}

pub open spec fn temperature_line_text(data: SensorReading) -> Seq<char> {
    "Temp     "@ + zero_padded(shown_temperature(data), 2) + " F"@
}

pub open spec fn humidity_line_text(data: SensorReading) -> Seq<char> {
    "Humidity "@ + zero_padded(shown_humidity(data), 2) + " %"@
}

/// The pressure in whole hectopascal.
pub open spec fn pressure_line_text(data: SensorReading) -> Seq<char> {
    "Pressure "@ + zero_padded(rounded(data.pressure as nat, 100), 4)
}

/// The gas resistance in ohm, or zero where none was measured.
pub open spec fn gas_line_text(data: SensorReading) -> Seq<char> {
    "Gas    "@ + zero_padded(
        match data.gas_resistance_spec() {
            Some(ohm) => ohm as nat,
            None => 0,
        },
        6,
    )
}

pub open spec fn uptime_line_text(status: SystemStatus) -> Seq<char> {
    "UT "@ + decimal(clamped(status.uptime_sec as int, 0, 999_999_999) as nat)
}

pub open spec fn records_line_text(status: SystemStatus) -> Seq<char> {
    "CNT "@ + decimal(clamped(status.record_count as int, 0, 99_999_999) as nat)
}

pub open spec fn alarm_line_text(status: SystemStatus) -> Seq<char> {
    "ALRM "@ + status.alarm.text_spec() + "  CON "@ + DisplayBool(
        status.storage_connected,
    ).text_spec()
}

pub open spec fn storage_line_text(status: SystemStatus) -> Seq<char> {
    "FULL "@ + DisplayBool(status.storage_full).text_spec() + "  ERR "@ + DisplayBool(
        status.storage_error,
    ).text_spec()
}

/// The font that a view is set in.
pub open spec fn font_of(view: DisplayView) -> Font {
    match view {
        DisplayView::Time { .. } => Font::Large,
        DisplayView::Date { .. } => Font::Large,
        DisplayView::SensorReadings { .. } => Font::Small,
        DisplayView::SystemStatus { .. } => Font::Small,
    }
}

/// A line at the left edge, hanging from the top of the given row; the
/// display has four rows.
pub open spec fn in_row(row: int, text: Seq<char>) -> PlacedText {
    PlacedText { x: 0, y: row * (HEIGHT / 4), baseline: Baseline::Top, text }
}

/// The lines of a view, from top to bottom.
pub open spec fn lines_of(view: DisplayView) -> Seq<PlacedText> {
    match view {
        DisplayView::Time { data } => seq![
            PlacedText {
                x: 24,
                y: HEIGHT / 2,
                baseline: Baseline::Middle,
                text: time_line_text(data),
            },
        ],
        DisplayView::Date { data } => seq![
            in_row(0, day_line_text(data)),
            in_row(2, year_line_text(data)),
        ],
        DisplayView::SensorReadings { data } => seq![
            in_row(0, temperature_line_text(data)),
            in_row(1, humidity_line_text(data)),
            in_row(2, pressure_line_text(data)),
            in_row(3, gas_line_text(data)),
        ],
        DisplayView::SystemStatus { data } => seq![
            in_row(0, uptime_line_text(data)),
            in_row(1, records_line_text(data)),
            in_row(2, alarm_line_text(data)),
            in_row(3, storage_line_text(data)),
        ],
    }
}

fn month_abbreviation(month0: u32) -> (name: &'static str)
    ensures
        name@ == month_name(month0 as int),
        vstd::utf8::is_ascii_chars(name@),
        name@.len() == 3,
{
    proof {
        reveal_strlit("Jan");
        reveal_strlit("Feb");
        reveal_strlit("Mar");
        reveal_strlit("Apr");
        reveal_strlit("May");
        reveal_strlit("Jun");
        reveal_strlit("Jul");
        reveal_strlit("Aug");
        reveal_strlit("Sep");
        reveal_strlit("Oct");
        reveal_strlit("Nov");
        reveal_strlit("Dec");
    }
    if month0 == 0 {
        "Jan"
    } else if month0 == 1 {
        "Feb"
    } else if month0 == 2 {
        "Mar"
    } else if month0 == 3 {
        "Apr"
    } else if month0 == 4 {
        "May"
    } else if month0 == 5 {
        "Jun"
    } else if month0 == 6 {
        "Jul"
    } else if month0 == 7 {
        "Aug"
    } else if month0 == 8 {
        "Sep"
    } else if month0 == 9 {
        "Oct"
    } else if month0 == 10 {
        "Nov"
    } else {
        "Dec"
    }
}

fn round_to_whole(value: u32, unit: u32) -> (whole: u32)
    requires
        unit == 100 || unit == 1000,
    ensures
        whole == rounded(value as nat, unit as nat),
        whole <= value / unit + 1,
{
    let whole: u32 = value / unit;
    let rest: u32 = value % unit;
    if 2 * rest > unit || (2 * rest == unit && whole % 2 == 1) {
        whole + 1
    } else {
        whole
    }
}

fn time_line(time: &Time) -> (line: Option<Line>)
    ensures
        line matches Some(l) && line_text(l) == time_line_text(*time),
{
    let (_is_pm, hour) = time.hour12();
    let minute: u32 = time.minute();
    let mut writer = LineWriter::new();
    writer.zero_padded(hour, 2);
    writer.char(':');
    writer.zero_padded(minute, 2);
    proof {
        lemma_zero_padded_bound(hour as nat, 2);
        lemma_zero_padded_bound(minute as nat, 2);
    }
    writer.finish()
}

fn day_line(date: &Date) -> (line: Option<Line>)
    ensures
        line matches Some(l) && line_text(l) == day_line_text(*date),
{
    let day: u32 = date.day();
    let month: u32 = date.month();
    let name = month_abbreviation(month - 1);
    let mut writer = LineWriter::new();
    proof {
        reveal_strlit(" ");
    }
    writer.str(" ");
    writer.zero_padded(day, 2);
    writer.str(" ");
    writer.str(name);
    proof {
        lemma_zero_padded_bound(day as nat, 2);
    }
    writer.finish()
}

fn year_line(date: &Date) -> (line: Option<Line>)
    ensures
        line matches Some(l) && line_text(l) == year_line_text(*date),
{
    let year: i32 = date.year();
    let mut writer = LineWriter::new();
    proof {
        reveal_strlit("  ");
    }
    writer.str("  ");
    writer.decimal(year as u32);
    proof {
        lemma_decimal_is_ascii(year as nat);
    }
    writer.finish()
}

fn temperature_line(data: &SensorReading) -> (line: Option<Line>)
    ensures
        line matches Some(l) && line_text(l) == temperature_line_text(*data),
{
    let temp_f: i32 = celsius_to_fahrenheit(data.temperature);
    let held: u32 = if temp_f < 0 {
        0
    } else if temp_f > 99_000 {
        99_000
    } else {
        temp_f as u32
    };
    let shown: u32 = round_to_whole(held, 1000);
    let mut writer = LineWriter::new();
    proof {
        reveal_strlit("Temp     ");
        reveal_strlit(" F");
    }
    writer.str("Temp     ");
    writer.zero_padded(shown, 2);
    writer.str(" F");
    proof {
        lemma_zero_padded_bound(shown as nat, 2);
    }
    writer.finish()
}

fn humidity_line(data: &SensorReading) -> (line: Option<Line>)
    ensures
        line matches Some(l) && line_text(l) == humidity_line_text(*data),
{
    let held: u32 = if data.humidity > 99_000 {
        99_000
    } else {
        data.humidity
    };
    let shown: u32 = round_to_whole(held, 1000);
    let mut writer = LineWriter::new();
    proof {
        reveal_strlit("Humidity ");
        reveal_strlit(" %");
    }
    writer.str("Humidity ");
    writer.zero_padded(shown, 2);
    writer.str(" %");
    proof {
        lemma_zero_padded_bound(shown as nat, 2);
    }
    writer.finish()
}

fn pressure_line(data: &SensorReading) -> (line: Option<Line>)
    ensures
        line matches Some(l) && line_text(l) == pressure_line_text(*data),
{
    let shown: u32 = round_to_whole(data.pressure, 100);
    let mut writer = LineWriter::new();
    proof {
        reveal_strlit("Pressure ");
    }
    writer.str("Pressure ");
    writer.zero_padded(shown, 4);
    proof {
        lemma_zero_padded_bound(shown as nat, 4);
    }
    writer.finish()
}

fn gas_line(data: &SensorReading) -> (line: Option<Line>)
    ensures
        line matches Some(l) && line_text(l) == gas_line_text(*data),
{
    let gas: u32 = match data.gas_resistance_ohm() {
        Some(ohm) => ohm,
        None => 0,
    };
    let mut writer = LineWriter::new();
    proof {
        reveal_strlit("Gas    ");
    }
    writer.str("Gas    ");
    writer.zero_padded(gas, 6);
    proof {
        lemma_zero_padded_bound(gas as nat, 6);
    }
    writer.finish()
}

fn uptime_line(status: &SystemStatus) -> (line: Option<Line>)
    ensures
        line matches Some(l) && line_text(l) == uptime_line_text(*status),
{
    let shown: u32 = if status.uptime_sec > 999_999_999 {
        999_999_999
    } else {
        status.uptime_sec
    };
    let mut writer = LineWriter::new();
    proof {
        reveal_strlit("UT ");
    }
    writer.str("UT ");
    writer.decimal(shown);
    proof {
        lemma_decimal_is_ascii(shown as nat);
    }
    writer.finish()
}

fn records_line(status: &SystemStatus) -> (line: Option<Line>)
    ensures
        line matches Some(l) && line_text(l) == records_line_text(*status),
{
    let shown: u32 = if status.record_count > 99_999_999 {
        99_999_999
    } else {
        status.record_count
    };
    let mut writer = LineWriter::new();
    proof {
        reveal_strlit("CNT ");
    }
    writer.str("CNT ");
    writer.decimal(shown);
    proof {
        lemma_decimal_is_ascii(shown as nat);
    }
    writer.finish()
}

fn alarm_line(status: &SystemStatus) -> (line: Option<Line>)
    ensures
        line matches Some(l) && line_text(l) == alarm_line_text(*status),
{
    let mut writer = LineWriter::new();
    proof {
        reveal_strlit("ALRM ");
        reveal_strlit("  CON ");
    }
    writer.str("ALRM ");
    writer.str(status.alarm.text());
    writer.str("  CON ");
    writer.str(DisplayBool(status.storage_connected).text());
    writer.finish()
}

fn storage_line(status: &SystemStatus) -> (line: Option<Line>)
    ensures
        line matches Some(l) && line_text(l) == storage_line_text(*status),
{
    let mut writer = LineWriter::new();
    proof {
        reveal_strlit("FULL ");
        reveal_strlit("  ERR ");
    }
    writer.str("FULL ");
    writer.str(DisplayBool(status.storage_full).text());
    writer.str("  ERR ");
    writer.str(DisplayBool(status.storage_error).text());
    writer.finish()
}

/// Adds a line to the lines of a frame, at the left edge of the given
/// row.
fn add_row(lines: &mut Vec<TextLine>, row: i32, text: Option<Line>) -> (ok: bool)
    requires
        0 <= row < 4,
    ensures
        ok == text is Some,
        ok ==> final(lines)@ == old(lines)@.push(
            TextLine { x: 0, y: (row * (HEIGHT / 4)) as i32, baseline: Baseline::Top, text: text->0 },
        ),
        !ok ==> final(lines)@ == old(lines)@,
{
    match text {
        Some(text) => {
            lines.push(TextLine { x: 0, y: row * (HEIGHT / 4), baseline: Baseline::Top, text });
            true
        },
        None => false,
    }
}

/// The display as far as this library decides about it.
pub struct Display {
    brightness: Brightness,
}

impl View for Display {
    type V = Brightness;

    /// The brightness that the driver last set the display to.
    closed spec fn view(&self) -> Brightness {
        self.brightness
    }
}

impl Display {
    /// A display that was just switched on, at its brightest.
    pub fn new() -> (display: Display)
        ensures
            display@ == Brightness::Brightest,
    {
        Display { brightness: Brightness::Brightest }
    }

    pub fn brightness(&self) -> (brightness: Brightness)
        ensures
            brightness == self@,
    {
        self.brightness
    }

    /// The brightness that the driver has to be asked for at the given time
    /// of day: the one that belongs to the hour, where the display is not
    /// set to it already.
    pub open spec fn brightness_change(&self, time: Time) -> Option<Brightness> {
        if brightness_at(time.hour() as int) != self@ {
            Some(brightness_at(time.hour() as int))
        } else {
            None
        }
    }

    /// 8 PM ..= 8 AM => Brightness::Dimmest, else Brightness::Brightest.
    /// Returns the brightness to ask the driver for where it differs from
    /// the one that the display is set to, and nothing where the display
    /// can stay as it is. Nothing is stored here; once the driver has taken
    /// the new brightness, say so with [`Display::brightness_set`].
    pub fn update_brightness(&self, time: &Time) -> (change: Option<Brightness>)
        ensures
            change == self.brightness_change(*time),
            change matches Some(target) ==> target == brightness_at(time.hour() as int) && target
                != self@,
            change is None ==> self@ == brightness_at(time.hour() as int),
    {
        let hr24: u32 = time.hour();
        let brightness = if (20 <= hr24 && hr24 <= 23) || hr24 <= 7 {
            Brightness::Dimmest
        } else {
            Brightness::Brightest
        };
        if brightness != self.brightness {
            Some(brightness)
        } else {
            None
        }
    }

    /// The driver has set the display to the given brightness.
    pub fn brightness_set(&mut self, brightness: Brightness)
        ensures
            final(self)@ == brightness,
    {
        self.brightness = brightness;
    }

    /// Lays a view out: the lines to draw, each with its place. Every
    /// line fits its buffer, so this never fails.
    pub fn draw_view(&self, view: DisplayView) -> (r: Result<Frame, DisplayError>)
        ensures
            r matches Ok(frame) && frame.font == font_of(view) && frame.lines@.len() == lines_of(
                view,
            ).len() && forall|i: int|
                0 <= i < frame.lines@.len() ==> (#[trigger] frame.lines@[i])@ == lines_of(view)[i],
    {
        let mut lines: Vec<TextLine> = Vec::new();
        let font;
        let ok;
        match view {
            DisplayView::Time { data } => {
                font = Font::Large;
                match time_line(&data) {
                    Some(text) => {
                        lines.push(
                            TextLine { x: 24, y: HEIGHT / 2, baseline: Baseline::Middle, text },
                        );
                        ok = true;
                    },
                    None => {
                        ok = false;
                    },
                }
            },
            DisplayView::Date { data } => {
                font = Font::Large;
                let first = add_row(&mut lines, 0, day_line(&data));
                let second = add_row(&mut lines, 2, year_line(&data));
                ok = first && second;
            },
            DisplayView::SensorReadings { data } => {
                font = Font::Small;
                let first = add_row(&mut lines, 0, temperature_line(&data));
                let second = add_row(&mut lines, 1, humidity_line(&data));
                let third = add_row(&mut lines, 2, pressure_line(&data));
                let fourth = add_row(&mut lines, 3, gas_line(&data));
                ok = first && second && third && fourth;
            },
            DisplayView::SystemStatus { data } => {
                font = Font::Small;
                let first = add_row(&mut lines, 0, uptime_line(&data));
                let second = add_row(&mut lines, 1, records_line(&data));
                let third = add_row(&mut lines, 2, alarm_line(&data));
                let fourth = add_row(&mut lines, 3, storage_line(&data));
                ok = first && second && third && fourth;
            },
        }
        if ok {
            Ok(Frame { font, lines })
        } else {
            Err(DisplayError::InvalidFormatError)
        }
    }
}

} // verus!
