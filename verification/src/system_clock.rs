//! The free-running second counter, the single source of time of the device.

use vstd::prelude::*;
use chrono::{Datelike, Timelike};
use crate::datetime::DateTime;
use crate::time::Instant;

verus! {

/// The count that follows `count` after `ticks` more seconds: the counter
/// has 32 bits and starts again at zero when it runs over.
pub open spec fn count_after(count: nat, ticks: nat) -> nat {
    (count + ticks) % 0x1_0000_0000
}

/// 32-bit second clock.
///
/// The timer interrupt is its only writer and advances it by one second at a
/// time; every other part of the device only reads it. Whoever shares the
/// clock between the two contexts hands out `&mut` access for the tick alone,
/// so that a tick is never torn.
#[derive(Debug)]
pub struct SystemClock {
    count: u32,
}

impl View for SystemClock {
    type V = nat;

    /// The seconds counted so far.
    closed spec fn view(&self) -> nat {
        self.count as nat
    }
}

impl SystemClock {
    pub fn new() -> (clock: SystemClock)
        ensures
            clock@ == 0,
    {
        SystemClock { count: 0 }
    }

    /// The reload value that makes the system timer fire once a second. The
    /// timer is run from its external clock, which is an eighth of the core
    /// clock, given here in hertz.
    pub fn systick_reload(hclk_hz: u32) -> (reload: u32)
        ensures
            reload == hclk_hz / 8,
    {
        hclk_hz / 8
    }

    /// One tick of the timer: the count goes up by exactly one, and from the
    /// largest count back to zero.
    pub fn inc_from_interrupt(&mut self)
        ensures
            final(self)@ == count_after(old(self)@, 1),
            old(self)@ < u32::MAX ==> final(self)@ == old(self)@ + 1,
            old(self)@ == u32::MAX ==> final(self)@ == 0,
    {
        self.count = self.count.wrapping_add(1);
    }

    pub fn get_raw(&self) -> (count: u32)
        ensures
            count == self@,
    {
        self.count
    }

    /// The current count as a point in time.
    pub fn now(&self) -> (t: Instant)
        ensures
            t.ticks == self@,
    {
        Instant::new(self.count)
    }

    /// The seconds that passed since `since` was read from this clock, or
    /// `None` when `since` lies ahead of the current count, as a reading does
    /// that was taken before the counter ran over.
    pub fn elapsed(&self, since: &Instant) -> (d: Option<u32>)
        ensures
            d == self.now_spec().elapsed_since(*since),
            d is None <==> since.ticks > self@,
            d matches Some(secs) ==> 0 <= secs && secs == self@ - since.ticks,
    {
        self.now().checked_duration_since(since)
    }

    /// The point in time that [`SystemClock::now`] returns.
    pub open spec fn now_spec(&self) -> Instant {
        Instant { ticks: self@ as u32 }
    }
}

/// Ticks add up: counting `a` seconds and then `b` more is counting `a + b`.
pub proof fn lemma_ticks_add_up(count: nat, a: nat, b: nat)
    ensures
        count_after(count_after(count, a), b) == count_after(count, a + b),
        count_after(count, 0) == count % 0x1_0000_0000,
{
}

/// Elapsed time counts the ticks. Take a reading `since` of the clock, and
/// look at the clock again `ticks` seconds later:
/// - as long as the counter has not run over, the elapsed time is exactly
///   `ticks`;
/// - once it has run over, and until it has gone all the way round, `since`
///   lies ahead of the count and there is no elapsed time at all;
/// - at any time, there is no elapsed time exactly if `since` lies ahead of
///   the count, and else the elapsed time is the count less `since`, which is
///   not negative.
pub proof fn lemma_elapsed_counts_ticks(since: Instant, ticks: nat)
    ensures
        ({
            let now = Instant { ticks: count_after(since.ticks as nat, ticks) as u32 };
            &&& since.ticks + ticks <= u32::MAX ==> now.elapsed_since(since) == Some(ticks as u32)
            &&& u32::MAX < since.ticks + ticks && ticks < 0x1_0000_0000 ==> now.elapsed_since(
                since,
            ) is None
            &&& now.elapsed_since(since) is None <==> since.ticks > now.ticks
            &&& now.elapsed_since(since) matches Some(secs) ==> 0 <= secs == now.ticks
                - since.ticks
        }),
{
}

/// A time stamp as a FAT file system keeps it for a file.
#[derive(Copy, Clone, Eq, PartialEq, Structural, Hash, Debug)]
pub struct Timestamp {
    pub year_since_1970: u8,
    pub zero_indexed_month: u8,
    pub zero_indexed_day: u8,
    pub hours: u8,
    pub minutes: u8,
    pub seconds: u8,
}

/// A date and time of the calendar in numbers: the year, the month and the
/// day of the month, both counted from zero, the hour, the minute and the
/// second.
pub struct Civil {
    pub year: int,
    pub month0: int,
    pub day0: int,
    pub hour: int,
    pub minute: int,
    pub second: int,
}

impl Timestamp {
    /// The time stamp for a date and time. Each number is cut down to the
    /// eight bits that the time stamp has for it.
    pub open spec fn of(civil: Civil) -> Timestamp {
        Timestamp {
            year_since_1970: ((civil.year - 1970) % 256) as u8,
            zero_indexed_month: (civil.month0 % 256) as u8,
            zero_indexed_day: (civil.day0 % 256) as u8,
            hours: (civil.hour % 256) as u8,
            minutes: (civil.minute % 256) as u8,
            seconds: (civil.second % 256) as u8,
        }
    }

    /// The time stamp for a date and time given in numbers; month and day
    /// count from zero.
    pub fn from_civil(
        year: i32,
        month0: u32,
        day0: u32,
        hour: u32,
        minute: u32,
        second: u32,
    ) -> (t: Timestamp)
        ensures
            t == Timestamp::of(
                Civil {
                    year: year as int,
                    month0: month0 as int,
                    day0: day0 as int,
                    hour: hour as int,
                    minute: minute as int,
                    second: second as int,
                },
            ),
    {
        // lifted above zero by a multiple of 256, which leaves the remainder as it is
        let years: i64 = (year as i64) - 1970 + 0x1_0000_0000;
        Timestamp {
            year_since_1970: (years % 256) as u8,
            zero_indexed_month: (month0 % 256) as u8,
            zero_indexed_day: (day0 % 256) as u8,
            hours: (hour % 256) as u8,
            minutes: (minute % 256) as u8,
            seconds: (second % 256) as u8,
        }
    }
}

/// The date and time that the calendar shows `seconds` seconds after a
/// given date and time, with no leap second in between. `chrono` works it
/// out, as `NaiveDateTime + TimeDelta`.
pub uninterp spec fn civil_after(
    year: int,
    month: int,
    day: int,
    hour: int,
    minute: int,
    second: int,
    seconds: int,
) -> Civil;

/// The date and time `seconds` seconds after `base`, by `chrono`: the sum
/// `NaiveDateTime + TimeDelta`, taken apart with the accessors of
/// `Datelike` and `Timelike`. Every [`DateTime`] is a date and time that
/// `chrono` takes, and the sum of one with the seconds of a `u32` stays
/// far inside the years that it can hold.
#[verifier::external_body]
fn datetime_after(base: &DateTime, seconds: u32) -> (r: (i32, u32, u32, u32, u32, u32))
    ensures
        (Civil {
            year: r.0 as int,
            month0: r.1 as int,
            day0: r.2 as int,
            hour: r.3 as int,
            minute: r.4 as int,
            second: r.5 as int,
        }) == civil_after(
            base.date.year() as int,
            base.date.month() as int,
            base.date.day() as int,
            base.time.hour() as int,
            base.time.minute() as int,
            base.time.second() as int,
            seconds as int,
        ),
{
    let (date, time) = (base.date, base.time);
    let start = chrono::NaiveDate::from_ymd_opt(date.year(), date.month(), date.day())
        .unwrap()
        .and_hms_opt(time.hour(), time.minute(), time.second())
        .unwrap();
    let end = start + chrono::TimeDelta::seconds(seconds as i64);
    (end.year(), end.month0(), end.day0(), end.hour(), end.minute(), end.second())
}

/// The time source of the file system on the storage card: the date and
/// time at boot, carried forward by the seconds counted since.
pub struct SystemClockRef {
    pub base_datetime: DateTime,
}

impl SystemClockRef {
    /// The date and time at which the clock counts `now_sec` seconds.
    pub open spec fn civil_at(&self, now_sec: u32) -> Civil {
        civil_after(
            self.base_datetime.date.year() as int,
            self.base_datetime.date.month() as int,
            self.base_datetime.date.day() as int,
            self.base_datetime.time.hour() as int,
            self.base_datetime.time.minute() as int,
            self.base_datetime.time.second() as int,
            now_sec as int,
        )
    }

    /// The time stamp for a file that is written when the clock counts
    /// `now_sec` seconds.
    pub fn get_timestamp(&self, now_sec: u32) -> (t: Timestamp)
        ensures
            t == Timestamp::of(self.civil_at(now_sec)),
    {
        let (year, month0, day0, hour, minute, second) = datetime_after(
            &self.base_datetime,
            now_sec,
        );
        Timestamp::from_civil(year, month0, day0, hour, minute, second)
    }
}

} // verus!
