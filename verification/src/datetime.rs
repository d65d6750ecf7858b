//! Calendar dates and times of day, as the real-time clock reports them.

use vstd::prelude::*;

verus! {

/// The first year that a [`Date`] can hold.
pub const MIN_YEAR: i32 = 0;

/// The last year that a [`Date`] can hold.
pub const MAX_YEAR: i32 = 9999;

/// Whether a year of the Gregorian calendar has a 29th of February.
pub open spec fn is_leap_year(year: int) -> bool {
    year % 4 == 0 && (year % 100 != 0 || year % 400 == 0)
}

/// The number of days of a month, 1 to 12, in a given year.
pub open spec fn days_in_month(year: int, month: int) -> int {
    if month == 2 {
        if is_leap_year(year) {
            29
        } else {
            28
        }
    } else if month == 4 || month == 6 || month == 9 || month == 11 {
        30
    } else {
        31
    }
}

/// Whether year, month and day name a day of the calendar.
pub open spec fn valid_date(year: int, month: int, day: int) -> bool {
    &&& MIN_YEAR <= year <= MAX_YEAR
    &&& 1 <= month <= 12
    &&& 1 <= day <= days_in_month(year, month)
}

/// Whether hour, minute and second name a time of day.
pub open spec fn valid_time(hour: int, minute: int, second: int) -> bool {
    &&& 0 <= hour < 24
    &&& 0 <= minute < 60
    &&& 0 <= second < 60
}

/// A day of the calendar.
#[derive(Copy, Clone, Eq, PartialEq, Structural, Hash, Debug)]
pub struct Date {
    year: i32,
    month: u32,
    day: u32,
}

impl Date {
    #[verifier::type_invariant]
    spec fn is_a_day(self) -> bool {
        valid_date(self.year as int, self.month as int, self.day as int)
    }

    pub closed spec fn spec_year(&self) -> i32 {
        self.year
    }

    pub closed spec fn spec_month(&self) -> u32 {
        self.month
    }

    pub closed spec fn spec_day(&self) -> u32 {
        self.day
    }

    /// Whether the value names a day of the calendar. Every date that
    /// this library hands out does.
    pub open spec fn is_valid(&self) -> bool {
        valid_date(self.year() as int, self.month() as int, self.day() as int)
    }

    /// The date with the given year, month (1 to 12) and day of the month
    /// (from 1), if there is such a day.
    pub fn new(year: i32, month: u32, day: u32) -> (date: Option<Date>)
        ensures
            date is Some <==> valid_date(year as int, month as int, day as int),
            date matches Some(d) ==> d.year() == year && d.month() == month && d.day() == day,
    {
        if year < MIN_YEAR || year > MAX_YEAR || month < 1 || month > 12 || day < 1 {
            return None;
        }
        let leap: bool = year % 4 == 0 && (year % 100 != 0 || year % 400 == 0);
        let days: u32 = if month == 2 {
            if leap {
                29
            } else {
                28
            }
        } else if month == 4 || month == 6 || month == 9 || month == 11 {
            30
        } else {
            31
        };
        if day > days {
            return None;
        }
        Some(Date { year, month, day })
    }

    #[verifier::when_used_as_spec(spec_year)]
    pub fn year(&self) -> (year: i32)
        ensures
            year == self.spec_year(),
            self.is_valid(),
    {
        proof {
            use_type_invariant(self);
        }
        self.year
    }

    /// The month, from 1 for January to 12 for December.
    #[verifier::when_used_as_spec(spec_month)]
    pub fn month(&self) -> (month: u32)
        ensures
            month == self.spec_month(),
            self.is_valid(),
    {
        proof {
            use_type_invariant(self);
        }
        self.month
    }

    /// The day of the month, from 1.
    #[verifier::when_used_as_spec(spec_day)]
    pub fn day(&self) -> (day: u32)
        ensures
            day == self.spec_day(),
            self.is_valid(),
    {
        proof {
            use_type_invariant(self);
        }
        self.day
    }
}

/// A time of day, to the second.
#[derive(Copy, Clone, Eq, PartialEq, Structural, Hash, Debug)]
pub struct Time {
    hour: u32,
    minute: u32,
    second: u32,
}

impl Time {
    #[verifier::type_invariant]
    spec fn is_a_time(self) -> bool {
        valid_time(self.hour as int, self.minute as int, self.second as int)
    }

    pub closed spec fn spec_hour(&self) -> u32 {
        self.hour
    }

    pub closed spec fn spec_minute(&self) -> u32 {
        self.minute
    }

    pub closed spec fn spec_second(&self) -> u32 {
        self.second
    }

    /// Whether the value names a time of day. Every time that this
    /// library hands out does.
    pub open spec fn is_valid(&self) -> bool {
        valid_time(self.hour() as int, self.minute() as int, self.second() as int)
    }

    /// The hour on a twelve-hour dial, 1 to 12, and whether it is past
    /// noon.
    pub open spec fn spec_hour12(&self) -> (bool, u32) {
        (
            self.hour() >= 12,
            if self.hour() % 12 == 0 {
                12
            } else {
                self.hour() % 12
            },
        )
    }

    /// The time with the given hour (0 to 23), minute and second (0 to
    /// 59), if there is such a time.
    pub fn new(hour: u32, minute: u32, second: u32) -> (time: Option<Time>)
        ensures
            time is Some <==> valid_time(hour as int, minute as int, second as int),
            time matches Some(t) ==> t.hour() == hour && t.minute() == minute && t.second()
                == second,
    {
        if hour < 24 && minute < 60 && second < 60 {
            Some(Time { hour, minute, second })
        } else {
            None
        }
    }

    /// The hour, 0 to 23.
    #[verifier::when_used_as_spec(spec_hour)]
    pub fn hour(&self) -> (hour: u32)
        ensures
            hour == self.spec_hour(),
            self.is_valid(),
    {
        proof {
            use_type_invariant(self);
        }
        self.hour
    }

    #[verifier::when_used_as_spec(spec_minute)]
    pub fn minute(&self) -> (minute: u32)
        ensures
            minute == self.spec_minute(),
            self.is_valid(),
    {
        proof {
            use_type_invariant(self);
        }
        self.minute
    }

    #[verifier::when_used_as_spec(spec_second)]
    pub fn second(&self) -> (second: u32)
        ensures
            second == self.spec_second(),
            self.is_valid(),
    {
        proof {
            use_type_invariant(self);
        }
        self.second
    }

    #[verifier::when_used_as_spec(spec_hour12)]
    pub fn hour12(&self) -> (r: (bool, u32))
        ensures
            r == self.spec_hour12(),
            1 <= r.1 <= 12,
    {
        let hour: u32 = self.hour();
        let mut hour12: u32 = hour % 12;
        if hour12 == 0 {
            hour12 = 12;
        }
        (hour >= 12, hour12)
    }
}

/// A date together with a time of day.
#[derive(Copy, Clone, Eq, PartialEq, Structural, Hash, Debug)]
pub struct DateTime {
    pub date: Date,
    pub time: Time,
}

impl DateTime {
    pub open spec fn is_valid(&self) -> bool {
        self.date.is_valid() && self.time.is_valid()
    }
}

} // verus!
