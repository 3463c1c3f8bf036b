//! Calendar dates and timestamps as plain fields.
//!
//! A timestamp carries no time zone. Two timestamps are ordered field by
//! field, from the year down to the nanosecond. A date is well formed if it
//! is a day of the Gregorian calendar, extended to the years before its
//! introduction; a timestamp, if its date is and its time is a time of day.

use vstd::prelude::*;

verus! {

/// A calendar date.
#[derive(Clone, Copy, Debug, PartialEq, Eq, Structural)]
pub struct Date {
    pub year: i32,
    pub month: u32,
    pub day: u32,
}

/// A date with a time of day.
#[derive(Clone, Copy, Debug, PartialEq, Eq, Structural)]
pub struct DateTime {
    pub date: Date,
    pub hour: u32,
    pub minute: u32,
    pub second: u32,
    pub nanosecond: u32,
}

/// The first year that a date can lie in.
pub const MIN_YEAR: i32 = -262_143;

/// The last year that a date can lie in.
pub const MAX_YEAR: i32 = 262_142;

/// The years by which a year is shifted to count it from a year that is
/// below every year of a date: a whole number of four-century cycles.
pub const YEAR_SHIFT: i64 = 400_000;

/// Whether February has 29 days in the year.
pub open spec fn leap_year(year: int) -> bool {
    year % 4 == 0 && (year % 100 != 0 || year % 400 == 0)
}

/// The number of days of a month.
pub open spec fn days_in_month(year: int, month: int) -> int {
    if month == 2 {
        if leap_year(year) {
            29
        } else {
            28
        }
    } else if month == 4 || month == 6 || month == 9 || month == 11 {
        30
    } else {
        31
    }
}

/// Nanoseconds of the last millisecond of a second.
pub const LAST_MILLISECOND: u32 = 999_000_000;

impl Date {
    /// The date is a day of the calendar: its year is in range, its month
    /// is one of the twelve, and its day is one of the days of that month.
    pub open spec fn wf(self) -> bool {
        &&& MIN_YEAR <= self.year <= MAX_YEAR
        &&& 1 <= self.month <= 12
        &&& 1 <= self.day <= days_in_month(self.year as int, self.month as int)
    }

    /// Whether the date is well formed.
    pub fn is_valid(&self) -> (valid: bool)
        ensures
            valid == self.wf(),
    {
        if self.year < MIN_YEAR || self.year > MAX_YEAR || self.month < 1 || self.month > 12
            || self.day < 1 {
            return false;
        }
        let year: i64 = self.year as i64 + YEAR_SHIFT;
        let leap = year % 4 == 0 && (year % 100 != 0 || year % 400 == 0);
        assert(leap == leap_year(self.year as int)) by {
            assert(year == self.year + 400_000);
            assert((self.year + 400_000) % 4 == self.year as int % 4);
            assert((self.year + 400_000) % 100 == self.year as int % 100);
            assert((self.year + 400_000) % 400 == self.year as int % 400);
        }
        let days: u32 = if self.month == 2 {
            if leap {
                29
            } else {
                28
            }
        } else if self.month == 4 || self.month == 6 || self.month == 9 || self.month == 11 {
            30
        } else {
            31
        };
        self.day <= days
    }

    /// `self` is no later than `other`.
    pub open spec fn at_most(self, other: Date) -> bool {
        self.year < other.year || (self.year == other.year && (self.month < other.month || (
        self.month == other.month && self.day <= other.day)))
    }

    /// `self` is earlier than `other`.
    pub open spec fn before(self, other: Date) -> bool {
        self.at_most(other) && self != other
    }
}

impl DateTime {
    /// The timestamp has a well-formed date and a time of day. The
    /// nanoseconds reach into a second second only in the last second of a
    /// minute, where they stand for a leap second.
    pub open spec fn wf(self) -> bool {
        &&& self.date.wf()
        &&& self.hour < 24
        &&& self.minute < 60
        &&& self.second < 60
        &&& self.nanosecond < 2_000_000_000
        &&& self.nanosecond >= 1_000_000_000 ==> self.second == 59
    }

    /// Whether the timestamp is well formed.
    pub fn is_valid(&self) -> (valid: bool)
        ensures
            valid == self.wf(),
    {
        self.date.is_valid() && self.hour < 24 && self.minute < 60 && self.second < 60
            && self.nanosecond < 2_000_000_000 && (self.nanosecond < 1_000_000_000 || self.second
            == 59)
    }

    /// The first instant of `date`, 00:00:00.
    pub open spec fn spec_start_of_day(date: Date) -> DateTime {
        DateTime { date, hour: 0, minute: 0, second: 0, nanosecond: 0 }
    }

    /// The last millisecond of `date`, 23:59:59.999.
    pub open spec fn spec_end_of_day(date: Date) -> DateTime {
        DateTime { date, hour: 23, minute: 59, second: 59, nanosecond: LAST_MILLISECOND }
    }

    /// `self` is no later than `other`.
    pub open spec fn at_most(self, other: DateTime) -> bool {
        self.date.before(other.date) || (self.date == other.date && (self.hour < other.hour || (
        self.hour == other.hour && (self.minute < other.minute || (self.minute == other.minute && (
        self.second < other.second || (self.second == other.second && self.nanosecond
            <= other.nanosecond)))))))
    }

    /// `self` lies in the closed interval from `start` to `end`.
    pub open spec fn within(self, start: DateTime, end: DateTime) -> bool {
        start.at_most(self) && self.at_most(end)
    }

    #[verifier::when_used_as_spec(spec_start_of_day)]
    pub fn start_of_day(date: Date) -> (instant: DateTime)
        ensures
            instant == Self::spec_start_of_day(date),
            date.wf() ==> instant.wf(),
    {
        DateTime { date, hour: 0, minute: 0, second: 0, nanosecond: 0 }
    }

    #[verifier::when_used_as_spec(spec_end_of_day)]
    pub fn end_of_day(date: Date) -> (instant: DateTime)
        ensures
            instant == Self::spec_end_of_day(date),
            date.wf() ==> instant.wf(),
    {
        DateTime { date, hour: 23, minute: 59, second: 59, nanosecond: LAST_MILLISECOND }
    }

    /// Whether `self` is no later than `other`.
    pub fn is_at_most(&self, other: &DateTime) -> (answer: bool)
        ensures
            answer == self.at_most(*other),
    {
        if self.date.year != other.date.year {
            self.date.year < other.date.year
        } else if self.date.month != other.date.month {
            self.date.month < other.date.month
        } else if self.date.day != other.date.day {
            self.date.day < other.date.day
        } else if self.hour != other.hour {
            self.hour < other.hour
        } else if self.minute != other.minute {
            self.minute < other.minute
        } else if self.second != other.second {
            self.second < other.second
        } else {
            self.nanosecond <= other.nanosecond
        }
    }

    /// Whether `self` lies in the closed interval from `start` to `end`.
    pub fn is_within(&self, start: &DateTime, end: &DateTime) -> (answer: bool)
        ensures
            answer == self.within(*start, *end),
    {
        start.is_at_most(self) && self.is_at_most(end)
    }
}

} // verus!
