//! Calendar date and time values, as the RTC reads and writes them.

use vstd::prelude::*;

verus! {

/// A time of day.
#[derive(Clone, Copy, PartialEq, Eq, Structural, Debug)]
pub struct Time {
    pub hours: u32,
    pub minutes: u32,
    pub seconds: u32,
    pub micros: u32,
    pub daylight_savings: bool,
}

impl Time {
    /// Does the value name a real time of day that the calendar registers can
    /// hold?
    pub open spec fn spec_valid(self) -> bool {
        &&& self.hours <= 23
        &&& self.minutes <= 59
        &&& self.seconds <= 59
    }

    /// Build a time of day.
    pub fn new(hours: u32, minutes: u32, seconds: u32, micros: u32, daylight_savings: bool) -> (r:
        Self)
        ensures
            r == (Time { hours, minutes, seconds, micros, daylight_savings }),
    {
        Time { hours, minutes, seconds, micros, daylight_savings }
    }
}

/// A calendar date. `day` is the weekday (one through seven); `date` the day
/// of the month.
#[derive(Clone, Copy, PartialEq, Eq, Structural, Debug)]
pub struct Date {
    pub day: u32,
    pub date: u32,
    pub month: u32,
    pub year: u32,
}

impl Date {
    /// Does the value name a real date that the calendar registers can hold?
    /// The two-digit year field covers one century from the 1970 epoch.
    pub open spec fn spec_valid(self) -> bool {
        &&& 1 <= self.day <= 7
        &&& 1 <= self.date <= 31
        &&& 1 <= self.month <= 12
        &&& 1970 <= self.year <= 2069
    }

    /// Build a date.
    pub fn new(day: u32, date: u32, month: u32, year: u32) -> (r: Self)
        ensures
            r == (Date { day, date, month, year }),
    {
        Date { day, date, month, year }
    }
}

} // verus!
