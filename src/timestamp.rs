//! A civil, time-zone-naive date and time, held as the plain values that
//! `time::PrimitiveDateTime` is built from.
use vstd::prelude::*;

verus! {

/// The earliest and latest years that `time` accepts.
pub const MIN_YEAR: i32 = -9999;
pub const MAX_YEAR: i32 = 9999;

pub open spec fn is_leap_year(y: int) -> bool {
    y % 4 == 0 && (y % 100 != 0 || y % 400 == 0)
}

pub open spec fn days_in_year(y: int) -> int {
    if is_leap_year(y) {
        366
    } else {
        365
    }
}

/// A date given as a year and a day of that year (from 1), and a time of day
/// down to the nanosecond.
#[derive(Clone, Copy, Debug, PartialEq, Eq)]
pub struct Timestamp {
    year: i32,
    ordinal: u16,
    hour: u8,
    minute: u8,
    second: u8,
    nanosecond: u32,
}

pub open spec fn valid_parts(year: int, ordinal: int, hour: int, minute: int, second: int, nanosecond: int) -> bool {
    &&& MIN_YEAR <= year <= MAX_YEAR
    &&& 1 <= ordinal <= days_in_year(year)
    &&& hour < 24
    &&& minute < 60
    &&& second < 60
    &&& nanosecond < 1_000_000_000
}

impl Timestamp {
    pub open spec fn wf(&self) -> bool {
        valid_parts(
            self.spec_year() as int,
            self.spec_ordinal() as int,
            self.spec_hour() as int,
            self.spec_minute() as int,
            self.spec_second() as int,
            self.spec_nanosecond() as int,
        )
    }

    #[verifier::type_invariant]
    spec fn inv(&self) -> bool {
        self.wf()
    }

    pub closed spec fn spec_year(&self) -> i32 {
        self.year
    }

    pub closed spec fn spec_ordinal(&self) -> u16 {
        self.ordinal
    }

    pub closed spec fn spec_hour(&self) -> u8 {
        self.hour
    }

    pub closed spec fn spec_minute(&self) -> u8 {
        self.minute
    }

    pub closed spec fn spec_second(&self) -> u8 {
        self.second
    }

    pub closed spec fn spec_nanosecond(&self) -> u32 {
        self.nanosecond
    }

    /// The date and time, or `None` where a part is out of its range.
    pub fn new(year: i32, ordinal: u16, hour: u8, minute: u8, second: u8, nanosecond: u32) -> (r:
        Option<Timestamp>)
        ensures
            r is Some <==> valid_parts(
                year as int,
                ordinal as int,
                hour as int,
                minute as int,
                second as int,
                nanosecond as int,
            ),
            r matches Some(t) ==> t.spec_year() == year && t.spec_ordinal() == ordinal
                && t.spec_hour() == hour && t.spec_minute() == minute && t.spec_second() == second
                && t.spec_nanosecond() == nanosecond,
    {
        if year < MIN_YEAR || year > MAX_YEAR {
            return None;
        }
        // Shifting by a multiple of 400 keeps the leap-year rule and makes the year positive.
        let shifted: u32 = (year + 10000) as u32;
        let leap: bool = shifted % 4 == 0 && (shifted % 100 != 0 || shifted % 400 == 0);
        assert(leap == is_leap_year(year as int));
        let days: u16 = if leap { 366 } else { 365 };
        if ordinal < 1 || ordinal > days || hour >= 24 || minute >= 60 || second >= 60
            || nanosecond >= 1_000_000_000 {
            return None;
        }
        Some(Timestamp { year, ordinal, hour, minute, second, nanosecond })
    }

    pub fn year(&self) -> (r: i32)
        ensures
            r == self.spec_year(),
    {
        self.year
    }

    pub fn ordinal(&self) -> (r: u16)
        ensures
            r == self.spec_ordinal(),
    {
        self.ordinal
    }

    pub fn hour(&self) -> (r: u8)
        ensures
            r == self.spec_hour(),
    {
        self.hour
    }

    pub fn minute(&self) -> (r: u8)
        ensures
            r == self.spec_minute(),
    {
        self.minute
    }

    pub fn second(&self) -> (r: u8)
        ensures
            r == self.spec_second(),
    {
        self.second
    }

    pub fn nanosecond(&self) -> (r: u32)
        ensures
            r == self.spec_nanosecond(),
    {
        self.nanosecond
    }
}

} // verus!
