//! Timestamps at the head of a log line, rendered from a local time that the
//! caller reads from its clock.
use vstd::prelude::*;
use crate::text::{padded, push_padded};

verus! {

/// A calendar date and time of day, to the millisecond.
#[derive(Debug, Clone, Copy, PartialEq, Eq, Structural)]
pub struct LocalTime {
    pub year: u16,
    pub month: u8,
    pub day: u8,
    pub hour: u8,
    pub minute: u8,
    pub second: u8,
    pub millisecond: u16,
}

impl LocalTime {
    /// Every field lies in its range; a second of 60 is a leap second.
    pub open spec fn wf(self) -> bool {
        &&& self.year <= 9999
        &&& 1 <= self.month <= 12
        &&& 1 <= self.day <= 31
        &&& self.hour <= 23
        &&& self.minute <= 59
        &&& self.second <= 60
        &&& self.millisecond <= 999
    }

    /// `HH:MM:SS.mmm`
    pub open spec fn clock_text(self) -> Seq<char> {
        padded(self.hour as nat, 2) + ":"@ + padded(self.minute as nat, 2) + ":"@
            + padded(self.second as nat, 2) + "."@ + padded(self.millisecond as nat, 3)
    }

    /// `YYYY-MM-DD`
    pub open spec fn date_text(self) -> Seq<char> {
        padded(self.year as nat, 4) + "-"@ + padded(self.month as nat, 2) + "-"@
            + padded(self.day as nat, 2)
    }

    /// A local time from its parts; `None` where a part is out of range.
    pub fn new(
        year: u16,
        month: u8,
        day: u8,
        hour: u8,
        minute: u8,
        second: u8,
        millisecond: u16,
    ) -> (r: Option<LocalTime>)
        ensures
            r matches Some(t) ==> t.wf() && t == (LocalTime {
                year,
                month,
                day,
                hour,
                minute,
                second,
                millisecond,
            }),
            r is None <==> !(LocalTime { year, month, day, hour, minute, second, millisecond }).wf(),
    {
        let t = LocalTime { year, month, day, hour, minute, second, millisecond };
        if year <= 9999 && 1 <= month && month <= 12 && 1 <= day && day <= 31 && hour <= 23
            && minute <= 59 && second <= 60 && millisecond <= 999 {
            Some(t)
        } else {
            None
        }
    }
}

/// Whether `year` is a leap year of the Gregorian calendar.
pub open spec fn is_leap(year: int) -> bool {
    (year % 4 == 0 && year % 100 != 0) || year % 400 == 0
}

/// The number of days in `year`.
pub open spec fn year_days(year: int) -> int {
    if is_leap(year) {
        366
    } else {
        365
    }
}

/// The number of days in `month` (1 to 12) of `year`.
pub open spec fn month_days(year: int, month: int) -> int {
    if month == 2 {
        if is_leap(year) {
            29
        } else {
            28
        }
    } else if month == 4 || month == 6 || month == 9 || month == 11 {
        30
    } else {
        31
    }
}

/// The number of days from 1 January 1970 to 1 January of `year`.
pub open spec fn days_before_year(year: int) -> int
    decreases year - 1970,
{
    if year <= 1970 {
        0
    } else {
        days_before_year(year - 1) + year_days(year - 1)
    }
}

/// The number of days from 1 January of `year` to the first of `month`.
pub open spec fn days_before_month(year: int, month: int) -> int
    decreases month,
{
    if month <= 1 {
        0
    } else {
        days_before_month(year, month - 1) + month_days(year, month - 1)
    }
}

/// The number of days from 1 January 1970 to the date of `t`.
pub open spec fn epoch_day(t: LocalTime) -> int {
    days_before_year(t.year as int) + days_before_month(t.year as int, t.month as int) + t.day - 1
}

/// The number of milliseconds from the start of 1 January 1970 to `t`,
/// counting every day as 86 400 seconds.
pub open spec fn epoch_millis(t: LocalTime) -> int {
    epoch_day(t) * 86_400_000 + t.hour * 3_600_000 + t.minute * 60_000 + t.second * 1_000
        + t.millisecond
}

proof fn lemma_month_table(year: int)
    ensures
        days_before_month(year, 1) == 0,
        days_before_month(year, 2) == 31,
        days_before_month(year, 3) == 31 + month_days(year, 2),
        days_before_month(year, 4) == 62 + month_days(year, 2),
        days_before_month(year, 5) == 92 + month_days(year, 2),
        days_before_month(year, 6) == 123 + month_days(year, 2),
        days_before_month(year, 7) == 153 + month_days(year, 2),
        days_before_month(year, 8) == 184 + month_days(year, 2),
        days_before_month(year, 9) == 215 + month_days(year, 2),
        days_before_month(year, 10) == 245 + month_days(year, 2),
        days_before_month(year, 11) == 276 + month_days(year, 2),
        days_before_month(year, 12) == 306 + month_days(year, 2),
        days_before_month(year, 13) == year_days(year),
{
    reveal_with_fuel(days_before_month, 13);
}

fn leap(year: u64) -> (r: bool)
    ensures
        r == is_leap(year as int),
{
    (year % 4 == 0 && year % 100 != 0) || year % 400 == 0
}

fn year_length(year: u64) -> (r: u64)
    ensures
        r as int == year_days(year as int),
{
    if leap(year) {
        366
    } else {
        365
    }
}

fn month_length(year: u64, month: u64) -> (r: u64)
    ensures
        r as int == month_days(year as int, month as int),
{
    if month == 2 {
        if leap(year) {
            29
        } else {
            28
        }
    } else if month == 4 || month == 6 || month == 9 || month == 11 {
        30
    } else {
        31
    }
}

impl LocalTime {
    /// The calendar time `millis` milliseconds after the start of 1 January
    /// 1970, counting every day as 86 400 seconds (Unix time); `None` from
    /// the year 10000 on.
    pub fn from_unix_millis(millis: u64) -> (r: Option<LocalTime>)
        ensures
            r matches Some(t) ==> t.wf() && t.second <= 59 && t.year >= 1970
                && t.day <= month_days(t.year as int, t.month as int) && epoch_millis(t) == millis,
            r is None <==> millis / 86_400_000 >= days_before_year(10000),
    {
        let total: u64 = millis / 86_400_000;
        let in_day: u64 = millis % 86_400_000;
        let mut days: u64 = total;
        let mut year: u64 = 1970;
        while year < 10000 && days >= year_length(year)
            invariant
                1970 <= year <= 10000,
                days_before_year(year as int) + days == total,
            decreases days,
        {
            days = days - year_length(year);
            year = year + 1;
        }
        if year == 10000 {
            proof {
                lemma_days_before_year_grows(10000, year as int);
            }
            return None;
        }
        proof {
            lemma_days_before_year_grows(year as int + 1, 10000);
            lemma_month_table(year as int);
        }
        let mut month: u64 = 1;
        while days >= month_length(year, month)
            invariant
                1 <= month <= 12,
                1970 <= year < 10000,
                days_before_month(year as int, month as int) + days < year_days(year as int),
                days_before_year(year as int) + days_before_month(year as int, month as int) + days == total,
            decreases 12 - month,
        {
            proof {
                lemma_month_table(year as int);
            }
            days = days - month_length(year, month);
            month = month + 1;
        }
        let t = LocalTime {
            year: year as u16,
            month: month as u8,
            day: (days + 1) as u8,
            hour: (in_day / 3_600_000) as u8,
            minute: (in_day % 3_600_000 / 60_000) as u8,
            second: (in_day % 60_000 / 1_000) as u8,
            millisecond: (in_day % 1_000) as u16,
        };
        assert(epoch_day(t) == total);
        assert(epoch_millis(t) == millis) by (nonlinear_arith)
            requires
                epoch_day(t) == total,
                total == millis / 86_400_000,
                in_day == millis % 86_400_000,
                t.hour == in_day / 3_600_000,
                t.minute == in_day % 3_600_000 / 60_000,
                t.second == in_day % 60_000 / 1_000,
                t.millisecond == in_day % 1_000,
        ;
        Some(t)
    }
}

/// Years only add days: a later year starts no earlier.
proof fn lemma_days_before_year_grows(a: int, b: int)
    requires
        1970 <= a <= b,
    ensures
        days_before_year(a) <= days_before_year(b),
    decreases b - a,
{
    if a < b {
        lemma_days_before_year_grows(a, b - 1);
    }
}

/// Which timestamp, if any, starts a log line.
#[derive(Debug, Clone, Copy, PartialEq, Eq, Structural)]
pub enum Timestamp {
    /// No timestamp.
    Off,
    /// `[HH:MM:SS.mmm] `
    Time,
    /// `[YYYY-MM-DD HH:MM:SS.mmm] `
    DateAndTime,
}

impl Timestamp {
    /// The text that starts a log line written at `now`.
    pub open spec fn text_at(self, now: LocalTime) -> Seq<char> {
        match self {
            Timestamp::Off => Seq::empty(),
            Timestamp::Time => "["@ + now.clock_text() + "] "@,
            Timestamp::DateAndTime => "["@ + now.date_text() + " "@ + now.clock_text() + "] "@,
        }
    }

    /// The text that starts a log line written at `now`: empty when off, else
    /// the time (and date) in brackets, followed by a space.
    pub fn render(&self, now: &LocalTime) -> (r: String)
        ensures
            r@ == self.text_at(*now),
    {
        match self {
            Timestamp::Off => String::new(),
            Timestamp::Time => {
                let mut r = String::from_str("[");
                push_clock(&mut r, now);
                r.append("] ");
                r
            },
            Timestamp::DateAndTime => {
                let mut r = String::from_str("[");
                push_padded(&mut r, now.year as usize, 4);
                r.append("-");
                push_padded(&mut r, now.month as usize, 2);
                r.append("-");
                push_padded(&mut r, now.day as usize, 2);
                r.append(" ");
                push_clock(&mut r, now);
                r.append("] ");
                r
            },
        }
    }
}

fn push_clock(out: &mut String, now: &LocalTime)
    ensures
        final(out)@ == old(out)@ + now.clock_text(),
{
    push_padded(out, now.hour as usize, 2);
    out.append(":");
    push_padded(out, now.minute as usize, 2);
    out.append(":");
    push_padded(out, now.second as usize, 2);
    out.append(".");
    push_padded(out, now.millisecond as usize, 3);
}

} // verus!
