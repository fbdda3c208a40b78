//! Times of day and calendar dates, and how they are read from text.
//!
//! The reading itself is chrono's. What chrono hands back is taken over into
//! the two types of this module, which hold plain numbers.

use chrono::Datelike;
use chrono::Timelike;
use vstd::prelude::*;
use vstd::string::*;
use crate::text::{decimal, push_decimal, push_two_places, two_places};

verus! {

/// The number of seconds in a day.
pub const SECONDS_PER_DAY: u32 = 86400;

/// A wall-clock time without a date, to the second.
#[derive(Debug, Clone, Copy, PartialEq, Eq, Structural, Hash, PartialOrd, Ord)]
pub struct TimeOfDay {
    secs: u32,
}

impl View for TimeOfDay {
    type V = int;

    /// The seconds that have passed since midnight.
    closed spec fn view(&self) -> int {
        self.secs as int
    }
}

impl TimeOfDay {
    #[verifier::type_invariant]
    spec fn within_day(self) -> bool {
        self.secs < SECONDS_PER_DAY
    }

    /// The time of day that lies `secs` seconds after midnight.
    pub closed spec fn at(secs: int) -> TimeOfDay {
        TimeOfDay { secs: secs as u32 }
    }

    /// A time of day is the number of its seconds and nothing more.
    pub broadcast proof fn lemma_at_view(secs: int)
        requires
            0 <= secs < SECONDS_PER_DAY,
        ensures
            (#[trigger] TimeOfDay::at(secs))@ == secs,
    {
    }

    /// Two times of day with the same seconds are the same.
    pub proof fn lemma_view_injective(a: TimeOfDay, b: TimeOfDay)
        requires
            a@ == b@,
        ensures
            a == b,
    {
    }

    /// The time of day `secs` seconds after midnight, if there is one.
    pub fn from_seconds(secs: u32) -> (time: Option<TimeOfDay>)
        ensures
            time is Some <==> secs < SECONDS_PER_DAY,
            time is Some ==> time->Some_0 == TimeOfDay::at(secs as int) && time->Some_0@ == secs,
    {
        if secs < SECONDS_PER_DAY {
            Some(TimeOfDay { secs })
        } else {
            None
        }
    }

    /// The time of day with the given hour, minute and second on the
    /// twenty-four-hour clock, if there is one.
    pub fn from_hms(hour: u32, minute: u32, second: u32) -> (time: Option<TimeOfDay>)
        ensures
            time is Some <==> hour < 24 && minute < 60 && second < 60,
            time is Some ==> time->Some_0@ == hour * 3600 + minute * 60 + second,
    {
        if hour < 24 && minute < 60 && second < 60 {
            Some(TimeOfDay { secs: hour * 3600 + minute * 60 + second })
        } else {
            None
        }
    }

    /// The seconds that have passed since midnight.
    pub fn seconds(&self) -> (secs: u32)
        ensures
            secs == self@,
            secs < SECONDS_PER_DAY,
    {
        proof {
            use_type_invariant(self);
        }
        self.secs
    }

    /// The hour on the twenty-four-hour clock.
    pub fn hour(&self) -> (hour: u32)
        ensures
            hour == self@ / 3600,
            hour < 24,
    {
        proof {
            use_type_invariant(self);
        }
        self.secs / 3600
    }

    /// The minute of the hour.
    pub fn minute(&self) -> (minute: u32)
        ensures
            minute == (self@ % 3600) / 60,
            minute < 60,
    {
        (self.secs % 3600) / 60
    }

    /// The second of the minute.
    pub fn second(&self) -> (second: u32)
        ensures
            second == self@ % 60,
            second < 60,
    {
        self.secs % 60
    }

    /// Whether this time comes strictly before `other` on the same day.
    pub fn is_before(&self, other: &TimeOfDay) -> (before: bool)
        ensures
            before == (self@ < other@),
    {
        self.secs < other.secs
    }
}

/// The format of a prayer time: hour from 1 to 12, minute, and AM or PM.
pub open spec fn time_format() -> Seq<char> {
    "%I:%M %p"@
}

/// The format of a schedule's date: year, month and day, the latter two with
/// or without a leading zero.
pub open spec fn date_format() -> Seq<char> {
    "%Y-%-m-%-d"@
}

/// What chrono's `NaiveTime::parse_from_str` makes of `text` under `format`:
/// the seconds since midnight of the time it reads, or its error.
pub uninterp spec fn time_parse_outcome(text: Seq<char>, format: Seq<char>) -> Result<
    u32,
    chrono::format::ParseError,
>;

/// What chrono's `NaiveDate::parse_from_str` makes of `text` under `format`:
/// year, month and day of the date it reads, or its error.
pub uninterp spec fn date_parse_outcome(text: Seq<char>, format: Seq<char>) -> Result<
    (i32, u32, u32),
    chrono::format::ParseError,
>;

/// Calls chrono's `NaiveTime::parse_from_str` and takes the seconds since
/// midnight of the time it returns. Believed of chrono: the outcome depends
/// on the two texts alone, and a time it returns lies within one day.
#[verifier::external_body]
fn parse_time_with(text: &str, format: &str) -> (outcome: Result<u32, chrono::format::ParseError>)
    ensures
        outcome == time_parse_outcome(text@, format@),
        outcome is Ok ==> outcome->Ok_0 < SECONDS_PER_DAY,
{
    match chrono::NaiveTime::parse_from_str(text, format) {
        Ok(time) => Ok(time.num_seconds_from_midnight()),
        Err(err) => Err(err),
    }
}

/// Calls chrono's `NaiveDate::parse_from_str` and takes year, month and day
/// of the date it returns. Believed of chrono: the outcome depends on the
/// two texts alone, and a date it returns exists in the calendar.
#[verifier::external_body]
fn parse_date_with(text: &str, format: &str) -> (outcome: Result<
    (i32, u32, u32),
    chrono::format::ParseError,
>)
    ensures
        outcome == date_parse_outcome(text@, format@),
        outcome matches Ok(ymd) ==> is_calendar_date(ymd.0 as int, ymd.1 as int, ymd.2 as int),
{
    match chrono::NaiveDate::parse_from_str(text, format) {
        Ok(date) => Ok((date.year(), date.month(), date.day())),
        Err(err) => Err(err),
    }
}

/// Whether the year has a twenty-ninth of February.
pub open spec fn is_leap_year(year: int) -> bool {
    year % 4 == 0 && (year % 100 != 0 || year % 400 == 0)
}

/// The number of days of a month, 0 where there is no such month.
pub open spec fn days_in_month(year: int, month: int) -> int {
    if month == 2 {
        if is_leap_year(year) {
            29
        } else {
            28
        }
    } else if month == 4 || month == 6 || month == 9 || month == 11 {
        30
    } else if 1 <= month <= 12 {
        31
    } else {
        0
    }
}

/// Whether the calendar has such a day.
pub open spec fn is_calendar_date(year: int, month: int, day: int) -> bool {
    1 <= month <= 12 && 1 <= day <= days_in_month(year, month)
}

/// A day of the calendar.
#[derive(Debug, Clone, Copy, PartialEq, Eq, Structural, Hash, PartialOrd, Ord)]
pub struct Date {
    year: i32,
    month: u32,
    day: u32,
}

impl View for Date {
    type V = (int, int, int);

    /// Year, month and day.
    closed spec fn view(&self) -> (int, int, int) {
        (self.year as int, self.month as int, self.day as int)
    }
}

impl Date {
    #[verifier::type_invariant]
    spec fn in_calendar(self) -> bool {
        is_calendar_date(self.year as int, self.month as int, self.day as int)
    }

    /// The date with the given year, month and day.
    pub closed spec fn on(year: int, month: int, day: int) -> Date {
        Date { year: year as i32, month: month as u32, day: day as u32 }
    }

    /// A date is its year, month and day and nothing more.
    pub broadcast proof fn lemma_on_view(year: int, month: int, day: int)
        requires
            i32::MIN <= year <= i32::MAX,
            0 <= month <= u32::MAX,
            0 <= day <= u32::MAX,
        ensures
            (#[trigger] Date::on(year, month, day))@ == (year, month, day),
    {
    }

    /// Two dates with the same year, month and day are the same.
    pub proof fn lemma_view_injective(a: Date, b: Date)
        requires
            a@ == b@,
        ensures
            a == b,
    {
    }

    /// The date with the given year, month and day, if the calendar has it.
    pub fn from_ymd(year: i32, month: u32, day: u32) -> (date: Option<Date>)
        ensures
            date is Some <==> is_calendar_date(year as int, month as int, day as int),
            date is Some ==> date->Some_0 == Date::on(year as int, month as int, day as int)
                && date->Some_0@ == (year as int, month as int, day as int),
    {
        if month < 1 || month > 12 || day < 1 {
            return None;
        }
        let length: u32 = if month == 2 {
            let leap = year % 4 == 0 && (year % 100 != 0 || year % 400 == 0);
            if leap {
                29
            } else {
                28
            }
        } else if month == 4 || month == 6 || month == 9 || month == 11 {
            30
        } else {
            31
        };
        if day <= length {
            Some(Date { year, month, day })
        } else {
            None
        }
    }

    /// The year.
    pub fn year(&self) -> (year: i32)
        ensures
            year == self@.0,
    {
        self.year
    }

    /// The month, from 1 to 12.
    pub fn month(&self) -> (month: u32)
        ensures
            month == self@.1,
            1 <= month <= 12,
    {
        proof {
            use_type_invariant(self);
        }
        self.month
    }

    /// The day of the month, from 1 to 31.
    pub fn day(&self) -> (day: u32)
        ensures
            day == self@.2,
            1 <= day <= 31,
    {
        proof {
            use_type_invariant(self);
        }
        self.day
    }
}

/// What reading `text` as a prayer time gives: the time, or chrono's error.
pub open spec fn prayer_time_outcome(text: Seq<char>) -> Result<
    TimeOfDay,
    chrono::format::ParseError,
> {
    match time_parse_outcome(text, time_format()) {
        Ok(secs) => Ok(TimeOfDay::at(secs as int)),
        Err(err) => Err(err),
    }
}

/// What reading `text` as a schedule's date gives: the date, or chrono's
/// error.
pub open spec fn schedule_date_outcome(text: Seq<char>) -> Result<Date, chrono::format::ParseError> {
    match date_parse_outcome(text, date_format()) {
        Ok(ymd) => Ok(Date::on(ymd.0 as int, ymd.1 as int, ymd.2 as int)),
        Err(err) => Err(err),
    }
}

/// The hour that a twelve-hour clock shows at the given hour of the day.
pub open spec fn clock_hour(hour: int) -> int {
    if hour % 12 == 0 {
        12
    } else {
        hour % 12
    }
}

/// The time `secs` seconds after midnight as a twelve-hour clock shows it:
/// the hour without a leading zero, the minute on two places, and AM or PM.
pub open spec fn twelve_hour_text(secs: int) -> Seq<char> {
    decimal(clock_hour(secs / 3600) as nat) + ":"@ + two_places(((secs % 3600) / 60) as nat) + (
    if secs / 3600 < 12 {
        " AM"@
    } else {
        " PM"@
    })
}

impl TimeOfDay {
    /// Reads a prayer time, such as `5:04 am`, with chrono.
    pub fn parse_12h(text: &str) -> (outcome: Result<TimeOfDay, chrono::format::ParseError>)
        ensures
            outcome == prayer_time_outcome(text@),
            outcome matches Ok(time) ==> time_parse_outcome(text@, time_format()) == Ok::<
                u32,
                chrono::format::ParseError,
            >(time@ as u32),
    {
        match parse_time_with(text, "%I:%M %p") {
            Ok(secs) => Ok(TimeOfDay { secs }),
            Err(err) => Err(err),
        }
    }

    /// The time as a twelve-hour clock shows it, such as `5:04 AM`.
    pub fn format_12h(&self) -> (text: String)
        ensures
            text@ == twelve_hour_text(self@),
    {
        proof {
            use_type_invariant(self);
        }
        let hour: u32 = self.secs / 3600;
        let shown: u32 = if hour % 12 == 0 {
            12
        } else {
            hour % 12
        };
        let mut text = String::new();
        push_decimal(&mut text, shown);
        text.append(":");
        push_two_places(&mut text, (self.secs % 3600) / 60);
        if hour < 12 {
            text.append(" AM");
        } else {
            text.append(" PM");
        }
        assert(text@ =~= twelve_hour_text(self@));
        text
    }
}

impl Date {
    /// Reads a schedule's date, such as `2024-3-7`, with chrono.
    pub fn parse_ymd(text: &str) -> (outcome: Result<Date, chrono::format::ParseError>)
        ensures
            outcome == schedule_date_outcome(text@),
            outcome matches Ok(date) ==> date_parse_outcome(text@, date_format()) == Ok::<
                (i32, u32, u32),
                chrono::format::ParseError,
            >((date@.0 as i32, date@.1 as u32, date@.2 as u32)),
    {
        match parse_date_with(text, "%Y-%-m-%-d") {
            Ok(ymd) => Ok(Date { year: ymd.0, month: ymd.1, day: ymd.2 }),
            Err(err) => Err(err),
        }
    }
}

} // verus!
