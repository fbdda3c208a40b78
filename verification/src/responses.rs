//! A schedule as it is received, all of it text, and how it is brought into
//! typed form.

use vstd::prelude::*;
use vstd::string::*;
use crate::error::AdhanError;
use crate::number::{is_number, is_number_text};
use crate::parsed::{ParsedLocation, ParsedPrayerTimeItem, ParsedPrayerTimesResponse};
use crate::period::{period_of, PrayerTimesPeriod};
use crate::time::{prayer_time_outcome, schedule_date_outcome, Date, TimeOfDay};

verus! {

/// One day of a schedule as it is received.
#[derive(Debug, Clone)]
pub struct PrayerTimeItem {
    pub date_for: String,
    pub fajr: String,
    pub shurooq: String,
    pub dhuhr: String,
    pub asr: String,
    pub maghrib: String,
    pub isha: String,
}

/// A schedule as it is received.
#[derive(Debug, Clone)]
pub struct PrayerTimesResponse {
    pub title: String,
    pub query: String,
    pub for_period: String,
    pub method: i32,
    pub prayer_method_name: String,
    pub daylight: String,
    pub timezone: String,
    pub map_image: String,
    pub sealevel: String,
    pub link: String,
    pub qibla_direction: String,
    pub latitude: String,
    pub longitude: String,
    pub address: String,
    pub city: String,
    pub state: String,
    pub postal_code: String,
    pub country: String,
    pub country_code: String,
    pub items: Vec<PrayerTimeItem>,
    pub status_valid: i32,
    pub status_code: i32,
    pub status_description: String,
}

/// What reading `text` as a prayer time gives: the time, or a time error.
pub open spec fn time_field_outcome(text: Seq<char>) -> Result<TimeOfDay, AdhanError> {
    match prayer_time_outcome(text) {
        Ok(time) => Ok(time),
        Err(err) => Err(AdhanError::TimeParse(err)),
    }
}

/// What reading `text` as a schedule's date gives: the date, or a date
/// error.
pub open spec fn date_field_outcome(text: Seq<char>) -> Result<Date, AdhanError> {
    match schedule_date_outcome(text) {
        Ok(date) => Ok(date),
        Err(err) => Err(AdhanError::DateParse(err)),
    }
}

/// The day made of seven fields that were read one by one. The day exists
/// only if all seven were read. Else the error is that of the first field
/// that was not, in the order in which a day's fields are read: the date,
/// then Shurooq, Fajr, Dhuhr, Asr, Maghrib and Isha.
pub open spec fn item_of_fields(
    date: Result<Date, AdhanError>,
    fajr: Result<TimeOfDay, AdhanError>,
    shurooq: Result<TimeOfDay, AdhanError>,
    dhuhr: Result<TimeOfDay, AdhanError>,
    asr: Result<TimeOfDay, AdhanError>,
    maghrib: Result<TimeOfDay, AdhanError>,
    isha: Result<TimeOfDay, AdhanError>,
) -> Result<ParsedPrayerTimeItem, AdhanError> {
    if date is Err {
        Err(date->Err_0)
    } else if shurooq is Err {
        Err(shurooq->Err_0)
    } else if fajr is Err {
        Err(fajr->Err_0)
    } else if dhuhr is Err {
        Err(dhuhr->Err_0)
    } else if asr is Err {
        Err(asr->Err_0)
    } else if maghrib is Err {
        Err(maghrib->Err_0)
    } else if isha is Err {
        Err(isha->Err_0)
    } else {
        Ok(
            ParsedPrayerTimeItem {
                date: date->Ok_0,
                fajr: fajr->Ok_0,
                shurooq: shurooq->Ok_0,
                dhuhr: dhuhr->Ok_0,
                asr: asr->Ok_0,
                maghrib: maghrib->Ok_0,
                isha: isha->Ok_0,
            },
        )
    }
}

/// The days made of outcomes that were reached one by one: all of them, in
/// their order, if each is a day; else the error of the first that is none.
pub open spec fn all_or_first_error(
    outcomes: Seq<Result<ParsedPrayerTimeItem, AdhanError>>,
) -> Result<Seq<ParsedPrayerTimeItem>, AdhanError>
    decreases outcomes.len(),
{
    if outcomes.len() == 0 {
        Ok(Seq::empty())
    } else {
        match all_or_first_error(outcomes.drop_last()) {
            Err(err) => Err(err),
            Ok(days) => match outcomes.last() {
                Err(err) => Err(err),
                Ok(day) => Ok(days.push(day)),
            },
        }
    }
}

/// The same outcome with the days as a sequence.
pub open spec fn days_view(outcome: Result<Vec<ParsedPrayerTimeItem>, AdhanError>) -> Result<
    Seq<ParsedPrayerTimeItem>,
    AdhanError,
> {
    match outcome {
        Ok(days) => Ok(days@),
        Err(err) => Err(err),
    }
}

/// Without an error among the outcomes, every one of them is a day and the
/// days are these, in their order. With one, the error is that of the first
/// outcome that is no day.
pub proof fn lemma_all_or_first_error(outcomes: Seq<Result<ParsedPrayerTimeItem, AdhanError>>)
    ensures
        match all_or_first_error(outcomes) {
            Ok(days) => days.len() == outcomes.len() && forall|i: int|
                0 <= i < outcomes.len() ==> #[trigger] outcomes[i] == Ok::<
                    ParsedPrayerTimeItem,
                    AdhanError,
                >(days[i]),
            Err(err) => exists|first: int|
                0 <= first < outcomes.len() && #[trigger] outcomes[first] == Err::<
                    ParsedPrayerTimeItem,
                    AdhanError,
                >(err) && forall|i: int| 0 <= i < first ==> (#[trigger] outcomes[i]) is Ok,
        },
    decreases outcomes.len(),
{
    if outcomes.len() > 0 {
        let front = outcomes.drop_last();
        lemma_all_or_first_error(front);
        match all_or_first_error(front) {
            Err(err) => {
                let first = choose|first: int|
                    0 <= first < front.len() && #[trigger] front[first] == Err::<
                        ParsedPrayerTimeItem,
                        AdhanError,
                    >(err) && forall|i: int| 0 <= i < first ==> (#[trigger] front[i]) is Ok;
                assert(outcomes[first] == front[first]);
                assert forall|i: int| 0 <= i < first implies (#[trigger] outcomes[i]) is Ok by {
                    assert(outcomes[i] == front[i]);
                }
            },
            Ok(days) => {
                assert forall|i: int| 0 <= i < front.len() implies (#[trigger] outcomes[i]) is Ok by {
                    assert(outcomes[i] == front[i]);
                }
                match outcomes.last() {
                    Err(err) => {
                        assert(outcomes[outcomes.len() - 1] == Err::<
                            ParsedPrayerTimeItem,
                            AdhanError,
                        >(err));
                    },
                    Ok(day) => {
                        let all = days.push(day);
                        assert forall|i: int| 0 <= i < outcomes.len() implies #[trigger] outcomes[i]
                            == Ok::<ParsedPrayerTimeItem, AdhanError>(all[i]) by {
                            if i < front.len() {
                                assert(outcomes[i] == front[i]);
                            }
                        }
                    },
                }
            },
        }
    }
}

impl ParsedPrayerTimeItem {
    /// Makes a day of seven fields that were read one by one.
    pub fn from_fields(
        date: Result<Date, AdhanError>,
        fajr: Result<TimeOfDay, AdhanError>,
        shurooq: Result<TimeOfDay, AdhanError>,
        dhuhr: Result<TimeOfDay, AdhanError>,
        asr: Result<TimeOfDay, AdhanError>,
        maghrib: Result<TimeOfDay, AdhanError>,
        isha: Result<TimeOfDay, AdhanError>,
    ) -> (day: Result<ParsedPrayerTimeItem, AdhanError>)
        ensures
            day == item_of_fields(date, fajr, shurooq, dhuhr, asr, maghrib, isha),
    {
        let date = match date {
            Ok(date) => date,
            Err(err) => {
                return Err(err);
            },
        };
        let shurooq = match shurooq {
            Ok(time) => time,
            Err(err) => {
                return Err(err);
            },
        };
        let fajr = match fajr {
            Ok(time) => time,
            Err(err) => {
                return Err(err);
            },
        };
        let dhuhr = match dhuhr {
            Ok(time) => time,
            Err(err) => {
                return Err(err);
            },
        };
        let asr = match asr {
            Ok(time) => time,
            Err(err) => {
                return Err(err);
            },
        };
        let maghrib = match maghrib {
            Ok(time) => time,
            Err(err) => {
                return Err(err);
            },
        };
        let isha = match isha {
            Ok(time) => time,
            Err(err) => {
                return Err(err);
            },
        };
        Ok(ParsedPrayerTimeItem { date, fajr, shurooq, dhuhr, asr, maghrib, isha })
    }

    /// Makes the days of a schedule of outcomes that were reached one by
    /// one.
    pub fn collect(outcomes: &Vec<Result<ParsedPrayerTimeItem, AdhanError>>) -> (days: Result<
        Vec<ParsedPrayerTimeItem>,
        AdhanError,
    >)
        ensures
            days_view(days) == all_or_first_error(outcomes@),
    {
        let mut days: Vec<ParsedPrayerTimeItem> = Vec::new();
        let mut i: usize = 0;
        while i < outcomes.len()
            invariant
                i <= outcomes@.len(),
                all_or_first_error(outcomes@.take(i as int)) == Ok::<
                    Seq<ParsedPrayerTimeItem>,
                    AdhanError,
                >(days@),
            decreases outcomes.len() - i,
        {
            proof {
                assert(outcomes@.take(i + 1).drop_last() =~= outcomes@.take(i as int));
            }
            match outcomes[i] {
                Ok(day) => {
                    days.push(day);
                },
                Err(err) => {
                    proof {
                        lemma_error_stays(outcomes@, i + 1);
                    }
                    return Err(err);
                },
            }
            i = i + 1;
        }
        proof {
            assert(outcomes@.take(i as int) =~= outcomes@);
        }
        Ok(days)
    }
}

/// An error among the first outcomes is the error of them all.
proof fn lemma_error_stays(outcomes: Seq<Result<ParsedPrayerTimeItem, AdhanError>>, upto: int)
    requires
        0 <= upto <= outcomes.len(),
        all_or_first_error(outcomes.take(upto)) is Err,
    ensures
        all_or_first_error(outcomes) == all_or_first_error(outcomes.take(upto)),
    decreases outcomes.len() - upto,
{
    if upto < outcomes.len() {
        assert(outcomes.take(upto + 1).drop_last() =~= outcomes.take(upto));
        lemma_error_stays(outcomes, upto + 1);
    } else {
        assert(outcomes.take(upto) =~= outcomes);
    }
}

/// The text itself where it is a number, and nothing where it is not.
pub open spec fn number_or_nothing(text: String) -> Option<String> {
    if is_number_text(text@) {
        Some(text)
    } else {
        None
    }
}

/// Keeps a text where it is a number.
pub fn keep_number(text: &String) -> (kept: Option<String>)
    ensures
        kept == number_or_nothing(*text),
{
    if is_number(text.as_str()) {
        Some(text.clone())
    } else {
        None
    }
}

/// The schedule made of its three parts, of which the days and the period
/// may have failed: the error of the days comes before that of the period.
pub open spec fn response_of_parts(
    items: Result<Vec<ParsedPrayerTimeItem>, AdhanError>,
    location: ParsedLocation,
    period: Result<PrayerTimesPeriod, AdhanError>,
) -> Result<ParsedPrayerTimesResponse, AdhanError> {
    if items is Err {
        Err(items->Err_0)
    } else if period is Err {
        Err(period->Err_0)
    } else {
        Ok(ParsedPrayerTimesResponse { location, items: items->Ok_0, period: period->Ok_0 })
    }
}

impl ParsedPrayerTimesResponse {
    /// Makes a schedule of its three parts.
    pub fn from_parts(
        items: Result<Vec<ParsedPrayerTimeItem>, AdhanError>,
        location: ParsedLocation,
        period: Result<PrayerTimesPeriod, AdhanError>,
    ) -> (response: Result<ParsedPrayerTimesResponse, AdhanError>)
        ensures
            response == response_of_parts(items, location, period),
    {
        let items = match items {
            Ok(items) => items,
            Err(err) => {
                return Err(err);
            },
        };
        let period = match period {
            Ok(period) => period,
            Err(err) => {
                return Err(err);
            },
        };
        Ok(ParsedPrayerTimesResponse { location, items, period })
    }
}

impl PrayerTimeItem {
    /// What bringing this day into typed form gives.
    pub open spec fn parse_outcome(self) -> Result<ParsedPrayerTimeItem, AdhanError> {
        item_of_fields(
            date_field_outcome(self.date_for@),
            time_field_outcome(self.fajr@),
            time_field_outcome(self.shurooq@),
            time_field_outcome(self.dhuhr@),
            time_field_outcome(self.asr@),
            time_field_outcome(self.maghrib@),
            time_field_outcome(self.isha@),
        )
    }

    /// Reads a prayer time on the twelve-hour clock, such as `5:04 am`.
    pub fn parse_prayer_time(text: &str) -> (time: Result<TimeOfDay, AdhanError>)
        ensures
            time == time_field_outcome(text@),
    {
        match TimeOfDay::parse_12h(text) {
            Ok(time) => Ok(time),
            Err(err) => Err(AdhanError::TimeParse(err)),
        }
    }

    /// Reads a date of the form year, month, day, such as `2024-3-7`.
    pub fn parse_date(text: &str) -> (date: Result<Date, AdhanError>)
        ensures
            date == date_field_outcome(text@),
    {
        match Date::parse_ymd(text) {
            Ok(date) => Ok(date),
            Err(err) => Err(AdhanError::DateParse(err)),
        }
    }

    /// Brings the day into typed form: all seven fields, or the error of
    /// the first that cannot be read.
    pub fn parse(&self) -> (day: Result<ParsedPrayerTimeItem, AdhanError>)
        ensures
            day == self.parse_outcome(),
    {
        ParsedPrayerTimeItem::from_fields(
            PrayerTimeItem::parse_date(self.date_for.as_str()),
            PrayerTimeItem::parse_prayer_time(self.fajr.as_str()),
            PrayerTimeItem::parse_prayer_time(self.shurooq.as_str()),
            PrayerTimeItem::parse_prayer_time(self.dhuhr.as_str()),
            PrayerTimeItem::parse_prayer_time(self.asr.as_str()),
            PrayerTimeItem::parse_prayer_time(self.maghrib.as_str()),
            PrayerTimeItem::parse_prayer_time(self.isha.as_str()),
        )
    }
}

impl PrayerTimesResponse {
    /// What bringing each day into typed form gives, day by day.
    pub open spec fn item_outcomes(self) -> Seq<Result<ParsedPrayerTimeItem, AdhanError>> {
        Seq::new(self.items@.len(), |i: int| self.items@[i].parse_outcome())
    }

    /// The place of the schedule: its three names as they are, and each of
    /// bearing, latitude and longitude where its text is a number.
    pub open spec fn location_of(self) -> ParsedLocation {
        ParsedLocation {
            state: self.state,
            country: self.country,
            country_code: self.country_code,
            qibla_direction: number_or_nothing(self.qibla_direction),
            latitude: number_or_nothing(self.latitude),
            longitude: number_or_nothing(self.longitude),
        }
    }

    /// Brings the days into typed form: all of them, in their order, or the
    /// error of the first day that has one. No part of the days is handed
    /// out where one of them fails.
    pub fn parse_items(&self) -> (days: Result<Vec<ParsedPrayerTimeItem>, AdhanError>)
        ensures
            days_view(days) == all_or_first_error(self.item_outcomes()),
    {
        let mut outcomes: Vec<Result<ParsedPrayerTimeItem, AdhanError>> = Vec::new();
        let mut i: usize = 0;
        while i < self.items.len()
            invariant
                i <= self.items@.len(),
                outcomes@ == self.item_outcomes().take(i as int),
            decreases self.items.len() - i,
        {
            let outcome = self.items[i].parse();
            outcomes.push(outcome);
            i = i + 1;
            assert(outcomes@ =~= self.item_outcomes().take(i as int));
        }
        assert(outcomes@ =~= self.item_outcomes());
        ParsedPrayerTimeItem::collect(&outcomes)
    }

    /// Brings the place into typed form. This never fails: a bearing or a
    /// coordinate that is no number is left out.
    pub fn parse_location(&self) -> (location: ParsedLocation)
        ensures
            location == self.location_of(),
            location.wf(),
    {
        ParsedLocation {
            country: self.country.clone(),
            state: self.state.clone(),
            country_code: self.country_code.clone(),
            latitude: keep_number(&self.latitude),
            longitude: keep_number(&self.longitude),
            qibla_direction: keep_number(&self.qibla_direction),
        }
    }

    /// Brings the schedule into typed form, all of it or none: the days,
    /// the place and the period, or the error of the first day that has
    /// one, or, with all days read, that of a period that is none.
    pub fn parse(&self) -> (response: Result<ParsedPrayerTimesResponse, AdhanError>)
        ensures
            match response {
                Ok(schedule) => {
                    &&& all_or_first_error(self.item_outcomes()) == Ok::<
                        Seq<ParsedPrayerTimeItem>,
                        AdhanError,
                    >(schedule.items@)
                    &&& schedule.location == self.location_of()
                    &&& period_of(self.for_period@) == Ok::<
                        PrayerTimesPeriod,
                        AdhanError,
                    >(schedule.period)
                },
                Err(err) => {
                    ||| all_or_first_error(self.item_outcomes()) == Err::<
                        Seq<ParsedPrayerTimeItem>,
                        AdhanError,
                    >(err)
                    ||| (all_or_first_error(self.item_outcomes()) is Ok && period_of(
                        self.for_period@,
                    ) == Err::<PrayerTimesPeriod, AdhanError>(err))
                },
            },
    {
        let items = self.parse_items();
        let location = self.parse_location();
        let period = PrayerTimesPeriod::from_str(self.for_period.as_str());
        ParsedPrayerTimesResponse::from_parts(items, location, period)
    }
}

} // verus!
