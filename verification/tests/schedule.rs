use adhan::error::AdhanError;
use adhan::parsed::{ParsedPrayerTimeItem, ParsedPrayerTimesResponse};
use adhan::period::PrayerTimesPeriod;
use adhan::prayer::Prayer;
use adhan::responses::{PrayerTimeItem, PrayerTimesResponse};
use adhan::time::{Date, TimeOfDay};

fn raw_day(date: &str, times: [&str; 6]) -> PrayerTimeItem {
    PrayerTimeItem {
        date_for: date.to_string(),
        fajr: times[0].to_string(),
        shurooq: times[1].to_string(),
        dhuhr: times[2].to_string(),
        asr: times[3].to_string(),
        maghrib: times[4].to_string(),
        isha: times[5].to_string(),
    }
}

fn usual_day(date: &str) -> PrayerTimeItem {
    raw_day(date, ["5:04 am", "6:31 am", "12:15 pm", "3:42 pm", "6:01 pm", "7:25 pm"])
}

fn raw_response(period: &str, latitude: &str, items: Vec<PrayerTimeItem>) -> PrayerTimesResponse {
    PrayerTimesResponse {
        title: String::new(),
        query: "london".to_string(),
        for_period: period.to_string(),
        method: 1,
        prayer_method_name: "Egyptian General Authority of Survey".to_string(),
        daylight: "1".to_string(),
        timezone: "0".to_string(),
        map_image: String::new(),
        sealevel: "11".to_string(),
        link: String::new(),
        qibla_direction: "118.99".to_string(),
        latitude: latitude.to_string(),
        longitude: "-0.12574".to_string(),
        address: String::new(),
        city: "London".to_string(),
        state: "England".to_string(),
        postal_code: String::new(),
        country: "United Kingdom".to_string(),
        country_code: "GB".to_string(),
        items,
        status_valid: 1,
        status_code: 1,
        status_description: "Success.".to_string(),
    }
}

fn at(hour: u32, minute: u32, second: u32) -> TimeOfDay {
    TimeOfDay::from_hms(hour, minute, second).unwrap()
}

fn typed_day() -> ParsedPrayerTimeItem {
    usual_day("2024-3-7").parse().unwrap()
}

#[test]
fn a_day_is_read_field_by_field() {
    let day = typed_day();
    assert_eq!(day.date, Date::from_ymd(2024, 3, 7).unwrap());
    assert_eq!(day.fajr, at(5, 4, 0));
    assert_eq!(day.shurooq, at(6, 31, 0));
    assert_eq!(day.dhuhr, at(12, 15, 0));
    assert_eq!(day.asr, at(15, 42, 0));
    assert_eq!(day.maghrib, at(18, 1, 0));
    assert_eq!(day.isha, at(19, 25, 0));
}

#[test]
fn a_date_may_be_padded_or_not() {
    let padded = PrayerTimeItem::parse_date("2024-03-07").unwrap();
    let bare = PrayerTimeItem::parse_date("2024-3-7").unwrap();
    assert_eq!(padded, bare);
    assert_eq!((bare.year(), bare.month(), bare.day()), (2024, 3, 7));
}

#[test]
fn a_date_that_the_calendar_lacks_is_a_date_error() {
    assert!(matches!(PrayerTimeItem::parse_date("2023-2-29"), Err(AdhanError::DateParse(_))));
    assert!(matches!(PrayerTimeItem::parse_date("7 March"), Err(AdhanError::DateParse(_))));
    assert!(matches!(PrayerTimeItem::parse_date(""), Err(AdhanError::DateParse(_))));
}

#[test]
fn the_meridiem_is_read_in_either_case() {
    assert_eq!(PrayerTimeItem::parse_prayer_time("7:25 PM").unwrap(), at(19, 25, 0));
    assert_eq!(PrayerTimeItem::parse_prayer_time("7:25 pm").unwrap(), at(19, 25, 0));
    assert_eq!(PrayerTimeItem::parse_prayer_time("07:25 Pm").unwrap(), at(19, 25, 0));
}

#[test]
fn twelve_is_the_first_hour_of_each_half_day() {
    assert_eq!(PrayerTimeItem::parse_prayer_time("12:00 am").unwrap(), at(0, 0, 0));
    assert_eq!(PrayerTimeItem::parse_prayer_time("12:30 pm").unwrap(), at(12, 30, 0));
    assert_eq!(PrayerTimeItem::parse_prayer_time("11:59 pm").unwrap().seconds(), 86340);
}

#[test]
fn an_hour_beyond_twelve_is_a_time_error() {
    assert!(matches!(PrayerTimeItem::parse_prayer_time("13:00 pm"), Err(AdhanError::TimeParse(_))));
    assert!(matches!(PrayerTimeItem::parse_prayer_time("0:10 am"), Err(AdhanError::TimeParse(_))));
    assert!(matches!(PrayerTimeItem::parse_prayer_time("5:60 am"), Err(AdhanError::TimeParse(_))));
    assert!(matches!(PrayerTimeItem::parse_prayer_time("17:00"), Err(AdhanError::TimeParse(_))));
    assert!(matches!(PrayerTimeItem::parse_prayer_time("noon"), Err(AdhanError::TimeParse(_))));
}

#[test]
fn one_bad_time_rejects_the_whole_schedule() {
    let mut bad = usual_day("2024-3-8");
    bad.asr = "13:00 pm".to_string();
    let raw = raw_response("weekly", "51.5", vec![usual_day("2024-3-7"), bad, usual_day("2024-3-9")]);
    assert!(matches!(raw.parse_items(), Err(AdhanError::TimeParse(_))));
    assert!(matches!(raw.parse(), Err(AdhanError::TimeParse(_))));
}

#[test]
fn the_date_of_a_day_is_read_before_its_times() {
    let day = raw_day("yesterday", ["5:04 am", "nonsense", "12:15 pm", "3:42 pm", "6:01 pm", "7:25 pm"]);
    assert!(matches!(day.parse(), Err(AdhanError::DateParse(_))));
}

#[test]
fn the_error_of_the_first_bad_day_is_reported() {
    let bad_time = raw_day("2024-3-7", ["5:04 am", "6:31 am", "12:15 pm", "3:42 pm", "6:01 pm", "25:25 pm"]);
    let bad_date = raw_day("2024-13-1", ["5:04 am", "6:31 am", "12:15 pm", "3:42 pm", "6:01 pm", "7:25 pm"]);
    let first = raw_response("daily", "51.5", vec![bad_time.clone(), bad_date.clone()]);
    assert!(matches!(first.parse(), Err(AdhanError::TimeParse(_))));
    let second = raw_response("daily", "51.5", vec![bad_date, bad_time]);
    assert!(matches!(second.parse(), Err(AdhanError::DateParse(_))));
}

#[test]
fn a_bad_day_is_reported_before_a_bad_period() {
    let bad = raw_day("2024-3-7", ["5:04", "6:31 am", "12:15 pm", "3:42 pm", "6:01 pm", "7:25 pm"]);
    let raw = raw_response("biannual", "51.5", vec![bad]);
    assert!(matches!(raw.parse(), Err(AdhanError::TimeParse(_))));
}

#[test]
fn an_unknown_period_rejects_the_schedule() {
    let raw = raw_response("biannual", "51.5", vec![usual_day("2024-3-7")]);
    assert_eq!(raw.parse().unwrap_err(), AdhanError::InvalidPeriod);
}

#[test]
fn a_schedule_keeps_its_days_in_order() {
    let raw = raw_response(
        "Weekly",
        "51.5",
        vec![usual_day("2024-3-7"), usual_day("2024-3-8"), usual_day("2024-3-9")],
    );
    let schedule = raw.parse().unwrap();
    assert_eq!(schedule.period, PrayerTimesPeriod::Weekly);
    assert_eq!(schedule.items.len(), 3);
    assert_eq!(schedule.items[0].date, Date::from_ymd(2024, 3, 7).unwrap());
    assert_eq!(schedule.items[1].date, Date::from_ymd(2024, 3, 8).unwrap());
    assert_eq!(schedule.items[2].date, Date::from_ymd(2024, 3, 9).unwrap());
    assert_eq!(schedule.location.state, "England");
    assert_eq!(schedule.location.country, "United Kingdom");
    assert_eq!(schedule.location.country_code, "GB");
    assert_eq!(schedule.location.qibla_direction.as_deref(), Some("118.99"));
    assert_eq!(schedule.location.latitude.as_deref(), Some("51.5"));
    assert_eq!(schedule.location.longitude.as_deref(), Some("-0.12574"));
}

#[test]
fn a_schedule_without_days_is_read_and_has_no_next_prayer() {
    let schedule = raw_response("daily", "51.5", vec![]).parse().unwrap();
    assert!(schedule.items.is_empty());
    assert_eq!(schedule.get_next_prayer(at(4, 0, 0)), None);
    assert_eq!(schedule.get_countdown_to_next_prayer(at(4, 0, 0)), None);
}

#[test]
fn a_latitude_that_is_no_number_is_left_out() {
    let raw = raw_response("daily", "unknown", vec![usual_day("2024-3-7")]);
    let schedule = raw.parse().unwrap();
    assert_eq!(schedule.location.latitude, None);
    assert_eq!(schedule.location.longitude.as_deref(), Some("-0.12574"));
    assert_eq!(schedule.location.qibla_direction.as_deref(), Some("118.99"));
    assert_eq!(schedule.location.get_tile(2046, 1362), None);
    assert_eq!(schedule.items.len(), 1);
}

#[test]
fn a_place_with_both_coordinates_has_a_tile() {
    let location = raw_response("daily", "51.50853", vec![]).parse_location();
    assert_eq!(
        location.get_tile(2046, 1362),
        Some("https://a.tile.openstreetmap.org/12/2046/1362.png".to_string())
    );
}

#[test]
fn fields_are_assembled_in_reading_order() {
    let date = PrayerTimeItem::parse_date("2024-3-7");
    let good = Ok(at(5, 0, 0));
    let time_error = PrayerTimeItem::parse_prayer_time("late").unwrap_err();
    let date_error = PrayerTimeItem::parse_date("late").unwrap_err();
    // Shurooq is read before Fajr.
    let day = ParsedPrayerTimeItem::from_fields(
        date,
        Err(AdhanError::InvalidPeriod),
        Err(time_error),
        good,
        good,
        good,
        good,
    );
    assert_eq!(day, Err(time_error));
    let day = ParsedPrayerTimeItem::from_fields(
        Err(date_error),
        good,
        Err(time_error),
        good,
        good,
        good,
        good,
    );
    assert_eq!(day, Err(date_error));
    let day = ParsedPrayerTimeItem::from_fields(date, good, good, good, good, good, Err(time_error));
    assert_eq!(day, Err(time_error));
    let day = ParsedPrayerTimeItem::from_fields(
        date,
        Ok(at(1, 0, 0)),
        Ok(at(2, 0, 0)),
        Ok(at(3, 0, 0)),
        Ok(at(4, 0, 0)),
        Ok(at(5, 0, 0)),
        Ok(at(6, 0, 0)),
    )
    .unwrap();
    assert_eq!(day.fajr, at(1, 0, 0));
    assert_eq!(day.shurooq, at(2, 0, 0));
    assert_eq!(day.dhuhr, at(3, 0, 0));
    assert_eq!(day.asr, at(4, 0, 0));
    assert_eq!(day.maghrib, at(5, 0, 0));
    assert_eq!(day.isha, at(6, 0, 0));
}

#[test]
fn outcomes_are_collected_up_to_the_first_error() {
    let day = typed_day();
    let time_error = PrayerTimeItem::parse_prayer_time("late").unwrap_err();
    assert_eq!(ParsedPrayerTimeItem::collect(&vec![]), Ok(vec![]));
    assert_eq!(ParsedPrayerTimeItem::collect(&vec![Ok(day), Ok(day)]), Ok(vec![day, day]));
    assert_eq!(
        ParsedPrayerTimeItem::collect(&vec![Ok(day), Err(time_error), Err(AdhanError::InvalidPeriod)]),
        Err(time_error)
    );
    assert_eq!(
        ParsedPrayerTimeItem::collect(&vec![Err(AdhanError::InvalidPeriod), Ok(day), Err(time_error)]),
        Err(AdhanError::InvalidPeriod)
    );
}

#[test]
fn a_schedule_is_made_of_its_parts() {
    let location = raw_response("daily", "51.5", vec![]).parse_location();
    let time_error = PrayerTimeItem::parse_prayer_time("late").unwrap_err();
    let made = ParsedPrayerTimesResponse::from_parts(
        Ok(vec![typed_day()]),
        location.clone(),
        Ok(PrayerTimesPeriod::Monthly),
    )
    .unwrap();
    assert_eq!(made.items, vec![typed_day()]);
    assert_eq!(made.period, PrayerTimesPeriod::Monthly);
    assert_eq!(made.location.country_code, "GB");
    let failed = ParsedPrayerTimesResponse::from_parts(
        Err(time_error),
        location.clone(),
        Err(AdhanError::InvalidPeriod),
    );
    assert_eq!(failed.unwrap_err(), time_error);
    let failed =
        ParsedPrayerTimesResponse::from_parts(Ok(vec![]), location, Err(AdhanError::InvalidPeriod));
    assert_eq!(failed.unwrap_err(), AdhanError::InvalidPeriod);
}

#[test]
fn the_next_prayer_is_the_first_still_to_come() {
    let day = typed_day();
    assert_eq!(day.next_prayer(at(0, 0, 0)), (Prayer::Fajr, at(5, 4, 0)));
    assert_eq!(day.next_prayer(at(5, 3, 59)), (Prayer::Fajr, at(5, 4, 0)));
    assert_eq!(day.next_prayer(at(5, 4, 1)), (Prayer::Shurooq, at(6, 31, 0)));
    assert_eq!(day.next_prayer(at(9, 0, 0)), (Prayer::Dhuhr, at(12, 15, 0)));
    assert_eq!(day.next_prayer(at(12, 15, 30)), (Prayer::Asr, at(15, 42, 0)));
    assert_eq!(day.next_prayer(at(17, 0, 0)), (Prayer::Maghrib, at(18, 1, 0)));
    assert_eq!(day.next_prayer(at(18, 1, 0)), (Prayer::Isha, at(19, 25, 0)));
    assert_eq!(day.next_prayer(at(19, 24, 59)), (Prayer::Isha, at(19, 25, 0)));
}

#[test]
fn a_prayer_at_this_very_second_has_passed() {
    let day = typed_day();
    assert_eq!(day.next_prayer(at(5, 4, 0)), (Prayer::Shurooq, at(6, 31, 0)));
    assert_eq!(day.next_prayer(at(15, 42, 0)), (Prayer::Maghrib, at(18, 1, 0)));
}

#[test]
fn after_the_last_prayer_the_next_is_fajr_of_the_same_day() {
    let day = typed_day();
    assert_eq!(day.next_prayer(at(19, 25, 0)), (Prayer::Fajr, at(5, 4, 0)));
    assert_eq!(day.next_prayer(at(23, 59, 59)), (Prayer::Fajr, at(5, 4, 0)));
}

#[test]
fn a_schedule_answers_for_its_first_day() {
    let mut later = usual_day("2024-3-8");
    later.fajr = "5:02 am".to_string();
    let schedule = raw_response("weekly", "51.5", vec![usual_day("2024-3-7"), later]).parse().unwrap();
    assert_eq!(schedule.get_next_prayer(at(20, 0, 0)), Some((Prayer::Fajr, at(5, 4, 0))));
    assert_eq!(schedule.get_next_prayer(at(6, 0, 0)), Some((Prayer::Shurooq, at(6, 31, 0))));
    assert_eq!(
        schedule.get_countdown_to_next_prayer(at(6, 0, 0)),
        Some("31:00".to_string())
    );
    assert_eq!(
        schedule.get_countdown_to_next_prayer(at(20, 0, 0)),
        Some("09:04:00".to_string())
    );
    assert_eq!(
        schedule.get_countdown_to_next_prayer(at(5, 4, 0)),
        Some("01:27:00".to_string())
    );
}

#[test]
fn each_prayer_has_its_time() {
    let day = typed_day();
    assert_eq!(day.get_prayer(&Prayer::Fajr), at(5, 4, 0));
    assert_eq!(day.get_prayer(&Prayer::Shurooq), at(6, 31, 0));
    assert_eq!(day.get_prayer(&Prayer::Dhuhr), at(12, 15, 0));
    assert_eq!(day.get_prayer(&Prayer::Asr), at(15, 42, 0));
    assert_eq!(day.get_prayer(&Prayer::Maghrib), at(18, 1, 0));
    assert_eq!(day.get_prayer(&Prayer::Isha), at(19, 25, 0));
}

#[test]
fn the_map_of_a_day_holds_each_time_under_its_position() {
    let day = typed_day();
    let times = day.to_hash_map();
    assert_eq!(times.len(), 6);
    for prayer in Prayer::all_prayers() {
        assert_eq!(times[&prayer.index()], day.get_prayer(&prayer));
    }
    assert_eq!(times[&0], at(5, 4, 0));
    assert_eq!(times[&5], at(19, 25, 0));
}
