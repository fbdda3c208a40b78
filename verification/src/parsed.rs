//! A schedule in typed form: the place, the days with their six prayer
//! times, and what follows from them at a given moment.

use std::collections::HashMap;
use vstd::prelude::*;
use vstd::string::*;
use crate::number::is_number_text;
use crate::period::PrayerTimesPeriod;
use crate::prayer::{canonical_order, Prayer};
use crate::text::{decimal, push_decimal, push_two_places, two_places};
use crate::time::{Date, TimeOfDay, SECONDS_PER_DAY};

verus! {

/// The six prayer times of one day.
#[derive(Debug, Clone, Copy, PartialEq, Eq, Structural)]
pub struct ParsedPrayerTimeItem {
    pub date: Date,
    pub fajr: TimeOfDay,
    pub shurooq: TimeOfDay,
    pub dhuhr: TimeOfDay,
    pub asr: TimeOfDay,
    pub maghrib: TimeOfDay,
    pub isha: TimeOfDay,
}

/// The seconds from `now` to the next time the clock shows `target`, both
/// in seconds since midnight: their difference where `target` is still to
/// come today or is `now` itself, else what is left of today plus `target`.
pub open spec fn countdown_seconds(now: int, target: int) -> int {
    if target >= now {
        target - now
    } else {
        SECONDS_PER_DAY - now + target
    }
}

/// A span of `secs` seconds as a countdown shows it: hours, minutes and
/// seconds on two places each from one hour on, below that minutes and
/// seconds alone.
pub open spec fn countdown_text(secs: int) -> Seq<char> {
    if secs / 3600 > 0 {
        two_places((secs / 3600) as nat) + ":"@ + two_places(((secs % 3600) / 60) as nat) + ":"@
            + two_places((secs % 60) as nat)
    } else {
        two_places(((secs % 3600) / 60) as nat) + ":"@ + two_places((secs % 60) as nat)
    }
}

/// The seconds from `now` to the next time the clock shows `target`.
pub fn countdown(now: TimeOfDay, target: TimeOfDay) -> (secs: u32)
    ensures
        secs == countdown_seconds(now@, target@),
        secs < SECONDS_PER_DAY,
{
    let now_seconds: u32 = now.seconds();
    let target_seconds: u32 = target.seconds();
    if target_seconds >= now_seconds {
        target_seconds - now_seconds
    } else {
        SECONDS_PER_DAY - now_seconds + target_seconds
    }
}

/// Writes a span of seconds as a countdown shows it.
pub fn render_countdown(secs: u32) -> (text: String)
    ensures
        text@ == countdown_text(secs as int),
{
    let hours: u32 = secs / 3600;
    let minutes: u32 = (secs % 3600) / 60;
    let seconds: u32 = secs % 60;
    let mut text = String::new();
    if hours > 0 {
        push_two_places(&mut text, hours);
        text.append(":");
    }
    push_two_places(&mut text, minutes);
    text.append(":");
    push_two_places(&mut text, seconds);
    assert(text@ =~= countdown_text(secs as int));
    text
}

/// A countdown from a time to itself is zero.
pub proof fn lemma_countdown_to_same_time(time: int)
    ensures
        countdown_seconds(time, time) == 0,
{
}

/// A countdown within one day is shorter than a day, and it ends where it
/// should: `now` moved on by the countdown, and wrapped at midnight, is
/// `target`.
pub proof fn lemma_countdown_reaches_target(now: int, target: int)
    requires
        0 <= now < SECONDS_PER_DAY,
        0 <= target < SECONDS_PER_DAY,
    ensures
        0 <= countdown_seconds(now, target) < SECONDS_PER_DAY,
        (now + countdown_seconds(now, target)) % (SECONDS_PER_DAY as int) == target,
{
}

impl ParsedPrayerTimeItem {
    /// The time of the given prayer on this day.
    pub open spec fn time_of(self, prayer: Prayer) -> TimeOfDay {
        match prayer {
            Prayer::Fajr => self.fajr,
            Prayer::Shurooq => self.shurooq,
            Prayer::Dhuhr => self.dhuhr,
            Prayer::Asr => self.asr,
            Prayer::Maghrib => self.maghrib,
            Prayer::Isha => self.isha,
        }
    }

    /// Whether the six times follow one another strictly in the canonical
    /// order of the prayers.
    pub open spec fn is_chronological(self) -> bool {
        self.fajr@ < self.shurooq@ < self.dhuhr@ < self.asr@ < self.maghrib@ < self.isha@
    }

    /// The prayer to expect next at `now` seconds after midnight: the first
    /// in canonical order whose time is strictly later than `now`, and Fajr
    /// again once none is.
    pub open spec fn next_after(self, now: int) -> Prayer {
        if now < self.fajr@ {
            Prayer::Fajr
        } else if now < self.shurooq@ {
            Prayer::Shurooq
        } else if now < self.dhuhr@ {
            Prayer::Dhuhr
        } else if now < self.asr@ {
            Prayer::Asr
        } else if now < self.maghrib@ {
            Prayer::Maghrib
        } else if now < self.isha@ {
            Prayer::Isha
        } else {
            Prayer::Fajr
        }
    }

    /// The time of the given prayer on this day.
    pub fn get_prayer(&self, prayer: &Prayer) -> (time: TimeOfDay)
        ensures
            time == self.time_of(*prayer),
    {
        match prayer {
            Prayer::Fajr => self.fajr,
            Prayer::Shurooq => self.shurooq,
            Prayer::Dhuhr => self.dhuhr,
            Prayer::Asr => self.asr,
            Prayer::Maghrib => self.maghrib,
            Prayer::Isha => self.isha,
        }
    }

    /// The six times of the day, each under the position of its prayer in
    /// the canonical order.
    pub fn to_hash_map(&self) -> (times: HashMap<u8, TimeOfDay>)
        ensures
            times@.dom() =~= Set::new(|k: u8| k < 6),
            forall|prayer: Prayer|
                times@[prayer.position() as u8] == #[trigger] self.time_of(prayer),
    {
        broadcast use vstd::std_specs::hash::group_hash_axioms;

        let mut times: HashMap<u8, TimeOfDay> = HashMap::new();
        times.insert(0, self.fajr);
        times.insert(1, self.shurooq);
        times.insert(2, self.dhuhr);
        times.insert(3, self.asr);
        times.insert(4, self.maghrib);
        times.insert(5, self.isha);
        times
    }

    /// The prayer to expect next at `now`, with its time on this day. Once
    /// the last prayer of the day has passed, that is Fajr with the time it
    /// had on this same day. A prayer whose time is `now` has passed.
    pub fn next_prayer(&self, now: TimeOfDay) -> (next: (Prayer, TimeOfDay))
        ensures
            next.0 == self.next_after(now@),
            next.1 == self.time_of(next.0),
    {
        let all = Prayer::all_prayers();
        let mut i: usize = 0;
        while i < all.len()
            invariant
                all@ == canonical_order(),
                i <= 6,
                forall|k: int| 0 <= k < i ==> self.time_of(#[trigger] all@[k])@ <= now@,
            decreases all.len() - i,
        {
            let prayer = all[i];
            let time = self.get_prayer(&prayer);
            if now.is_before(&time) {
                proof {
                    self.lemma_first_later_is_next(now@, prayer);
                }
                return (prayer, time);
            }
            i = i + 1;
        }
        proof {
            assert(self.time_of(all@[0])@ <= now@);
            assert(self.time_of(all@[1])@ <= now@);
            assert(self.time_of(all@[2])@ <= now@);
            assert(self.time_of(all@[3])@ <= now@);
            assert(self.time_of(all@[4])@ <= now@);
            assert(self.time_of(all@[5])@ <= now@);
        }
        (Prayer::Fajr, self.fajr)
    }

    /// The next prayer is the one picked out by a scan in canonical order:
    /// a prayer whose time is later than `now`, while those before it are
    /// not, is the next.
    pub proof fn lemma_first_later_is_next(self, now: int, prayer: Prayer)
        requires
            now < self.time_of(prayer)@,
            forall|k: int|
                0 <= k < prayer.position() ==> self.time_of(#[trigger] canonical_order()[k])@
                    <= now,
        ensures
            self.next_after(now) == prayer,
    {
        if prayer.position() > 0 {
            assert(self.time_of(canonical_order()[0])@ <= now);
        }
        if prayer.position() > 1 {
            assert(self.time_of(canonical_order()[1])@ <= now);
        }
        if prayer.position() > 2 {
            assert(self.time_of(canonical_order()[2])@ <= now);
        }
        if prayer.position() > 3 {
            assert(self.time_of(canonical_order()[3])@ <= now);
        }
        if prayer.position() > 4 {
            assert(self.time_of(canonical_order()[4])@ <= now);
        }
    }

    /// What the next prayer is, said without the scan: no prayer before it
    /// in canonical order is still to come, and either it is still to come
    /// itself, or none is and it is Fajr.
    pub proof fn lemma_next_is_first_to_come(self, now: int)
        ensures
            forall|earlier: Prayer|
                earlier.position() < self.next_after(now).position() ==> #[trigger] self.time_of(
                    earlier,
                )@ <= now,
            now < self.time_of(self.next_after(now))@ || (self.next_after(now) == Prayer::Fajr
                && forall|any: Prayer| #[trigger] self.time_of(any)@ <= now),
    {
        assert forall|earlier: Prayer|
            earlier.position() < self.next_after(now).position() implies #[trigger] self.time_of(
            earlier,
        )@ <= now by {
            Prayer::lemma_canonical_order_is_by_position(earlier);
        }
    }

    /// How long it is to the next prayer: while a prayer is still to come
    /// today, the time up to it, and more than nothing; once none is, the
    /// rest of the day and the time from midnight to Fajr, or nothing at
    /// all at the very second of a Fajr that is the last time of its day.
    pub proof fn lemma_countdown_to_next(self, now: int)
        requires
            0 <= now < SECONDS_PER_DAY,
            forall|any: Prayer| 0 <= #[trigger] self.time_of(any)@ < SECONDS_PER_DAY,
        ensures
            now < self.time_of(self.next_after(now))@ ==> countdown_seconds(
                now,
                self.time_of(self.next_after(now))@,
            ) == self.time_of(self.next_after(now))@ - now > 0,
            now > self.time_of(self.next_after(now))@ ==> self.next_after(now) == Prayer::Fajr
                && countdown_seconds(now, self.fajr@) == SECONDS_PER_DAY - now + self.fajr@ > 0,
            now == self.time_of(self.next_after(now))@ ==> self.next_after(now) == Prayer::Fajr
                && countdown_seconds(now, self.fajr@) == 0,
    {
        self.lemma_next_is_first_to_come(now);
        assert(0 <= self.time_of(Prayer::Fajr)@ < SECONDS_PER_DAY);
    }

    /// On a day whose six times follow one another in canonical order:
    /// before Fajr the next prayer is Fajr; from the time of one prayer up
    /// to the time of the one after it, the next is the one after it; from
    /// Isha on it is Fajr again.
    pub proof fn lemma_next_on_chronological_day(self, now: int)
        requires
            self.is_chronological(),
        ensures
            now < self.fajr@ ==> self.next_after(now) == Prayer::Fajr,
            self.fajr@ <= now < self.shurooq@ ==> self.next_after(now) == Prayer::Shurooq,
            self.shurooq@ <= now < self.dhuhr@ ==> self.next_after(now) == Prayer::Dhuhr,
            self.dhuhr@ <= now < self.asr@ ==> self.next_after(now) == Prayer::Asr,
            self.asr@ <= now < self.maghrib@ ==> self.next_after(now) == Prayer::Maghrib,
            self.maghrib@ <= now < self.isha@ ==> self.next_after(now) == Prayer::Isha,
            self.isha@ <= now ==> self.next_after(now) == Prayer::Fajr,
    {
    }
}

/// The zoom at which the map of a place is shown.
pub const TILE_ZOOM: u32 = 12;

/// The address of the map tile in the given column and row at the given
/// zoom.
pub open spec fn tile_address(zoom: nat, column: nat, row: nat) -> Seq<char> {
    "https://a.tile.openstreetmap.org/"@ + decimal(zoom) + "/"@ + decimal(column) + "/"@ + decimal(
        row,
    ) + ".png"@
}

/// Writes the address of the map tile in the given column and row at the
/// given zoom.
pub fn tile_url(zoom: u32, column: u32, row: u32) -> (address: String)
    ensures
        address@ == tile_address(zoom as nat, column as nat, row as nat),
{
    let mut address = String::from_str("https://a.tile.openstreetmap.org/");
    push_decimal(&mut address, zoom);
    address.append("/");
    push_decimal(&mut address, column);
    address.append("/");
    push_decimal(&mut address, row);
    address.append(".png");
    assert(address@ =~= tile_address(zoom as nat, column as nat, row as nat));
    address
}

/// The place that a schedule is for. The bearing of the qibla and the two
/// coordinates are kept as the texts that were received, and only where
/// these are numbers.
#[derive(Debug, Clone)]
pub struct ParsedLocation {
    pub state: String,
    pub country: String,
    pub country_code: String,
    pub qibla_direction: Option<String>,
    pub latitude: Option<String>,
    pub longitude: Option<String>,
}

/// Whether the text, if there is one, is a number.
pub open spec fn is_number_if_present(text: Option<String>) -> bool {
    text matches Some(t) ==> is_number_text(t@)
}

impl ParsedLocation {
    /// Whether each of the three numeric fields that is present is a number.
    pub open spec fn wf(self) -> bool {
        &&& is_number_if_present(self.qibla_direction)
        &&& is_number_if_present(self.latitude)
        &&& is_number_if_present(self.longitude)
    }

    /// Whether both coordinates of the place are known.
    pub open spec fn has_coordinates(self) -> bool {
        self.latitude is Some && self.longitude is Some
    }

    /// The address of the map tile that shows the place, where both of its
    /// coordinates are known. Column and row of the tile at the zoom of the
    /// map follow from the two coordinates by the Web Mercator projection;
    /// the caller works them out and hands them in.
    pub fn get_tile(&self, column: u32, row: u32) -> (address: Option<String>)
        ensures
            address is Some <==> self.has_coordinates(),
            address is Some ==> address->Some_0@ == tile_address(
                TILE_ZOOM as nat,
                column as nat,
                row as nat,
            ),
    {
        if self.longitude.is_none() || self.latitude.is_none() {
            return None;
        }
        Some(tile_url(TILE_ZOOM, column, row))
    }
}

/// A schedule in typed form. The first day is the day on which the schedule
/// was asked for.
#[derive(Debug, Clone)]
pub struct ParsedPrayerTimesResponse {
    pub location: ParsedLocation,
    pub items: Vec<ParsedPrayerTimeItem>,
    pub period: PrayerTimesPeriod,
}

impl ParsedPrayerTimesResponse {
    /// The prayer to expect next at `now` on the first day of the schedule,
    /// with its time; nothing where the schedule has no day.
    pub fn get_next_prayer(&self, now: TimeOfDay) -> (next: Option<(Prayer, TimeOfDay)>)
        ensures
            next is Some <==> self.items@.len() > 0,
            next matches Some(found) ==> found.0 == self.items@[0].next_after(now@) && found.1
                == self.items@[0].time_of(found.0),
    {
        if self.items.len() == 0 {
            return None;
        }
        Some(self.items[0].next_prayer(now))
    }

    /// The countdown from `now` to the next prayer on the first day of the
    /// schedule, as it is shown; nothing where the schedule has no day.
    pub fn get_countdown_to_next_prayer(&self, now: TimeOfDay) -> (shown: Option<String>)
        ensures
            shown is Some <==> self.items@.len() > 0,
            shown matches Some(text) ==> text@ == countdown_text(
                countdown_seconds(
                    now@,
                    self.items@[0].time_of(self.items@[0].next_after(now@))@,
                ),
            ),
    {
        match self.get_next_prayer(now) {
            None => None,
            Some(next) => Some(render_countdown(countdown(now, next.1))),
        }
    }
}

} // verus!
