//! The time of day at a place, from the time of day in UTC and the offset
//! of the place.

use chrono::Timelike;
use vstd::prelude::*;
use vstd::arithmetic::div_mod::lemma_mod_multiples_vanish;
use crate::time::{TimeOfDay, SECONDS_PER_DAY};

verus! {

/// The offset of a place from UTC in hours: the one it is given, and one
/// hour more while daylight saving is in force.
pub open spec fn effective_offset(utc_offset_hours: int, daylight_saving: bool) -> int {
    utc_offset_hours + if daylight_saving {
        1int
    } else {
        0int
    }
}

/// The time of day, in seconds since midnight, at a place with the given
/// offset when it is `utc` seconds since midnight in UTC. East of UTC the
/// offset is positive and the clock is ahead, west of it the offset is
/// negative and the clock is behind; either way the clock wraps at
/// midnight.
pub open spec fn seconds_at_offset(utc: int, utc_offset_hours: int, daylight_saving: bool) -> int {
    (utc + 3600 * effective_offset(utc_offset_hours, daylight_saving)) % (SECONDS_PER_DAY as int)
}

/// Reads the clock with chrono's `Utc::now` and takes the seconds since
/// midnight of the time of day it shows. Believed of chrono: they are fewer
/// than a day has. The call does not return on a machine whose clock stands
/// before the year 1970.
#[verifier::external_body]
fn utc_seconds_now() -> (secs: u32)
    ensures
        secs < SECONDS_PER_DAY,
{
    chrono::Utc::now().time().num_seconds_from_midnight()
}

/// The time of day in UTC at the moment of the call.
pub fn utc_now() -> (now: TimeOfDay)
    ensures
        0 <= now@ < SECONDS_PER_DAY,
{
    match TimeOfDay::from_seconds(utc_seconds_now()) {
        Some(now) => now,
        None => {
            proof {
                assert(false);
            }
            unreached()
        },
    }
}

/// The time of day at a place with the given offset when it is `utc` in
/// UTC.
pub fn time_at_offset(utc: TimeOfDay, utc_offset_hours: i32, daylight_saving: bool) -> (local:
    TimeOfDay)
    ensures
        local@ == seconds_at_offset(utc@, utc_offset_hours as int, daylight_saving),
{
    let mut offset: i64 = utc_offset_hours as i64;
    if daylight_saving {
        offset = offset + 1;
    }
    // The hours by which the clock of the place is ahead, within one day.
    let ahead: u64 = if offset >= 0 {
        (offset as u64) % 24
    } else {
        let behind: u64 = ((-offset) as u64) % 24;
        if behind == 0 {
            0
        } else {
            24 - behind
        }
    };
    let shifted: u64 = (utc.seconds() as u64 + 3600 * ahead) % 86400;
    proof {
        let whole_days: int = (offset as int - ahead as int) / 24;
        assert(offset as int == 24 * whole_days + ahead as int);
        assert(utc@ + 3600 * (offset as int) == 86400 * whole_days + (utc@ + 3600 * (ahead as int)));
        lemma_mod_multiples_vanish(whole_days, utc@ + 3600 * (ahead as int), 86400);
    }
    match TimeOfDay::from_seconds(shifted as u32) {
        Some(local) => local,
        None => {
            proof {
                assert(false);
            }
            unreached()
        },
    }
}

/// The time of day, at the moment of the call, at a place with the given
/// offset from UTC. The date is not told: a caller that needs the day
/// takes it from the schedule.
pub fn location_now(utc_offset_hours: i32, daylight_saving: bool) -> (now: TimeOfDay)
    ensures
        exists|utc: int|
            0 <= utc < SECONDS_PER_DAY && now@ == #[trigger] seconds_at_offset(
                utc,
                utc_offset_hours as int,
                daylight_saving,
            ),
{
    let utc = utc_now();
    time_at_offset(utc, utc_offset_hours, daylight_saving)
}

/// At offset zero, without daylight saving, the time of day is that of UTC.
pub proof fn lemma_offset_zero_is_utc(utc: int)
    requires
        0 <= utc < SECONDS_PER_DAY,
    ensures
        seconds_at_offset(utc, 0, false) == utc,
{
}

/// The time of day at any offset lies within the day, and whole days in
/// the offset make no difference.
pub proof fn lemma_offset_wraps(utc: int, utc_offset_hours: int, daylight_saving: bool)
    ensures
        0 <= seconds_at_offset(utc, utc_offset_hours, daylight_saving) < SECONDS_PER_DAY,
        seconds_at_offset(utc, utc_offset_hours + 24, daylight_saving) == seconds_at_offset(
            utc,
            utc_offset_hours,
            daylight_saving,
        ),
{
    let hours = effective_offset(utc_offset_hours, daylight_saving);
    assert(utc + 3600 * (hours + 24) == 86400 * 1 + (utc + 3600 * hours));
    lemma_mod_multiples_vanish(1, utc + 3600 * hours, 86400);
}

/// Daylight saving puts the clock one hour ahead: it is the same as one
/// more hour of offset.
pub proof fn lemma_daylight_saving_is_one_hour(utc: int, utc_offset_hours: int)
    ensures
        seconds_at_offset(utc, utc_offset_hours, true) == seconds_at_offset(
            utc,
            utc_offset_hours + 1,
            false,
        ),
{
}

/// Going west undoes going east: from the time at an offset, the opposite
/// offset leads back to the time in UTC.
pub proof fn lemma_opposite_offset_leads_back(utc: int, utc_offset_hours: int)
    requires
        0 <= utc < SECONDS_PER_DAY,
    ensures
        seconds_at_offset(
            seconds_at_offset(utc, utc_offset_hours, false),
            -utc_offset_hours,
            false,
        ) == utc,
{
    let there = seconds_at_offset(utc, utc_offset_hours, false);
    let sum = utc + 3600 * utc_offset_hours;
    let days: int = sum / 86400;
    assert(sum == 86400 * days + there) by {
        vstd::arithmetic::div_mod::lemma_fundamental_div_mod(sum, 86400);
    }
    assert(there + 3600 * (-utc_offset_hours) == 86400 * (-days) + utc);
    lemma_mod_multiples_vanish(-days, utc, 86400);
}

} // verus!
