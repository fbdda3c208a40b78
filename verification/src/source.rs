//! Where a schedule is asked for, and how what was received is made ready
//! for reading.

use vstd::prelude::*;
use vstd::string::*;
use crate::period::PrayerTimesPeriod;

verus! {

/// The address at which the schedule of a city for a period is asked for.
pub open spec fn request_address(city: Seq<char>, period: PrayerTimesPeriod) -> Seq<char> {
    "https://muslimsalat.com/"@ + city + "/"@ + period.name_text() + ".json"@
}

/// Writes the address at which the schedule of a city for a period is
/// asked for.
pub fn request_url(city: &str, period: PrayerTimesPeriod) -> (address: String)
    ensures
        address@ == request_address(city@, period),
{
    let mut address = String::from_str("https://muslimsalat.com/");
    address.append(city);
    address.append("/");
    address.append(period.name());
    address.append(".json");
    assert(address@ =~= request_address(city@, period));
    address
}

/// What the regex crate makes of a text in which every match of a pattern
/// is replaced: the new text, or nothing where the pattern is none that the
/// crate accepts.
pub uninterp spec fn regex_replaced(
    pattern: Seq<char>,
    text: Seq<char>,
    replacement: Seq<char>,
) -> Option<Seq<char>>;

/// Compiles the pattern with regex's `Regex::new` and replaces every match
/// in the text with its `Regex::replace_all`. Believed of the crate: what
/// comes back depends on the three texts alone.
#[verifier::external_body]
fn replace_all(pattern: &str, text: &str, replacement: &str) -> (replaced: Option<String>)
    ensures
        replaced is Some <==> regex_replaced(pattern@, text@, replacement@) is Some,
        replaced is Some ==> replaced->Some_0@ == regex_replaced(
            pattern@,
            text@,
            replacement@,
        )->Some_0,
{
    match regex::Regex::new(pattern) {
        Ok(compiled) => Some(compiled.replace_all(text, replacement).into_owned()),
        Err(_) => None,
    }
}

/// The pattern of a number between double quotes: digits, with or without
/// a fraction, and a minus sign before them or none. The digits and the
/// fraction are its first group.
pub open spec fn quoted_number_pattern() -> Seq<char> {
    "\"-?(\\d+(?:\\.\\d+)?)\""@
}

/// The text by which a match is replaced: its first group.
pub open spec fn first_group() -> Seq<char> {
    "$1"@
}

/// Takes the double quotes off every number that stands between them in
/// what was received, so that each number stands there as a number.
/// Nothing comes back where the pattern is refused.
pub fn unquote_numbers(received: &str) -> (cleaned: Option<String>)
    ensures
        cleaned is Some <==> regex_replaced(quoted_number_pattern(), received@, first_group())
            is Some,
        cleaned is Some ==> cleaned->Some_0@ == regex_replaced(
            quoted_number_pattern(),
            received@,
            first_group(),
        )->Some_0,
{
    replace_all("\"-?(\\d+(?:\\.\\d+)?)\"", received, "$1")
}

} // verus!
