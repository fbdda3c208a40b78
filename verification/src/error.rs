//! The errors of the library.

use vstd::prelude::*;
use vstd::string::*;

verus! {

/// The error that chrono reports for a text it cannot parse. The library
/// carries such a value along and never looks inside.
#[verifier::external_type_specification]
#[verifier::external_body]
pub struct ExParseError(chrono::format::ParseError);

/// Why a schedule that was received cannot be held in typed form.
#[derive(Debug, Clone, Copy, PartialEq, Eq)]
pub enum AdhanError {
    /// A text is not a time of day on the twelve-hour clock.
    TimeParse(chrono::format::ParseError),
    /// A text is not a calendar date.
    DateParse(chrono::format::ParseError),
    /// A text is not the name of a period.
    InvalidPeriod,
}

/// chrono's own words for a parse error, as its `Display` impl writes them.
/// Nothing is claimed of the text.
#[verifier::external_body]
fn parse_error_words(err: &chrono::format::ParseError) -> (words: String) {
    format!("{}", err)
}

impl AdhanError {
    /// The words that every message of this kind of error begins with; for
    /// an invalid period they are the whole message.
    pub open spec fn heading(self) -> Seq<char> {
        match self {
            AdhanError::TimeParse(_) => "Parse error: "@,
            AdhanError::DateParse(_) => "Parse error: "@,
            AdhanError::InvalidPeriod => "Invalid prayer times period"@,
        }
    }

    /// The message for a reader: the heading of the kind, followed for a
    /// parse error by chrono's words for it.
    pub fn to_string(&self) -> (message: String)
        ensures
            self.heading().is_prefix_of(message@),
            self is InvalidPeriod ==> message@ == self.heading(),
    {
        match self {
            AdhanError::TimeParse(err) => {
                let mut message = String::from_str("Parse error: ");
                let words = parse_error_words(err);
                message.append(words.as_str());
                message
            },
            AdhanError::DateParse(err) => {
                let mut message = String::from_str("Parse error: ");
                let words = parse_error_words(err);
                message.append(words.as_str());
                message
            },
            AdhanError::InvalidPeriod => String::from_str("Invalid prayer times period"),
        }
    }
}

} // verus!
