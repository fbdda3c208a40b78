//! The span of time that a schedule covers.

use vstd::prelude::*;
use vstd::string::*;
use crate::error::AdhanError;
use crate::text::same_text;

verus! {

/// The span of time that a schedule covers.
#[derive(Debug, Clone, Copy, PartialEq, Eq, Structural, Hash)]
pub enum PrayerTimesPeriod {
    Daily,
    Weekly,
    Monthly,
    Yearly,
}

/// What std's `str::to_lowercase` makes of a text.
pub uninterp spec fn lowercased(text: Seq<char>) -> Seq<char>;

/// std's `str::to_lowercase`. Believed of it: the text it returns depends on
/// the text it is given and on nothing else.
pub assume_specification[ str::to_lowercase ](text: &str) -> (lower: String)
    ensures
        lower@ == lowercased(text@),
;

/// The period that a text names letter for letter, in lower case.
pub open spec fn period_named(text: Seq<char>) -> Result<PrayerTimesPeriod, AdhanError> {
    if text == "daily"@ {
        Ok(PrayerTimesPeriod::Daily)
    } else if text == "weekly"@ {
        Ok(PrayerTimesPeriod::Weekly)
    } else if text == "monthly"@ {
        Ok(PrayerTimesPeriod::Monthly)
    } else if text == "yearly"@ {
        Ok(PrayerTimesPeriod::Yearly)
    } else {
        Err(AdhanError::InvalidPeriod)
    }
}

/// The period that a text names, whatever the case of its letters: the one
/// it names letter for letter, else the one that its lower-case form names
/// letter for letter.
pub open spec fn period_of(text: Seq<char>) -> Result<PrayerTimesPeriod, AdhanError> {
    if period_named(text) is Ok {
        period_named(text)
    } else {
        period_named(lowercased(text))
    }
}

impl PrayerTimesPeriod {
    /// The name of the period, in lower case.
    pub open spec fn name_text(self) -> Seq<char> {
        match self {
            PrayerTimesPeriod::Daily => "daily"@,
            PrayerTimesPeriod::Weekly => "weekly"@,
            PrayerTimesPeriod::Monthly => "monthly"@,
            PrayerTimesPeriod::Yearly => "yearly"@,
        }
    }

    /// The name of the period, in lower case.
    pub fn name(&self) -> (text: &'static str)
        ensures
            text@ == self.name_text(),
    {
        match self {
            PrayerTimesPeriod::Daily => "daily",
            PrayerTimesPeriod::Weekly => "weekly",
            PrayerTimesPeriod::Monthly => "monthly",
            PrayerTimesPeriod::Yearly => "yearly",
        }
    }

    /// The name of the period, in lower case, as an owned text.
    pub fn to_string(&self) -> (text: String)
        ensures
            text@ == self.name_text(),
    {
        String::from_str(self.name())
    }

    /// The period that `text` names letter for letter: one of `daily`,
    /// `weekly`, `monthly` and `yearly`. Any other text is an invalid period.
    pub fn from_lowercase(text: &str) -> (period: Result<PrayerTimesPeriod, AdhanError>)
        ensures
            period == period_named(text@),
    {
        if same_text(text, "daily") {
            Ok(PrayerTimesPeriod::Daily)
        } else if same_text(text, "weekly") {
            Ok(PrayerTimesPeriod::Weekly)
        } else if same_text(text, "monthly") {
            Ok(PrayerTimesPeriod::Monthly)
        } else if same_text(text, "yearly") {
            Ok(PrayerTimesPeriod::Yearly)
        } else {
            Err(AdhanError::InvalidPeriod)
        }
    }

    /// The period that `text` names, whatever the case of its letters. A
    /// text that is a name as it stands is read at once; any other is
    /// brought to lower case first.
    pub fn from_str(text: &str) -> (period: Result<PrayerTimesPeriod, AdhanError>)
        ensures
            period == period_of(text@),
    {
        match PrayerTimesPeriod::from_lowercase(text) {
            Ok(period) => Ok(period),
            Err(_) => {
                let lower = text.to_lowercase();
                PrayerTimesPeriod::from_lowercase(lower.as_str())
            },
        }
    }

    /// The four names are distinct, so each period is read back from its own
    /// name: reading `p`'s name letter for letter gives `p`.
    pub proof fn lemma_name_reads_back(p: PrayerTimesPeriod)
        ensures
            period_named(p.name_text()) == Ok::<PrayerTimesPeriod, AdhanError>(p),
    {
        reveal_strlit("daily");
        reveal_strlit("weekly");
        reveal_strlit("monthly");
        reveal_strlit("yearly");
        assert("daily"@.len() == 5);
        assert("weekly"@.len() == 6);
        assert("monthly"@.len() == 7);
        assert("yearly"@.len() == 6);
        assert("weekly"@[0] == 'w');
        assert("yearly"@[0] == 'y');
    }

    /// A period is read back from what it is written as: reading `p`'s name
    /// in any case gives `p`.
    pub proof fn lemma_round_trip(p: PrayerTimesPeriod)
        ensures
            period_of(p.name_text()) == Ok::<PrayerTimesPeriod, AdhanError>(p),
    {
        PrayerTimesPeriod::lemma_name_reads_back(p);
    }

    /// Reading a text never fails but with an invalid period.
    pub proof fn lemma_only_error_is_invalid_period(text: Seq<char>)
        ensures
            period_of(text) matches Err(err) ==> err == AdhanError::InvalidPeriod,
    {
    }

    /// A text that is none of the four names is no period.
    pub proof fn lemma_other_text_is_invalid(text: Seq<char>)
        requires
            forall|p: PrayerTimesPeriod| text != #[trigger] p.name_text(),
        ensures
            period_named(text) == Err::<PrayerTimesPeriod, AdhanError>(AdhanError::InvalidPeriod),
    {
        assert(text != PrayerTimesPeriod::Daily.name_text());
        assert(text != PrayerTimesPeriod::Weekly.name_text());
        assert(text != PrayerTimesPeriod::Monthly.name_text());
        assert(text != PrayerTimesPeriod::Yearly.name_text());
    }
}

} // verus!
