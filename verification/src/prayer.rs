//! The six daily prayers in their canonical, chronological order.

use vstd::prelude::*;

verus! {

/// One of the six daily prayers. The variants are declared in chronological
/// order, and that order is the one in which a day is scanned.
#[derive(Debug, Clone, Copy, PartialEq, Eq, Structural, Hash, PartialOrd, Ord)]
pub enum Prayer {
    Fajr,
    Shurooq,
    Dhuhr,
    Asr,
    Maghrib,
    Isha,
}

/// The six prayers from first to last.
pub open spec fn canonical_order() -> Seq<Prayer> {
    seq![
        Prayer::Fajr,
        Prayer::Shurooq,
        Prayer::Dhuhr,
        Prayer::Asr,
        Prayer::Maghrib,
        Prayer::Isha,
    ]
}

impl Prayer {
    /// Position of the prayer in the canonical order, from 0 for Fajr to 5
    /// for Isha.
    pub open spec fn position(self) -> int {
        match self {
            Prayer::Fajr => 0,
            Prayer::Shurooq => 1,
            Prayer::Dhuhr => 2,
            Prayer::Asr => 3,
            Prayer::Maghrib => 4,
            Prayer::Isha => 5,
        }
    }

    /// Position of the prayer in the canonical order.
    pub fn index(&self) -> (index: u8)
        ensures
            index == self.position(),
            index < 6,
    {
        match self {
            Prayer::Fajr => 0,
            Prayer::Shurooq => 1,
            Prayer::Dhuhr => 2,
            Prayer::Asr => 3,
            Prayer::Maghrib => 4,
            Prayer::Isha => 5,
        }
    }

    /// The English name of the prayer as a sequence of characters.
    pub open spec fn name_text(self) -> Seq<char> {
        match self {
            Prayer::Fajr => "Fajr"@,
            Prayer::Shurooq => "Shurooq"@,
            Prayer::Dhuhr => "Dhuhr"@,
            Prayer::Asr => "Asr"@,
            Prayer::Maghrib => "Maghrib"@,
            Prayer::Isha => "Isha"@,
        }
    }

    /// The English name of the prayer.
    pub fn name(&self) -> (text: &'static str)
        ensures
            text@ == self.name_text(),
    {
        match self {
            Prayer::Fajr => "Fajr",
            Prayer::Shurooq => "Shurooq",
            Prayer::Dhuhr => "Dhuhr",
            Prayer::Asr => "Asr",
            Prayer::Maghrib => "Maghrib",
            Prayer::Isha => "Isha",
        }
    }

    /// All six prayers, in canonical order.
    pub fn all_prayers() -> (all: Vec<Prayer>)
        ensures
            all@ == canonical_order(),
    {
        let all = vec![
            Prayer::Fajr,
            Prayer::Shurooq,
            Prayer::Dhuhr,
            Prayer::Asr,
            Prayer::Maghrib,
            Prayer::Isha,
        ];
        assert(all@ =~= canonical_order());
        all
    }

    /// In the canonical order each prayer stands at its own position, and
    /// so exactly once.
    pub proof fn lemma_canonical_order_is_by_position(p: Prayer)
        ensures
            0 <= p.position() < canonical_order().len(),
            canonical_order().len() == 6,
            canonical_order()[p.position()] == p,
    {
    }
}

} // verus!
