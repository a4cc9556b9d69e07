//! Character alignments and their cycling order.

use vstd::prelude::*;

verus! {

/// The nine alignments, lawful-good through chaotic-evil.
#[derive(Clone, Copy, PartialEq, Eq, Structural, Debug)]
pub enum Alignment {
    LG,
    LN,
    LE,
    NG,
    TN,
    NE,
    CG,
    CN,
    CE,
}

/// The alignment after `a` in the cycling order; the last one stays put.
pub open spec fn spec_next_alignment(a: Alignment) -> Alignment {
    match a {
        Alignment::LG => Alignment::LN,
        Alignment::LN => Alignment::LE,
        Alignment::LE => Alignment::NG,
        Alignment::NG => Alignment::TN,
        Alignment::TN => Alignment::NE,
        Alignment::NE => Alignment::CG,
        Alignment::CG => Alignment::CN,
        Alignment::CN => Alignment::CE,
        Alignment::CE => Alignment::CE,
    }
}

/// The alignment before `a` in the cycling order; the first one stays put.
pub open spec fn spec_prev_alignment(a: Alignment) -> Alignment {
    match a {
        Alignment::LG => Alignment::LG,
        Alignment::LN => Alignment::LG,
        Alignment::LE => Alignment::LN,
        Alignment::NG => Alignment::LE,
        Alignment::TN => Alignment::NG,
        Alignment::NE => Alignment::TN,
        Alignment::CG => Alignment::NE,
        Alignment::CN => Alignment::CG,
        Alignment::CE => Alignment::CN,
    }
}

impl Alignment {
    /// Advance to the next alignment in the cycling order.
    pub fn cycle_next(&mut self)
        ensures
            *final(self) == spec_next_alignment(*old(self)),
    {
        *self = match self {
            Alignment::LG => Alignment::LN,
            Alignment::LN => Alignment::LE,
            Alignment::LE => Alignment::NG,
            Alignment::NG => Alignment::TN,
            Alignment::TN => Alignment::NE,
            Alignment::NE => Alignment::CG,
            Alignment::CG => Alignment::CN,
            Alignment::CN => Alignment::CE,
            Alignment::CE => Alignment::CE,
        };
    }

    /// Retreat to the previous alignment in the cycling order.
    pub fn cycle_prev(&mut self)
        ensures
            *final(self) == spec_prev_alignment(*old(self)),
    {
        *self = match self {
            Alignment::LG => Alignment::LG,
            Alignment::LN => Alignment::LG,
            Alignment::LE => Alignment::LN,
            Alignment::NG => Alignment::LE,
            Alignment::TN => Alignment::NG,
            Alignment::NE => Alignment::TN,
            Alignment::CG => Alignment::NE,
            Alignment::CN => Alignment::CG,
            Alignment::CE => Alignment::CN,
        };
    }
}

impl Default for Alignment {
    /// New characters start true neutral.
    fn default() -> (r: Self)
        ensures
            r == Alignment::TN,
    {
        Alignment::TN
    }
}

} // verus!
