//! Character backgrounds and their cycling order.

use vstd::prelude::*;

verus! {

/// The closed set of character backgrounds.
#[derive(Clone, Copy, PartialEq, Eq, Structural, Debug)]
pub enum Background {
    Acolyte,
    Charlatan,
    Criminal,
    Entertainer,
    FolkHero,
    GuildArtisan,
    Hermit,
    Knight,
    Noble,
    Outlander,
    Pirate,
    Sage,
    Sailor,
    Soldier,
    Urchin,
}

/// The background after `b` in the cycling order; the last one stays put.
pub open spec fn spec_next_background(b: Background) -> Background {
    match b {
        Background::Acolyte => Background::Charlatan,
        Background::Charlatan => Background::Criminal,
        Background::Criminal => Background::Entertainer,
        Background::Entertainer => Background::FolkHero,
        Background::FolkHero => Background::GuildArtisan,
        Background::GuildArtisan => Background::Hermit,
        Background::Hermit => Background::Knight,
        Background::Knight => Background::Noble,
        Background::Noble => Background::Outlander,
        Background::Outlander => Background::Pirate,
        Background::Pirate => Background::Sage,
        Background::Sage => Background::Sailor,
        Background::Sailor => Background::Soldier,
        Background::Soldier => Background::Urchin,
        Background::Urchin => Background::Urchin,
    }
}

/// The background before `b` in the cycling order; the first one stays
/// put.
pub open spec fn spec_prev_background(b: Background) -> Background {
    match b {
        Background::Acolyte => Background::Acolyte,
        Background::Charlatan => Background::Acolyte,
        Background::Criminal => Background::Charlatan,
        Background::Entertainer => Background::Criminal,
        Background::FolkHero => Background::Entertainer,
        Background::GuildArtisan => Background::FolkHero,
        Background::Hermit => Background::GuildArtisan,
        Background::Knight => Background::Hermit,
        Background::Noble => Background::Knight,
        Background::Outlander => Background::Noble,
        Background::Pirate => Background::Outlander,
        Background::Sage => Background::Pirate,
        Background::Sailor => Background::Sage,
        Background::Soldier => Background::Sailor,
        Background::Urchin => Background::Soldier,
    }
}

impl Background {
    /// Advance to the next background in the cycling order.
    pub fn cycle_next(&mut self)
        ensures
            *final(self) == spec_next_background(*old(self)),
    {
        *self = match self {
            Background::Acolyte => Background::Charlatan,
            Background::Charlatan => Background::Criminal,
            Background::Criminal => Background::Entertainer,
            Background::Entertainer => Background::FolkHero,
            Background::FolkHero => Background::GuildArtisan,
            Background::GuildArtisan => Background::Hermit,
            Background::Hermit => Background::Knight,
            Background::Knight => Background::Noble,
            Background::Noble => Background::Outlander,
            Background::Outlander => Background::Pirate,
            Background::Pirate => Background::Sage,
            Background::Sage => Background::Sailor,
            Background::Sailor => Background::Soldier,
            Background::Soldier => Background::Urchin,
            Background::Urchin => Background::Urchin,
        };
    }

    /// Retreat to the previous background in the cycling order.
    pub fn cycle_prev(&mut self)
        ensures
            *final(self) == spec_prev_background(*old(self)),
    {
        *self = match self {
            Background::Acolyte => Background::Acolyte,
            Background::Charlatan => Background::Acolyte,
            Background::Criminal => Background::Charlatan,
            Background::Entertainer => Background::Criminal,
            Background::FolkHero => Background::Entertainer,
            Background::GuildArtisan => Background::FolkHero,
            Background::Hermit => Background::GuildArtisan,
            Background::Knight => Background::Hermit,
            Background::Noble => Background::Knight,
            Background::Outlander => Background::Noble,
            Background::Pirate => Background::Outlander,
            Background::Sage => Background::Pirate,
            Background::Sailor => Background::Sage,
            Background::Soldier => Background::Sailor,
            Background::Urchin => Background::Soldier,
        };
    }
}

impl Default for Background {
    /// New characters start as acolytes.
    fn default() -> (r: Self)
        ensures
            r == Background::Acolyte,
    {
        Background::Acolyte
    }
}

} // verus!
