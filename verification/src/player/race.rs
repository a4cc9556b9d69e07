//! Character races, their cycling order, and the stat bonuses they grant.

use vstd::prelude::*;

use crate::player::stats::Stats;

verus! {

/// The closed set of character races.
#[derive(Clone, Copy, PartialEq, Eq, Structural, Debug)]
pub enum Race {
    Dragonborn,
    HillDwarf,
    MountainDwarf,
    HighElf,
    WoodElf,
    DarkElf,
    ForestGnome,
    RockGnome,
    HalfElf,
    HalfOrc,
    LightfootHalfling,
    StoutHalfling,
    Human,
    Tiefling,
}

/// The position of each race in the fixed cycling order.
pub open spec fn race_ordinal(r: Race) -> int {
    match r {
        Race::Dragonborn => 0,
        Race::HillDwarf => 1,
        Race::MountainDwarf => 2,
        Race::HighElf => 3,
        Race::WoodElf => 4,
        Race::DarkElf => 5,
        Race::ForestGnome => 6,
        Race::RockGnome => 7,
        Race::HalfElf => 8,
        Race::HalfOrc => 9,
        Race::LightfootHalfling => 10,
        Race::StoutHalfling => 11,
        Race::Human => 12,
        Race::Tiefling => 13,
    }
}

/// The race after `r` in the cycling order; the last race stays put.
pub open spec fn spec_next_race(r: Race) -> Race {
    match r {
        Race::Dragonborn => Race::HillDwarf,
        Race::HillDwarf => Race::MountainDwarf,
        Race::MountainDwarf => Race::HighElf,
        Race::HighElf => Race::WoodElf,
        Race::WoodElf => Race::DarkElf,
        Race::DarkElf => Race::ForestGnome,
        Race::ForestGnome => Race::RockGnome,
        Race::RockGnome => Race::HalfElf,
        Race::HalfElf => Race::HalfOrc,
        Race::HalfOrc => Race::LightfootHalfling,
        Race::LightfootHalfling => Race::StoutHalfling,
        Race::StoutHalfling => Race::Human,
        Race::Human => Race::Tiefling,
        Race::Tiefling => Race::Tiefling,
    }
}

/// The race before `r` in the cycling order; the first race stays put.
pub open spec fn spec_prev_race(r: Race) -> Race {
    match r {
        Race::Dragonborn => Race::Dragonborn,
        Race::HillDwarf => Race::Dragonborn,
        Race::MountainDwarf => Race::HillDwarf,
        Race::HighElf => Race::MountainDwarf,
        Race::WoodElf => Race::HighElf,
        Race::DarkElf => Race::WoodElf,
        Race::ForestGnome => Race::DarkElf,
        Race::RockGnome => Race::ForestGnome,
        Race::HalfElf => Race::RockGnome,
        Race::HalfOrc => Race::HalfElf,
        Race::LightfootHalfling => Race::HalfOrc,
        Race::StoutHalfling => Race::LightfootHalfling,
        Race::Human => Race::StoutHalfling,
        Race::Tiefling => Race::Human,
    }
}

/// The stat bonuses granted by each race.
pub open spec fn spec_race_stats(r: Race) -> Stats {
    Stats {
        strength: match r {
            Race::MountainDwarf | Race::Dragonborn | Race::HalfOrc => 2u32,
            Race::Human => 1u32,
            _ => 0u32,
        },
        dexterity: match r {
            Race::HighElf | Race::WoodElf | Race::DarkElf | Race::LightfootHalfling
            | Race::StoutHalfling => 2u32,
            Race::Human | Race::ForestGnome => 1u32,
            _ => 0u32,
        },
        constitution: match r {
            Race::MountainDwarf | Race::HillDwarf => 2u32,
            Race::StoutHalfling | Race::Human | Race::RockGnome => 1u32,
            _ => 0u32,
        },
        intelligence: match r {
            Race::ForestGnome | Race::RockGnome => 2u32,
            Race::HighElf | Race::Human | Race::Tiefling => 1u32,
            _ => 0u32,
        },
        wisdom: match r {
            Race::HillDwarf | Race::WoodElf | Race::Human => 1u32,
            _ => 0u32,
        },
        charisma: match r {
            Race::HalfElf | Race::Tiefling => 2u32,
            Race::DarkElf | Race::LightfootHalfling | Race::Human | Race::Dragonborn => 1u32,
            _ => 0u32,
        },
    }
}

/// The extra hit points per level granted by each race.
pub open spec fn spec_health_bonus(r: Race) -> u32 {
    match r {
        Race::HillDwarf => 1u32,
        _ => 0u32,
    }
}

/// The reference-table key under which each race is looked up.
pub open spec fn spec_lookup_name(r: Race) -> Seq<char> {
    match r {
        Race::Dragonborn => "dragonborn"@,
        Race::HillDwarf | Race::MountainDwarf => "dwarf"@,
        Race::WoodElf | Race::HighElf | Race::DarkElf => "elf"@,
        Race::HalfElf => "half-elf"@,
        Race::HalfOrc => "half-orc"@,
        Race::ForestGnome | Race::RockGnome => "gnome"@,
        Race::LightfootHalfling | Race::StoutHalfling => "halfling"@,
        Race::Human => "human"@,
        Race::Tiefling => "tiefling"@,
    }
}

impl Race {
    /// The reference-table key for this race: subraces share the entry of
    /// their base race.
    pub fn to_lookup_string(&self) -> (r: &'static str)
        ensures
            r@ == spec_lookup_name(*self),
    {
        match self {
            Race::Dragonborn => "dragonborn",
            Race::HillDwarf | Race::MountainDwarf => "dwarf",
            Race::WoodElf | Race::HighElf | Race::DarkElf => "elf",
            Race::HalfElf => "half-elf",
            Race::HalfOrc => "half-orc",
            Race::ForestGnome | Race::RockGnome => "gnome",
            Race::LightfootHalfling | Race::StoutHalfling => "halfling",
            Race::Human => "human",
            Race::Tiefling => "tiefling",
        }
    }

    /// The race after this one in the cycling order, stopping at the end.
    pub fn get_next(&self) -> (r: Self)
        ensures
            r == spec_next_race(*self),
            race_ordinal(r) == if race_ordinal(*self) < 13 {
                race_ordinal(*self) + 1
            } else {
                13int
            },
    {
        match self {
            Race::Dragonborn => Race::HillDwarf,
            Race::HillDwarf => Race::MountainDwarf,
            Race::MountainDwarf => Race::HighElf,
            Race::HighElf => Race::WoodElf,
            Race::WoodElf => Race::DarkElf,
            Race::DarkElf => Race::ForestGnome,
            Race::ForestGnome => Race::RockGnome,
            Race::RockGnome => Race::HalfElf,
            Race::HalfElf => Race::HalfOrc,
            Race::HalfOrc => Race::LightfootHalfling,
            Race::LightfootHalfling => Race::StoutHalfling,
            Race::StoutHalfling => Race::Human,
            Race::Human => Race::Tiefling,
            Race::Tiefling => Race::Tiefling,
        }
    }

    /// The race before this one in the cycling order, stopping at the
    /// start.
    pub fn get_prev(&self) -> (r: Self)
        ensures
            r == spec_prev_race(*self),
            race_ordinal(r) == if race_ordinal(*self) > 0 {
                race_ordinal(*self) - 1
            } else {
                0int
            },
    {
        match self {
            Race::Dragonborn => Race::Dragonborn,
            Race::HillDwarf => Race::Dragonborn,
            Race::MountainDwarf => Race::HillDwarf,
            Race::HighElf => Race::MountainDwarf,
            Race::WoodElf => Race::HighElf,
            Race::DarkElf => Race::WoodElf,
            Race::ForestGnome => Race::DarkElf,
            Race::RockGnome => Race::ForestGnome,
            Race::HalfElf => Race::RockGnome,
            Race::HalfOrc => Race::HalfElf,
            Race::LightfootHalfling => Race::HalfOrc,
            Race::StoutHalfling => Race::LightfootHalfling,
            Race::Human => Race::StoutHalfling,
            Race::Tiefling => Race::Human,
        }
    }

    /// Advance to the next race in the cycling order.
    pub fn cycle_next(&mut self)
        ensures
            *final(self) == spec_next_race(*old(self)),
    {
        *self = self.get_next();
    }

    /// Retreat to the previous race in the cycling order.
    pub fn cycle_prev(&mut self)
        ensures
            *final(self) == spec_prev_race(*old(self)),
    {
        *self = self.get_prev();
    }

    /// The stat bonuses granted by this race.
    pub fn stats(&self) -> (r: Stats)
        ensures
            r == spec_race_stats(*self),
    {
        Stats {
            strength: match self {
                Race::MountainDwarf | Race::Dragonborn | Race::HalfOrc => 2,
                Race::Human => 1,
                _ => 0,
            },
            dexterity: match self {
                Race::HighElf | Race::WoodElf | Race::DarkElf | Race::LightfootHalfling
                | Race::StoutHalfling => 2,
                Race::Human | Race::ForestGnome => 1,
                _ => 0,
            },
            constitution: match self {
                Race::MountainDwarf | Race::HillDwarf => 2,
                Race::StoutHalfling | Race::Human | Race::RockGnome => 1,
                _ => 0,
            },
            intelligence: match self {
                Race::ForestGnome | Race::RockGnome => 2,
                Race::HighElf | Race::Human | Race::Tiefling => 1,
                _ => 0,
            },
            wisdom: match self {
                Race::HillDwarf | Race::WoodElf | Race::Human => 1,
                _ => 0,
            },
            charisma: match self {
                Race::HalfElf | Race::Tiefling => 2,
                Race::DarkElf | Race::LightfootHalfling | Race::Human | Race::Dragonborn => 1,
                _ => 0,
            },
        }
    }

    /// The extra hit points per level granted by this race.
    pub fn health_bonus(&self) -> (r: u32)
        ensures
            r == spec_health_bonus(*self),
    {
        match self {
            Race::HillDwarf => 1,
            _ => 0,
        }
    }
}

impl Default for Race {
    /// New characters start as humans.
    fn default() -> (r: Self)
        ensures
            r == Race::Human,
    {
        Race::Human
    }
}

} // verus!
