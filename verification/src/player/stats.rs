//! The six ability scores of a character.

use vstd::prelude::*;

verus! {

/// The six ability scores.  Scores are kept with their racial bonuses
/// already applied.
#[derive(Clone, Copy, PartialEq, Eq, Structural, Debug)]
pub struct Stats {
    pub strength: u32,
    pub dexterity: u32,
    pub constitution: u32,
    pub intelligence: u32,
    pub wisdom: u32,
    pub charisma: u32,
}

/// The score at position `idx` in the fixed display order.
pub open spec fn spec_stat_nth(s: Stats, idx: u32) -> u32 {
    if idx == 0 {
        s.strength
    } else if idx == 1 {
        s.dexterity
    } else if idx == 2 {
        s.constitution
    } else if idx == 3 {
        s.intelligence
    } else if idx == 4 {
        s.wisdom
    } else {
        s.charisma
    }
}

/// `s` with the score at position `idx` replaced by `v`.
pub open spec fn spec_stat_set_nth(s: Stats, idx: u32, v: u32) -> Stats {
    if idx == 0 {
        Stats { strength: v, ..s }
    } else if idx == 1 {
        Stats { dexterity: v, ..s }
    } else if idx == 2 {
        Stats { constitution: v, ..s }
    } else if idx == 3 {
        Stats { intelligence: v, ..s }
    } else if idx == 4 {
        Stats { wisdom: v, ..s }
    } else {
        Stats { charisma: v, ..s }
    }
}

/// Componentwise saturating sum of two stat blocks.
pub open spec fn spec_stats_plus(a: Stats, b: Stats) -> Stats {
    Stats {
        strength: a.strength.saturating_add(b.strength),
        dexterity: a.dexterity.saturating_add(b.dexterity),
        constitution: a.constitution.saturating_add(b.constitution),
        intelligence: a.intelligence.saturating_add(b.intelligence),
        wisdom: a.wisdom.saturating_add(b.wisdom),
        charisma: a.charisma.saturating_add(b.charisma),
    }
}

/// Componentwise saturating difference of two stat blocks: no score ever
/// drops below zero.
pub open spec fn spec_stats_minus(a: Stats, b: Stats) -> Stats {
    Stats {
        strength: a.strength.saturating_sub(b.strength),
        dexterity: a.dexterity.saturating_sub(b.dexterity),
        constitution: a.constitution.saturating_sub(b.constitution),
        intelligence: a.intelligence.saturating_sub(b.intelligence),
        wisdom: a.wisdom.saturating_sub(b.wisdom),
        charisma: a.charisma.saturating_sub(b.charisma),
    }
}

impl Stats {
    /// The score at position `idx` in the fixed display order: strength,
    /// dexterity, constitution, intelligence, wisdom, charisma.
    pub fn nth(&self, idx: u32) -> (r: u32)
        requires
            idx <= 5,
        ensures
            r == spec_stat_nth(*self, idx),
    {
        match idx {
            0 => self.strength,
            1 => self.dexterity,
            2 => self.constitution,
            3 => self.intelligence,
            4 => self.wisdom,
            _ => self.charisma,
        }
    }

    /// Replace the score at position `idx`.
    pub fn set_nth(&mut self, idx: u32, v: u32)
        requires
            idx <= 5,
        ensures
            *final(self) == spec_stat_set_nth(*old(self), idx, v),
    {
        match idx {
            0 => self.strength = v,
            1 => self.dexterity = v,
            2 => self.constitution = v,
            3 => self.intelligence = v,
            4 => self.wisdom = v,
            _ => self.charisma = v,
        }
    }

    /// Componentwise saturating sum.
    pub fn plus(&self, rhs: &Stats) -> (r: Stats)
        ensures
            r == spec_stats_plus(*self, *rhs),
    {
        Stats {
            strength: self.strength.saturating_add(rhs.strength),
            dexterity: self.dexterity.saturating_add(rhs.dexterity),
            constitution: self.constitution.saturating_add(rhs.constitution),
            intelligence: self.intelligence.saturating_add(rhs.intelligence),
            wisdom: self.wisdom.saturating_add(rhs.wisdom),
            charisma: self.charisma.saturating_add(rhs.charisma),
        }
    }

    /// Componentwise saturating difference.
    pub fn minus(&self, rhs: &Stats) -> (r: Stats)
        ensures
            r == spec_stats_minus(*self, *rhs),
    {
        Stats {
            strength: self.strength.saturating_sub(rhs.strength),
            dexterity: self.dexterity.saturating_sub(rhs.dexterity),
            constitution: self.constitution.saturating_sub(rhs.constitution),
            intelligence: self.intelligence.saturating_sub(rhs.intelligence),
            wisdom: self.wisdom.saturating_sub(rhs.wisdom),
            charisma: self.charisma.saturating_sub(rhs.charisma),
        }
    }
}

impl Default for Stats {
    /// New characters start with every score at eleven (ten, plus the
    /// default human bonus of one).
    fn default() -> (r: Self)
        ensures
            r == (Stats {
                strength: 11u32,
                dexterity: 11u32,
                constitution: 11u32,
                intelligence: 11u32,
                wisdom: 11u32,
                charisma: 11u32,
            }),
    {
        Stats {
            strength: 11,
            dexterity: 11,
            constitution: 11,
            intelligence: 11,
            wisdom: 11,
            charisma: 11,
        }
    }
}

} // verus!
