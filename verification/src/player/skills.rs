//! Skill proficiency levels and the modifiers they grant.

use vstd::prelude::*;

verus! {

/// How proficient a character is in one skill.
#[derive(Clone, Copy, PartialEq, Eq, Structural, Debug)]
pub enum ProficiencyLevel {
    /// No proficiency: the skill grants no bonus.
    Untrained,
    /// Half proficiency: half the proficiency bonus, rounded down.
    Half,
    /// Normal proficiency: the full proficiency bonus.
    Normal,
    /// Expertise: twice the proficiency bonus.
    Double,
}

/// The skill modifier granted by proficiency level `p` under proficiency
/// bonus `prof_bonus`.
pub open spec fn spec_prof_mod(p: ProficiencyLevel, prof_bonus: u32) -> u32 {
    match p {
        ProficiencyLevel::Untrained => 0u32,
        ProficiencyLevel::Half => (prof_bonus / 2) as u32,
        ProficiencyLevel::Normal => prof_bonus,
        ProficiencyLevel::Double => prof_bonus.saturating_add(prof_bonus),
    }
}

impl ProficiencyLevel {
    /// The skill modifier this proficiency level grants under the given
    /// proficiency bonus.  Doubling saturates rather than overflowing.
    pub fn get_mod(&self, prof_bonus: u32) -> (r: u32)
        ensures
            r == spec_prof_mod(*self, prof_bonus),
    {
        match self {
            ProficiencyLevel::Untrained => 0,
            ProficiencyLevel::Half => prof_bonus / 2,
            ProficiencyLevel::Normal => prof_bonus,
            ProficiencyLevel::Double => prof_bonus.saturating_add(prof_bonus),
        }
    }
}

impl Default for ProficiencyLevel {
    /// Skills start untrained.
    fn default() -> (r: Self)
        ensures
            r == ProficiencyLevel::Untrained,
    {
        ProficiencyLevel::Untrained
    }
}

} // verus!
