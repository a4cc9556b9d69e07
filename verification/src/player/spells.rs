//! Spell slot tables, derived from class and level.

use vstd::prelude::*;

use crate::player::class::Class;

verus! {

/// Spell slot counts per spell level, plus the shared warlock pool.
#[derive(Clone, Copy, PartialEq, Eq, Structural, Debug)]
pub struct SpellSlots {
    pub first: u32,
    pub second: u32,
    pub third: u32,
    pub fourth: u32,
    pub fifth: u32,
    pub sixth: u32,
    pub seventh: u32,
    pub eigth: u32,
    pub ninth: u32,
    pub warlock: u32,
}

/// The all-zero slot table.
pub open spec fn spec_no_slots() -> SpellSlots {
    SpellSlots {
        first: 0u32,
        second: 0u32,
        third: 0u32,
        fourth: 0u32,
        fifth: 0u32,
        sixth: 0u32,
        seventh: 0u32,
        eigth: 0u32,
        ninth: 0u32,
        warlock: 0u32,
    }
}

/// The slot table of a full caster at the given level.
pub open spec fn spec_full_slots(level: u32) -> SpellSlots {
    SpellSlots {
        first: if level >= 3 {
            4u32
        } else if level >= 2 {
            3u32
        } else if level >= 1 {
            2u32
        } else {
            0u32
        },
        second: if level >= 4 {
            3u32
        } else if level >= 3 {
            2u32
        } else {
            0u32
        },
        third: if level >= 6 {
            3u32
        } else if level >= 5 {
            2u32
        } else {
            0u32
        },
        fourth: if level >= 9 {
            3u32
        } else if level >= 8 {
            2u32
        } else if level >= 7 {
            1u32
        } else {
            0u32
        },
        fifth: if level >= 18 {
            3u32
        } else if level >= 10 {
            2u32
        } else if level >= 9 {
            1u32
        } else {
            0u32
        },
        sixth: if level >= 19 {
            2u32
        } else if level >= 11 {
            1u32
        } else {
            0u32
        },
        seventh: if level >= 20 {
            2u32
        } else if level >= 13 {
            1u32
        } else {
            0u32
        },
        eigth: if level >= 15 {
            1u32
        } else {
            0u32
        },
        ninth: if level >= 17 {
            1u32
        } else {
            0u32
        },
        warlock: 0u32,
    }
}

/// The slot table of a half caster at the given level.
pub open spec fn spec_half_slots(level: u32) -> SpellSlots {
    SpellSlots {
        first: if level >= 5 {
            4u32
        } else if level >= 3 {
            3u32
        } else if level >= 2 {
            2u32
        } else {
            0u32
        },
        second: if level >= 7 {
            3u32
        } else if level >= 5 {
            2u32
        } else {
            0u32
        },
        third: if level >= 11 {
            3u32
        } else if level >= 9 {
            2u32
        } else {
            0u32
        },
        fourth: if level >= 17 {
            3u32
        } else if level >= 15 {
            2u32
        } else if level >= 13 {
            1u32
        } else {
            0u32
        },
        fifth: if level >= 19 {
            2u32
        } else if level >= 17 {
            1u32
        } else {
            0u32
        },
        sixth: 0u32,
        seventh: 0u32,
        eigth: 0u32,
        ninth: 0u32,
        warlock: 0u32,
    }
}

/// The slot table of a warlock at the given level: a single shared pool.
pub open spec fn spec_warlock_slots(level: u32) -> SpellSlots {
    SpellSlots {
        warlock: if level >= 17 {
            4u32
        } else if level >= 11 {
            3u32
        } else if level >= 2 {
            2u32
        } else if level >= 1 {
            1u32
        } else {
            0u32
        },
        ..spec_no_slots()
    }
}

/// The slot table for the given class and level: full casters, half
/// casters and warlocks each follow their own table; every other class
/// has no slots.
pub open spec fn spec_slots_from(level: u32, class: Class) -> SpellSlots {
    match class {
        Class::Bard | Class::Cleric | Class::Wizard | Class::Sorcerer | Class::Druid
            => spec_full_slots(level),
        Class::Artificer | Class::Ranger | Class::Paladin => spec_half_slots(level),
        Class::Warlock => spec_warlock_slots(level),
        _ => spec_no_slots(),
    }
}

/// The slot count at position `idx` (spell level `idx + 1`).
pub open spec fn spec_slots_nth(s: SpellSlots, idx: u32) -> u32 {
    if idx == 0 {
        s.first
    } else if idx == 1 {
        s.second
    } else if idx == 2 {
        s.third
    } else if idx == 3 {
        s.fourth
    } else if idx == 4 {
        s.fifth
    } else if idx == 5 {
        s.sixth
    } else if idx == 6 {
        s.seventh
    } else if idx == 7 {
        s.eigth
    } else {
        s.ninth
    }
}

/// `s` with the slot count at position `idx` replaced by `v`.
pub open spec fn spec_slots_set_nth(s: SpellSlots, idx: u32, v: u32) -> SpellSlots {
    if idx == 0 {
        SpellSlots { first: v, ..s }
    } else if idx == 1 {
        SpellSlots { second: v, ..s }
    } else if idx == 2 {
        SpellSlots { third: v, ..s }
    } else if idx == 3 {
        SpellSlots { fourth: v, ..s }
    } else if idx == 4 {
        SpellSlots { fifth: v, ..s }
    } else if idx == 5 {
        SpellSlots { sixth: v, ..s }
    } else if idx == 6 {
        SpellSlots { seventh: v, ..s }
    } else if idx == 7 {
        SpellSlots { eigth: v, ..s }
    } else {
        SpellSlots { ninth: v, ..s }
    }
}

/// The spell level of a warlock's slots at the given character level.
pub open spec fn spec_warlock_slot_level(level: u32) -> u32 {
    if level >= 9 {
        5u32
    } else if level >= 7 {
        4u32
    } else if level >= 5 {
        3u32
    } else if level >= 3 {
        2u32
    } else if level >= 1 {
        1u32
    } else {
        0u32
    }
}

impl SpellSlots {
    /// The slot table for the given level and class.
    pub fn from(level: u32, class: &Class) -> (r: Self)
        ensures
            r == spec_slots_from(level, *class),
    {
        match class {
            Class::Bard | Class::Cleric | Class::Wizard | Class::Sorcerer | Class::Druid
                => Self::from_full(level),
            Class::Artificer | Class::Ranger | Class::Paladin => Self::from_half(level),
            Class::Warlock => Self::from_warlock(level),
            _ => Self::default(),
        }
    }

    /// The full-caster table.
    fn from_full(level: u32) -> (r: Self)
        ensures
            r == spec_full_slots(level),
    {
        SpellSlots {
            first: if level >= 3 {
                4
            } else if level >= 2 {
                3
            } else if level >= 1 {
                2
            } else {
                0
            },
            second: if level >= 4 {
                3
            } else if level >= 3 {
                2
            } else {
                0
            },
            third: if level >= 6 {
                3
            } else if level >= 5 {
                2
            } else {
                0
            },
            fourth: if level >= 9 {
                3
            } else if level >= 8 {
                2
            } else if level >= 7 {
                1
            } else {
                0
            },
            fifth: if level >= 18 {
                3
            } else if level >= 10 {
                2
            } else if level >= 9 {
                1
            } else {
                0
            },
            sixth: if level >= 19 {
                2
            } else if level >= 11 {
                1
            } else {
                0
            },
            seventh: if level >= 20 {
                2
            } else if level >= 13 {
                1
            } else {
                0
            },
            eigth: if level >= 15 {
                1
            } else {
                0
            },
            ninth: if level >= 17 {
                1
            } else {
                0
            },
            warlock: 0,
        }
    }

    /// The half-caster table.
    fn from_half(level: u32) -> (r: Self)
        ensures
            r == spec_half_slots(level),
    {
        SpellSlots {
            first: if level >= 5 {
                4
            } else if level >= 3 {
                3
            } else if level >= 2 {
                2
            } else {
                0
            },
            second: if level >= 7 {
                3
            } else if level >= 5 {
                2
            } else {
                0
            },
            third: if level >= 11 {
                3
            } else if level >= 9 {
                2
            } else {
                0
            },
            fourth: if level >= 17 {
                3
            } else if level >= 15 {
                2
            } else if level >= 13 {
                1
            } else {
                0
            },
            fifth: if level >= 19 {
                2
            } else if level >= 17 {
                1
            } else {
                0
            },
            sixth: 0,
            seventh: 0,
            eigth: 0,
            ninth: 0,
            warlock: 0,
        }
    }

    /// The warlock table.
    fn from_warlock(level: u32) -> (r: Self)
        ensures
            r == spec_warlock_slots(level),
    {
        SpellSlots {
            warlock: if level >= 17 {
                4
            } else if level >= 11 {
                3
            } else if level >= 2 {
                2
            } else if level >= 1 {
                1
            } else {
                0
            },
            ..Self::default()
        }
    }

    /// The spell level of a warlock's slots at the given character level.
    pub fn warlock_slot_level(level: u32) -> (r: u32)
        ensures
            r == spec_warlock_slot_level(level),
    {
        if level >= 9 {
            5
        } else if level >= 7 {
            4
        } else if level >= 5 {
            3
        } else if level >= 3 {
            2
        } else if level >= 1 {
            1
        } else {
            0
        }
    }

    /// The slot count at position `idx` (spell level `idx + 1`).
    pub fn nth(&self, idx: u32) -> (r: u32)
        requires
            idx <= 8,
        ensures
            r == spec_slots_nth(*self, idx),
    {
        match idx {
            0 => self.first,
            1 => self.second,
            2 => self.third,
            3 => self.fourth,
            4 => self.fifth,
            5 => self.sixth,
            6 => self.seventh,
            7 => self.eigth,
            _ => self.ninth,
        }
    }

    /// A mutable handle on the slot count at position `idx`.
    pub fn nth_mut(&mut self, idx: u32) -> (r: &mut u32)
        requires
            idx <= 8,
        ensures
            *r == spec_slots_nth(*old(self), idx),
            *final(self) == spec_slots_set_nth(*old(self), idx, *final(r)),
    {
        match idx {
            0 => &mut self.first,
            1 => &mut self.second,
            2 => &mut self.third,
            3 => &mut self.fourth,
            4 => &mut self.fifth,
            5 => &mut self.sixth,
            6 => &mut self.seventh,
            7 => &mut self.eigth,
            _ => &mut self.ninth,
        }
    }
}

impl Default for SpellSlots {
    /// No slots at all.
    fn default() -> (r: Self)
        ensures
            r == spec_no_slots(),
    {
        SpellSlots {
            first: 0,
            second: 0,
            third: 0,
            fourth: 0,
            fifth: 0,
            sixth: 0,
            seventh: 0,
            eigth: 0,
            ninth: 0,
            warlock: 0,
        }
    }
}

} // verus!
