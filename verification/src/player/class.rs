//! Character classes and their derived hit-dice values.

use vstd::prelude::*;

verus! {

/// The closed set of character classes.
#[derive(Clone, Copy, PartialEq, Eq, Structural, Debug)]
pub enum Class {
    Artificer,
    Bard,
    Barbarian,
    Cleric,
    Druid,
    Fighter,
    Monk,
    Paladin,
    Ranger,
    Rogue,
    Sorcerer,
    Warlock,
    Wizard,
}

/// The hit-dice size granted by each class.
pub open spec fn spec_hit_dice(c: Class) -> u32 {
    match c {
        Class::Sorcerer | Class::Wizard => 6u32,
        Class::Artificer | Class::Bard | Class::Cleric | Class::Druid | Class::Monk
        | Class::Rogue | Class::Warlock => 8u32,
        Class::Fighter | Class::Paladin | Class::Ranger => 10u32,
        Class::Barbarian => 12u32,
    }
}

/// The position of each class in the fixed cycling order.
pub open spec fn class_ordinal(c: Class) -> int {
    match c {
        Class::Artificer => 0,
        Class::Bard => 1,
        Class::Barbarian => 2,
        Class::Cleric => 3,
        Class::Druid => 4,
        Class::Fighter => 5,
        Class::Monk => 6,
        Class::Paladin => 7,
        Class::Ranger => 8,
        Class::Rogue => 9,
        Class::Sorcerer => 10,
        Class::Warlock => 11,
        Class::Wizard => 12,
    }
}

/// The class after `c` in the cycling order; the last class stays put.
pub open spec fn spec_next_class(c: Class) -> Class {
    match c {
        Class::Artificer => Class::Bard,
        Class::Bard => Class::Barbarian,
        Class::Barbarian => Class::Cleric,
        Class::Cleric => Class::Druid,
        Class::Druid => Class::Fighter,
        Class::Fighter => Class::Monk,
        Class::Monk => Class::Paladin,
        Class::Paladin => Class::Ranger,
        Class::Ranger => Class::Rogue,
        Class::Rogue => Class::Sorcerer,
        Class::Sorcerer => Class::Warlock,
        Class::Warlock => Class::Wizard,
        Class::Wizard => Class::Wizard,
    }
}

/// The class before `c` in the cycling order; the first class stays put.
pub open spec fn spec_prev_class(c: Class) -> Class {
    match c {
        Class::Artificer => Class::Artificer,
        Class::Bard => Class::Artificer,
        Class::Barbarian => Class::Bard,
        Class::Cleric => Class::Barbarian,
        Class::Druid => Class::Cleric,
        Class::Fighter => Class::Druid,
        Class::Monk => Class::Fighter,
        Class::Paladin => Class::Monk,
        Class::Ranger => Class::Paladin,
        Class::Rogue => Class::Ranger,
        Class::Sorcerer => Class::Rogue,
        Class::Warlock => Class::Sorcerer,
        Class::Wizard => Class::Warlock,
    }
}

/// The display name of each class.
pub open spec fn spec_class_name(c: Class) -> Seq<char> {
    match c {
        Class::Artificer => "Artificer"@,
        Class::Bard => "Bard"@,
        Class::Barbarian => "Barbarian"@,
        Class::Cleric => "Cleric"@,
        Class::Druid => "Druid"@,
        Class::Fighter => "Fighter"@,
        Class::Monk => "Monk"@,
        Class::Paladin => "Paladin"@,
        Class::Ranger => "Ranger"@,
        Class::Rogue => "Rogue"@,
        Class::Sorcerer => "Sorcerer"@,
        Class::Warlock => "Warlock"@,
        Class::Wizard => "Wizard"@,
    }
}

impl Class {
    /// The hit-dice size granted by this class.
    pub fn hit_dice(&self) -> (r: u32)
        ensures
            r == spec_hit_dice(*self),
    {
        match self {
            Class::Sorcerer | Class::Wizard => 6,
            Class::Artificer | Class::Bard | Class::Cleric | Class::Druid | Class::Monk
            | Class::Rogue | Class::Warlock => 8,
            Class::Fighter | Class::Paladin | Class::Ranger => 10,
            Class::Barbarian => 12,
        }
    }

    /// Advance to the next class in the cycling order, stopping at the end.
    pub fn cycle_next(&mut self)
        ensures
            *final(self) == spec_next_class(*old(self)),
            class_ordinal(*final(self)) == if class_ordinal(*old(self)) < 12 {
                class_ordinal(*old(self)) + 1
            } else {
                12int
            },
    {
        *self = match self {
            Class::Artificer => Class::Bard,
            Class::Bard => Class::Barbarian,
            Class::Barbarian => Class::Cleric,
            Class::Cleric => Class::Druid,
            Class::Druid => Class::Fighter,
            Class::Fighter => Class::Monk,
            Class::Monk => Class::Paladin,
            Class::Paladin => Class::Ranger,
            Class::Ranger => Class::Rogue,
            Class::Rogue => Class::Sorcerer,
            Class::Sorcerer => Class::Warlock,
            Class::Warlock => Class::Wizard,
            Class::Wizard => Class::Wizard,
        };
    }

    /// Retreat to the previous class in the cycling order, stopping at the
    /// start.
    pub fn cycle_prev(&mut self)
        ensures
            *final(self) == spec_prev_class(*old(self)),
            class_ordinal(*final(self)) == if class_ordinal(*old(self)) > 0 {
                class_ordinal(*old(self)) - 1
            } else {
                0int
            },
    {
        *self = match self {
            Class::Artificer => Class::Artificer,
            Class::Bard => Class::Artificer,
            Class::Barbarian => Class::Bard,
            Class::Cleric => Class::Barbarian,
            Class::Druid => Class::Cleric,
            Class::Fighter => Class::Druid,
            Class::Monk => Class::Fighter,
            Class::Paladin => Class::Monk,
            Class::Ranger => Class::Paladin,
            Class::Rogue => Class::Ranger,
            Class::Sorcerer => Class::Rogue,
            Class::Warlock => Class::Sorcerer,
            Class::Wizard => Class::Warlock,
        };
    }

    /// The display name of this class, used among other things as the
    /// query text when the class is looked up in the reference table.
    pub fn name(&self) -> (r: String)
        ensures
            r@ == spec_class_name(*self),
    {
        let s: &str = match self {
            Class::Artificer => "Artificer",
            Class::Bard => "Bard",
            Class::Barbarian => "Barbarian",
            Class::Cleric => "Cleric",
            Class::Druid => "Druid",
            Class::Fighter => "Fighter",
            Class::Monk => "Monk",
            Class::Paladin => "Paladin",
            Class::Ranger => "Ranger",
            Class::Rogue => "Rogue",
            Class::Sorcerer => "Sorcerer",
            Class::Warlock => "Warlock",
            Class::Wizard => "Wizard",
        };
        s.to_owned()
    }
}

impl Default for Class {
    /// New characters start as fighters.
    fn default() -> (r: Self)
        ensures
            r == Class::Fighter,
    {
        Class::Fighter
    }
}

} // verus!
