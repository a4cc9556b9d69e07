//! The edited character record: identity, class, race, statistics, and
//! the values derived from them.

pub mod alignment;
pub mod background;
pub mod class;
pub mod funds;
pub mod race;
pub mod skills;
pub mod spells;
pub mod stats;
pub mod util;

use vstd::prelude::*;

use crate::player::alignment::Alignment;
use crate::player::background::Background;
use crate::player::class::{spec_hit_dice, Class};
use crate::player::funds::Funds;
use crate::player::race::{spec_health_bonus, spec_race_stats, Race};
use crate::player::skills::{spec_prof_mod, ProficiencyLevel};
use crate::player::spells::{spec_slots_from, SpellSlots};
use crate::player::stats::{spec_stats_minus, spec_stats_plus, Stats};
use crate::player::util::{calculate_hp, get_modifier, spec_avg, spec_hp, spec_modifier};

verus! {

/// The edited character record.  Scores carry their racial bonuses;
/// `hit_dice`, `max_hp`, `prof_bonus` and the spell slot tables are
/// derived values, recomputed by [`Player::recalculate`].
#[derive(Clone, Debug)]
pub struct Player {
    /// The character's name.
    pub name: String,
    /// The character's class; changing it obliges a recalculation.
    pub class: Class,
    /// The character's level; changing it obliges a recalculation.
    pub level: u32,
    /// The character's background.
    pub background: Background,
    /// The character's alignment.
    pub alignment: Alignment,
    /// The six ability scores; changing one obliges a recalculation.
    pub stats: Stats,
    /// The hit-dice size, derived from the class.
    pub hit_dice: u32,
    /// How many hit dice remain unspent.
    pub hit_dice_remaining: u32,
    /// The character's race; change it through [`Player::update_race`] so
    /// the racial stat bonuses move with it.
    pub race: Race,
    /// The lines of the inventory tab.
    pub inventory: Vec<String>,
    /// The lines of the notes tab.
    pub notes: Vec<String>,
    /// The lines of the spells tab.
    pub spells: Vec<String>,
    /// Current hit points.
    pub hp: u32,
    /// Armor class.
    pub ac: u32,
    /// Temporary hit points.
    pub temp_hp: u32,
    /// Maximum hit points, derived from class, level and constitution.
    pub max_hp: u32,
    /// Proficiency bonus, derived from the level.
    pub prof_bonus: u32,
    /// The maximum spell slots, derived from class and level.
    pub spell_slots: SpellSlots,
    /// The spell slots still unspent.
    pub spell_slots_remaining: SpellSlots,
    /// The character's money.
    pub funds: Funds,
    /// The proficiency level of each of the eighteen skills.
    pub skills: [ProficiencyLevel; 18],
}

/// The canonical field bounds: levels run from one to twenty, every
/// ability score fits below thirty plus its racial bonus (edits clamp at
/// thirty, and a race grants at most two), and the proficiency bonus runs
/// from two to six.  Every editing operation preserves these bounds, and
/// they keep all derived-value arithmetic in range.
pub open spec fn bounds_ok(p: Player) -> bool {
    &&& 1 <= p.level <= 20
    &&& p.stats.strength <= 30 + spec_race_stats(p.race).strength
    &&& p.stats.dexterity <= 30 + spec_race_stats(p.race).dexterity
    &&& p.stats.constitution <= 30 + spec_race_stats(p.race).constitution
    &&& p.stats.intelligence <= 30 + spec_race_stats(p.race).intelligence
    &&& p.stats.wisdom <= 30 + spec_race_stats(p.race).wisdom
    &&& p.stats.charisma <= 30 + spec_race_stats(p.race).charisma
    &&& 2 <= p.prof_bonus <= 6
}

/// Current hit points after the maximum moved from `old_max` to
/// `new_max`: the difference carries over, floored at zero.
pub open spec fn spec_adjust_hp(hp: u32, old_max: u32, new_max: u32) -> u32 {
    let t = hp + new_max - old_max;
    if t < 0 {
        0u32
    } else if t > u32::MAX {
        u32::MAX
    } else {
        t as u32
    }
}

/// The result of recomputing every derived value of `p`: hit dice from
/// the class, proficiency bonus from the level, one hit die regained (up
/// to the level), fresh spell slot tables, and maximum hit points with
/// the current hit points shifted by the change.
pub open spec fn spec_recalculate(p: Player) -> Player {
    let hd = spec_hit_dice(p.class);
    let new_max = spec_hp(p.level, hd, p.stats.constitution, spec_health_bonus(p.race));
    Player {
        hit_dice: hd,
        hit_dice_remaining: if p.hit_dice_remaining.saturating_add(1) < p.level {
            p.hit_dice_remaining.saturating_add(1)
        } else {
            p.level
        },
        prof_bonus: ((p.level + 3) / 4 + 1) as u32,
        spell_slots: spec_slots_from(p.level, p.class),
        spell_slots_remaining: spec_slots_from(p.level, p.class),
        max_hp: new_max,
        hp: spec_adjust_hp(p.hp, p.max_hp, new_max),
        ..p
    }
}

/// The ability modifier backing skill `skill` in the fixed skill order:
/// athletics draws on strength; acrobatics, sleight of hand and stealth
/// on dexterity; the five knowledge skills on intelligence; the five
/// awareness skills on wisdom; the four social skills on charisma.
pub open spec fn spec_skill_stat(p: Player, skill: int) -> u32 {
    if skill == 0 {
        p.stats.strength
    } else if skill <= 3 {
        p.stats.dexterity
    } else if skill <= 8 {
        p.stats.intelligence
    } else if skill <= 13 {
        p.stats.wisdom
    } else {
        p.stats.charisma
    }
}

/// The full modifier of skill `skill`: the backing ability modifier plus
/// the proficiency contribution.
pub open spec fn spec_skill_modifier(p: Player, skill: int) -> int {
    spec_modifier(spec_skill_stat(p, skill)) + spec_prof_mod(p.skills@[skill], p.prof_bonus)
}

impl Player {
    /// Recompute every derived value: hit dice, proficiency bonus, spell
    /// slots, regained hit dice, and hit points.
    pub fn recalculate(&mut self)
        requires
            bounds_ok(*old(self)),
        ensures
            *final(self) == spec_recalculate(*old(self)),
            bounds_ok(*final(self)),
    {
        self.hit_dice = self.class.hit_dice();

        let regained = self.hit_dice_remaining.saturating_add(1);
        self.hit_dice_remaining = if regained < self.level {
            regained
        } else {
            self.level
        };
        self.prof_bonus = (self.level + 3) / 4 + 1;

        self.spell_slots = SpellSlots::from(self.level, &self.class);
        self.spell_slots_remaining = self.spell_slots;

        self.update_hp();
    }

    /// Switch the race: the old race's stat bonuses are removed, the new
    /// race's are applied, and every derived value is recomputed.
    pub fn update_race(&mut self, race: Race)
        requires
            bounds_ok(*old(self)),
        ensures
            *final(self) == spec_recalculate(Player {
                race,
                stats: spec_stats_plus(
                    spec_stats_minus(old(self).stats, spec_race_stats(old(self).race)),
                    spec_race_stats(race),
                ),
                ..*old(self)
            }),
            bounds_ok(*final(self)),
    {
        let old_race = self.race;
        self.race = race;

        let removed = self.stats.minus(&old_race.stats());
        self.stats = removed.plus(&race.stats());

        self.recalculate();
    }

    /// Recompute the maximum hit points and shift the current hit points
    /// by the change.
    fn update_hp(&mut self)
        requires
            bounds_ok(*old(self)),
            old(self).hit_dice == 6 || old(self).hit_dice == 8 || old(self).hit_dice == 10
                || old(self).hit_dice == 12,
        ensures
            *final(self) == (Player {
                max_hp: spec_hp(
                    old(self).level,
                    old(self).hit_dice,
                    old(self).stats.constitution,
                    spec_health_bonus(old(self).race),
                ),
                hp: spec_adjust_hp(
                    old(self).hp,
                    old(self).max_hp,
                    spec_hp(
                        old(self).level,
                        old(self).hit_dice,
                        old(self).stats.constitution,
                        spec_health_bonus(old(self).race),
                    ),
                ),
                ..*old(self)
            }),
    {
        let old_max = self.max_hp;
        let hb = self.race.health_bonus();
        proof {
            assert((self.level - 1) * spec_avg(self.hit_dice) <= 19 * 7) by (nonlinear_arith)
                requires
                    1 <= self.level <= 20,
                    spec_avg(self.hit_dice) <= 7,
            ;
            assert(hb * self.level <= 20) by (nonlinear_arith)
                requires
                    hb <= 1,
                    self.level <= 20,
            ;
            assert(spec_modifier(self.stats.constitution) <= 11);
            assert(spec_modifier(self.stats.constitution) * self.level <= 11 * 20)
                by (nonlinear_arith)
                requires
                    spec_modifier(self.stats.constitution) <= 11,
                    0 <= self.level <= 20,
            ;
        }
        self.max_hp = calculate_hp(self.level, self.hit_dice, self.stats.constitution, hb);

        let shifted = self.hp as i64 + self.max_hp as i64 - old_max as i64;
        self.hp = if shifted < 0 {
            0
        } else if shifted > u32::MAX as i64 {
            u32::MAX
        } else {
            shifted as u32
        };
    }

    /// The full modifier of one skill.
    fn get_skill_modifier(&self, skill: u32) -> (r: i32)
        requires
            skill <= 17,
            bounds_ok(*self),
        ensures
            r == spec_skill_modifier(*self, skill as int),
    {
        let val = if skill == 0 {
            self.stats.strength
        } else if skill <= 3 {
            self.stats.dexterity
        } else if skill <= 8 {
            self.stats.intelligence
        } else if skill <= 13 {
            self.stats.wisdom
        } else {
            self.stats.charisma
        };

        get_modifier(val) + self.skills[skill as usize].get_mod(self.prof_bonus) as i32
    }

    /// All eighteen skill modifiers, in the fixed skill order.
    pub fn get_skills(&self) -> (r: [i32; 18])
        requires
            bounds_ok(*self),
        ensures
            forall|i: int| 0 <= i < 18 ==> r@[i] == spec_skill_modifier(*self, i),
    {
        [
            self.get_skill_modifier(0),
            self.get_skill_modifier(1),
            self.get_skill_modifier(2),
            self.get_skill_modifier(3),
            self.get_skill_modifier(4),
            self.get_skill_modifier(5),
            self.get_skill_modifier(6),
            self.get_skill_modifier(7),
            self.get_skill_modifier(8),
            self.get_skill_modifier(9),
            self.get_skill_modifier(10),
            self.get_skill_modifier(11),
            self.get_skill_modifier(12),
            self.get_skill_modifier(13),
            self.get_skill_modifier(14),
            self.get_skill_modifier(15),
            self.get_skill_modifier(16),
            self.get_skill_modifier(17),
        ]
    }
}

impl Default for Player {
    /// A fresh level-one human fighter.
    fn default() -> (r: Self)
        ensures
            r.level == 1,
            r.class == Class::Fighter,
            r.race == Race::Human,
            r.background == Background::Acolyte,
            r.alignment == Alignment::TN,
            r.hit_dice == 8,
            r.hit_dice_remaining == 1,
            r.hp == 10,
            r.ac == 10,
            r.max_hp == 10,
            r.temp_hp == 0,
            r.prof_bonus == 2,
            r.stats == (Stats {
                strength: 11u32,
                dexterity: 11u32,
                constitution: 11u32,
                intelligence: 11u32,
                wisdom: 11u32,
                charisma: 11u32,
            }),
            r.name@.len() == 0,
            r.inventory@.len() == 0,
            r.notes@.len() == 0,
            r.spells@.len() == 0,
            r.spell_slots == spec_slots_from(1, Class::Fighter),
            r.spell_slots_remaining == spec_slots_from(1, Class::Fighter),
            r.funds == (Funds { pp: 0u32, gp: 0u32, sp: 0u32, cp: 0u32 }),
            forall|i: int| 0 <= i < 18 ==> r.skills@[i] == ProficiencyLevel::Untrained,
            bounds_ok(r),
    {
        Player {
            level: 1,
            hit_dice: 8,
            hit_dice_remaining: 1,
            hp: 10,
            ac: 10,
            max_hp: 10,
            prof_bonus: 2,
            spell_slots: SpellSlots::from(1, &Class::Fighter),
            spell_slots_remaining: SpellSlots::from(1, &Class::Fighter),
            name: String::new(),
            class: Class::default(),
            background: Background::default(),
            alignment: Alignment::default(),
            stats: Stats::default(),
            race: Race::default(),
            inventory: Vec::new(),
            notes: Vec::new(),
            spells: Vec::new(),
            temp_hp: 0,
            funds: Funds::default(),
            skills: [ProficiencyLevel::Untrained; 18],
        }
    }
}

} // verus!
