//! Derived-value formulas: average rolls, ability modifiers, hit points.

use vstd::prelude::*;

verus! {

/// The average roll of a hit die, rounded up: half the die size plus one.
pub open spec fn spec_avg(dice: u32) -> u32 {
    if dice == 6 {
        4u32
    } else if dice == 8 {
        5u32
    } else if dice == 10 {
        6u32
    } else {
        7u32
    }
}

/// The ability modifier of a score: half the distance from ten, truncated
/// toward zero (a score of nine gives zero, eight gives minus one).
pub open spec fn spec_modifier(stat_value: u32) -> int {
    if stat_value >= 10 {
        (stat_value - 10) / 2
    } else {
        -((10 - stat_value) / 2)
    }
}

/// The maximum hit points of a character: full hit die at first level,
/// the average roll for every further level, the racial bonus per level,
/// and the constitution modifier per level, floored at zero and capped at
/// the largest representable value.
pub open spec fn spec_hp(level: u32, hit_dice: u32, constitution: u32, racial_bonus: u32) -> u32 {
    let base = hit_dice + (level - 1) * spec_avg(hit_dice) + racial_bonus * level;
    let total = base + spec_modifier(constitution) * level;
    if total < 0 {
        0u32
    } else if total > u32::MAX {
        u32::MAX
    } else {
        total as u32
    }
}

/// The average roll of a hit die.  Only the four hit-die sizes that a
/// class can grant are meaningful.
pub fn get_avg(dice: u32) -> (r: u32)
    requires
        dice == 6 || dice == 8 || dice == 10 || dice == 12,
    ensures
        r == spec_avg(dice),
{
    match dice {
        6 => 4,
        8 => 5,
        10 => 6,
        _ => 7,
    }
}

/// The ability modifier of a score.
pub fn get_modifier(stat_value: u32) -> (r: i32)
    ensures
        r == spec_modifier(stat_value),
{
    if stat_value >= 10 {
        ((stat_value - 10) / 2) as i32
    } else {
        -(((10 - stat_value) / 2) as i32)
    }
}

/// The maximum hit points of a character.  The unsigned part of the sum
/// must fit a `u32`; the constitution contribution then saturates at zero
/// and at the largest representable value.
pub fn calculate_hp(level: u32, hit_dice: u32, constitution: u32, racial_bonus: u32) -> (r: u32)
    requires
        1 <= level <= 20,
        hit_dice == 6 || hit_dice == 8 || hit_dice == 10 || hit_dice == 12,
        hit_dice + (level - 1) * spec_avg(hit_dice) + racial_bonus * level <= u32::MAX,
        spec_modifier(constitution) * level <= i32::MAX,
    ensures
        r == spec_hp(level, hit_dice, constitution, racial_bonus),
{
    let con_mod = get_modifier(constitution);
    proof {
        assert(con_mod >= -5);
        assert(con_mod * level >= -5 * level) by (nonlinear_arith)
            requires
                con_mod >= -5,
                level >= 0,
        ;
    }
    let total_con_mod = con_mod * level as i32;
    let first_level = hit_dice;
    let other_levels = (level - 1) * get_avg(hit_dice);
    let racial = racial_bonus * level;
    let base = first_level + other_levels + racial;

    match base.checked_add_signed(total_con_mod) {
        Some(v) => v,
        None => if total_con_mod < 0 {
            0
        } else {
            u32::MAX
        },
    }
}

} // verus!
