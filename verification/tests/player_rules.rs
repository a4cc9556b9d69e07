use scrim::player::alignment::Alignment;
use scrim::player::background::Background;
use scrim::player::class::Class;
use scrim::player::funds::Funds;
use scrim::player::race::Race;
use scrim::player::skills::ProficiencyLevel;
use scrim::player::spells::SpellSlots;
use scrim::player::stats::Stats;
use scrim::player::util::{calculate_hp, get_avg, get_modifier};
use scrim::player::Player;

#[test]
fn modifier_truncates_toward_zero() {
    assert_eq!(get_modifier(10), 0);
    assert_eq!(get_modifier(11), 0);
    assert_eq!(get_modifier(12), 1);
    assert_eq!(get_modifier(9), 0);
    assert_eq!(get_modifier(8), -1);
    assert_eq!(get_modifier(7), -1);
    assert_eq!(get_modifier(1), -4);
    assert_eq!(get_modifier(30), 10);
}

#[test]
fn average_rolls() {
    assert_eq!(get_avg(6), 4);
    assert_eq!(get_avg(8), 5);
    assert_eq!(get_avg(10), 6);
    assert_eq!(get_avg(12), 7);
}

#[test]
fn hit_points_formula() {
    // level 1 fighter, average constitution: the full hit die
    assert_eq!(calculate_hp(1, 10, 11, 0), 10);
    // level 5 fighter with constitution 14: 10 + 4*6 + 5*2
    assert_eq!(calculate_hp(5, 10, 14, 0), 44);
    // a hill dwarf bonus adds one per level
    assert_eq!(calculate_hp(3, 8, 10, 1), 8 + 2 * 5 + 3);
    // a heavy constitution penalty floors at zero
    assert_eq!(calculate_hp(2, 6, 0, 0), 0);
}

#[test]
fn hit_dice_by_class() {
    assert_eq!(Class::Wizard.hit_dice(), 6);
    assert_eq!(Class::Sorcerer.hit_dice(), 6);
    assert_eq!(Class::Bard.hit_dice(), 8);
    assert_eq!(Class::Fighter.hit_dice(), 10);
    assert_eq!(Class::Barbarian.hit_dice(), 12);
}

#[test]
fn class_cycling_stops_at_the_ends() {
    let mut c = Class::Artificer;
    c.cycle_prev();
    assert!(c == Class::Artificer);
    c.cycle_next();
    assert!(c == Class::Bard);
    let mut c = Class::Wizard;
    c.cycle_next();
    assert!(c == Class::Wizard);
    c.cycle_prev();
    assert!(c == Class::Warlock);
}

#[test]
fn race_cycling_and_bonuses() {
    let mut r = Race::Dragonborn;
    r.cycle_prev();
    assert!(r == Race::Dragonborn);
    assert!(r.get_next() == Race::HillDwarf);

    let hd = Race::HillDwarf.stats();
    assert_eq!(hd.constitution, 2);
    assert_eq!(hd.wisdom, 1);
    assert_eq!(hd.strength, 0);
    assert_eq!(Race::HillDwarf.health_bonus(), 1);
    assert_eq!(Race::Human.health_bonus(), 0);

    assert_eq!(Race::MountainDwarf.to_lookup_string(), "dwarf");
    assert_eq!(Race::WoodElf.to_lookup_string(), "elf");
    assert_eq!(Race::Human.to_lookup_string(), "human");
}

#[test]
fn alignment_and_background_cycling() {
    let mut a = Alignment::LG;
    a.cycle_prev();
    assert!(a == Alignment::LG);
    a.cycle_next();
    assert!(a == Alignment::LN);

    let mut b = Background::Urchin;
    b.cycle_next();
    assert!(b == Background::Urchin);
    b.cycle_prev();
    assert!(b == Background::Soldier);
}

#[test]
fn full_caster_slot_table() {
    let s = SpellSlots::from(5, &Class::Wizard);
    assert_eq!(s.nth(0), 4);
    assert_eq!(s.nth(1), 3);
    assert_eq!(s.nth(2), 2);
    assert_eq!(s.nth(3), 0);

    let s = SpellSlots::from(20, &Class::Cleric);
    assert_eq!(s.nth(0), 4);
    assert_eq!(s.nth(4), 3);
    assert_eq!(s.nth(6), 2);
    assert_eq!(s.nth(8), 1);
}

#[test]
fn half_caster_and_warlock_slot_tables() {
    let s = SpellSlots::from(5, &Class::Paladin);
    assert_eq!(s.nth(0), 4);
    assert_eq!(s.nth(1), 2);
    assert_eq!(s.nth(2), 0);

    let s = SpellSlots::from(17, &Class::Warlock);
    assert_eq!(s.warlock, 4);
    assert_eq!(s.nth(0), 0);

    let s = SpellSlots::from(20, &Class::Barbarian);
    for i in 0..9 {
        assert_eq!(s.nth(i), 0);
    }
    assert_eq!(s.warlock, 0);
}

#[test]
fn warlock_slot_levels() {
    assert_eq!(SpellSlots::warlock_slot_level(1), 1);
    assert_eq!(SpellSlots::warlock_slot_level(4), 2);
    assert_eq!(SpellSlots::warlock_slot_level(9), 5);
    assert_eq!(SpellSlots::warlock_slot_level(20), 5);
}

#[test]
fn proficiency_modifiers() {
    assert_eq!(ProficiencyLevel::Untrained.get_mod(4), 0);
    assert_eq!(ProficiencyLevel::Half.get_mod(5), 2);
    assert_eq!(ProficiencyLevel::Normal.get_mod(4), 4);
    assert_eq!(ProficiencyLevel::Double.get_mod(4), 8);
}

#[test]
fn funds_by_position() {
    let mut f = Funds::default();
    *f.nth_mut(1) += 25;
    assert_eq!(f.nth(1), 25);
    assert_eq!(f.gp, 25);
    assert_eq!(f.nth(0), 0);
    *f.nth_mut(3) += 7;
    assert_eq!(f.cp, 7);
}

#[test]
fn recalculate_updates_derived_values() {
    let mut p = Player::default();
    p.level = 5;
    p.class = Class::Wizard;
    p.recalculate();
    assert_eq!(p.hit_dice, 6);
    assert_eq!(p.prof_bonus, 3);
    assert_eq!(p.spell_slots.nth(0), 4);
    assert_eq!(p.spell_slots_remaining.nth(0), 4);
    // 6 + 4*4 + 0 con mod at 11
    assert_eq!(p.max_hp, 22);
}

#[test]
fn recalculate_shifts_current_hp_with_the_maximum() {
    let mut p = Player::default();
    assert_eq!(p.hp, 10);
    p.level = 2;
    p.recalculate();
    // fighter: 10 + 6 = 16 max, and hp follows the increase
    assert_eq!(p.max_hp, 16);
    assert_eq!(p.hp, 16);
}

#[test]
fn update_race_moves_stat_bonuses() {
    let mut p = Player::default();
    // the default human grants +1 everywhere: strength 11
    assert_eq!(p.stats.strength, 11);
    p.update_race(scrim::player::race::Race::MountainDwarf);
    // human bonus removed, dwarf bonus applied: 11 - 1 + 2
    assert_eq!(p.stats.strength, 12);
    assert_eq!(p.stats.constitution, 12);
    // charisma: 11 - 1 + 0
    assert_eq!(p.stats.charisma, 10);
    assert!(p.race == scrim::player::race::Race::MountainDwarf);
}

#[test]
fn skill_modifiers_combine_stat_and_proficiency() {
    let mut p = Player::default();
    let skills = p.get_skills();
    for s in skills.iter() {
        assert_eq!(*s, 0);
    }
    p.stats.strength = 16;
    p.skills[0] = ProficiencyLevel::Normal;
    p.skills[1] = ProficiencyLevel::Double;
    let skills = p.get_skills();
    // athletics: strength modifier 3 plus proficiency 2
    assert_eq!(skills[0], 5);
    // acrobatics: dexterity modifier 0 plus expertise 4
    assert_eq!(skills[1], 4);
    assert_eq!(skills[17], 0);
}

#[test]
fn stats_plus_minus_saturate() {
    let a = Stats { strength: 1, dexterity: 2, constitution: 3, intelligence: 4, wisdom: 5, charisma: 6 };
    let b = Stats { strength: 2, dexterity: 1, constitution: 1, intelligence: 1, wisdom: 1, charisma: 1 };
    let d = a.minus(&b);
    assert_eq!(d.strength, 0);
    assert_eq!(d.dexterity, 1);
    let s = a.plus(&b);
    assert_eq!(s.strength, 3);
    let mut st = a;
    st.set_nth(2, 20);
    assert_eq!(st.nth(2), 20);
    assert_eq!(st.constitution, 20);
}
