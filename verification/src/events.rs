//! The key dispatcher: one key event at a time is interpreted against
//! the current mode and drives navigation, editing and mode changes.
//!
//! Work the library cannot do itself (reading and writing files,
//! loading the reference table) is returned as an [`Effect`]: the caller
//! performs it and reports the outcome through the state's own
//! operations.

use vstd::prelude::*;

use crate::lookup::Lookup;
use crate::lookup::LookupEntry;
use crate::orchestrator::{
    spec_current_tab, spec_resolve, wf, App, ControlType, CycleTag, LookupResult, NumField,
    Selected, Tab, TextField,
};
use crate::player::class::Class;
use crate::player::alignment::{spec_next_alignment, spec_prev_alignment};
use crate::player::background::{spec_next_background, spec_prev_background};
use crate::player::class::{spec_next_class, spec_prev_class};
use crate::player::funds::{spec_funds_nth, spec_funds_set_nth};
use crate::player::race::{spec_next_race, spec_prev_race, spec_race_stats};
use crate::player::skills::ProficiencyLevel;
use crate::player::spells::{spec_slots_nth, spec_slots_set_nth};
use crate::player::stats::{spec_stat_nth, spec_stat_set_nth, spec_stats_minus, spec_stats_plus};
use crate::player::{spec_recalculate, Player};
use crate::textbuf::{char_len, insert_char, remove_char, split_chars};
use crate::viewport::{spec_move_down, spec_move_up, spec_reset, spec_scroll_down, spec_scroll_up, spec_set_max};

verus! {

/// An abstract key event.
#[derive(Clone, Copy, PartialEq, Eq, Structural, Debug)]
pub enum KeyCode {
    /// A printable character.
    Char(char),
    Backspace,
    Enter,
    Esc,
    Tab,
    Up,
    Down,
    Left,
    Right,
}

/// Outside work that a key asked for.  The caller performs it and hands
/// the outcome back: a save through [`App::note_save_result`], a load
/// through [`App::install_player`] or [`App::show_error`], a file list
/// through [`App::bind_files`], and a table load by filling the
/// [`Lookup`] and repeating the same key event.
#[derive(Debug)]
pub enum Effect {
    /// Nothing to do.
    Nothing,
    /// Save the record; on success with `and_quit` the caller commits
    /// the quit.
    Save { and_quit: bool },
    /// Load the record stored under the given name.
    LoadFile(String),
    /// Enumerate the loadable files.
    ListFiles,
    /// Fill the reference table, then repeat the event.
    LoadLookup,
}

/// Append an empty entry when the active list is empty, so a line
/// exists to edit.
fn ensure_tab_nonempty(app: &mut App)
    requires
        wf(*old(app)),
        !old(app).editing,
    ensures
        wf(*final(app)),
        spec_current_tab(*final(app)).len() >= 1,
        final(app).selected == old(app).selected,
        final(app).editing == old(app).editing,
        final(app).current_lookup == old(app).current_lookup,
        final(app).index == old(app).index,
        final(app).should_quit == old(app).should_quit,
        final(app).popup_scroll_provider == old(app).popup_scroll_provider,
        final(app).current_tab == old(app).current_tab,
{
    if app.current_tab().len() == 0 {
        app.append_item_to_tab();
    }
}

/// The smaller of a counter and a character count.
fn clamp_index(index: u32, len: usize) -> (r: u32)
    ensures
        r as int == if index as int <= len as int {
            index as int
        } else if len <= u32::MAX {
            len as int
        } else {
            u32::MAX as int
        },
{
    if (index as usize) <= len {
        index
    } else if len >= u32::MAX as usize {
        u32::MAX
    } else {
        len as u32
    }
}

/// The value of the numeric field the resolver chose.
pub open spec fn spec_read_num(p: Player, f: NumField) -> u32 {
    match f {
        NumField::Level => p.level,
        NumField::Stat(i) => spec_stat_nth(p.stats, i),
        NumField::Hp => p.hp,
        NumField::MaxHp => p.max_hp,
        NumField::TempHp => p.temp_hp,
        NumField::Ac => p.ac,
        NumField::ProfBonus => p.prof_bonus,
        NumField::HitDiceRemaining => p.hit_dice_remaining,
    }
}

/// `p` with the numeric field replaced by `v`.
pub open spec fn spec_write_num(p: Player, f: NumField, v: u32) -> Player {
    match f {
        NumField::Level => Player { level: v, ..p },
        NumField::Stat(i) => Player { stats: spec_stat_set_nth(p.stats, i, v), ..p },
        NumField::Hp => Player { hp: v, ..p },
        NumField::MaxHp => Player { max_hp: v, ..p },
        NumField::TempHp => Player { temp_hp: v, ..p },
        NumField::Ac => Player { ac: v, ..p },
        NumField::ProfBonus => Player { prof_bonus: v, ..p },
        NumField::HitDiceRemaining => Player { hit_dice_remaining: v, ..p },
    }
}

/// One clamped step: down to no less than `min`, up to no more than
/// `max`.
pub open spec fn spec_cycle_step(v: u32, min: u32, max: u32, up: bool) -> u32 {
    if up {
        if v.saturating_add(1) < max {
            v.saturating_add(1)
        } else {
            max
        }
    } else {
        if v.saturating_sub(1) > min {
            v.saturating_sub(1)
        } else {
            min
        }
    }
}

/// The record after one named field operation: the tagged value cycles
/// one step, and whatever depends on it is recomputed.
pub open spec fn spec_cycle_fn(p: Player, tag: CycleTag, next: bool) -> Player {
    match tag {
        CycleTag::Race => {
            let r = if next {
                spec_next_race(p.race)
            } else {
                spec_prev_race(p.race)
            };
            spec_recalculate(Player {
                race: r,
                stats: spec_stats_plus(
                    spec_stats_minus(p.stats, spec_race_stats(p.race)),
                    spec_race_stats(r),
                ),
                ..p
            })
        },
        CycleTag::Class => spec_recalculate(Player {
            class: if next {
                spec_next_class(p.class)
            } else {
                spec_prev_class(p.class)
            },
            ..p
        }),
        CycleTag::Alignment => spec_recalculate(Player {
            alignment: if next {
                spec_next_alignment(p.alignment)
            } else {
                spec_prev_alignment(p.alignment)
            },
            ..p
        }),
        CycleTag::Background => Player {
            background: if next {
                spec_next_background(p.background)
            } else {
                spec_prev_background(p.background)
            },
            ..p
        },
    }
}

/// One clamped step of a numeric field: down to no less than `min`, up
/// to no more than `max`.
fn cycle_value(v: u32, min: u32, max: u32, up: bool) -> (r: u32)
    ensures
        up ==> r == if v.saturating_add(1) < max {
            v.saturating_add(1)
        } else {
            max
        },
        !up ==> r == if v.saturating_sub(1) > min {
            v.saturating_sub(1)
        } else {
            min
        },
{
    if up {
        let c = v.saturating_add(1);
        if c < max {
            c
        } else {
            max
        }
    } else {
        let c = v.saturating_sub(1);
        if c > min {
            c
        } else {
            min
        }
    }
}

/// Apply one clamped step to the numeric field that the resolver chose
/// for the current mode and focused index.
fn apply_cycle(app: &mut App, field: NumField, min: u32, max: u32, up: bool)
    requires
        wf(*old(app)),
        spec_resolve(*old(app)) == Some(ControlType::Cycle(field, min, max)) || spec_resolve(
            *old(app),
        ) == Some(ControlType::CycleRecalc(field, min, max)),
    ensures
        wf(*final(app)),
        final(app).player == spec_write_num(
            old(app).player,
            field,
            spec_cycle_step(spec_read_num(old(app).player, field), min, max, up),
        ),
        *final(app) == (App { player: final(app).player, ..*old(app) }),
{
    match field {
        NumField::Level => {
            app.player.level = cycle_value(app.player.level, min, max, up);
        },
        NumField::Stat(i) => {
            let v = app.player.stats.nth(i);
            app.player.stats.set_nth(i, cycle_value(v, min, max, up));
        },
        NumField::Hp => {
            app.player.hp = cycle_value(app.player.hp, min, max, up);
        },
        NumField::MaxHp => {
            app.player.max_hp = cycle_value(app.player.max_hp, min, max, up);
        },
        NumField::TempHp => {
            app.player.temp_hp = cycle_value(app.player.temp_hp, min, max, up);
        },
        NumField::Ac => {
            app.player.ac = cycle_value(app.player.ac, min, max, up);
        },
        NumField::ProfBonus => {
            app.player.prof_bonus = cycle_value(app.player.prof_bonus, min, max, up);
        },
        NumField::HitDiceRemaining => {
            app.player.hit_dice_remaining = cycle_value(
                app.player.hit_dice_remaining,
                min,
                max,
                up,
            );
        },
    }
}

/// Dispatch a named field operation: cycle the tagged value and
/// recompute whatever depends on it.
fn apply_cycle_fn(app: &mut App, tag: CycleTag, next: bool)
    requires
        wf(*old(app)),
    ensures
        wf(*final(app)),
        final(app).player == spec_cycle_fn(old(app).player, tag, next),
        *final(app) == (App { player: final(app).player, ..*old(app) }),
        spec_current_tab(*final(app)).len() == spec_current_tab(*old(app)).len(),
{
    match tag {
        CycleTag::Race => {
            let r = if next {
                app.player.race.get_next()
            } else {
                app.player.race.get_prev()
            };
            app.player.update_race(r);
        },
        CycleTag::Class => {
            if next {
                app.player.class.cycle_next();
            } else {
                app.player.class.cycle_prev();
            }
            app.player.recalculate();
        },
        CycleTag::Alignment => {
            if next {
                app.player.alignment.cycle_next();
            } else {
                app.player.alignment.cycle_prev();
            }
            app.player.recalculate();
        },
        CycleTag::Background => {
            if next {
                app.player.background.cycle_next();
            } else {
                app.player.background.cycle_prev();
            }
        },
    }
}

/// The character sequence of the text field the resolver chose: the
/// name, the free lookup buffer, or the content-list line under the
/// cursor.
pub open spec fn spec_text_target(a: App, field: TextField) -> Seq<char> {
    match field {
        TextField::Name => a.player.name@,
        TextField::LookupBuffer => a.lookup_buffer@,
        TextField::TabLine => spec_current_tab(a)[
            a.tab_scroll_provider@.cursor_line as int
        ]@,
    }
}

/// Write `text` back into the text field the resolver chose.
fn text_target_write(app: &mut App, field: TextField, text: String)
    requires
        wf(*old(app)),
        field == TextField::TabLine ==> spec_current_tab(*old(app)).len() >= 1,
    ensures
        wf(*final(app)),
        spec_text_target(*final(app), field) == text@,
        spec_current_tab(*final(app)).len() == spec_current_tab(*old(app)).len(),
        final(app).selected == old(app).selected,
        final(app).editing == old(app).editing,
        final(app).index == old(app).index,
        final(app).current_lookup == old(app).current_lookup,
        final(app).tab_scroll_provider == old(app).tab_scroll_provider,
        final(app).popup_scroll_provider == old(app).popup_scroll_provider,
{
    proof {
        use_type_invariant(&app.tab_scroll_provider);
    }
    match field {
        TextField::Name => {
            app.player.name = text;
        },
        TextField::LookupBuffer => {
            app.lookup_buffer = text;
        },
        TextField::TabLine => {
            let line = app.tab_scroll_provider.get_line() as usize;
            let tab = app.current_tab_mut();
            tab[line] = text;
        },
    }
}

/// `q` equals `p` on every field but the three content lists.  Claims
/// about the record are stated this way because an editing keystroke
/// with an empty active list also appends the first line to it.
pub open spec fn player_matches(q: Player, p: Player) -> bool {
    q == (Player { notes: q.notes, inventory: q.inventory, spells: q.spells, ..p })
}

/// What one key guarantees while a control is being edited, relative to
/// the control the resolver chose at entry: text keys edit the resolved
/// text field (a content-list line at the clamped cursor, a single-line
/// field at its end), cycle keys step the resolved numeric field or
/// named operation, Enter leaves editing (splitting the line in the
/// content list), and Tab in the content list opens completion.
pub open spec fn editing_transitions(a0: App, a1: App, key: KeyCode) -> bool {
    match spec_resolve(a0) {
        Some(ControlType::TextInput(field)) => {
            let s0 = spec_text_target(a0, field);
            let i = if a0.index <= s0.len() {
                a0.index as int
            } else {
                s0.len() as int
            };
            match key {
                KeyCode::Char(c) => if field == TextField::TabLine {
                    spec_text_target(a1, field) == s0.insert(i, c) && (a1.index as int == if i
                        < u32::MAX {
                        i + 1
                    } else {
                        u32::MAX as int
                    })
                } else {
                    spec_text_target(a1, field) == s0.push(c)
                },
                KeyCode::Backspace => if field == TextField::TabLine {
                    if i > 0 {
                        spec_text_target(a1, field) == s0.remove(i - 1) && a1.index == i - 1
                    } else {
                        spec_text_target(a1, field) == s0
                    }
                } else {
                    if s0.len() > 0 {
                        spec_text_target(a1, field) == s0.drop_last()
                    } else {
                        spec_text_target(a1, field) == s0
                    }
                },
                KeyCode::Up => field == TextField::TabLine ==> a1.tab_scroll_provider@
                    == spec_scroll_up(a0.tab_scroll_provider@, 1),
                KeyCode::Down => field == TextField::TabLine ==> a1.tab_scroll_provider@
                    == spec_scroll_down(a0.tab_scroll_provider@, 1),
                KeyCode::Left => field == TextField::TabLine ==> a1.index
                    == a0.index.saturating_sub(1),
                KeyCode::Right => field == TextField::TabLine ==> a1.index as int == if a0
                    .index
                    .saturating_add(1) <= s0.len() {
                    a0.index.saturating_add(1) as int
                } else if s0.len() <= u32::MAX {
                    s0.len() as int
                } else {
                    u32::MAX as int
                },
                KeyCode::Enter => if field == TextField::TabLine {
                    spec_current_tab(a0).len() < u32::MAX ==> {
                        let t0 = spec_current_tab(a0);
                        let line = a0.tab_scroll_provider@.cursor_line as int;
                        let t1 = spec_current_tab(a1);
                        &&& a1.index == 0
                        &&& t1.len() == t0.len() + 1
                        &&& if s0.len() >= 1 && a0.index >= s0.len() - 1 {
                            t1[line]@ == s0 && t1[line + 1]@.len() == 0
                        } else {
                            t1[line]@ == s0.take(i) && t1[line + 1]@ == s0.skip(i)
                        }
                    }
                } else {
                    !a1.editing && player_matches(a1.player, a0.player)
                },
                KeyCode::Tab => (field == TextField::TabLine && spec_current_tab(a0).len() >= 1)
                    ==> a1.selected == Some(
                    Selected::Completion(a0.tab_scroll_provider@.cursor_line),
                ) && !a1.editing,
                _ => true,
            }
        },
        Some(ControlType::Cycle(f, mn, mx)) => match key {
            KeyCode::Char(c) => if c == 'j' || c == 'k' {
                player_matches(
                    a1.player,
                    spec_write_num(
                        a0.player,
                        f,
                        spec_cycle_step(spec_read_num(a0.player, f), mn, mx, c == 'k'),
                    ),
                )
            } else {
                player_matches(a1.player, a0.player)
            },
            KeyCode::Enter => !a1.editing && player_matches(a1.player, a0.player),
            _ => player_matches(a1.player, a0.player),
        },
        Some(ControlType::CycleRecalc(f, mn, mx)) => match key {
            KeyCode::Enter => !a1.editing && player_matches(a1.player, a0.player),
            KeyCode::Char(c) => if c == 'j' || c == 'k' {
                player_matches(
                    a1.player,
                    spec_recalculate(
                        spec_write_num(
                            a0.player,
                            f,
                            spec_cycle_step(spec_read_num(a0.player, f), mn, mx, c == 'k'),
                        ),
                    ),
                )
            } else {
                player_matches(a1.player, spec_recalculate(a0.player))
            },
            _ => player_matches(a1.player, spec_recalculate(a0.player)),
        },
        Some(ControlType::CycleFn(tag)) => match key {
            KeyCode::Char(c) => if c == 'j' {
                player_matches(a1.player, spec_cycle_fn(a0.player, tag, true))
            } else if c == 'k' {
                player_matches(a1.player, spec_cycle_fn(a0.player, tag, false))
            } else {
                player_matches(a1.player, a0.player)
            },
            KeyCode::Enter => !a1.editing && player_matches(a1.player, a0.player),
            _ => player_matches(a1.player, a0.player),
        },
        None => true,
    }
}

/// Interpret one key while a control is being edited.
#[verifier::rlimit(100)]
#[verifier::spinoff_prover]
fn handle_editing(app: &mut App, lookup: &Lookup, key: KeyCode)
    requires
        wf(*old(app)),
        old(app).editing,
        lookup.spec_entries().len() <= u32::MAX,
    ensures
        wf(*final(app)),
        key == KeyCode::Esc ==> *final(app) == (App { editing: false, ..*old(app) }),
        key != KeyCode::Esc ==> editing_transitions(*old(app), *final(app), key),
        final(app).editing ==> final(app).selected == old(app).selected,
{
    if key == KeyCode::Esc {
        app.editing = false;
        return;
    }

    let in_tab = match app.selected {
        Some(Selected::TabItem) => true,
        _ => false,
    };

    if in_tab {
        proof {
            use_type_invariant(&app.tab_scroll_provider);
        }
        match key {
            KeyCode::Up => app.tab_scroll_provider.scroll_up(1),
            KeyCode::Down => app.tab_scroll_provider.scroll_down(1),
            KeyCode::Left => app.index = app.index.saturating_sub(1),
            KeyCode::Right => {
                let line = app.tab_scroll_provider.get_line() as usize;
                let l = char_len(app.current_tab()[line].as_str());
                app.index = clamp_index(app.index.saturating_add(1), l);
            },
            _ => {},
        }
    } else {
        if key == KeyCode::Enter {
            app.editing = false;
            return;
        }
    }

    match app.get_selected_type() {
        Some(ControlType::TextInput(field)) => {
            match key {
                KeyCode::Backspace => {
                    // a content-list line edits at the focused index,
                    // which doubles as the in-line cursor; a single-line
                    // field edits at its end, so the index keeps
                    // selecting the field itself
                    if field == TextField::TabLine {
                        proof {
                            use_type_invariant(&app.tab_scroll_provider);
                        }
                        let line = app.tab_scroll_provider.get_line() as usize;
                        let cur = app.current_tab()[line].clone();
                        let l = char_len(cur.as_str());
                        let i = clamp_index(app.index, l) as usize;
                        if i > 0 {
                            let shorter = remove_char(&cur, i - 1);
                            text_target_write(app, field, shorter);
                            app.index = (i - 1) as u32;
                        }
                    } else {
                        let cur = match field {
                            TextField::Name => app.player.name.clone(),
                            _ => app.lookup_buffer.clone(),
                        };
                        let l = char_len(cur.as_str());
                        if l > 0 {
                            let shorter = remove_char(&cur, l - 1);
                            proof {
                                assert(cur@.remove(cur@.len() - 1) =~= cur@.drop_last());
                            }
                            text_target_write(app, field, shorter);
                        }
                    }
                },
                KeyCode::Char(c) => {
                    if field == TextField::TabLine {
                        proof {
                            use_type_invariant(&app.tab_scroll_provider);
                        }
                        let line = app.tab_scroll_provider.get_line() as usize;
                        let cur = app.current_tab()[line].clone();
                        let l = char_len(cur.as_str());
                        let i = clamp_index(app.index, l) as usize;
                        let longer = insert_char(&cur, i, c);
                        text_target_write(app, field, longer);
                        app.index = clamp_index(
                            (i as u32).saturating_add(1),
                            l.saturating_add(1),
                        );
                    } else {
                        let cur = match field {
                            TextField::Name => app.player.name.clone(),
                            _ => app.lookup_buffer.clone(),
                        };
                        let l = char_len(cur.as_str());
                        let longer = insert_char(&cur, l, c);
                        proof {
                            assert(cur@.insert(cur@.len() as int, c) =~= cur@.push(c));
                        }
                        text_target_write(app, field, longer);
                    }
                },
                KeyCode::Tab => {
                    if in_tab && app.current_tab().len() > 0 {
                        proof {
                            use_type_invariant(&app.tab_scroll_provider);
                        }
                        let line = app.tab_scroll_provider.get_line();
                        let ghost t0 = spec_current_tab(*app);
                        app.complete_current_selection(lookup);
                        proof {
                            lookup.lemma_table_lens();
                            crate::lookup::lemma_completions_len(
                                lookup.spec_keys(),
                                lookup.spec_entries(),
                                crate::textbuf::fold_seq(
                                    crate::textbuf::spec_trim(t0[line as int]@),
                                ),
                            );
                        }
                        app.selected = Some(Selected::Completion(line));
                    }
                },
                KeyCode::Enter => {
                    if in_tab && app.current_tab().len() < u32::MAX as usize {
                        proof {
                            use_type_invariant(&app.tab_scroll_provider);
                        }
                        let line = app.tab_scroll_provider.get_line() as usize;
                        let cur = app.current_tab()[line].clone();
                        let l = char_len(cur.as_str());

                        app.append_item_to_tab();

                        if l >= 1 && app.index as usize >= l - 1 {
                            // the cursor sat at the end: the new empty
                            // entry is enough
                        } else {
                            let i = clamp_index(app.index, l) as usize;
                            let halves = split_chars(&cur, i);
                            let tab = app.current_tab_mut();
                            tab[line] = halves.0;
                            tab[line + 1] = halves.1;
                        }

                        app.index = 0;
                    }
                },
                _ => {},
            }
        },
        Some(ControlType::Cycle(field, min, max)) => {
            match key {
                KeyCode::Char(c) => {
                    if c == 'j' {
                        apply_cycle(app, field, min, max, false);
                    } else if c == 'k' {
                        apply_cycle(app, field, min, max, true);
                    }
                },
                KeyCode::Enter => app.editing = false,
                _ => {},
            }
        },
        Some(ControlType::CycleRecalc(field, min, max)) => {
            match key {
                KeyCode::Char(c) => {
                    if c == 'j' {
                        apply_cycle(app, field, min, max, false);
                    } else if c == 'k' {
                        apply_cycle(app, field, min, max, true);
                    }
                },
                KeyCode::Enter => app.editing = false,
                _ => {},
            }
            app.player.recalculate();
        },
        Some(ControlType::CycleFn(tag)) => {
            match key {
                KeyCode::Char(c) => {
                    if c == 'j' {
                        apply_cycle_fn(app, tag, true);
                    } else if c == 'k' {
                        apply_cycle_fn(app, tag, false);
                    }
                },
                KeyCode::Enter => app.editing = false,
                _ => {},
            }
        },
        None => {
            proof {
                assert(false);
            }
        },
    }
}


/// What one key guarantees in top-bar mode: the focused index walks the
/// five fields, Enter starts editing.
pub open spec fn top_bar_transitions(a0: App, a1: App, key: KeyCode) -> bool {
    &&& key == KeyCode::Char('h') ==> a1.index == a0.index.saturating_sub(1)
    &&& key == KeyCode::Char('l') ==> a1.index == (if a0.index < 4 {
        (a0.index + 1) as u32
    } else {
        a0.index
    })
    &&& key == KeyCode::Enter ==> a1.editing && a1.selected == a0.selected
}

/// What one key guarantees in stat-block mode: the focused index walks
/// the six stats, Enter starts editing.
pub open spec fn stat_transitions(a0: App, a1: App, key: KeyCode) -> bool {
    &&& key == KeyCode::Char('k') ==> a1.index == a0.index.saturating_sub(1)
    &&& key == KeyCode::Char('j') ==> a1.index == (if a0.index < 5 {
        (a0.index + 1) as u32
    } else {
        a0.index
    })
    &&& key == KeyCode::Enter ==> a1.editing && a1.selected == a0.selected
}

/// What one key guarantees in info-bar mode: the focused index walks
/// the seven fields, `r` on the first restores full hit points, Enter
/// starts editing.
pub open spec fn info_transitions(a0: App, a1: App, key: KeyCode) -> bool {
    &&& key == KeyCode::Char('h') ==> a1.index == a0.index.saturating_sub(1)
    &&& key == KeyCode::Char('l') ==> a1.index == (if a0.index < 6 {
        (a0.index + 1) as u32
    } else {
        a0.index
    })
    &&& key == KeyCode::Char('r') && a0.index == 0 ==> a1.player.hp == a0.player.max_hp
    &&& key == KeyCode::Enter ==> a1.editing && a1.selected == a0.selected
}

/// What one key guarantees in content-list mode: the scroll keys drive
/// the content tracker, `o`/`O` insert an empty line at or after the
/// cursor and start editing it, `d` deletes the cursor line, `x` deletes
/// the character under the in-line cursor, `f` looks the line up (once
/// the table is loaded), Tab opens completion, and the editing keys
/// enter editing mode.
pub open spec fn tab_item_transitions(a0: App, a1: App, key: KeyCode, e: Effect, lookup: Lookup) -> bool {
    let t0 = spec_current_tab(a0);
    let line = a0.tab_scroll_provider@.cursor_line as int;
    &&& key == KeyCode::Char('k') || key == KeyCode::Up ==> a1.tab_scroll_provider@
        == spec_scroll_up(a0.tab_scroll_provider@, 1) && !a1.editing
    &&& key == KeyCode::Char('j') || key == KeyCode::Down ==> a1.tab_scroll_provider@
        == spec_scroll_down(a0.tab_scroll_provider@, 1) && !a1.editing
    &&& key == KeyCode::Char('K') ==> a1.tab_scroll_provider@ == spec_scroll_up(
        a0.tab_scroll_provider@,
        10,
    ) && !a1.editing
    &&& key == KeyCode::Char('J') ==> a1.tab_scroll_provider@ == spec_scroll_down(
        a0.tab_scroll_provider@,
        10,
    ) && !a1.editing
    &&& key == KeyCode::Char('h') || key == KeyCode::Left ==> a1.index == a0.index.saturating_sub(
        1,
    ) && !a1.editing
    &&& key == KeyCode::Char('d') && t0.len() >= 1 ==> spec_current_tab(a1) == t0.remove(line)
        && a1.tab_scroll_provider@ == spec_set_max(
        a0.tab_scroll_provider@,
        (t0.len() - 1) as u32,
    ) && !a1.editing
    &&& key == KeyCode::Char('o') && t0.len() < u32::MAX ==> {
        let t1 = spec_current_tab(a1);
        &&& t1 == t0.insert(line, t1[line])
        &&& t1[line]@.len() == 0
        &&& a1.tab_scroll_provider@ == spec_set_max(a0.tab_scroll_provider@, (t0.len() + 1) as u32)
        &&& a1.editing
        &&& a1.index == 0
    }
    &&& key == KeyCode::Char('O') && t0.len() < u32::MAX ==> {
        let t1 = spec_current_tab(a1);
        let pos = if t0.len() == 0 { 0int } else { line + 1 };
        &&& t1 == t0.insert(pos, t1[pos])
        &&& t1[pos]@.len() == 0
        &&& a1.tab_scroll_provider@ == spec_scroll_down(
            spec_set_max(a0.tab_scroll_provider@, (t0.len() + 1) as u32),
            1,
        )
        &&& a1.editing
        &&& a1.index == 0
    }
    &&& key == KeyCode::Char('x') && a0.index > 0 && t0.len() >= 1 && (a0.index as int)
        < t0[line]@.len() ==> spec_current_tab(a1)[line]@ == t0[line]@.remove(a0.index as int)
        && !a1.editing
    &&& key == KeyCode::Char('f') && t0.len() >= 1 ==> (if !lookup.spec_loaded() {
        (e matches Effect::LoadLookup) && a1 == a0
    } else {
        a1.selected == Some(Selected::ItemLookup(a0.tab_scroll_provider@.cursor_line))
    }) && !a1.editing
    &&& key == KeyCode::Tab && t0.len() >= 1 ==> a1.selected == Some(
        Selected::Completion(a0.tab_scroll_provider@.cursor_line),
    ) && !a1.editing
    &&& key == KeyCode::Enter && t0.len() >= 1 ==> a1.editing && a1.selected == a0.selected
    &&& key == KeyCode::Char('i') || key == KeyCode::Char('a') || key == KeyCode::Char('A') ==> a1.editing
        && spec_current_tab(a1).len() >= 1
    &&& key == KeyCode::Char('I') ==> a1.editing && a1.index == 0
        && spec_current_tab(a1).len() >= 1
}

/// What one key guarantees while the completion popup is open: the
/// scroll keys drive the popup tracker, Enter accepts the candidate
/// under the popup cursor and returns to the content list, `q` returns
/// to editing the originating list.
pub open spec fn completion_transitions(a0: App, a1: App, key: KeyCode) -> bool {
    &&& key == KeyCode::Char('k') ==> a1.popup_scroll_provider@ == spec_scroll_up(
        a0.popup_scroll_provider@,
        1,
    )
    &&& key == KeyCode::Char('j') ==> a1.popup_scroll_provider@ == spec_scroll_down(
        a0.popup_scroll_provider@,
        1,
    )
    &&& key == KeyCode::Char('K') ==> a1.popup_scroll_provider@ == spec_scroll_up(
        a0.popup_scroll_provider@,
        10,
    )
    &&& key == KeyCode::Char('J') ==> a1.popup_scroll_provider@ == spec_scroll_down(
        a0.popup_scroll_provider@,
        10,
    )
    &&& key == KeyCode::Enter ==> a1.selected == Some(Selected::TabItem) && a1.current_lookup
        is None && crate::orchestrator::spec_finish_lines(a0, a1)
    &&& key == KeyCode::Char('q') ==> a1.selected == Some(Selected::TabItem) && a1.editing
        && a1.current_lookup is None && spec_current_tab(a1).len() >= 1
}

/// What one key guarantees in the quit menu: `q`/`n` decline, `s` quits
/// without saving, `y` asks the caller to save (naming a nameless
/// record first) and quit on success.
pub open spec fn quitting_transitions(a0: App, a1: App, key: KeyCode, e: Effect) -> bool {
    &&& key == KeyCode::Char('q') || key == KeyCode::Char('n') ==> a1.selected is None
    &&& key == KeyCode::Char('s') ==> a1.should_quit
    &&& key == KeyCode::Char('y') ==> (e matches Effect::Save { and_quit } && and_quit)
        && a1.player.name@.len() > 0
}

/// What one key guarantees while a single-entry lookup popup is open:
/// the scroll keys page through the entry text, `q` closes it and
/// restores the content list (for an item lookup) or the navigation
/// root (for a class or race lookup).
pub open spec fn lookup_popup_transitions(a0: App, a1: App, key: KeyCode, back_to_tab: bool) -> bool {
    &&& key == KeyCode::Char('k') ==> a1.popup_scroll_provider@ == spec_move_up(
        a0.popup_scroll_provider@,
        1,
    )
    &&& key == KeyCode::Char('j') ==> a1.popup_scroll_provider@ == spec_move_down(
        a0.popup_scroll_provider@,
        1,
    )
    &&& key == KeyCode::Char('K') ==> a1.popup_scroll_provider@ == spec_move_up(
        a0.popup_scroll_provider@,
        10,
    )
    &&& key == KeyCode::Char('J') ==> a1.popup_scroll_provider@ == spec_move_down(
        a0.popup_scroll_provider@,
        10,
    )
    &&& key == KeyCode::Char('q') && a0.current_lookup is Some ==> a1.selected == (if back_to_tab {
        Some(Selected::TabItem)
    } else {
        None::<Selected>
    }) && a1.current_lookup is None
}

/// What one key guarantees in the spell slots popup: `a`/`x` spend and
/// regain a slot of the level under the popup cursor (never past the
/// total), `A`/`X` grow and shrink the total (shrinking pulls the
/// remaining count down), `r` refills everything, and the scroll keys
/// walk the levels for non-warlocks.
pub open spec fn spell_slots_transitions(a0: App, a1: App, key: KeyCode) -> bool {
    let idx = a0.popup_scroll_provider@.cursor_line;
    let warlock = a0.player.class == crate::player::class::Class::Warlock;
    let tot0 = a0.player.spell_slots;
    let rem0 = a0.player.spell_slots_remaining;
    &&& key == KeyCode::Char('a') ==> if warlock {
        a1.player.spell_slots_remaining == (crate::player::spells::SpellSlots {
            warlock: (if rem0.warlock.saturating_add(1) < tot0.warlock {
                rem0.warlock.saturating_add(1)
            } else {
                tot0.warlock
            }),
            ..rem0
        })
    } else {
        a1.player.spell_slots_remaining == spec_slots_set_nth(
            rem0,
            idx,
            (if spec_slots_nth(rem0, idx).saturating_add(1) < spec_slots_nth(tot0, idx) {
                spec_slots_nth(rem0, idx).saturating_add(1)
            } else {
                spec_slots_nth(tot0, idx)
            }),
        )
    }
    &&& key == KeyCode::Char('x') ==> if warlock {
        a1.player.spell_slots_remaining == (crate::player::spells::SpellSlots {
            warlock: rem0.warlock.saturating_sub(1),
            ..rem0
        })
    } else {
        a1.player.spell_slots_remaining == spec_slots_set_nth(
            rem0,
            idx,
            spec_slots_nth(rem0, idx).saturating_sub(1),
        )
    }
    &&& key == KeyCode::Char('A') ==> if warlock {
        a1.player.spell_slots == (crate::player::spells::SpellSlots {
            warlock: tot0.warlock.saturating_add(1),
            ..tot0
        })
    } else {
        a1.player.spell_slots == spec_slots_set_nth(
            tot0,
            idx,
            spec_slots_nth(tot0, idx).saturating_add(1),
        )
    }
    &&& key == KeyCode::Char('X') ==> if warlock {
        a1.player.spell_slots.warlock == tot0.warlock.saturating_sub(1)
            && a1.player.spell_slots_remaining.warlock == (if rem0.warlock
            > tot0.warlock.saturating_sub(1) {
            tot0.warlock.saturating_sub(1)
        } else {
            rem0.warlock
        })
    } else {
        spec_slots_nth(a1.player.spell_slots, idx) == spec_slots_nth(tot0, idx).saturating_sub(1)
            && spec_slots_nth(a1.player.spell_slots_remaining, idx) == (if spec_slots_nth(
            rem0,
            idx,
        ) > spec_slots_nth(tot0, idx).saturating_sub(1) {
            spec_slots_nth(tot0, idx).saturating_sub(1)
        } else {
            spec_slots_nth(rem0, idx)
        })
    }
    &&& key == KeyCode::Char('r') ==> a1.player.spell_slots_remaining == tot0
    &&& key == KeyCode::Char('k') && !warlock ==> a1.popup_scroll_provider@ == spec_scroll_up(
        a0.popup_scroll_provider@,
        1,
    )
    &&& key == KeyCode::Char('j') && !warlock ==> a1.popup_scroll_provider@ == spec_scroll_down(
        a0.popup_scroll_provider@,
        1,
    )
}

/// What one key guarantees in the money popup: `a`/`x` add and remove
/// one coin of the denomination under the popup cursor, `A`/`X` ten,
/// and the scroll keys walk the denominations.
pub open spec fn funds_transitions(a0: App, a1: App, key: KeyCode) -> bool {
    let f0 = a0.player.funds;
    let idx = a0.popup_scroll_provider@.cursor_line;
    let v0 = spec_funds_nth(f0, idx);
    &&& key == KeyCode::Char('a') ==> a1.player.funds == spec_funds_set_nth(
        f0,
        idx,
        v0.saturating_add(1),
    )
    &&& key == KeyCode::Char('x') ==> a1.player.funds == spec_funds_set_nth(
        f0,
        idx,
        v0.saturating_sub(1),
    )
    &&& key == KeyCode::Char('A') ==> a1.player.funds == spec_funds_set_nth(
        f0,
        idx,
        v0.saturating_add(10),
    )
    &&& key == KeyCode::Char('X') ==> a1.player.funds == spec_funds_set_nth(
        f0,
        idx,
        v0.saturating_sub(10),
    )
    &&& key == KeyCode::Char('k') ==> a1.popup_scroll_provider@ == spec_scroll_up(
        a0.popup_scroll_provider@,
        1,
    )
    &&& key == KeyCode::Char('j') ==> a1.popup_scroll_provider@ == spec_scroll_down(
        a0.popup_scroll_provider@,
        1,
    )
}

/// What one key guarantees at the free lookup prompt: printable
/// characters grow the query, Backspace shrinks it, and Tab or Enter
/// runs the completion and opens the result list.
pub open spec fn free_lookup_transitions(a0: App, a1: App, key: KeyCode, lookup: Lookup) -> bool {
    &&& (key matches KeyCode::Char(c)) ==> a1.lookup_buffer@ == a0.lookup_buffer@.push(
        key->Char_0,
    )
    &&& key == KeyCode::Backspace ==> a1.lookup_buffer@ == (if a0.lookup_buffer@.len() > 0 {
        a0.lookup_buffer@.drop_last()
    } else {
        a0.lookup_buffer@
    })
    &&& key == KeyCode::Tab || key == KeyCode::Enter ==> {
        let comps = crate::lookup::spec_completions(
            lookup.spec_keys(),
            lookup.spec_entries(),
            crate::textbuf::fold_seq(crate::textbuf::spec_trim(a0.lookup_buffer@)),
        );
        &&& a1.selected == Some(Selected::FreeLookupSelect)
        &&& if comps.len() > 0 {
            match a1.current_lookup {
                Some(LookupResult::Completion(v)) => v@ == comps,
                _ => false,
            }
        } else {
            a1.current_lookup matches Some(LookupResult::Invalid(_))
        }
    }
}

/// What one key guarantees in the free lookup result list: the scroll
/// keys drive the popup tracker, `q` closes it, and Enter promotes the
/// candidate under the popup cursor to a single-entry lookup.
pub open spec fn free_select_transitions(a0: App, a1: App, key: KeyCode) -> bool {
    &&& key == KeyCode::Char('k') ==> a1.popup_scroll_provider@ == spec_scroll_up(
        a0.popup_scroll_provider@,
        1,
    )
    &&& key == KeyCode::Char('j') ==> a1.popup_scroll_provider@ == spec_scroll_down(
        a0.popup_scroll_provider@,
        1,
    )
    &&& key == KeyCode::Char('K') ==> a1.popup_scroll_provider@ == spec_scroll_up(
        a0.popup_scroll_provider@,
        10,
    )
    &&& key == KeyCode::Char('J') ==> a1.popup_scroll_provider@ == spec_scroll_down(
        a0.popup_scroll_provider@,
        10,
    )
    &&& key == KeyCode::Char('q') ==> a1.selected is None && a1.current_lookup is None
    &&& key == KeyCode::Enter ==> a1.selected == Some(Selected::ClassLookup) && (match a0
        .current_lookup {
        Some(LookupResult::Completion(v)) => {
            let line = a0.popup_scroll_provider@.cursor_line as int;
            (match a1.current_lookup {
                Some(LookupResult::Success(en)) => en == v@[line],
                _ => false,
            }) && a1.popup_scroll_provider@.item_count is None
        },
        _ => true,
    })
}

/// What one key guarantees in the proficiency popup: `p`/`n`/`e`/`h`
/// set the proficiency level of the skill under the popup cursor, the
/// scroll keys walk the skills, `q` closes the popup.
pub open spec fn proficiency_transitions(a0: App, a1: App, key: KeyCode) -> bool {
    let idx = a0.popup_scroll_provider@.cursor_line as int;
    &&& key == KeyCode::Char('k') ==> a1.popup_scroll_provider@ == spec_scroll_up(
        a0.popup_scroll_provider@,
        1,
    )
    &&& key == KeyCode::Char('j') ==> a1.popup_scroll_provider@ == spec_scroll_down(
        a0.popup_scroll_provider@,
        1,
    )
    &&& key == KeyCode::Char('K') ==> a1.popup_scroll_provider@ == spec_scroll_up(
        a0.popup_scroll_provider@,
        10,
    )
    &&& key == KeyCode::Char('J') ==> a1.popup_scroll_provider@ == spec_scroll_down(
        a0.popup_scroll_provider@,
        10,
    )
    &&& key == KeyCode::Char('p') ==> a1.player.skills@ == a0.player.skills@.update(
        idx,
        ProficiencyLevel::Normal,
    )
    &&& key == KeyCode::Char('n') ==> a1.player.skills@ == a0.player.skills@.update(
        idx,
        ProficiencyLevel::Untrained,
    )
    &&& key == KeyCode::Char('e') ==> a1.player.skills@ == a0.player.skills@.update(
        idx,
        ProficiencyLevel::Double,
    )
    &&& key == KeyCode::Char('h') ==> a1.player.skills@ == a0.player.skills@.update(
        idx,
        ProficiencyLevel::Half,
    )
    &&& key == KeyCode::Char('q') ==> a1.selected is None && a1.current_lookup is None
}

/// What one key guarantees in the load menu: the scroll keys drive the
/// popup tracker, `q` closes the menu, and Enter closes it, rewinds the
/// content tracker, and asks the caller to load the file under the
/// popup cursor (when one exists).
pub open spec fn load_transitions(a0: App, a1: App, key: KeyCode, e: Effect) -> bool {
    &&& key == KeyCode::Char('k') ==> a1.popup_scroll_provider@ == spec_scroll_up(
        a0.popup_scroll_provider@,
        1,
    )
    &&& key == KeyCode::Char('j') ==> a1.popup_scroll_provider@ == spec_scroll_down(
        a0.popup_scroll_provider@,
        1,
    )
    &&& key == KeyCode::Char('K') ==> a1.popup_scroll_provider@ == spec_scroll_up(
        a0.popup_scroll_provider@,
        10,
    )
    &&& key == KeyCode::Char('J') ==> a1.popup_scroll_provider@ == spec_scroll_down(
        a0.popup_scroll_provider@,
        10,
    )
    &&& key == KeyCode::Char('q') ==> a1.selected is None && a1.current_lookup is None
    &&& key == KeyCode::Enter ==> a1.selected is None && a1.current_lookup is None
        && a1.tab_scroll_provider@ == spec_reset(a0.tab_scroll_provider@) && (match a0
        .current_lookup {
        Some(LookupResult::Files(f)) => f@.len() > 0 ==> (e matches Effect::LoadFile(n) && n@ == f@[
            a0.popup_scroll_provider@.cursor_line as int
        ]@),
        _ => true,
    })
}

/// What one key guarantees while the error popup is open: the scroll
/// keys page through the message, `q` dismisses it and clears the
/// message.
pub open spec fn error_transitions(a0: App, a1: App, key: KeyCode) -> bool {
    &&& key == KeyCode::Char('k') ==> a1.popup_scroll_provider@ == spec_scroll_up(
        a0.popup_scroll_provider@,
        1,
    )
    &&& key == KeyCode::Char('j') ==> a1.popup_scroll_provider@ == spec_scroll_down(
        a0.popup_scroll_provider@,
        1,
    )
    &&& key == KeyCode::Char('K') ==> a1.popup_scroll_provider@ == spec_scroll_up(
        a0.popup_scroll_provider@,
        10,
    )
    &&& key == KeyCode::Char('J') ==> a1.popup_scroll_provider@ == spec_scroll_down(
        a0.popup_scroll_provider@,
        10,
    )
    &&& key == KeyCode::Char('q') ==> a1.selected is None && a1.error is None
        && a1.current_lookup is None
}

/// Interpret one key in top-bar mode.
fn nav_top_bar(app: &mut App, key: KeyCode)
    requires
        wf(*old(app)),
        !old(app).editing,
        old(app).selected == Some(Selected::TopBarItem),
    ensures
        wf(*final(app)),
        top_bar_transitions(*old(app), *final(app), key),
        final(app).current_tab == old(app).current_tab,
{
    match key {
        KeyCode::Char('h') => app.index = app.index.saturating_sub(1),
        KeyCode::Char('l') => if app.index < 4 {
            app.index = app.index + 1;
        },
        KeyCode::Enter => app.editing = true,
        _ => {},
    }
}

/// Interpret one key in stat-block mode.
fn nav_stat(app: &mut App, key: KeyCode)
    requires
        wf(*old(app)),
        !old(app).editing,
        old(app).selected == Some(Selected::StatItem),
    ensures
        wf(*final(app)),
        stat_transitions(*old(app), *final(app), key),
        final(app).current_tab == old(app).current_tab,
{
    match key {
        KeyCode::Char('k') => app.index = app.index.saturating_sub(1),
        KeyCode::Char('j') => if app.index < 5 {
            app.index = app.index + 1;
        },
        KeyCode::Enter => app.editing = true,
        _ => {},
    }
}

/// Interpret one key in info-bar mode.
fn nav_info(app: &mut App, key: KeyCode)
    requires
        wf(*old(app)),
        !old(app).editing,
        old(app).selected == Some(Selected::InfoItem),
    ensures
        wf(*final(app)),
        info_transitions(*old(app), *final(app), key),
        final(app).current_tab == old(app).current_tab,
{
    match key {
        KeyCode::Char('h') => app.index = app.index.saturating_sub(1),
        KeyCode::Char('l') => if app.index < 6 {
            app.index = app.index + 1;
        },
        KeyCode::Char('r') => if app.index == 0 {
            app.player.hp = app.player.max_hp;
        },
        KeyCode::Enter => app.editing = true,
        _ => {},
    }
}

/// Interpret one key in content-list mode.
#[verifier::rlimit(100)]
#[verifier::spinoff_prover]
fn nav_tab_item(app: &mut App, lookup: &Lookup, key: KeyCode) -> (e: Effect)
    requires
        wf(*old(app)),
        !old(app).editing,
        old(app).selected == Some(Selected::TabItem),
        lookup.spec_entries().len() <= u32::MAX,
    ensures
        wf(*final(app)),
        tab_item_transitions(*old(app), *final(app), key, e, *lookup),
        final(app).current_tab == old(app).current_tab,
{
    proof {
        use_type_invariant(&app.tab_scroll_provider);
    }
    match key {
        KeyCode::Char('k') | KeyCode::Up => app.tab_scroll_provider.scroll_up(1),
        KeyCode::Char('j') | KeyCode::Down => app.tab_scroll_provider.scroll_down(1),
        KeyCode::Char('K') => app.tab_scroll_provider.scroll_up(10),
        KeyCode::Char('J') => app.tab_scroll_provider.scroll_down(10),
        KeyCode::Char('h') | KeyCode::Left => app.index = app.index.saturating_sub(1),
        KeyCode::Char('l') | KeyCode::Right => {
            if app.current_tab().len() > 0 {
                let line = app.tab_scroll_provider.get_line() as usize;
                let l = char_len(app.current_tab()[line].as_str());
                app.index = clamp_index(app.index.saturating_add(1), l);
            }
        },
        KeyCode::Char('i') => {
            ensure_tab_nonempty(app);
            app.editing = true;
        },
        KeyCode::Char('a') => {
            ensure_tab_nonempty(app);
            proof {
                use_type_invariant(&app.tab_scroll_provider);
            }
            let line = app.tab_scroll_provider.get_line() as usize;
            let l = char_len(app.current_tab()[line].as_str());
            app.index = clamp_index(app.index.saturating_add(1), l);
            app.editing = true;
        },
        KeyCode::Char('I') => {
            ensure_tab_nonempty(app);
            app.index = 0;
            app.editing = true;
        },
        KeyCode::Char('A') => {
            ensure_tab_nonempty(app);
            proof {
                use_type_invariant(&app.tab_scroll_provider);
            }
            let line = app.tab_scroll_provider.get_line() as usize;
            let l = char_len(app.current_tab()[line].as_str());
            app.index = clamp_index(u32::MAX, l);
            app.editing = true;
        },
        KeyCode::Char('O') => {
            if app.current_tab().len() < u32::MAX as usize {
                app.append_item_to_tab();
                app.index = 0;
                app.editing = true;
            }
        },
        KeyCode::Char('o') => {
            if app.current_tab().len() < u32::MAX as usize {
                app.insert_item_to_tab();
                app.index = 0;
                app.editing = true;
            }
        },
        KeyCode::Char('d') => {
            if app.current_tab().len() > 0 {
                app.delete_item_from_tab();
                if app.current_tab().len() > 0 {
                    proof {
                        use_type_invariant(&app.tab_scroll_provider);
                    }
                    let line = app.tab_scroll_provider.get_line() as usize;
                    let l = char_len(app.current_tab()[line].as_str());
                    app.index = clamp_index(app.index, l);
                } else {
                    app.index = 0;
                }
            }
        },
        KeyCode::Char('x') => {
            if app.index > 0 && app.current_tab().len() > 0 {
                let line = app.tab_scroll_provider.get_line() as usize;
                let cur = app.current_tab()[line].clone();
                let l = char_len(cur.as_str());
                if (app.index as usize) < l {
                    let shorter = remove_char(&cur, app.index as usize);
                    let tab = app.current_tab_mut();
                    tab[line] = shorter;
                    app.index = clamp_index(app.index.saturating_sub(1), l - 1);
                } else {
                    app.index = clamp_index(app.index.saturating_sub(1), l);
                }
            }
        },
        KeyCode::Enter => {
            if app.current_tab().len() > 0 {
                app.editing = true;
            }
        },
        KeyCode::Char('f') => {
            if app.current_tab().len() > 0 {
                if !lookup.is_loaded() {
                    return Effect::LoadLookup;
                }
                app.lookup_current_selection(lookup);
            }
        },
        KeyCode::Tab => {
            if app.current_tab().len() > 0 {
                let line = app.tab_scroll_provider.get_line();
                let ghost t0 = spec_current_tab(*app);
                app.complete_current_selection(lookup);
                proof {
                    lookup.lemma_table_lens();
                    crate::lookup::lemma_completions_len(
                        lookup.spec_keys(),
                        lookup.spec_entries(),
                        crate::textbuf::fold_seq(crate::textbuf::spec_trim(t0[line as int]@)),
                    );
                }
                app.selected = Some(Selected::Completion(line));
            }
        },
        _ => {},
    }
    Effect::Nothing
}

/// Interpret one key while the completion popup is open.
fn nav_completion(app: &mut App, key: KeyCode)
    requires
        wf(*old(app)),
        !old(app).editing,
        old(app).selected matches Some(Selected::Completion(_)),
    ensures
        wf(*final(app)),
        completion_transitions(*old(app), *final(app), key),
        final(app).current_tab == old(app).current_tab,
{
    match key {
        KeyCode::Char('k') => app.popup_scroll_provider.scroll_up(1),
        KeyCode::Char('j') => app.popup_scroll_provider.scroll_down(1),
        KeyCode::Char('K') => app.popup_scroll_provider.scroll_up(10),
        KeyCode::Char('J') => app.popup_scroll_provider.scroll_down(10),
        KeyCode::Enter => {
            app.finish_completion();
            app.current_lookup = None;
            app.selected = Some(Selected::TabItem);
        },
        KeyCode::Char('q') => {
            ensure_tab_nonempty(app);
            app.selected = Some(Selected::TabItem);
            app.editing = true;
            app.current_lookup = None;
        },
        _ => {},
    }
}

/// Interpret one key while the quit menu is open.
fn nav_quitting(app: &mut App, key: KeyCode) -> (e: Effect)
    requires
        wf(*old(app)),
        !old(app).editing,
    ensures
        wf(*final(app)),
        quitting_transitions(*old(app), *final(app), key, e),
        final(app).current_tab == old(app).current_tab,
{
    match key {
        KeyCode::Char('q') | KeyCode::Char('n') => app.selected = None,
        KeyCode::Char('s') => app.quit(),
        KeyCode::Char('y') => {
            if app.player.name.as_str().is_empty() {
                app.player.name = "player".to_owned();
                proof {
                    reveal_strlit("player");
                }
            }
            return Effect::Save { and_quit: true };
        },
        _ => {},
    }
    Effect::Nothing
}

/// Interpret one key while the single-entry lookup popup is open: the
/// popup pages through the entry text, and closing it restores either
/// the content list or the navigation root.
fn nav_lookup_popup(app: &mut App, key: KeyCode, back_to_tab: bool)
    requires
        wf(*old(app)),
        !old(app).editing,
    ensures
        wf(*final(app)),
        lookup_popup_transitions(*old(app), *final(app), key, back_to_tab),
        final(app).current_tab == old(app).current_tab,
{
    match key {
        KeyCode::Char('k') => app.popup_scroll_provider.move_up(1),
        KeyCode::Char('j') => app.popup_scroll_provider.move_down(1),
        KeyCode::Char('K') => app.popup_scroll_provider.move_up(10),
        KeyCode::Char('J') => app.popup_scroll_provider.move_down(10),
        KeyCode::Char('q') => {
            app.selected = if back_to_tab {
                Some(Selected::TabItem)
            } else {
                None
            };
            app.current_lookup = None;
        },
        _ => {},
    }
}

/// Interpret one key while the spell slots popup is open.
fn nav_spell_slots(app: &mut App, key: KeyCode)
    requires
        wf(*old(app)),
        !old(app).editing,
        old(app).selected == Some(Selected::SpellSlots),
    ensures
        wf(*final(app)),
        spell_slots_transitions(*old(app), *final(app), key),
        final(app).current_tab == old(app).current_tab,
{
    proof {
        use_type_invariant(&app.popup_scroll_provider);
    }
    let idx = app.popup_scroll_provider.get_line();
    let warlock = app.player.class == Class::Warlock;
    match key {
        KeyCode::Char('a') => {
            if warlock {
                let total = app.player.spell_slots.warlock;
                let c = app.player.spell_slots_remaining.warlock.saturating_add(1);
                app.player.spell_slots_remaining.warlock = if c < total {
                    c
                } else {
                    total
                };
            } else {
                let total = app.player.spell_slots.nth(idx);
                let c = app.player.spell_slots_remaining.nth(idx).saturating_add(1);
                let r = app.player.spell_slots_remaining.nth_mut(idx);
                *r = if c < total {
                    c
                } else {
                    total
                };
            }
        },
        KeyCode::Char('x') => {
            if warlock {
                app.player.spell_slots_remaining.warlock =
                    app.player.spell_slots_remaining.warlock.saturating_sub(1);
            } else {
                let r = app.player.spell_slots_remaining.nth_mut(idx);
                *r = r.saturating_sub(1);
            }
        },
        KeyCode::Char('A') => {
            if warlock {
                app.player.spell_slots.warlock = app.player.spell_slots.warlock.saturating_add(1);
            } else {
                let r = app.player.spell_slots.nth_mut(idx);
                *r = r.saturating_add(1);
            }
        },
        KeyCode::Char('X') => {
            if warlock {
                let total = app.player.spell_slots.warlock.saturating_sub(1);
                app.player.spell_slots.warlock = total;
                if app.player.spell_slots_remaining.warlock > total {
                    app.player.spell_slots_remaining.warlock = total;
                }
            } else {
                let total = app.player.spell_slots.nth(idx).saturating_sub(1);
                let r = app.player.spell_slots.nth_mut(idx);
                *r = total;
                if app.player.spell_slots_remaining.nth(idx) > total {
                    let r = app.player.spell_slots_remaining.nth_mut(idx);
                    *r = total;
                }
            }
        },
        KeyCode::Char('k') => if !warlock {
            app.popup_scroll_provider.scroll_up(1);
        },
        KeyCode::Char('j') => if !warlock {
            app.popup_scroll_provider.scroll_down(1);
        },
        KeyCode::Char('r') => {
            app.player.spell_slots_remaining = app.player.spell_slots;
        },
        _ => {},
    }
}

/// Interpret one key while the money popup is open.
fn nav_funds(app: &mut App, key: KeyCode)
    requires
        wf(*old(app)),
        !old(app).editing,
        old(app).selected == Some(Selected::Funds),
    ensures
        wf(*final(app)),
        funds_transitions(*old(app), *final(app), key),
        final(app).current_tab == old(app).current_tab,
        final(app).selected == old(app).selected,
        final(app).current_lookup == old(app).current_lookup,
{
    proof {
        use_type_invariant(&app.popup_scroll_provider);
    }
    let idx = app.popup_scroll_provider.get_line();
    match key {
        KeyCode::Char('a') => {
            let fundage = app.player.funds.nth_mut(idx);
            *fundage = fundage.saturating_add(1);
        },
        KeyCode::Char('x') => {
            let fundage = app.player.funds.nth_mut(idx);
            *fundage = fundage.saturating_sub(1);
        },
        KeyCode::Char('A') => {
            let fundage = app.player.funds.nth_mut(idx);
            *fundage = fundage.saturating_add(10);
        },
        KeyCode::Char('X') => {
            let fundage = app.player.funds.nth_mut(idx);
            *fundage = fundage.saturating_sub(10);
        },
        KeyCode::Char('k') => app.popup_scroll_provider.scroll_up(1),
        KeyCode::Char('j') => app.popup_scroll_provider.scroll_down(1),
        _ => {},
    }
}

/// Interpret one key at the free lookup prompt.
fn nav_free_lookup(app: &mut App, lookup: &Lookup, key: KeyCode)
    requires
        wf(*old(app)),
        !old(app).editing,
        old(app).selected == Some(Selected::FreeLookup),
        lookup.spec_entries().len() <= u32::MAX,
    ensures
        wf(*final(app)),
        free_lookup_transitions(*old(app), *final(app), key, *lookup),
        final(app).current_tab == old(app).current_tab,
{
    match key {
        KeyCode::Backspace => {
            let cur = app.lookup_buffer.clone();
            let l = char_len(cur.as_str());
            if l > 0 {
                app.lookup_buffer = remove_char(&cur, l - 1);
                proof {
                    assert(cur@.remove(cur@.len() - 1) =~= cur@.drop_last());
                }
            }
        },
        KeyCode::Char(c) => {
            let cur = app.lookup_buffer.clone();
            let l = char_len(cur.as_str());
            app.lookup_buffer = insert_char(&cur, l, c);
            proof {
                assert(cur@.insert(cur@.len() as int, c) =~= cur@.push(c));
            }
        },
        KeyCode::Tab | KeyCode::Enter => {
            let q = app.lookup_buffer.clone();
            let ghost qv = q@;
            let res = app.get_completion(&q, lookup);
            proof {
                lookup.lemma_table_lens();
                crate::lookup::lemma_completions_len(
                    lookup.spec_keys(),
                    lookup.spec_entries(),
                    crate::textbuf::fold_seq(crate::textbuf::spec_trim(qv)),
                );
            }
            app.current_lookup = Some(res);
            app.selected = Some(Selected::FreeLookupSelect);
        },
        _ => {},
    }
}

/// Interpret one key in the free lookup result list.
fn nav_free_lookup_select(app: &mut App, key: KeyCode)
    requires
        wf(*old(app)),
        !old(app).editing,
        old(app).selected == Some(Selected::FreeLookupSelect),
    ensures
        wf(*final(app)),
        free_select_transitions(*old(app), *final(app), key),
        final(app).current_tab == old(app).current_tab,
{
    match key {
        KeyCode::Char('k') => app.popup_scroll_provider.scroll_up(1),
        KeyCode::Char('j') => app.popup_scroll_provider.scroll_down(1),
        KeyCode::Char('K') => app.popup_scroll_provider.scroll_up(10),
        KeyCode::Char('J') => app.popup_scroll_provider.scroll_down(10),
        KeyCode::Char('q') => {
            app.selected = None;
            app.current_lookup = None;
        },
        KeyCode::Enter => {
            proof {
                use_type_invariant(&app.popup_scroll_provider);
            }
            let line = app.popup_scroll_provider.get_line();
            let chosen: Option<LookupEntry> = match &app.current_lookup {
                Some(LookupResult::Completion(v)) => Some(v[line as usize].duplicate()),
                _ => None,
            };
            app.selected = Some(Selected::ClassLookup);
            match chosen {
                Some(e) => {
                    app.current_lookup = Some(LookupResult::Success(e));
                    app.popup_scroll_provider.clear_max();
                },
                None => {},
            }
        },
        _ => {},
    }
}

/// Interpret one key while the proficiency popup is open.
fn nav_proficiency(app: &mut App, key: KeyCode)
    requires
        wf(*old(app)),
        !old(app).editing,
        old(app).selected == Some(Selected::Proficiency),
    ensures
        wf(*final(app)),
        proficiency_transitions(*old(app), *final(app), key),
        final(app).current_tab == old(app).current_tab,
{
    proof {
        use_type_invariant(&app.popup_scroll_provider);
    }
    let idx = app.popup_scroll_provider.get_line();
    match key {
        KeyCode::Char('k') => app.popup_scroll_provider.scroll_up(1),
        KeyCode::Char('j') => app.popup_scroll_provider.scroll_down(1),
        KeyCode::Char('K') => app.popup_scroll_provider.scroll_up(10),
        KeyCode::Char('J') => app.popup_scroll_provider.scroll_down(10),
        KeyCode::Char('p') => app.player.skills[idx as usize] = ProficiencyLevel::Normal,
        KeyCode::Char('n') => app.player.skills[idx as usize] = ProficiencyLevel::Untrained,
        KeyCode::Char('e') => app.player.skills[idx as usize] = ProficiencyLevel::Double,
        KeyCode::Char('h') => app.player.skills[idx as usize] = ProficiencyLevel::Half,
        KeyCode::Char('q') => {
            app.selected = None;
            app.current_lookup = None;
        },
        _ => {},
    }
}

/// Interpret one key in the load menu.  Choosing a file asks the caller
/// to load it.
fn nav_load(app: &mut App, key: KeyCode) -> (e: Effect)
    requires
        wf(*old(app)),
        !old(app).editing,
        old(app).selected == Some(Selected::Load),
    ensures
        wf(*final(app)),
        load_transitions(*old(app), *final(app), key, e),
        final(app).current_tab == old(app).current_tab,
{
    match key {
        KeyCode::Char('k') => app.popup_scroll_provider.scroll_up(1),
        KeyCode::Char('j') => app.popup_scroll_provider.scroll_down(1),
        KeyCode::Char('K') => app.popup_scroll_provider.scroll_up(10),
        KeyCode::Char('J') => app.popup_scroll_provider.scroll_down(10),
        KeyCode::Char('q') => {
            app.selected = None;
            app.current_lookup = None;
        },
        KeyCode::Enter => {
            proof {
                use_type_invariant(&app.popup_scroll_provider);
            }
            let line = app.popup_scroll_provider.get_line();
            app.selected = None;
            app.tab_scroll_provider.reset();
            let chosen: Option<String> = match &app.current_lookup {
                Some(LookupResult::Files(f)) => if f.len() > 0 {
                    Some(f[line as usize].clone())
                } else {
                    None
                },
                _ => None,
            };
            app.current_lookup = None;
            match chosen {
                Some(name) => {
                    return Effect::LoadFile(name);
                },
                None => {},
            }
        },
        _ => {},
    }
    Effect::Nothing
}

/// Interpret one key while the error popup is open.
fn nav_error(app: &mut App, key: KeyCode)
    requires
        wf(*old(app)),
        !old(app).editing,
    ensures
        wf(*final(app)),
        error_transitions(*old(app), *final(app), key),
        final(app).current_tab == old(app).current_tab,
{
    match key {
        KeyCode::Char('k') => app.popup_scroll_provider.scroll_up(1),
        KeyCode::Char('j') => app.popup_scroll_provider.scroll_down(1),
        KeyCode::Char('K') => app.popup_scroll_provider.scroll_up(10),
        KeyCode::Char('J') => app.popup_scroll_provider.scroll_down(10),
        KeyCode::Char('q') => {
            app.current_lookup = None;
            app.selected = None;
            app.error = None;
        },
        _ => {},
    }
}

/// Interpret one key at the navigation root, with nothing selected.
fn nav_root(app: &mut App, lookup: &Lookup, key: KeyCode) -> (e: Effect)
    requires
        wf(*old(app)),
        !old(app).editing,
        old(app).selected is None,
        lookup.spec_entries().len() <= u32::MAX,
    ensures
        wf(*final(app)),
        root_entry_transitions(*old(app), *final(app), key, e),
        final(app).current_tab == old(app).current_tab,
{
    match key {
        KeyCode::Char('u') => {
            app.index = 0;
            app.selected = Some(Selected::TopBarItem);
        },
        KeyCode::Char('s') => {
            app.index = 0;
            app.selected = Some(Selected::StatItem);
        },
        KeyCode::Char('i') => {
            app.index = 0;
            app.selected = Some(Selected::InfoItem);
        },
        KeyCode::Char('t') => app.selected = Some(Selected::TabItem),
        KeyCode::Char('E') => {
            app.popup_scroll_provider.reset();
            app.popup_scroll_provider.set_max(9);
            app.selected = Some(Selected::SpellSlots);
        },
        KeyCode::Char('F') => {
            app.popup_scroll_provider.reset();
            app.popup_scroll_provider.set_max(4);
            app.selected = Some(Selected::Funds);
        },
        KeyCode::Char('P') => {
            app.popup_scroll_provider.reset();
            app.popup_scroll_provider.set_max(18);
            app.selected = Some(Selected::Proficiency);
        },
        KeyCode::Char('C') => {
            if !lookup.is_loaded() {
                return Effect::LoadLookup;
            }
            app.lookup_class(lookup);
        },
        KeyCode::Char('R') => {
            if !lookup.is_loaded() {
                return Effect::LoadLookup;
            }
            app.lookup_race(lookup);
        },
        KeyCode::Char('L') => {
            app.selected = Some(Selected::FreeLookup);
            app.popup_scroll_provider.reset();
            app.lookup_buffer = String::new();
        },
        KeyCode::Char('[') => {
            return Effect::ListFiles;
        },
        KeyCode::Char('k') => app.tab_scroll_provider.move_up(1),
        KeyCode::Char('j') => app.tab_scroll_provider.move_down(1),
        KeyCode::Char('K') => app.tab_scroll_provider.move_up(10),
        KeyCode::Char('J') => app.tab_scroll_provider.move_down(10),
        _ => {},
    }
    Effect::Nothing
}

/// What a key pressed at the navigation root guarantees: each mode is
/// entered with its focused index reset, and each list popup is entered
/// with the popup tracker reset and bound to its row count.
pub open spec fn root_entry_transitions(a0: App, a1: App, key: KeyCode, e: Effect) -> bool {
    &&& key == KeyCode::Char('t') ==> a1.selected == Some(Selected::TabItem)
    &&& key == KeyCode::Char('u') ==> a1.selected == Some(Selected::TopBarItem) && a1.index == 0
    &&& key == KeyCode::Char('s') ==> a1.selected == Some(Selected::StatItem) && a1.index == 0
    &&& key == KeyCode::Char('i') ==> a1.selected == Some(Selected::InfoItem) && a1.index == 0
    &&& key == KeyCode::Char('E') ==> a1.selected == Some(Selected::SpellSlots)
        && a1.popup_scroll_provider@ == spec_set_max(spec_reset(a0.popup_scroll_provider@), 9)
    &&& key == KeyCode::Char('F') ==> a1.selected == Some(Selected::Funds)
        && a1.popup_scroll_provider@ == spec_set_max(spec_reset(a0.popup_scroll_provider@), 4)
    &&& key == KeyCode::Char('P') ==> a1.selected == Some(Selected::Proficiency)
        && a1.popup_scroll_provider@ == spec_set_max(spec_reset(a0.popup_scroll_provider@), 18)
    &&& key == KeyCode::Char('L') ==> a1.selected == Some(Selected::FreeLookup)
        && a1.popup_scroll_provider@ == spec_reset(a0.popup_scroll_provider@)
        && a1.lookup_buffer@.len() == 0
    &&& key == KeyCode::Char('[') ==> (e matches Effect::ListFiles)
    &&& key == KeyCode::Char('C') || key == KeyCode::Char('R') ==> if !a0.editing {
        (e matches Effect::LoadLookup) || a1.selected == Some(Selected::ClassLookup)
    } else {
        true
    }
}

/// Interpret one key while no control is being edited: mode changes,
/// navigation, and the popup-specific commands.
fn handle_nav(app: &mut App, lookup: &Lookup, key: KeyCode) -> (e: Effect)
    requires
        wf(*old(app)),
        !old(app).editing,
        lookup.spec_entries().len() <= u32::MAX,
    ensures
        wf(*final(app)),
        key == KeyCode::Esc ==> final(app).selected == (match old(app).selected {
            Some(Selected::ItemLookup(_)) => Some(Selected::TabItem),
            _ => None::<Selected>,
        }) && final(app).current_lookup is None && !final(app).editing
            && (e matches Effect::Nothing),
        old(app).selected is None ==> root_entry_transitions(*old(app), *final(app), key, e),
        old(app).selected is None && old(app).current_lookup is None && key == KeyCode::Char('q')
            ==> final(app).selected == Some(Selected::Quitting)
                && final(app).current_lookup is None,
        (match old(app).selected {
            Some(m) => m != Selected::Quitting,
            None => false,
        }) && key == KeyCode::Char('q') && old(app).current_lookup is None
            ==> final(app).selected is None,
        key == KeyCode::Char('S') ==> (e matches Effect::Save { and_quit } && !and_quit),
        key == KeyCode::Char('1') ==> final(app).current_tab == Tab::Notes,
        key == KeyCode::Char('2') ==> final(app).current_tab == Tab::Inventory,
        key == KeyCode::Char('3') ==> final(app).current_tab == Tab::Spells,
        old(app).selected == Some(Selected::TopBarItem) ==> top_bar_transitions(
            *old(app),
            *final(app),
            key,
        ),
        old(app).selected == Some(Selected::StatItem) ==> stat_transitions(
            *old(app),
            *final(app),
            key,
        ),
        old(app).selected == Some(Selected::InfoItem) ==> info_transitions(
            *old(app),
            *final(app),
            key,
        ),
        old(app).selected == Some(Selected::TabItem) && key != KeyCode::Esc
            ==> tab_item_transitions(*old(app), *final(app), key, e, *lookup),
        (old(app).selected matches Some(Selected::Completion(_))) && key != KeyCode::Esc
            ==> completion_transitions(*old(app), *final(app), key),
        old(app).selected == Some(Selected::Quitting) ==> quitting_transitions(
            *old(app),
            *final(app),
            key,
            e,
        ),
        (old(app).selected matches Some(Selected::ItemLookup(_))) && key != KeyCode::Esc
            ==> lookup_popup_transitions(*old(app), *final(app), key, true),
        old(app).selected == Some(Selected::ClassLookup) && key != KeyCode::Esc
            ==> lookup_popup_transitions(*old(app), *final(app), key, false),
        old(app).selected == Some(Selected::SpellSlots) ==> spell_slots_transitions(
            *old(app),
            *final(app),
            key,
        ),
        old(app).selected == Some(Selected::Funds) ==> funds_transitions(
            *old(app),
            *final(app),
            key,
        ),
        old(app).selected == Some(Selected::FreeLookup) && key != KeyCode::Esc
            && !(key == KeyCode::Char('q') && old(app).current_lookup is None)
            ==> free_lookup_transitions(
            *old(app),
            *final(app),
            key,
            *lookup,
        ),
        old(app).selected == Some(Selected::FreeLookupSelect) && key != KeyCode::Esc
            ==> free_select_transitions(*old(app), *final(app), key),
        old(app).selected == Some(Selected::Proficiency) && key != KeyCode::Esc
            ==> proficiency_transitions(*old(app), *final(app), key),
        old(app).selected == Some(Selected::Load) && key != KeyCode::Esc ==> load_transitions(
            *old(app),
            *final(app),
            key,
            e,
        ),
        old(app).selected == Some(Selected::Error) && key != KeyCode::Esc ==> error_transitions(
            *old(app),
            *final(app),
            key,
        ),
{
    if key == KeyCode::Esc {
        if app.selected == Some(Selected::Error) {
            app.error = None;
        }
        app.selected = match app.selected {
            Some(Selected::ItemLookup(_)) => Some(Selected::TabItem),
            _ => None,
        };
        app.current_lookup = None;
        return Effect::Nothing;
    }

    let mut effect = Effect::Nothing;

    if key == KeyCode::Char('q') && (match app.current_lookup {
        None => true,
        _ => false,
    }) {
        match app.selected {
            Some(Selected::Quitting) => {
                // handled below: the quit menu interprets its own keys
            },
            None => {
                app.selected = Some(Selected::Quitting);
                app.current_lookup = None;
                return Effect::Nothing;
            },
            _ => {
                if app.selected == Some(Selected::Error) {
                    app.error = None;
                }
                app.selected = None;
                return Effect::Nothing;
            },
        }
    }

    if key == KeyCode::Char('S') {
        effect = Effect::Save { and_quit: false };
    } else if key == KeyCode::Char('1') {
        app.update_tab(Tab::Notes);
    } else if key == KeyCode::Char('2') {
        app.update_tab(Tab::Inventory);
    } else if key == KeyCode::Char('3') {
        app.update_tab(Tab::Spells);
    }

    let sub = match app.selected {
        Some(Selected::TopBarItem) => {
            nav_top_bar(app, key);
            Effect::Nothing
        },
        Some(Selected::StatItem) => {
            nav_stat(app, key);
            Effect::Nothing
        },
        Some(Selected::InfoItem) => {
            nav_info(app, key);
            Effect::Nothing
        },
        Some(Selected::TabItem) => nav_tab_item(app, lookup, key),
        Some(Selected::Completion(_)) => {
            nav_completion(app, key);
            Effect::Nothing
        },
        Some(Selected::Quitting) => nav_quitting(app, key),
        Some(Selected::ItemLookup(_)) => {
            nav_lookup_popup(app, key, true);
            Effect::Nothing
        },
        Some(Selected::ClassLookup) => {
            nav_lookup_popup(app, key, false);
            Effect::Nothing
        },
        Some(Selected::SpellSlots) => {
            nav_spell_slots(app, key);
            Effect::Nothing
        },
        Some(Selected::Funds) => {
            nav_funds(app, key);
            Effect::Nothing
        },
        Some(Selected::FreeLookup) => {
            nav_free_lookup(app, lookup, key);
            Effect::Nothing
        },
        Some(Selected::FreeLookupSelect) => {
            nav_free_lookup_select(app, key);
            Effect::Nothing
        },
        Some(Selected::Proficiency) => {
            nav_proficiency(app, key);
            Effect::Nothing
        },
        Some(Selected::Load) => nav_load(app, key),
        Some(Selected::Error) => {
            nav_error(app, key);
            Effect::Nothing
        },
        None => nav_root(app, lookup, key),
    };

    match effect {
        Effect::Save { and_quit } => Effect::Save { and_quit },
        _ => sub,
    }
}

/// The entry point of the engine: interpret one key event against the
/// current state to completion.  Outside work (a save, a load, a file
/// listing, filling the reference table) is returned as an [`Effect`]
/// for the caller to perform.
pub fn handle_event(app: &mut App, lookup: &Lookup, key: KeyCode) -> (e: Effect)
    requires
        wf(*old(app)),
        lookup.spec_entries().len() <= u32::MAX,
    ensures
        wf(*final(app)),
        old(app).editing && key == KeyCode::Esc ==> *final(app) == (App {
            editing: false,
            ..*old(app)
        }),
        old(app).editing && key != KeyCode::Esc ==> editing_transitions(
            *old(app),
            *final(app),
            key,
        ),
        !old(app).editing && key == KeyCode::Esc ==> final(app).selected == (match old(
            app,
        ).selected {
            Some(Selected::ItemLookup(_)) => Some(Selected::TabItem),
            _ => None::<Selected>,
        }) && final(app).current_lookup is None && !final(app).editing,
        !old(app).editing && old(app).selected is None ==> root_entry_transitions(
            *old(app),
            *final(app),
            key,
            e,
        ),
        !old(app).editing && old(app).selected is None && old(app).current_lookup is None
            && key == KeyCode::Char('q') ==> final(app).selected == Some(Selected::Quitting),
        !old(app).editing && (match old(app).selected {
            Some(m) => m != Selected::Quitting,
            None => false,
        }) && key == KeyCode::Char('q') && old(app).current_lookup is None
            ==> final(app).selected is None,
        !old(app).editing && key == KeyCode::Char('S') ==> (e matches Effect::Save { and_quit }
            && !and_quit),
        !old(app).editing && key == KeyCode::Char('1') ==> final(app).current_tab == Tab::Notes,
        !old(app).editing && key == KeyCode::Char('2') ==> final(app).current_tab
            == Tab::Inventory,
        !old(app).editing && key == KeyCode::Char('3') ==> final(app).current_tab == Tab::Spells,
        !old(app).editing && old(app).selected == Some(Selected::TopBarItem)
            ==> top_bar_transitions(*old(app), *final(app), key),
        !old(app).editing && old(app).selected == Some(Selected::StatItem) ==> stat_transitions(
            *old(app),
            *final(app),
            key,
        ),
        !old(app).editing && old(app).selected == Some(Selected::InfoItem) ==> info_transitions(
            *old(app),
            *final(app),
            key,
        ),
        !old(app).editing && old(app).selected == Some(Selected::TabItem) && key != KeyCode::Esc
            ==> tab_item_transitions(*old(app), *final(app), key, e, *lookup),
        !old(app).editing && (old(app).selected matches Some(Selected::Completion(_))) && key
            != KeyCode::Esc ==> completion_transitions(*old(app), *final(app), key),
        !old(app).editing && old(app).selected == Some(Selected::Quitting)
            ==> quitting_transitions(*old(app), *final(app), key, e),
        !old(app).editing && (old(app).selected matches Some(Selected::ItemLookup(_))) && key
            != KeyCode::Esc ==> lookup_popup_transitions(*old(app), *final(app), key, true),
        !old(app).editing && old(app).selected == Some(Selected::ClassLookup) && key
            != KeyCode::Esc ==> lookup_popup_transitions(*old(app), *final(app), key, false),
        !old(app).editing && old(app).selected == Some(Selected::SpellSlots)
            ==> spell_slots_transitions(*old(app), *final(app), key),
        !old(app).editing && old(app).selected == Some(Selected::Funds) ==> funds_transitions(
            *old(app),
            *final(app),
            key,
        ),
        !old(app).editing && old(app).selected == Some(Selected::FreeLookup) && key
            != KeyCode::Esc && !(key == KeyCode::Char('q') && old(app).current_lookup is None)
            ==> free_lookup_transitions(*old(app), *final(app), key, *lookup),
        !old(app).editing && old(app).selected == Some(Selected::FreeLookupSelect) && key
            != KeyCode::Esc ==> free_select_transitions(*old(app), *final(app), key),
        !old(app).editing && old(app).selected == Some(Selected::Proficiency) && key
            != KeyCode::Esc ==> proficiency_transitions(*old(app), *final(app), key),
        !old(app).editing && old(app).selected == Some(Selected::Load) && key != KeyCode::Esc
            ==> load_transitions(*old(app), *final(app), key, e),
        !old(app).editing && old(app).selected == Some(Selected::Error) && key != KeyCode::Esc
            ==> error_transitions(*old(app), *final(app), key),
{
    let e = if app.editing {
        handle_editing(app, lookup, key);
        Effect::Nothing
    } else {
        handle_nav(app, lookup, key)
    };

    if app.editing && app.current_tab().len() == 0 {
        app.append_item_to_tab();
    }

    e
}


} // verus!
