//! The application state: the edited record, the current selection, the
//! focused index, and the two viewport trackers that keep the content
//! list and any active popup scrolled onto their cursors.

use vstd::prelude::*;

use crate::lookup::{find_key, spec_completions, Lookup, LookupEntry};
use crate::player::{bounds_ok, Player};
use crate::lookup::lemma_completions_len;
use crate::textbuf::{chars_vec, concat_string, fold_seq, fold_string, spec_trim, suffix_from, trim_string};
use crate::viewport::{
    at_least_one, spec_reset, spec_scroll_down, spec_set_max, ScrollProvider, ViewportView,
};

verus! {

/// The closed set of UI modes.  Entering a popup records the originating
/// content-list line where one exists, so that closing the popup can
/// restore the prior mode at that line.
#[derive(Clone, Copy, PartialEq, Eq, Structural, Debug)]
pub enum Selected {
    /// An item in the top bar.
    TopBarItem,
    /// An item in the stat block.
    StatItem,
    /// An item in the info bar.
    InfoItem,
    /// A line in the content-list pane.
    TabItem,
    /// The quit menu is showing.
    Quitting,
    /// The lookup popup is showing; the payload is the content-list line
    /// the lookup originated from.
    ItemLookup(u32),
    /// The lookup popup is showing the class or race entry.
    ClassLookup,
    /// The completion popup is showing; the payload is the content-list
    /// line being completed.
    Completion(u32),
    /// The spell slots popup is showing.
    SpellSlots,
    /// The money popup is showing.
    Funds,
    /// The free lookup prompt is showing.
    FreeLookup,
    /// The free lookup result list is showing.
    FreeLookupSelect,
    /// The proficiency popup is showing.
    Proficiency,
    /// The load menu is showing.
    Load,
    /// The error popup is showing.
    Error,
}

/// A text field that can be edited in place.
#[derive(Clone, Copy, PartialEq, Eq, Structural, Debug)]
pub enum TextField {
    /// The character's name.
    Name,
    /// The content-list line under the cursor.
    TabLine,
    /// The free lookup query buffer.
    LookupBuffer,
}

/// A numeric field that can be cycled within a range.
#[derive(Clone, Copy, PartialEq, Eq, Structural, Debug)]
pub enum NumField {
    /// The character's level.
    Level,
    /// The ability score at the given position.
    Stat(u32),
    /// Current hit points.
    Hp,
    /// Maximum hit points.
    MaxHp,
    /// Temporary hit points.
    TempHp,
    /// Armor class.
    Ac,
    /// Proficiency bonus.
    ProfBonus,
    /// Hit dice remaining.
    HitDiceRemaining,
}

/// A named field operation that cycles a non-numeric value: each tag is
/// dispatched to the matching pair of cycle operations on the record.
#[derive(Clone, Copy, PartialEq, Eq, Structural, Debug)]
pub enum CycleTag {
    /// Cycle the race, moving its stat bonuses.
    Race,
    /// Cycle the class and recalculate.
    Class,
    /// Cycle the alignment and recalculate.
    Alignment,
    /// Cycle the background.
    Background,
}

/// How the currently focused field may be edited.  A descriptor is
/// requested fresh for each keystroke and never cached.
#[derive(Clone, Copy, PartialEq, Eq, Structural, Debug)]
pub enum ControlType {
    /// Free text input into the named field.
    TextInput(TextField),
    /// Clamped increment and decrement of the named numeric field within
    /// the inclusive range.
    Cycle(NumField, u32, u32),
    /// Like `Cycle`, but dependent derived values must be recomputed
    /// after every change.
    CycleRecalc(NumField, u32, u32),
    /// Cycling of a non-numeric value through the named field operation.
    CycleFn(CycleTag),
}

/// The three content lists.
#[derive(Clone, Copy, PartialEq, Eq, Structural, Debug)]
pub enum Tab {
    Notes,
    Inventory,
    Spells,
}

impl Default for Tab {
    /// The notes list shows first.
    fn default() -> (r: Self)
        ensures
            r == Tab::Notes,
    {
        Tab::Notes
    }
}

/// The most recent popup result.
#[derive(Debug)]
pub enum LookupResult {
    /// A single entry was found.
    Success(LookupEntry),
    /// Several completion candidates were found.
    Completion(Vec<LookupEntry>),
    /// A list of loadable files.
    Files(Vec<String>),
    /// The search text matched nothing; the text is kept for display.
    Invalid(String),
}

/// The application state.
pub struct App {
    /// The record being edited.
    pub player: Player,
    /// Whether the caller should terminate at the next cycle.
    pub should_quit: bool,
    /// Whether a control is being edited.
    pub editing: bool,
    /// The active content list.
    pub current_tab: Tab,
    /// The most recent popup result, if any.
    pub current_lookup: Option<LookupResult>,
    /// The free lookup query buffer.
    pub lookup_buffer: String,
    /// The current UI mode, if any.
    pub selected: Option<Selected>,
    /// The focused index for modes that need one, and the text cursor
    /// while editing.
    pub index: u32,
    /// The current error message, if any.
    pub error: Option<String>,
    /// The tracker of the content-list pane.
    pub tab_scroll_provider: ScrollProvider,
    /// The tracker of the active popup.
    pub popup_scroll_provider: ScrollProvider,
}

/// The lines of the active content list.
pub open spec fn spec_current_tab(a: App) -> Seq<String> {
    match a.current_tab {
        Tab::Notes => a.player.notes@,
        Tab::Inventory => a.player.inventory@,
        Tab::Spells => a.player.spells@,
    }
}

/// `a` with the tracker of the content-list pane replaced.
pub open spec fn with_tab_tracker(a: App, t: ScrollProvider) -> App {
    App { tab_scroll_provider: t, ..a }
}

/// `a` with the tracker of the active popup replaced.
pub open spec fn with_popup_tracker(a: App, t: ScrollProvider) -> App {
    App { popup_scroll_provider: t, ..a }
}

/// The focused index stays within the field count of the current mode.
pub open spec fn index_ok(a: App) -> bool {
    match a.selected {
        Some(Selected::TopBarItem) => a.index <= 4,
        Some(Selected::StatItem) => a.index <= 5,
        Some(Selected::InfoItem) => a.index <= 6,
        _ => true,
    }
}

/// Editing happens only in a mode with an editable control, and a
/// content-list line is edited only while one exists.
pub open spec fn editing_ok(a: App) -> bool {
    a.editing ==> match a.selected {
        Some(Selected::TopBarItem) => true,
        Some(Selected::StatItem) => true,
        Some(Selected::InfoItem) => true,
        Some(Selected::FreeLookup) => true,
        Some(Selected::TabItem) => spec_current_tab(a).len() >= 1,
        _ => false,
    }
}

/// While a list popup is open, the popup tracker's bound matches the
/// list it scrolls: the completion candidates, the file list, or the
/// fixed row count of the slots, funds and proficiency popups.
pub open spec fn popup_ok(a: App) -> bool {
    match a.selected {
        Some(Selected::Completion(_)) | Some(Selected::FreeLookupSelect) => match a
            .current_lookup {
            Some(LookupResult::Completion(v)) => 1 <= v@.len() <= u32::MAX
                && a.popup_scroll_provider@.item_count == Some(v@.len() as u32),
            Some(LookupResult::Invalid(_)) => true,
            _ => false,
        },
        Some(Selected::Load) => match a.current_lookup {
            Some(LookupResult::Files(f)) => f@.len() <= u32::MAX
                && a.popup_scroll_provider@.item_count == Some(at_least_one(f@.len() as u32)),
            _ => false,
        },
        Some(Selected::SpellSlots) => a.popup_scroll_provider@.item_count == Some(9u32),
        Some(Selected::Funds) => a.popup_scroll_provider@.item_count == Some(4u32),
        Some(Selected::Proficiency) => a.popup_scroll_provider@.item_count == Some(18u32),
        _ => true,
    }
}

/// Well-formedness of the whole application state: the record is within
/// its canonical bounds, the content-list tracker is bound to the length
/// of the active list, and mode, index and popup bound are consistent.
pub open spec fn wf(a: App) -> bool {
    &&& bounds_ok(a.player)
    &&& a.player.notes@.len() <= u32::MAX
    &&& a.player.inventory@.len() <= u32::MAX
    &&& a.player.spells@.len() <= u32::MAX
    &&& a.tab_scroll_provider@.item_count == Some(
        at_least_one(spec_current_tab(a).len() as u32),
    )
    &&& index_ok(a)
    &&& editing_ok(a)
    &&& popup_ok(a)
}

/// The control descriptor for the current mode and focused index, as
/// [`App::get_selected_type`] resolves it.
pub open spec fn spec_resolve(a: App) -> Option<ControlType> {
    match a.selected {
        Some(Selected::TopBarItem) => if a.index == 0 {
            Some(ControlType::TextInput(TextField::Name))
        } else if a.index == 1 {
            Some(ControlType::CycleFn(CycleTag::Race))
        } else if a.index == 2 {
            Some(ControlType::CycleRecalc(NumField::Level, 1, 20))
        } else if a.index == 3 {
            Some(ControlType::CycleFn(CycleTag::Class))
        } else {
            Some(ControlType::CycleFn(CycleTag::Alignment))
        },
        Some(Selected::StatItem) => Some(
            ControlType::CycleRecalc(NumField::Stat(a.index), 1, 30),
        ),
        Some(Selected::InfoItem) => if a.index == 0 {
            Some(ControlType::Cycle(NumField::Hp, 0, a.player.max_hp))
        } else if a.index == 1 {
            Some(ControlType::Cycle(NumField::MaxHp, 1, u32::MAX))
        } else if a.index == 2 {
            Some(ControlType::Cycle(NumField::TempHp, 0, u32::MAX))
        } else if a.index == 3 {
            Some(ControlType::Cycle(NumField::Ac, 0, 50))
        } else if a.index == 4 {
            Some(ControlType::Cycle(NumField::ProfBonus, 2, 6))
        } else if a.index == 5 {
            Some(ControlType::Cycle(NumField::HitDiceRemaining, 0, a.player.hit_dice))
        } else {
            Some(ControlType::CycleFn(CycleTag::Background))
        },
        Some(Selected::TabItem) => Some(ControlType::TextInput(TextField::TabLine)),
        Some(Selected::FreeLookup) => Some(ControlType::TextInput(TextField::LookupBuffer)),
        _ => None,
    }
}

/// What accepting a completion does to the content lists, relative to
/// the state `a0` the completion popup was opened over: the part of the
/// chosen candidate's name beyond the trimmed length of the originating
/// line is appended to that line; an invalid search, or a line that no
/// longer exists, changes nothing.
pub open spec fn spec_finish_lines(a0: App, a1: App) -> bool {
    let t0 = spec_current_tab(a0);
    match a0.current_lookup {
        Some(LookupResult::Completion(v)) => {
            let ci = a0.popup_scroll_provider@.cursor_line as int;
            let tgt = a0.selected->Some_0->Completion_0 as int;
            if tgt < t0.len() {
                let cur = t0[tgt]@;
                let name = v@[ci].name@;
                let k = spec_trim(cur).len() as int;
                let suffix = if k <= name.len() {
                    name.skip(k)
                } else {
                    Seq::<char>::empty()
                };
                spec_current_tab(a1) == t0.update(tgt, spec_current_tab(a1)[tgt])
                    && spec_current_tab(a1)[tgt]@ == cur + suffix
            } else {
                a1.player == a0.player
            }
        },
        Some(LookupResult::Invalid(_)) => a1.player == a0.player,
        _ => a1.player == a0.player,
    }
}

impl App {
    /// A fresh state: a default record, no selection, both trackers
    /// bound to a single line.
    pub fn new() -> (r: Self)
        ensures
            wf(r),
            r.selected is None,
            r.current_lookup is None,
            !r.should_quit,
            !r.editing,
            r.current_tab == Tab::Notes,
            r.index == 0,
            r.error is None,
            r.lookup_buffer@.len() == 0,
            r.tab_scroll_provider@ == (ViewportView {
                cursor_line: 0u32,
                scroll_offset: 0u32,
                frame_height: 1u32,
                item_count: Some(1u32),
            }),
            r.popup_scroll_provider@ == (ViewportView {
                cursor_line: 0u32,
                scroll_offset: 0u32,
                frame_height: 1u32,
                item_count: Some(1u32),
            }),
            r.player.level == 1,
            r.player.class == crate::player::class::Class::Fighter,
            r.player.race == crate::player::race::Race::Human,
            r.player.background == crate::player::background::Background::Acolyte,
            r.player.alignment == crate::player::alignment::Alignment::TN,
            r.player.stats == (crate::player::stats::Stats {
                strength: 11u32,
                dexterity: 11u32,
                constitution: 11u32,
                intelligence: 11u32,
                wisdom: 11u32,
                charisma: 11u32,
            }),
            r.player.hit_dice == 8,
            r.player.hit_dice_remaining == 1,
            r.player.hp == 10,
            r.player.max_hp == 10,
            r.player.temp_hp == 0,
            r.player.ac == 10,
            r.player.prof_bonus == 2,
            r.player.spell_slots == crate::player::spells::spec_slots_from(
                1,
                crate::player::class::Class::Fighter,
            ),
            r.player.spell_slots_remaining == r.player.spell_slots,
            r.player.funds == (crate::player::funds::Funds { pp: 0u32, gp: 0u32, sp: 0u32, cp: 0u32 }),
            forall|i: int| 0 <= i < 18 ==> r.player.skills@[i]
                == crate::player::skills::ProficiencyLevel::Untrained,
            r.player.name@.len() == 0,
            r.player.notes@.len() == 0,
            r.player.inventory@.len() == 0,
            r.player.spells@.len() == 0,
    {
        App {
            player: Player::default(),
            should_quit: false,
            editing: false,
            current_tab: Tab::default(),
            current_lookup: None,
            lookup_buffer: String::new(),
            selected: None,
            index: 0,
            error: None,
            tab_scroll_provider: ScrollProvider::new(1, Some(1)),
            popup_scroll_provider: ScrollProvider::new(1, Some(1)),
        }
    }

    /// Ask the caller to terminate at the next cycle.
    pub fn quit(&mut self)
        ensures
            *final(self) == (App { should_quit: true, ..*old(self) }),
    {
        self.should_quit = true;
    }

    /// Record an error message and force the error popup open: any
    /// in-flight lookup result is dropped and the popup bound detached
    /// so the message can scroll freely.
    pub fn show_error(&mut self, error: String)
        requires
            wf(*old(self)),
        ensures
            wf(*final(self)),
            *final(self) == (App {
                error: Some(error),
                selected: Some(Selected::Error),
                editing: false,
                current_lookup: None,
                popup_scroll_provider: final(self).popup_scroll_provider,
                ..*old(self)
            }),
            final(self).popup_scroll_provider@ == (ViewportView {
                item_count: None,
                ..old(self).popup_scroll_provider@
            }),
    {
        self.error = Some(error);
        self.selected = Some(Selected::Error);
        self.editing = false;
        self.current_lookup = None;
        self.popup_scroll_provider.clear_max();
    }

    /// Update the height of the content-list viewport from the height of
    /// the whole frame: the two three-row bars above the pane and its
    /// own border and bottom bar take nine rows.
    pub fn update_viewport_height(&mut self, height: u32)
        requires
            wf(*old(self)),
        ensures
            wf(*final(self)),
            *final(self) == with_tab_tracker(*old(self), final(self).tab_scroll_provider),
            final(self).tab_scroll_provider@ == (ViewportView {
                frame_height: at_least_one(height.saturating_sub(9)),
                ..old(self).tab_scroll_provider@
            }),
    {
        self.tab_scroll_provider.update_frame_height(height.saturating_sub(9));
    }

    /// The tracker of the content-list pane.
    pub fn tab_scroll(&self) -> (r: &ScrollProvider)
        ensures
            r == &self.tab_scroll_provider,
    {
        &self.tab_scroll_provider
    }

    /// A mutable handle on the tracker of the content-list pane.  A
    /// caller that rebinds it is responsible for keeping it bound to the
    /// active list's length.
    pub fn tab_scroll_mut(&mut self) -> (r: &mut ScrollProvider)
        ensures
            *r == old(self).tab_scroll_provider,
            *final(self) == with_tab_tracker(*old(self), *final(r)),
    {
        &mut self.tab_scroll_provider
    }

    /// The tracker of the active popup.
    pub fn popup_scroll(&self) -> (r: &ScrollProvider)
        ensures
            r == &self.popup_scroll_provider,
    {
        &self.popup_scroll_provider
    }

    /// A mutable handle on the tracker of the active popup.
    pub fn popup_scroll_mut(&mut self) -> (r: &mut ScrollProvider)
        ensures
            *r == old(self).popup_scroll_provider,
            *final(self) == with_popup_tracker(*old(self), *final(r)),
    {
        &mut self.popup_scroll_provider
    }

    /// The lines of the active content list.
    pub fn current_tab(&self) -> (r: &Vec<String>)
        ensures
            r@ == spec_current_tab(*self),
    {
        match self.current_tab {
            Tab::Notes => &self.player.notes,
            Tab::Inventory => &self.player.inventory,
            Tab::Spells => &self.player.spells,
        }
    }

    /// A mutable handle on the lines of the active content list.  A
    /// caller that changes their number is responsible for rebinding the
    /// content-list tracker.
    pub fn current_tab_mut(&mut self) -> (r: &mut Vec<String>)
        ensures
            r@ == spec_current_tab(*old(self)),
            final(self).player == (match old(self).current_tab {
                Tab::Notes => Player { notes: *final(r), ..old(self).player },
                Tab::Inventory => Player { inventory: *final(r), ..old(self).player },
                Tab::Spells => Player { spells: *final(r), ..old(self).player },
            }),
            final(self).current_tab == old(self).current_tab,
            final(self).should_quit == old(self).should_quit,
            final(self).editing == old(self).editing,
            final(self).current_lookup == old(self).current_lookup,
            final(self).lookup_buffer == old(self).lookup_buffer,
            final(self).selected == old(self).selected,
            final(self).index == old(self).index,
            final(self).error == old(self).error,
            final(self).tab_scroll_provider == old(self).tab_scroll_provider,
            final(self).popup_scroll_provider == old(self).popup_scroll_provider,
    {
        match self.current_tab {
            Tab::Notes => &mut self.player.notes,
            Tab::Inventory => &mut self.player.inventory,
            Tab::Spells => &mut self.player.spells,
        }
    }

    /// Switch the active content list and rebind the content-list
    /// tracker to the new list's length; a cursor past the new end is
    /// clamped.
    pub fn update_tab(&mut self, tab: Tab)
        requires
            wf(*old(self)),
            !old(self).editing,
        ensures
            wf(*final(self)),
            *final(self) == (App {
                current_tab: tab,
                tab_scroll_provider: final(self).tab_scroll_provider,
                ..*old(self)
            }),
            final(self).tab_scroll_provider@ == spec_set_max(
                old(self).tab_scroll_provider@,
                spec_current_tab(App { current_tab: tab, ..*old(self) }).len() as u32,
            ),
    {
        self.current_tab = tab;
        let len = self.current_tab().len() as u32;
        self.tab_scroll_provider.set_max(len);
    }

    /// Add an empty entry to the active content list, after the line
    /// under the cursor (or first, when the list is empty), rebind the
    /// tracker and move the cursor down onto the new entry.
    pub fn append_item_to_tab(&mut self)
        requires
            wf(*old(self)),
            spec_current_tab(*old(self)).len() < u32::MAX,
        ensures
            wf(*final(self)),
            ({
                let t0 = spec_current_tab(*old(self));
                let line = old(self).tab_scroll_provider@.cursor_line as int;
                let pos = if t0.len() == 0 { 0int } else { line + 1 };
                let t1 = spec_current_tab(*final(self));
                &&& 0 <= pos <= t0.len()
                &&& t1 == t0.insert(pos, t1[pos])
                &&& t1[pos]@.len() == 0
            }),
            final(self).tab_scroll_provider@ == spec_scroll_down(
                spec_set_max(
                    old(self).tab_scroll_provider@,
                    (spec_current_tab(*old(self)).len() + 1) as u32,
                ),
                1,
            ),
            final(self).player == (match old(self).current_tab {
                Tab::Notes => (Player { notes: final(self).player.notes, ..old(self).player }),
                Tab::Inventory => (Player {
                    inventory: final(self).player.inventory,
                    ..old(self).player
                }),
                Tab::Spells => (Player { spells: final(self).player.spells, ..old(self).player }),
            }),
            *final(self) == (App {
                player: final(self).player,
                tab_scroll_provider: final(self).tab_scroll_provider,
                ..*old(self)
            }),
    {
        proof {
            use_type_invariant(&self.tab_scroll_provider);
        }
        let mut item = self.tab_scroll_provider.get_line() as usize;

        let tab = self.current_tab_mut();
        if tab.len() > 0 {
            item = item + 1;
        }
        tab.insert(item, String::new());

        let len = self.current_tab().len() as u32;
        self.tab_scroll_provider.set_max(len);
        self.tab_scroll_provider.scroll_down(1);
    }

    /// Add an empty entry to the active content list at the line under
    /// the cursor and rebind the tracker; the cursor keeps its index and
    /// therefore now refers to the new, empty entry.
    pub fn insert_item_to_tab(&mut self)
        requires
            wf(*old(self)),
            spec_current_tab(*old(self)).len() < u32::MAX,
        ensures
            wf(*final(self)),
            ({
                let t0 = spec_current_tab(*old(self));
                let line = old(self).tab_scroll_provider@.cursor_line as int;
                let t1 = spec_current_tab(*final(self));
                &&& 0 <= line <= t0.len()
                &&& t1 == t0.insert(line, t1[line])
                &&& t1[line]@.len() == 0
            }),
            final(self).tab_scroll_provider@ == spec_set_max(
                old(self).tab_scroll_provider@,
                (spec_current_tab(*old(self)).len() + 1) as u32,
            ),
            final(self).tab_scroll_provider@.cursor_line
                == old(self).tab_scroll_provider@.cursor_line,
            final(self).player == (match old(self).current_tab {
                Tab::Notes => (Player { notes: final(self).player.notes, ..old(self).player }),
                Tab::Inventory => (Player {
                    inventory: final(self).player.inventory,
                    ..old(self).player
                }),
                Tab::Spells => (Player { spells: final(self).player.spells, ..old(self).player }),
            }),
            *final(self) == (App {
                player: final(self).player,
                tab_scroll_provider: final(self).tab_scroll_provider,
                ..*old(self)
            }),
    {
        proof {
            use_type_invariant(&self.tab_scroll_provider);
        }
        let item = self.tab_scroll_provider.get_line() as usize;
        let tab = self.current_tab_mut();
        tab.insert(item, String::new());

        let len = self.current_tab().len() as u32;
        self.tab_scroll_provider.set_max(len);
    }

    /// Remove the entry at the line under the cursor and rebind the
    /// tracker: deleting the last entry pulls the cursor back to the new
    /// last line, and deleting the only entry leaves the cursor on line
    /// zero of the now empty list.
    pub fn delete_item_from_tab(&mut self)
        requires
            wf(*old(self)),
            spec_current_tab(*old(self)).len() >= 1,
            !old(self).editing,
        ensures
            wf(*final(self)),
            ({
                let t0 = spec_current_tab(*old(self));
                let line = old(self).tab_scroll_provider@.cursor_line as int;
                let t1 = spec_current_tab(*final(self));
                &&& 0 <= line < t0.len()
                &&& t1 == t0.remove(line)
            }),
            final(self).tab_scroll_provider@ == spec_set_max(
                old(self).tab_scroll_provider@,
                (spec_current_tab(*old(self)).len() - 1) as u32,
            ),
            ({
                let l0 = spec_current_tab(*old(self)).len();
                let line = old(self).tab_scroll_provider@.cursor_line;
                &&& (l0 >= 2 && line == l0 - 1 ==> final(self).tab_scroll_provider@.cursor_line
                    == l0 - 2)
                &&& (l0 >= 2 && line < l0 - 1 ==> final(self).tab_scroll_provider@.cursor_line
                    == line)
                &&& (l0 == 1 ==> final(self).tab_scroll_provider@.cursor_line == 0
                    && spec_current_tab(*final(self)).len() == 0)
            }),
            final(self).player == (match old(self).current_tab {
                Tab::Notes => (Player { notes: final(self).player.notes, ..old(self).player }),
                Tab::Inventory => (Player {
                    inventory: final(self).player.inventory,
                    ..old(self).player
                }),
                Tab::Spells => (Player { spells: final(self).player.spells, ..old(self).player }),
            }),
            *final(self) == (App {
                player: final(self).player,
                tab_scroll_provider: final(self).tab_scroll_provider,
                ..*old(self)
            }),
    {
        proof {
            use_type_invariant(&self.tab_scroll_provider);
        }
        let item = self.tab_scroll_provider.get_line() as usize;

        let tab = self.current_tab_mut();
        tab.remove(item);

        let len = self.current_tab().len() as u32;
        self.tab_scroll_provider.set_max(len);
    }

    /// Look the given text up in the reference table and bind the result
    /// as the current popup payload: on a hit the popup scrolls freely
    /// over the entry text, on a miss a single-line notice is shown.
    fn lookup_text(&mut self, lookup: &Lookup, text: &String)
        requires
            wf(*old(self)),
            old(self).selected is None || old(self).selected == Some(Selected::TabItem),
        ensures
            wf(*final(self)),
            ({
                let i = find_key(lookup.spec_keys(), fold_seq(text@));
                if i >= 0 {
                    (match final(self).current_lookup {
                        Some(LookupResult::Success(e)) => e == lookup.spec_entries()[i],
                        _ => false,
                    }) && final(self).popup_scroll_provider@ == spec_reset(
                        (ViewportView { item_count: None, ..old(self).popup_scroll_provider@ }),
                    )
                } else {
                    (match final(self).current_lookup {
                        Some(LookupResult::Invalid(s)) => s@ == text@,
                        _ => false,
                    }) && final(self).popup_scroll_provider@ == spec_reset(
                        spec_set_max(old(self).popup_scroll_provider@, 1),
                    )
                }
            }),
            *final(self) == (App {
                current_lookup: final(self).current_lookup,
                popup_scroll_provider: final(self).popup_scroll_provider,
                ..*old(self)
            }),
    {
        self.current_lookup = match lookup.get_entry(text) {
            Some(entry) => {
                self.popup_scroll_provider.clear_max();
                Some(LookupResult::Success(entry.duplicate()))
            },
            None => {
                self.popup_scroll_provider.set_max(1);
                Some(LookupResult::Invalid(text.clone()))
            },
        };

        self.popup_scroll_provider.reset();
    }

    /// Look the content-list line under the cursor up in the reference
    /// table; the lookup popup opens, remembering the originating line.
    pub fn lookup_current_selection(&mut self, lookup: &Lookup)
        requires
            wf(*old(self)),
            old(self).selected == Some(Selected::TabItem),
            spec_current_tab(*old(self)).len() >= 1,
            !old(self).editing,
        ensures
            wf(*final(self)),
            final(self).selected == Some(
                Selected::ItemLookup(old(self).tab_scroll_provider@.cursor_line),
            ),
            ({
                let t0 = spec_current_tab(*old(self));
                let line = old(self).tab_scroll_provider@.cursor_line as int;
                let i = find_key(lookup.spec_keys(), fold_seq(t0[line]@));
                if i >= 0 {
                    (match final(self).current_lookup {
                        Some(LookupResult::Success(e)) => e == lookup.spec_entries()[i],
                        _ => false,
                    }) && final(self).popup_scroll_provider@ == spec_reset(
                        (ViewportView { item_count: None, ..old(self).popup_scroll_provider@ }),
                    )
                } else {
                    (match final(self).current_lookup {
                        Some(LookupResult::Invalid(s)) => s@ == t0[line]@,
                        _ => false,
                    }) && final(self).popup_scroll_provider@ == spec_reset(
                        spec_set_max(old(self).popup_scroll_provider@, 1),
                    )
                }
            }),
            *final(self) == (App {
                selected: final(self).selected,
                current_lookup: final(self).current_lookup,
                popup_scroll_provider: final(self).popup_scroll_provider,
                ..*old(self)
            }),
    {
        proof {
            use_type_invariant(&self.tab_scroll_provider);
        }
        let item = self.tab_scroll_provider.get_line();

        let text = self.current_tab()[item as usize].clone();
        self.lookup_text(lookup, &text);
        self.selected = Some(Selected::ItemLookup(item));
    }

    /// Look the record's class up in the reference table.
    pub fn lookup_class(&mut self, lookup: &Lookup)
        requires
            wf(*old(self)),
            old(self).selected is None,
        ensures
            wf(*final(self)),
            final(self).selected == Some(Selected::ClassLookup),
            ({
                let i = find_key(
                    lookup.spec_keys(),
                    fold_seq(crate::player::class::spec_class_name(old(self).player.class)),
                );
                if i >= 0 {
                    (match final(self).current_lookup {
                        Some(LookupResult::Success(e)) => e == lookup.spec_entries()[i],
                        _ => false,
                    }) && final(self).popup_scroll_provider@ == spec_reset(
                        (ViewportView { item_count: None, ..old(self).popup_scroll_provider@ }),
                    )
                } else {
                    (match final(self).current_lookup {
                        Some(LookupResult::Invalid(s)) => s@ == crate::player::class::spec_class_name(
                            old(self).player.class,
                        ),
                        _ => false,
                    }) && final(self).popup_scroll_provider@ == spec_reset(
                        spec_set_max(old(self).popup_scroll_provider@, 1),
                    )
                }
            }),
            *final(self) == (App {
                selected: final(self).selected,
                current_lookup: final(self).current_lookup,
                popup_scroll_provider: final(self).popup_scroll_provider,
                ..*old(self)
            }),
    {
        let text = self.player.class.name();
        self.lookup_text(lookup, &text);
        self.selected = Some(Selected::ClassLookup);
    }

    /// Look the record's race up in the reference table; subraces share
    /// the entry of their base race.
    pub fn lookup_race(&mut self, lookup: &Lookup)
        requires
            wf(*old(self)),
            old(self).selected is None,
        ensures
            wf(*final(self)),
            final(self).selected == Some(Selected::ClassLookup),
            ({
                let i = find_key(
                    lookup.spec_keys(),
                    fold_seq(crate::player::race::spec_lookup_name(old(self).player.race)),
                );
                if i >= 0 {
                    (match final(self).current_lookup {
                        Some(LookupResult::Success(e)) => e == lookup.spec_entries()[i],
                        _ => false,
                    }) && final(self).popup_scroll_provider@ == spec_reset(
                        (ViewportView { item_count: None, ..old(self).popup_scroll_provider@ }),
                    )
                } else {
                    (match final(self).current_lookup {
                        Some(LookupResult::Invalid(s)) => s@ == crate::player::race::spec_lookup_name(
                            old(self).player.race,
                        ),
                        _ => false,
                    }) && final(self).popup_scroll_provider@ == spec_reset(
                        spec_set_max(old(self).popup_scroll_provider@, 1),
                    )
                }
            }),
            *final(self) == (App {
                selected: final(self).selected,
                current_lookup: final(self).current_lookup,
                popup_scroll_provider: final(self).popup_scroll_provider,
                ..*old(self)
            }),
    {
        let text = self.player.race.to_lookup_string().to_owned();
        self.lookup_text(lookup, &text);
        self.selected = Some(Selected::ClassLookup);
    }

    /// Bind a list of loadable files as the popup payload and open the
    /// load menu: the popup tracker is bound to the number of candidates
    /// and reset.
    pub fn bind_files(&mut self, names: Vec<String>)
        requires
            wf(*old(self)),
            names@.len() <= u32::MAX,
            !old(self).editing,
        ensures
            wf(*final(self)),
            final(self).selected == Some(Selected::Load),
            final(self).current_lookup == Some(LookupResult::Files(names)),
            final(self).popup_scroll_provider@ == spec_reset(
                spec_set_max(old(self).popup_scroll_provider@, names@.len() as u32),
            ),
            *final(self) == (App {
                selected: final(self).selected,
                current_lookup: final(self).current_lookup,
                popup_scroll_provider: final(self).popup_scroll_provider,
                ..*old(self)
            }),
    {
        let count = names.len() as u32;
        self.selected = Some(Selected::Load);
        self.current_lookup = Some(LookupResult::Files(names));
        self.popup_scroll_provider.set_max(count);
        self.popup_scroll_provider.reset();
    }

    /// The completion candidates for `text`: every reference entry whose
    /// key starts with the trimmed, case-folded text.  The popup tracker
    /// is bound to the number of candidates, or to a single line when
    /// there is none and the text itself is returned as invalid.
    pub fn get_completion(&mut self, text: &String, lookup: &Lookup) -> (r: LookupResult)
        requires
            wf(*old(self)),
            lookup.spec_entries().len() <= u32::MAX,
            old(self).selected is None || old(self).selected == Some(Selected::TabItem)
                || old(self).selected == Some(Selected::FreeLookup),
        ensures
            wf(*final(self)),
            ({
                let comps = spec_completions(
                    lookup.spec_keys(),
                    lookup.spec_entries(),
                    fold_seq(spec_trim(text@)),
                );
                if comps.len() > 0 {
                    (r matches LookupResult::Completion(v) && v@ == comps)
                        && final(self).popup_scroll_provider@ == spec_set_max(
                        old(self).popup_scroll_provider@,
                        comps.len() as u32,
                    )
                } else {
                    (match r {
                        LookupResult::Invalid(s) => s@ == fold_seq(spec_trim(text@)),
                        _ => false,
                    }) && final(self).popup_scroll_provider@ == spec_set_max(
                        old(self).popup_scroll_provider@,
                        1,
                    )
                }
            }),
            *final(self) == (App {
                popup_scroll_provider: final(self).popup_scroll_provider,
                ..*old(self)
            }),
    {
        proof {
            lemma_completions_len(
                lookup.spec_keys(),
                lookup.spec_entries(),
                fold_seq(spec_trim(text@)),
            );
        }
        let comps = lookup.get_completions(text);

        if comps.len() > 0 {
            self.popup_scroll_provider.set_max(comps.len() as u32);
            LookupResult::Completion(comps)
        } else {
            self.popup_scroll_provider.set_max(1);
            let trimmed = trim_string(text);
            let norm = fold_string(&trimmed);
            LookupResult::Invalid(norm)
        }
    }

    /// Compute the completion candidates for the content-list line under
    /// the cursor, bind them as the popup payload, and open the lookup
    /// popup remembering the originating line.
    pub fn complete_current_selection(&mut self, lookup: &Lookup)
        requires
            wf(*old(self)),
            old(self).selected == Some(Selected::TabItem),
            spec_current_tab(*old(self)).len() >= 1,
            lookup.spec_entries().len() <= u32::MAX,
        ensures
            wf(*final(self)),
            final(self).selected == Some(
                Selected::ItemLookup(old(self).tab_scroll_provider@.cursor_line),
            ),
            !final(self).editing,
            ({
                let t0 = spec_current_tab(*old(self));
                let line = old(self).tab_scroll_provider@.cursor_line as int;
                let comps = spec_completions(
                    lookup.spec_keys(),
                    lookup.spec_entries(),
                    fold_seq(spec_trim(t0[line]@)),
                );
                if comps.len() > 0 {
                    (match final(self).current_lookup {
                        Some(LookupResult::Completion(v)) => v@ == comps,
                        _ => false,
                    }) && final(self).popup_scroll_provider@ == spec_reset(
                        spec_set_max(old(self).popup_scroll_provider@, comps.len() as u32),
                    )
                } else {
                    (match final(self).current_lookup {
                        Some(LookupResult::Invalid(s)) => s@ == fold_seq(spec_trim(t0[line]@)),
                        _ => false,
                    }) && final(self).popup_scroll_provider@ == spec_reset(
                        spec_set_max(old(self).popup_scroll_provider@, 1),
                    )
                }
            }),
            *final(self) == (App {
                selected: final(self).selected,
                editing: false,
                current_lookup: final(self).current_lookup,
                popup_scroll_provider: final(self).popup_scroll_provider,
                ..*old(self)
            }),
    {
        proof {
            use_type_invariant(&self.tab_scroll_provider);
        }
        let item = self.tab_scroll_provider.get_line();
        let text = self.current_tab()[item as usize].clone();

        self.editing = false;
        let result = self.get_completion(&text, lookup);

        self.selected = Some(Selected::ItemLookup(item));
        self.current_lookup = Some(result);
        self.popup_scroll_provider.reset();
    }

    /// Complete the originating content-list line with the candidate
    /// under the popup cursor: the part of the candidate's name beyond
    /// the trimmed length of the line is appended to it.  An invalid
    /// search completes nothing, and a line that no longer exists (the
    /// list shrank while the popup was open) is left alone.
    pub fn finish_completion(&mut self)
        requires
            wf(*old(self)),
            old(self).selected matches Some(Selected::Completion(_)),
        ensures
            wf(*final(self)),
            spec_finish_lines(*old(self), *final(self)),
            final(self).player == (match old(self).current_tab {
                Tab::Notes => (Player { notes: final(self).player.notes, ..old(self).player }),
                Tab::Inventory => (Player {
                    inventory: final(self).player.inventory,
                    ..old(self).player
                }),
                Tab::Spells => (Player { spells: final(self).player.spells, ..old(self).player }),
            }),
            *final(self) == (App { player: final(self).player, ..*old(self) }),
    {
        proof {
            use_type_invariant(&self.popup_scroll_provider);
        }
        let comp_item = self.popup_scroll_provider.get_line();

        let name: String = match &self.current_lookup {
            Some(LookupResult::Completion(v)) => v[comp_item as usize].name.clone(),
            _ => {
                return;
            },
        };

        let tab_item = match self.selected {
            Some(Selected::Completion(item)) => item,
            _ => {
                return;
            },
        };

        let tab_item = tab_item as usize;
        if tab_item >= self.current_tab().len() {
            return;
        }

        let cur = self.current_tab()[tab_item].clone();
        let trimmed = trim_string(&cur);
        let k = chars_vec(trimmed.as_str()).len();
        let name_len = chars_vec(name.as_str()).len();
        let suffix = if k <= name_len {
            suffix_from(&name, k)
        } else {
            String::new()
        };
        let joined = concat_string(&cur, &suffix);
        let tab = self.current_tab_mut();
        tab[tab_item] = joined;
    }

    /// The control descriptor for the currently selected mode and
    /// focused index, or nothing for read-only modes.  The descriptor is
    /// derived fresh from the current state and must not be cached
    /// across a mutation of the underlying list.
    pub fn get_selected_type(&self) -> (r: Option<ControlType>)
        ensures
            r == spec_resolve(*self),
    {
        match self.selected {
            Some(Selected::TopBarItem) => match self.index {
                0 => Some(ControlType::TextInput(TextField::Name)),
                1 => Some(ControlType::CycleFn(CycleTag::Race)),
                2 => Some(ControlType::CycleRecalc(NumField::Level, 1, 20)),
                3 => Some(ControlType::CycleFn(CycleTag::Class)),
                _ => Some(ControlType::CycleFn(CycleTag::Alignment)),
            },
            Some(Selected::StatItem) => Some(
                ControlType::CycleRecalc(NumField::Stat(self.index), 1, 30),
            ),
            Some(Selected::InfoItem) => match self.index {
                0 => Some(ControlType::Cycle(NumField::Hp, 0, self.player.max_hp)),
                1 => Some(ControlType::Cycle(NumField::MaxHp, 1, u32::MAX)),
                2 => Some(ControlType::Cycle(NumField::TempHp, 0, u32::MAX)),
                3 => Some(ControlType::Cycle(NumField::Ac, 0, 50)),
                4 => Some(ControlType::Cycle(NumField::ProfBonus, 2, 6)),
                5 => Some(ControlType::Cycle(NumField::HitDiceRemaining, 0, self.player.hit_dice)),
                _ => Some(ControlType::CycleFn(CycleTag::Background)),
            },
            Some(Selected::TabItem) => Some(ControlType::TextInput(TextField::TabLine)),
            Some(Selected::FreeLookup) => Some(ControlType::TextInput(TextField::LookupBuffer)),
            _ => None,
        }
    }

    /// Install a freshly loaded record: the record replaces the current
    /// one and the content-list tracker is rebound to the new active
    /// list's length.
    pub fn install_player(&mut self, p: Player)
        requires
            wf(*old(self)),
            bounds_ok(p),
            p.notes@.len() <= u32::MAX,
            p.inventory@.len() <= u32::MAX,
            p.spells@.len() <= u32::MAX,
            !old(self).editing,
            old(self).selected is None,
        ensures
            wf(*final(self)),
            final(self).player == p,
            final(self).tab_scroll_provider@ == spec_set_max(
                old(self).tab_scroll_provider@,
                spec_current_tab(*final(self)).len() as u32,
            ),
            *final(self) == (App {
                player: p,
                tab_scroll_provider: final(self).tab_scroll_provider,
                ..*old(self)
            }),
    {
        self.player = p;
        let len = self.current_tab().len() as u32;
        self.tab_scroll_provider.set_max(len);
    }

    /// Note the outcome of a save the caller performed: a successful
    /// save before quitting commits the quit, a failed save shows the
    /// error instead.
    pub fn note_save_result(&mut self, ok: bool, and_quit: bool, error: String)
        requires
            wf(*old(self)),
        ensures
            wf(*final(self)),
            ok && and_quit ==> *final(self) == (App { should_quit: true, ..*old(self) }),
            ok && !and_quit ==> *final(self) == *old(self),
            !ok ==> *final(self) == (App {
                error: Some(error),
                selected: Some(Selected::Error),
                editing: false,
                current_lookup: None,
                popup_scroll_provider: final(self).popup_scroll_provider,
                ..*old(self)
            }) && final(self).popup_scroll_provider@ == (ViewportView {
                item_count: None,
                ..old(self).popup_scroll_provider@
            }),
    {
        if ok {
            if and_quit {
                self.quit();
            }
        } else {
            self.show_error(error);
        }
    }
}

} // verus!
