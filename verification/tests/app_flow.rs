use scrim::events::{handle_event, Effect, KeyCode};
use scrim::lookup::{Lookup, LookupEntry};
use scrim::orchestrator::{App, ControlType, LookupResult, NumField, Selected, Tab, TextField};
use scrim::player::class::Class;

fn entry(name: &str) -> LookupEntry {
    let mut e = LookupEntry::default();
    e.name = name.to_string();
    e
}

fn loaded_table() -> Lookup {
    let mut l = Lookup::new();
    l.insert_entry("fireball".to_string(), entry("Fireball"));
    l.insert_entry("firebolt".to_string(), entry("Firebolt"));
    l.set_loaded();
    l
}

fn app_with_notes(lines: &[&str]) -> App {
    let mut app = App::new();
    for l in lines.iter() {
        app.player.notes.push(l.to_string());
    }
    app.update_viewport_height(19);
    app.update_tab(Tab::Notes);
    app
}

#[test]
fn insert_keeps_cursor_on_the_new_empty_entry() {
    let mut app = app_with_notes(&["a", "b", "c"]);
    app.tab_scroll_mut().scroll_down(1);
    assert_eq!(app.tab_scroll().get_line(), 1);

    app.insert_item_to_tab();

    assert_eq!(app.player.notes, vec!["a", "", "b", "c"]);
    assert_eq!(app.tab_scroll().get_line(), 1);
}

#[test]
fn append_moves_cursor_onto_the_new_entry() {
    let mut app = app_with_notes(&["a", "b"]);
    app.append_item_to_tab();
    assert_eq!(app.player.notes, vec!["a", "", "b"]);
    assert_eq!(app.tab_scroll().get_line(), 1);
}

#[test]
fn delete_last_entry_pulls_cursor_back() {
    let mut app = app_with_notes(&["a", "b", "c"]);
    app.tab_scroll_mut().scroll_down(2);
    assert_eq!(app.tab_scroll().get_line(), 2);

    app.delete_item_from_tab();

    assert_eq!(app.player.notes, vec!["a", "b"]);
    assert_eq!(app.tab_scroll().get_line(), 1);
}

#[test]
fn delete_only_entry_leaves_a_well_defined_empty_state() {
    let mut app = app_with_notes(&["only"]);
    app.delete_item_from_tab();
    assert_eq!(app.player.notes.len(), 0);
    assert_eq!(app.tab_scroll().get_line(), 0);
    assert_eq!(app.tab_scroll().get_scroll(), 0);
}

#[test]
fn switching_lists_rebinds_the_tracker() {
    let mut app = app_with_notes(&["a", "b", "c"]);
    app.player.inventory.push("sword".to_string());
    app.tab_scroll_mut().scroll_down(2);
    app.update_tab(Tab::Inventory);
    // the single-item list clamps the cursor
    assert_eq!(app.tab_scroll().get_line(), 0);
    assert_eq!(app.current_tab(), &vec!["sword".to_string()]);
}

#[test]
fn resolver_maps_modes_to_controls() {
    let mut app = App::new();
    assert!(app.get_selected_type().is_none());

    app.selected = Some(Selected::TopBarItem);
    app.index = 0;
    assert!(matches!(
        app.get_selected_type(),
        Some(ControlType::TextInput(TextField::Name))
    ));
    app.index = 2;
    assert!(matches!(
        app.get_selected_type(),
        Some(ControlType::CycleRecalc(NumField::Level, 1, 20))
    ));

    app.selected = Some(Selected::StatItem);
    app.index = 3;
    assert!(matches!(
        app.get_selected_type(),
        Some(ControlType::CycleRecalc(NumField::Stat(3), 1, 30))
    ));

    app.selected = Some(Selected::InfoItem);
    app.index = 3;
    assert!(matches!(
        app.get_selected_type(),
        Some(ControlType::Cycle(NumField::Ac, 0, 50))
    ));

    app.selected = Some(Selected::Quitting);
    assert!(app.get_selected_type().is_none());
}

#[test]
fn quit_menu_flow() {
    let mut app = App::new();
    let lookup = Lookup::new();
    let e = handle_event(&mut app, &lookup, KeyCode::Char('q'));
    assert!(matches!(e, Effect::Nothing));
    assert!(app.selected == Some(Selected::Quitting));

    let _ = handle_event(&mut app, &lookup, KeyCode::Char('n'));
    assert!(app.selected.is_none());

    let _ = handle_event(&mut app, &lookup, KeyCode::Char('q'));
    let _ = handle_event(&mut app, &lookup, KeyCode::Char('s'));
    assert!(app.should_quit);
}

#[test]
fn quit_and_save_names_a_nameless_record() {
    let mut app = App::new();
    let lookup = Lookup::new();
    let _ = handle_event(&mut app, &lookup, KeyCode::Char('q'));
    let e = handle_event(&mut app, &lookup, KeyCode::Char('y'));
    assert!(matches!(e, Effect::Save { and_quit: true }));
    assert_eq!(app.player.name, "player");
    // the quit itself waits for the save result
    assert!(!app.should_quit);
    app.note_save_result(true, true, String::new());
    assert!(app.should_quit);
}

#[test]
fn failed_save_shows_the_error() {
    let mut app = App::new();
    let lookup = Lookup::new();
    let e = handle_event(&mut app, &lookup, KeyCode::Char('S'));
    assert!(matches!(e, Effect::Save { and_quit: false }));
    app.note_save_result(false, false, "disk full".to_string());
    assert!(app.selected == Some(Selected::Error));
    assert_eq!(app.error.as_deref(), Some("disk full"));

    let _ = handle_event(&mut app, &lookup, KeyCode::Char('q'));
    assert!(app.selected.is_none());
    assert!(app.error.is_none());
}

#[test]
fn editing_the_name_through_keys() {
    let mut app = App::new();
    let lookup = Lookup::new();
    let _ = handle_event(&mut app, &lookup, KeyCode::Char('u'));
    assert!(app.selected == Some(Selected::TopBarItem));
    let _ = handle_event(&mut app, &lookup, KeyCode::Enter);
    assert!(app.editing);
    for c in ['M', 'o', 'r', 'a'] {
        let _ = handle_event(&mut app, &lookup, KeyCode::Char(c));
    }
    assert_eq!(app.player.name, "Mora");
    let _ = handle_event(&mut app, &lookup, KeyCode::Backspace);
    assert_eq!(app.player.name, "Mor");
    let _ = handle_event(&mut app, &lookup, KeyCode::Esc);
    assert!(!app.editing);
}

#[test]
fn cycling_the_level_recalculates() {
    let mut app = App::new();
    let lookup = Lookup::new();
    let _ = handle_event(&mut app, &lookup, KeyCode::Char('u'));
    let _ = handle_event(&mut app, &lookup, KeyCode::Char('l'));
    let _ = handle_event(&mut app, &lookup, KeyCode::Char('l'));
    assert_eq!(app.index, 2);
    let _ = handle_event(&mut app, &lookup, KeyCode::Enter);
    for _ in 0..4 {
        let _ = handle_event(&mut app, &lookup, KeyCode::Char('k'));
    }
    assert_eq!(app.player.level, 5);
    assert_eq!(app.player.prof_bonus, 3);
    // the level never cycles below one
    for _ in 0..10 {
        let _ = handle_event(&mut app, &lookup, KeyCode::Char('j'));
    }
    assert_eq!(app.player.level, 1);
}

#[test]
fn tab_editing_splits_lines_on_enter() {
    let mut app = app_with_notes(&["hello world"]);
    let lookup = Lookup::new();
    let _ = handle_event(&mut app, &lookup, KeyCode::Char('t'));
    assert!(app.selected == Some(Selected::TabItem));
    let _ = handle_event(&mut app, &lookup, KeyCode::Char('I'));
    assert!(app.editing);
    assert_eq!(app.index, 0);
    for _ in 0..5 {
        let _ = handle_event(&mut app, &lookup, KeyCode::Right);
    }
    assert_eq!(app.index, 5);
    let _ = handle_event(&mut app, &lookup, KeyCode::Enter);
    assert_eq!(app.player.notes, vec!["hello", " world"]);
    assert_eq!(app.index, 0);
}

#[test]
fn editing_an_empty_list_creates_a_line() {
    let mut app = app_with_notes(&[]);
    let lookup = Lookup::new();
    let _ = handle_event(&mut app, &lookup, KeyCode::Char('t'));
    let _ = handle_event(&mut app, &lookup, KeyCode::Char('i'));
    assert!(app.editing);
    assert_eq!(app.player.notes.len(), 1);
    let _ = handle_event(&mut app, &lookup, KeyCode::Char('z'));
    assert_eq!(app.player.notes, vec!["z"]);
}

#[test]
fn completion_appends_the_candidate_suffix() {
    let mut app = app_with_notes(&["fire"]);
    let lookup = loaded_table();
    let _ = handle_event(&mut app, &lookup, KeyCode::Char('t'));
    let _ = handle_event(&mut app, &lookup, KeyCode::Tab);
    assert!(matches!(app.selected, Some(Selected::Completion(0))));
    assert!(matches!(
        app.current_lookup,
        Some(LookupResult::Completion(_))
    ));
    let _ = handle_event(&mut app, &lookup, KeyCode::Enter);
    assert_eq!(app.player.notes, vec!["fireball"]);
    assert!(app.selected == Some(Selected::TabItem));
    assert!(app.current_lookup.is_none());
}

#[test]
fn completion_of_unknown_text_is_invalid() {
    let mut app = app_with_notes(&["zzz"]);
    let lookup = loaded_table();
    let _ = handle_event(&mut app, &lookup, KeyCode::Char('t'));
    let _ = handle_event(&mut app, &lookup, KeyCode::Tab);
    assert!(matches!(app.current_lookup, Some(LookupResult::Invalid(_))));
    // choosing does nothing
    let _ = handle_event(&mut app, &lookup, KeyCode::Enter);
    assert_eq!(app.player.notes, vec!["zzz"]);
}

#[test]
fn item_lookup_restores_the_tab_on_escape() {
    let mut app = app_with_notes(&["fireball"]);
    let lookup = loaded_table();
    let _ = handle_event(&mut app, &lookup, KeyCode::Char('t'));
    let _ = handle_event(&mut app, &lookup, KeyCode::Char('f'));
    assert!(matches!(app.selected, Some(Selected::ItemLookup(0))));
    assert!(matches!(app.current_lookup, Some(LookupResult::Success(_))));
    let _ = handle_event(&mut app, &lookup, KeyCode::Esc);
    assert!(app.selected == Some(Selected::TabItem));
    assert!(app.current_lookup.is_none());
}

#[test]
fn lookup_waits_for_the_table() {
    let mut app = app_with_notes(&["fireball"]);
    let lookup = Lookup::new();
    let _ = handle_event(&mut app, &lookup, KeyCode::Char('t'));
    let e = handle_event(&mut app, &lookup, KeyCode::Char('f'));
    assert!(matches!(e, Effect::LoadLookup));
    // once loaded, the same key proceeds
    let lookup = loaded_table();
    let _ = handle_event(&mut app, &lookup, KeyCode::Char('f'));
    assert!(matches!(app.selected, Some(Selected::ItemLookup(0))));
}

#[test]
fn class_lookup_misses_politely() {
    let mut app = App::new();
    let lookup = loaded_table();
    let _ = handle_event(&mut app, &lookup, KeyCode::Char('C'));
    assert!(app.selected == Some(Selected::ClassLookup));
    assert!(matches!(app.current_lookup, Some(LookupResult::Invalid(_))));
    let _ = handle_event(&mut app, &lookup, KeyCode::Char('q'));
    assert!(app.selected.is_none());
}

#[test]
fn free_lookup_flow() {
    let mut app = App::new();
    let lookup = loaded_table();
    let _ = handle_event(&mut app, &lookup, KeyCode::Char('L'));
    assert!(app.selected == Some(Selected::FreeLookup));
    for c in ['F', 'i', 'r', 'e'] {
        let _ = handle_event(&mut app, &lookup, KeyCode::Char(c));
    }
    assert_eq!(app.lookup_buffer, "Fire");
    let _ = handle_event(&mut app, &lookup, KeyCode::Enter);
    assert!(app.selected == Some(Selected::FreeLookupSelect));
    // pick the second candidate
    let _ = handle_event(&mut app, &lookup, KeyCode::Char('j'));
    let _ = handle_event(&mut app, &lookup, KeyCode::Enter);
    assert!(app.selected == Some(Selected::ClassLookup));
    match &app.current_lookup {
        Some(LookupResult::Success(e)) => assert_eq!(e.name, "Firebolt"),
        _ => panic!("expected a single entry"),
    }
}

#[test]
fn load_menu_flow() {
    let mut app = App::new();
    let lookup = Lookup::new();
    let e = handle_event(&mut app, &lookup, KeyCode::Char('['));
    assert!(matches!(e, Effect::ListFiles));
    app.bind_files(vec!["hero.player".to_string(), "npc.player".to_string()]);
    assert!(app.selected == Some(Selected::Load));
    let _ = handle_event(&mut app, &lookup, KeyCode::Char('j'));
    let e = handle_event(&mut app, &lookup, KeyCode::Enter);
    match e {
        Effect::LoadFile(name) => assert_eq!(name, "npc.player"),
        _ => panic!("expected a load request"),
    }
    assert!(app.selected.is_none());
}

#[test]
fn spell_slot_popup_edits_slots() {
    let mut app = App::new();
    app.player.class = Class::Wizard;
    app.player.level = 3;
    app.player.recalculate();
    let lookup = Lookup::new();
    let _ = handle_event(&mut app, &lookup, KeyCode::Char('E'));
    assert!(app.selected == Some(Selected::SpellSlots));
    // spend a first-level slot, then one more than exists
    let _ = handle_event(&mut app, &lookup, KeyCode::Char('x'));
    assert_eq!(app.player.spell_slots_remaining.nth(0), 3);
    let _ = handle_event(&mut app, &lookup, KeyCode::Char('r'));
    assert_eq!(app.player.spell_slots_remaining.nth(0), 4);
    // regaining never passes the total
    let _ = handle_event(&mut app, &lookup, KeyCode::Char('a'));
    assert_eq!(app.player.spell_slots_remaining.nth(0), 4);
}

#[test]
fn funds_popup_edits_money() {
    let mut app = App::new();
    let lookup = Lookup::new();
    let _ = handle_event(&mut app, &lookup, KeyCode::Char('F'));
    assert!(app.selected == Some(Selected::Funds));
    let _ = handle_event(&mut app, &lookup, KeyCode::Char('j'));
    let _ = handle_event(&mut app, &lookup, KeyCode::Char('A'));
    let _ = handle_event(&mut app, &lookup, KeyCode::Char('a'));
    assert_eq!(app.player.funds.gp, 11);
    let _ = handle_event(&mut app, &lookup, KeyCode::Char('X'));
    let _ = handle_event(&mut app, &lookup, KeyCode::Char('X'));
    assert_eq!(app.player.funds.gp, 0);
}

#[test]
fn proficiency_popup_sets_levels() {
    let mut app = App::new();
    let lookup = Lookup::new();
    let _ = handle_event(&mut app, &lookup, KeyCode::Char('P'));
    assert!(app.selected == Some(Selected::Proficiency));
    let _ = handle_event(&mut app, &lookup, KeyCode::Char('j'));
    let _ = handle_event(&mut app, &lookup, KeyCode::Char('e'));
    assert!(matches!(
        app.player.skills[1],
        scrim::player::skills::ProficiencyLevel::Double
    ));
    let _ = handle_event(&mut app, &lookup, KeyCode::Char('q'));
    assert!(app.selected.is_none());
}

#[test]
fn install_player_rebinds_the_tracker() {
    let mut app = App::new();
    let mut p = scrim::player::Player::default();
    p.notes.push("one".to_string());
    p.notes.push("two".to_string());
    app.install_player(p);
    assert_eq!(app.current_tab().len(), 2);
    app.tab_scroll_mut().scroll_down(10);
    assert_eq!(app.tab_scroll().get_line(), 1);
}

#[test]
fn error_popup_scrolls_freely() {
    let mut app = App::new();
    app.show_error("something broke".to_string());
    assert!(app.selected == Some(Selected::Error));
    let lookup = Lookup::new();
    let _ = handle_event(&mut app, &lookup, KeyCode::Char('J'));
    assert_eq!(app.popup_scroll().get_line(), 10);
}

#[test]
fn open_line_keys_insert_and_edit() {
    let mut app = app_with_notes(&["a", "b"]);
    let lookup = Lookup::new();
    let _ = handle_event(&mut app, &lookup, KeyCode::Char('t'));
    // open a line below the cursor
    let _ = handle_event(&mut app, &lookup, KeyCode::Char('O'));
    assert!(app.editing);
    assert_eq!(app.player.notes, vec!["a", "", "b"]);
    assert_eq!(app.tab_scroll().get_line(), 1);
    let _ = handle_event(&mut app, &lookup, KeyCode::Esc);
    // open a line at the cursor
    let _ = handle_event(&mut app, &lookup, KeyCode::Char('o'));
    assert_eq!(app.player.notes, vec!["a", "", "", "b"]);
    assert_eq!(app.tab_scroll().get_line(), 1);
}

#[test]
fn delete_key_removes_the_cursor_line() {
    let mut app = app_with_notes(&["a", "b", "c"]);
    let lookup = Lookup::new();
    let _ = handle_event(&mut app, &lookup, KeyCode::Char('t'));
    let _ = handle_event(&mut app, &lookup, KeyCode::Char('j'));
    let _ = handle_event(&mut app, &lookup, KeyCode::Char('d'));
    assert_eq!(app.player.notes, vec!["a", "c"]);
    // deleting everything leaves the well-defined empty state
    let _ = handle_event(&mut app, &lookup, KeyCode::Char('d'));
    let _ = handle_event(&mut app, &lookup, KeyCode::Char('d'));
    assert_eq!(app.player.notes.len(), 0);
    assert_eq!(app.tab_scroll().get_line(), 0);
}

#[test]
fn delete_char_key_edits_the_line() {
    let mut app = app_with_notes(&["abc"]);
    let lookup = Lookup::new();
    let _ = handle_event(&mut app, &lookup, KeyCode::Char('t'));
    let _ = handle_event(&mut app, &lookup, KeyCode::Right);
    assert_eq!(app.index, 1);
    let _ = handle_event(&mut app, &lookup, KeyCode::Char('x'));
    assert_eq!(app.player.notes, vec!["ac"]);
    assert_eq!(app.index, 0);
}

#[test]
fn popup_quit_key_restores_the_prior_mode() {
    let mut app = app_with_notes(&["fireball"]);
    let lookup = loaded_table();
    let _ = handle_event(&mut app, &lookup, KeyCode::Char('t'));
    let _ = handle_event(&mut app, &lookup, KeyCode::Char('f'));
    assert!(matches!(app.selected, Some(Selected::ItemLookup(0))));
    let _ = handle_event(&mut app, &lookup, KeyCode::Char('q'));
    assert!(app.selected == Some(Selected::TabItem));
    assert!(app.current_lookup.is_none());
}

#[test]
fn arrows_move_between_lines_while_editing() {
    let mut app = app_with_notes(&["one", "two"]);
    let lookup = Lookup::new();
    let _ = handle_event(&mut app, &lookup, KeyCode::Char('t'));
    let _ = handle_event(&mut app, &lookup, KeyCode::Char('i'));
    let _ = handle_event(&mut app, &lookup, KeyCode::Down);
    assert_eq!(app.tab_scroll().get_line(), 1);
    let _ = handle_event(&mut app, &lookup, KeyCode::Char('!'));
    assert_eq!(app.player.notes, vec!["one", "!two"]);
}
