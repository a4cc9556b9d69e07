use scrim::viewport::ScrollProvider;

fn assert_contained(t: &ScrollProvider, frame_height: u32) {
    let line = t.get_line();
    let scroll = t.get_scroll();
    assert!(scroll <= line);
    assert!(line < scroll + frame_height);
}

#[test]
fn scroll_down_follows_cursor() {
    let mut t = ScrollProvider::new(5, Some(10));
    t.scroll_down(3);
    assert_eq!(t.get_line(), 3);
    assert_eq!(t.get_scroll(), 0);
    t.scroll_down(10);
    assert_eq!(t.get_line(), 9);
    assert_eq!(t.get_scroll(), 5);
}

#[test]
fn set_max_clamps_cursor_and_shows_tail() {
    let mut t = ScrollProvider::new(5, Some(10));
    t.scroll_down(9);
    assert_eq!(t.get_line(), 9);
    assert_eq!(t.get_scroll(), 5);
    t.set_max(3);
    assert_eq!(t.get_line(), 2);
    assert_eq!(t.get_scroll(), 0);
}

#[test]
fn set_max_zero_coerces_to_one() {
    let mut t = ScrollProvider::new(5, Some(10));
    t.scroll_down(7);
    t.set_max(0);
    assert_eq!(t.get_line(), 0);
    assert_eq!(t.get_scroll(), 0);
    t.scroll_down(5);
    assert_eq!(t.get_line(), 0);
}

#[test]
fn set_max_above_cursor_keeps_cursor() {
    let mut t = ScrollProvider::new(4, Some(10));
    t.scroll_down(6);
    let line = t.get_line();
    let scroll = t.get_scroll();
    t.set_max(8);
    assert_eq!(t.get_line(), line);
    assert_eq!(t.get_scroll(), scroll);
}

#[test]
fn reset_always_returns_to_origin() {
    let mut t = ScrollProvider::new(3, Some(50));
    t.scroll_down(37);
    t.reset();
    assert_eq!(t.get_line(), 0);
    assert_eq!(t.get_scroll(), 0);
    t.reset();
    assert_eq!(t.get_line(), 0);
    assert_eq!(t.get_scroll(), 0);
}

#[test]
fn scroll_up_saturates_at_zero() {
    let mut t = ScrollProvider::new(5, Some(10));
    t.scroll_down(4);
    t.scroll_up(100);
    assert_eq!(t.get_line(), 0);
    assert_eq!(t.get_scroll(), 0);
}

#[test]
fn scroll_down_never_passes_last_line() {
    let mut t = ScrollProvider::new(5, Some(7));
    t.scroll_down(u32::MAX);
    assert_eq!(t.get_line(), 6);
    t.scroll_down(1);
    assert_eq!(t.get_line(), 6);
}

#[test]
fn move_down_snaps_to_bottom_then_scrolls() {
    let mut t = ScrollProvider::new(5, Some(20));
    t.move_down(1);
    // cursor snapped to the bottom edge (line 4), then moved one more
    assert_eq!(t.get_line(), 5);
    assert_eq!(t.get_scroll(), 1);
}

#[test]
fn move_up_snaps_to_top_then_scrolls() {
    let mut t = ScrollProvider::new(5, Some(20));
    t.scroll_down(10);
    let scroll = t.get_scroll();
    t.move_up(1);
    assert_eq!(t.get_line(), scroll - 1);
    assert_eq!(t.get_scroll(), scroll - 1);
}

#[test]
fn containment_holds_after_every_navigation_call() {
    let mut t = ScrollProvider::new(4, Some(25));
    t.scroll_down(7);
    assert_contained(&t, 4);
    t.move_down(10);
    assert_contained(&t, 4);
    t.scroll_up(3);
    assert_contained(&t, 4);
    t.move_up(6);
    assert_contained(&t, 4);
    t.scroll_down(100);
    assert_contained(&t, 4);
    t.scroll_up(100);
    assert_contained(&t, 4);
    t.move_down(100);
    assert_contained(&t, 4);
    t.move_up(100);
    assert_contained(&t, 4);
}

#[test]
fn single_line_list_with_narrow_frame() {
    let mut t = ScrollProvider::new(1, Some(1));
    t.scroll_down(5);
    assert_eq!(t.get_line(), 0);
    assert_eq!(t.get_scroll(), 0);
    t.move_down(2);
    assert_eq!(t.get_line(), 0);
    t.move_up(2);
    assert_eq!(t.get_line(), 0);
}

#[test]
fn free_scroll_mode_has_no_bound() {
    let mut t = ScrollProvider::new(5, None);
    t.scroll_down(100);
    assert_eq!(t.get_line(), 100);
    assert_eq!(t.get_scroll(), 96);
    t.clear_max();
    t.scroll_down(100);
    assert_eq!(t.get_line(), 200);
}

#[test]
fn update_frame_height_changes_window_only() {
    let mut t = ScrollProvider::new(5, Some(30));
    t.scroll_down(12);
    let line = t.get_line();
    let scroll = t.get_scroll();
    t.update_frame_height(2);
    assert_eq!(t.get_line(), line);
    assert_eq!(t.get_scroll(), scroll);
    // the next scroll call recaptures the cursor
    t.scroll_down(1);
    let line = t.get_line();
    let scroll = t.get_scroll();
    assert!(scroll <= line && line < scroll + 2);
}
