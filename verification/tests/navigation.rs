//! Cursor and tab navigation behavior on concrete states.

use dds_dashboard::nav::ListCursor;
use dds_dashboard::ui::{KeyInput, Tui};

#[test]
fn selection_valid_after_every_operation() {
    let mut c = ListCursor::new();
    assert_eq!(c.selected, None);
    c.set_row_count(5);
    // Unset selection: every operation initializes within range.
    c.next_item();
    assert_eq!(c.selected, Some(0));
    c.next_item();
    assert_eq!(c.selected, Some(1));
    c.next_page();
    assert_eq!(c.selected, Some(4));
    c.previous_page();
    assert_eq!(c.selected, Some(0));
    c.previous_item();
    assert_eq!(c.selected, Some(0));
    c.last_item();
    assert_eq!(c.selected, Some(4));
    c.first_item();
    assert_eq!(c.selected, Some(0));
}

#[test]
fn empty_view_navigation_is_noop() {
    let mut c = ListCursor::new();
    c.next_item();
    c.previous_item();
    c.next_page();
    c.previous_page();
    c.first_item();
    c.last_item();
    assert_eq!(c.selected, None);
    assert_eq!(c.row_count, 0);
}

#[test]
fn next_then_previous_round_trip() {
    let mut c = ListCursor::new();
    c.set_row_count(4);
    c.next_item();
    c.next_item(); // index 1
    let before = c.selected;
    c.next_item();
    c.previous_item();
    assert_eq!(c.selected, before);
}

#[test]
fn saturation_at_boundaries_is_idempotent() {
    let mut c = ListCursor::new();
    c.set_row_count(3);
    c.last_item();
    c.next_item();
    c.next_item();
    assert_eq!(c.selected, Some(2));
    c.first_item();
    c.previous_item();
    c.previous_item();
    assert_eq!(c.selected, Some(0));
}

#[test]
fn first_and_last_targets() {
    let mut c = ListCursor::new();
    c.set_row_count(7);
    c.first_item();
    assert_eq!(c.selected, Some(0));
    c.last_item();
    assert_eq!(c.selected, Some(6));
}

#[test]
fn page_step_is_thirty_rows() {
    let mut c = ListCursor::new();
    c.set_row_count(100);
    c.first_item();
    c.next_page();
    assert_eq!(c.selected, Some(30));
    c.next_page();
    assert_eq!(c.selected, Some(60));
    c.previous_page();
    assert_eq!(c.selected, Some(30));
    c.next_page();
    c.next_page();
    assert_eq!(c.selected, Some(90));
    c.next_page();
    assert_eq!(c.selected, Some(99));
}

#[test]
fn shrinking_view_clamps_selection() {
    let mut c = ListCursor::new();
    c.set_row_count(10);
    c.last_item();
    assert_eq!(c.selected, Some(9));
    c.set_row_count(4);
    assert_eq!(c.selected, Some(3));
    c.set_row_count(0);
    assert_eq!(c.selected, None);
}

#[test]
fn four_next_tabs_wrap_to_start() {
    let mut t = Tui::new();
    assert_eq!(t.tab_index, 0);
    for _ in 0..4 {
        let quit = t.process_key(KeyInput::Tab);
        assert!(!quit);
    }
    assert_eq!(t.tab_index, 0);
}

#[test]
fn previous_tab_from_first_wraps_to_last() {
    let mut t = Tui::new();
    let quit = t.process_key(KeyInput::BackTab);
    assert!(!quit);
    assert_eq!(t.tab_index, 3);
}

#[test]
fn quit_key_reports_quit_and_changes_nothing() {
    let mut t = Tui::new();
    t.process_key(KeyInput::Tab);
    let quit = t.process_key(KeyInput::Char('q'));
    assert!(quit);
    assert_eq!(t.tab_index, 1);
    let not_quit = t.process_key(KeyInput::Char('x'));
    assert!(!not_quit);
}

#[test]
fn inert_keys_change_nothing() {
    let mut t = Tui::new();
    assert!(!t.process_key(KeyInput::Left));
    assert!(!t.process_key(KeyInput::Right));
    assert!(!t.process_key(KeyInput::Other));
    assert_eq!(t.tab_index, 0);
    assert_eq!(t.tab_writer.table_state.selected, None);
}

#[test]
fn navigation_keys_only_touch_active_view() {
    let mut t = Tui::new();
    t.tab_writer.table_state.set_row_count(3);
    t.tab_reader.table_state.set_row_count(3);
    t.process_key(KeyInput::Down);
    assert_eq!(t.tab_writer.table_state.selected, Some(0));
    assert_eq!(t.tab_reader.table_state.selected, None);
    t.process_key(KeyInput::Tab);
    t.process_key(KeyInput::Down);
    t.process_key(KeyInput::Down);
    assert_eq!(t.tab_reader.table_state.selected, Some(1));
    assert_eq!(t.tab_writer.table_state.selected, Some(0));
}
