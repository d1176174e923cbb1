use p2pchat::app::App;
use p2pchat::connection::{Connection, PeerId};
use p2pchat::input::{handle_input_event, InputEvent, KeyCode, Modifiers, MouseKind};
use p2pchat::ui::{ConnectionPageFocus, PageFocus};
use p2pchat::utils::{coord_in_rect, Rect};

fn app_with_log(entries: &[&str]) -> App {
    let mut app = App::new(Connection::new(PeerId(String::from("local-peer"))));
    for e in entries {
        app.connection.push_log_entry(e);
    }
    app
}

#[test]
fn fresh_ui_selects_index_zero() {
    let app = app_with_log(&[]);
    assert_eq!(app.ui.connection_log_liststate.selected, Some(0));
}

#[test]
fn next_from_no_selection_selects_first_entry() {
    let mut app = app_with_log(&["a", "b", "c"]);
    app.connection_log_unselect();
    assert_eq!(app.ui.connection_log_liststate.selected, None);
    app.connection_log_next();
    assert_eq!(app.ui.connection_log_liststate.selected, Some(0));
}

#[test]
fn next_saturates_at_last_entry() {
    let mut app = app_with_log(&["a", "b", "c"]);
    app.connection_log_unselect();
    for _ in 0..10 {
        app.connection_log_next();
        let selected = app.ui.connection_log_liststate.selected.unwrap();
        assert!(selected <= 2);
    }
    assert_eq!(app.ui.connection_log_liststate.selected, Some(2));
}

#[test]
fn previous_saturates_at_first_entry() {
    let mut app = app_with_log(&["a", "b", "c"]);
    app.connection_log_unselect();
    for _ in 0..10 {
        app.connection_log_next();
    }
    app.connection_log_previous();
    assert_eq!(app.ui.connection_log_liststate.selected, Some(1));
    for _ in 0..10 {
        app.connection_log_previous();
    }
    assert_eq!(app.ui.connection_log_liststate.selected, Some(0));
}

#[test]
fn next_on_empty_log_is_harmless() {
    let mut app = app_with_log(&[]);
    app.connection_log_next();
    assert_eq!(app.ui.connection_log_liststate.selected, Some(0));
    app.connection_log_previous();
    assert_eq!(app.ui.connection_log_liststate.selected, Some(0));
}

#[test]
fn scroll_inside_log_region_moves_selection() {
    let mut app = app_with_log(&["a", "b", "c"]);
    app.ui.page_focus = PageFocus::Connection;
    app.ui.connection_page_focus = ConnectionPageFocus::ConnectionLog;
    app.ui.connection_log_allocation = Some(Rect { x: 0, y: 0, width: 50, height: 20 });
    let (_, _) = handle_input_event(
        InputEvent::Mouse { kind: MouseKind::ScrollDown, column: 5, row: 5 },
        &mut app,
    );
    assert_eq!(app.ui.connection_log_liststate.selected, Some(1));
    let (_, _) = handle_input_event(
        InputEvent::Mouse { kind: MouseKind::ScrollUp, column: 5, row: 5 },
        &mut app,
    );
    assert_eq!(app.ui.connection_log_liststate.selected, Some(0));
}

#[test]
fn scroll_outside_log_region_is_ignored() {
    let mut app = app_with_log(&["a", "b", "c"]);
    app.ui.page_focus = PageFocus::Connection;
    app.ui.connection_page_focus = ConnectionPageFocus::ConnectionLog;
    app.ui.connection_log_allocation = Some(Rect { x: 0, y: 0, width: 50, height: 20 });
    let (_, _) = handle_input_event(
        InputEvent::Mouse { kind: MouseKind::ScrollDown, column: 60, row: 5 },
        &mut app,
    );
    assert_eq!(app.ui.connection_log_liststate.selected, Some(0));
}

#[test]
fn scroll_without_recorded_region_is_ignored() {
    let mut app = app_with_log(&["a", "b"]);
    app.ui.page_focus = PageFocus::Connection;
    app.ui.connection_page_focus = ConnectionPageFocus::ConnectionLog;
    assert_eq!(app.ui.connection_log_allocation, None);
    let (_, _) = handle_input_event(
        InputEvent::Mouse { kind: MouseKind::ScrollDown, column: 1, row: 1 },
        &mut app,
    );
    assert_eq!(app.ui.connection_log_liststate.selected, Some(0));
}

#[test]
fn coord_in_rect_checks_both_axes() {
    // The rectangle occupies columns 2..=11 and rows 3..=10.
    let rect = Rect { x: 2, y: 3, width: 10, height: 8 };
    assert!(coord_in_rect((2, 3), rect));
    assert!(coord_in_rect((11, 5), rect));
    assert!(coord_in_rect((11, 10), rect));
    assert!(!coord_in_rect((1, 5), rect));
    assert!(!coord_in_rect((12, 5), rect));
    assert!(!coord_in_rect((5, 2), rect));
    assert!(!coord_in_rect((5, 11), rect));
}
