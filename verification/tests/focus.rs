use p2pchat::app::App;
use p2pchat::connection::{Connection, PeerId, SwarmCommand};
use p2pchat::input::{handle_input_event, InputEvent, InputTask, KeyCode, Modifiers};
use p2pchat::ui::{ConnectionPageFocus, CycleFocus, PageFocus};

fn fresh_app() -> App {
    App::new(Connection::new(PeerId(String::from("local-peer"))))
}

fn key(code: KeyCode, modifiers: Modifiers) -> InputEvent {
    InputEvent::Key { code, modifiers }
}

#[test]
fn page_focus_starts_on_chat() {
    let app = fresh_app();
    assert_eq!(app.ui.page_focus, PageFocus::Chat);
}

#[test]
fn page_focus_toggle_parity() {
    // An even number of toggles lands on Chat, an odd number on Connection.
    let mut page = PageFocus::Chat;
    for n in 1..=6 {
        page = page.next();
        if n % 2 == 0 {
            assert_eq!(page, PageFocus::Chat);
        } else {
            assert_eq!(page, PageFocus::Connection);
        }
    }
}

#[test]
fn tab_toggles_page_focus() {
    let mut app = fresh_app();
    let (task, cmd) = handle_input_event(key(KeyCode::Tab, Modifiers::Plain), &mut app);
    assert_eq!(task, InputTask::Continue);
    assert!(matches!(cmd, SwarmCommand::Idle));
    assert_eq!(app.ui.page_focus, PageFocus::Connection);
    let (_, _) = handle_input_event(key(KeyCode::Tab, Modifiers::Plain), &mut app);
    assert_eq!(app.ui.page_focus, PageFocus::Chat);
}

#[test]
fn control_c_quits() {
    let mut app = fresh_app();
    let (task, cmd) = handle_input_event(key(KeyCode::Char('c'), Modifiers::Control), &mut app);
    assert_eq!(task, InputTask::Quit);
    assert!(matches!(cmd, SwarmCommand::Idle));
}

#[test]
fn connection_focus_next_then_prev_is_identity() {
    for f in [
        ConnectionPageFocus::ConnectionLog,
        ConnectionPageFocus::RegenerateSwarm,
        ConnectionPageFocus::AddrInputField,
    ] {
        assert_eq!(f.next().prev(), f);
        assert_eq!(f.prev().next(), f);
    }
}

#[test]
fn connection_focus_cycle_length_three() {
    for f in [
        ConnectionPageFocus::ConnectionLog,
        ConnectionPageFocus::RegenerateSwarm,
        ConnectionPageFocus::AddrInputField,
    ] {
        assert_eq!(f.next().next().next(), f);
    }
    assert_eq!(
        ConnectionPageFocus::ConnectionLog.next(),
        ConnectionPageFocus::RegenerateSwarm
    );
    assert_eq!(
        ConnectionPageFocus::RegenerateSwarm.next(),
        ConnectionPageFocus::AddrInputField
    );
    assert_eq!(
        ConnectionPageFocus::AddrInputField.next(),
        ConnectionPageFocus::ConnectionLog
    );
}

#[test]
fn down_and_up_cycle_connection_field_focus() {
    let mut app = fresh_app();
    app.ui.page_focus = PageFocus::Connection;
    assert_eq!(
        app.ui.connection_page_focus,
        ConnectionPageFocus::AddrInputField
    );
    let (_, _) = handle_input_event(key(KeyCode::Down, Modifiers::Plain), &mut app);
    assert_eq!(
        app.ui.connection_page_focus,
        ConnectionPageFocus::ConnectionLog
    );
    let (_, _) = handle_input_event(key(KeyCode::Up, Modifiers::Plain), &mut app);
    assert_eq!(
        app.ui.connection_page_focus,
        ConnectionPageFocus::AddrInputField
    );
}
