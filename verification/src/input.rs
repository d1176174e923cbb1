//! Input dispatch: what one decoded input event does to the application
//! state, and which network command it obliges the runtime to perform.
//!
//! The transitions are given as spec functions over the application model;
//! each executable handler is proved to realise its transition exactly.

use vstd::prelude::*;
use vstd::string::StringExecFns;

use crate::app::{next_selection, prev_selection, App, AppModel, ChatMessage, ChatMessageModel};
use crate::connection::{
    dialing_entry, multiaddr_parse, parse_failure_entry, parse_multiaddr, CommandModel,
    ConnectionModel, SwarmCommand,
};
use crate::ui::{ConnectionPageFocus, CycleFocus, PageFocus, UiModel};
use crate::utils::{coord_in_rect, spec_coord_in_rect, string_pop, string_push};

verus! {

/// What the event loop must do after an input event was handled.
#[derive(Clone, Copy, Debug, PartialEq, Eq, Structural)]
pub enum InputTask {
    Continue,
    Quit,
}

/// A decoded key, reduced to the keys the core reacts to.
#[derive(Clone, Copy, Debug, PartialEq, Eq, Structural)]
pub enum KeyCode {
    Backspace,
    Enter,
    Tab,
    Up,
    Down,
    Char(char),
    Other,
}

/// The modifier held during a key press, reduced to the combinations the
/// core reacts to.
#[derive(Clone, Copy, Debug, PartialEq, Eq, Structural)]
pub enum Modifiers {
    Plain,
    Shift,
    Control,
    Other,
}

/// The kind of a mouse event.
#[derive(Clone, Copy, Debug, PartialEq, Eq, Structural)]
pub enum MouseKind {
    ScrollDown,
    ScrollUp,
    Other,
}

/// A decoded input event, as the input backend surfaces it.
#[derive(Clone, Copy, Debug, PartialEq, Eq, Structural)]
pub enum InputEvent {
    Key { code: KeyCode, modifiers: Modifiers },
    Mouse { kind: MouseKind, column: u16, row: u16 },
    Other,
}

/// What an input event does on the chat page: character keys edit the input
/// buffer, Enter commits the buffer as a message — echoing it into the
/// history, tagged with the local identity, clearing the buffer, and
/// obliging a publish of the committed text on the current topic via the
/// live handle. An empty buffer commits an empty message.
pub open spec fn chat_page_transition(m: AppModel, event: InputEvent) -> (AppModel, CommandModel) {
    match event {
        InputEvent::Key { code, modifiers } => match (code, modifiers) {
            (KeyCode::Backspace, Modifiers::Plain) => (
                AppModel {
                    ui: UiModel {
                        chat_input: if m.ui.chat_input.len() > 0 {
                            m.ui.chat_input.drop_last()
                        } else {
                            m.ui.chat_input
                        },
                        ..m.ui
                    },
                    ..m
                },
                CommandModel::Idle,
            ),
            (KeyCode::Enter, Modifiers::Plain) => (
                AppModel {
                    ui: UiModel { chat_input: Seq::empty(), ..m.ui },
                    history: m.history.push(ChatMessageModel {
                        source_peer_id: Some(m.connection.local_peer_id),
                        nick: None,
                        text: m.ui.chat_input,
                    }),
                    ..m
                },
                CommandModel::Publish {
                    generation: m.connection.swarm.generation,
                    topic: m.connection.current_topic,
                    text: m.ui.chat_input,
                },
            ),
            (KeyCode::Char(c), Modifiers::Control) => if c == 'u' {
                (AppModel { ui: UiModel { chat_input: Seq::empty(), ..m.ui }, ..m }, CommandModel::Idle)
            } else {
                (m, CommandModel::Idle)
            },
            (KeyCode::Char(c), Modifiers::Plain) => (
                AppModel { ui: UiModel { chat_input: m.ui.chat_input.push(c), ..m.ui }, ..m },
                CommandModel::Idle,
            ),
            (KeyCode::Char(c), Modifiers::Shift) => (
                AppModel { ui: UiModel { chat_input: m.ui.chat_input.push(c), ..m.ui }, ..m },
                CommandModel::Idle,
            ),
            _ => (m, CommandModel::Idle),
        },
        _ => (m, CommandModel::Idle),
    }
}

/// The connection-field focus cycling that runs before the field-specific
/// handling: Down selects the next field, Up the previous one.
pub open spec fn cycle_field_transition(m: AppModel, event: InputEvent) -> AppModel {
    match event {
        InputEvent::Key { code: KeyCode::Down, modifiers: Modifiers::Plain } => AppModel {
            ui: UiModel {
                connection_page_focus: m.ui.connection_page_focus.spec_next(),
                ..m.ui
            },
            ..m
        },
        InputEvent::Key { code: KeyCode::Up, modifiers: Modifiers::Plain } => AppModel {
            ui: UiModel {
                connection_page_focus: m.ui.connection_page_focus.spec_prev(),
                ..m.ui
            },
            ..m
        },
        _ => m,
    }
}

/// What an input event does while the connection log has focus: a scroll
/// whose coordinate falls within the last-recorded log region moves the
/// selection; everything else is ignored.
pub open spec fn connection_log_focus_transition(m: AppModel, event: InputEvent) -> AppModel {
    match event {
        InputEvent::Mouse { kind, column, row } => match kind {
            MouseKind::ScrollDown => match m.ui.connection_log_allocation {
                Some(rect) => if spec_coord_in_rect((column, row), rect) {
                    AppModel {
                        ui: UiModel {
                            connection_log_selection: next_selection(
                                m.ui.connection_log_selection,
                                m.connection.log.len(),
                            ),
                            ..m.ui
                        },
                        ..m
                    }
                } else {
                    m
                },
                None => m,
            },
            MouseKind::ScrollUp => match m.ui.connection_log_allocation {
                Some(rect) => if spec_coord_in_rect((column, row), rect) {
                    AppModel {
                        ui: UiModel {
                            connection_log_selection: prev_selection(m.ui.connection_log_selection),
                            ..m.ui
                        },
                        ..m
                    }
                } else {
                    m
                },
                None => m,
            },
            MouseKind::Other => m,
        },
        _ => m,
    }
}

/// What committing the regenerate action does before the runtime rebuilds
/// the handle: the topic returns to the default, the diagnostic log is
/// cleared, and the log selection is reset to none, never a stale index.
pub open spec fn regenerate_transition(m: AppModel) -> AppModel {
    AppModel {
        ui: UiModel { connection_log_selection: None, ..m.ui },
        connection: ConnectionModel {
            log: Seq::empty(),
            current_topic: "test-net"@,
            ..m.connection
        },
        ..m
    }
}

/// What a key does while the address field has focus: character keys and
/// Backspace edit the buffer; Enter parses the buffer as a multiaddress —
/// on success the dial attempt is logged and a dial of the parsed address
/// via the live handle is obliged (the buffer keeps its text); on failure
/// exactly one log entry with the parse error is appended and no dial is
/// obliged.
pub open spec fn addr_input_transition(m: AppModel, code: KeyCode, modifiers: Modifiers) -> (
    AppModel,
    CommandModel,
) {
    match (code, modifiers) {
        (KeyCode::Char(c), Modifiers::Plain) => (
            AppModel { ui: UiModel { addr_input: m.ui.addr_input.push(c), ..m.ui }, ..m },
            CommandModel::Idle,
        ),
        (KeyCode::Char(c), Modifiers::Shift) => (
            AppModel { ui: UiModel { addr_input: m.ui.addr_input.push(c), ..m.ui }, ..m },
            CommandModel::Idle,
        ),
        (KeyCode::Backspace, Modifiers::Plain) => (
            AppModel {
                ui: UiModel {
                    addr_input: if m.ui.addr_input.len() > 0 {
                        m.ui.addr_input.drop_last()
                    } else {
                        m.ui.addr_input
                    },
                    ..m.ui
                },
                ..m
            },
            CommandModel::Idle,
        ),
        (KeyCode::Enter, Modifiers::Plain) => match multiaddr_parse(m.ui.addr_input) {
            Ok(canon) => (
                AppModel {
                    connection: ConnectionModel {
                        log: m.connection.log.push(dialing_entry(canon)),
                        ..m.connection
                    },
                    ..m
                },
                CommandModel::Dial { generation: m.connection.swarm.generation, address: canon },
            ),
            Err(e) => (
                AppModel {
                    connection: ConnectionModel {
                        log: m.connection.log.push(parse_failure_entry(e)),
                        ..m.connection
                    },
                    ..m
                },
                CommandModel::Idle,
            ),
        },
        _ => (m, CommandModel::Idle),
    }
}

/// What an input event does on the connection page: Down and Up cycle the
/// field focus, then the event acts on the field that now has focus.
pub open spec fn connection_page_transition(m: AppModel, event: InputEvent) -> (
    AppModel,
    CommandModel,
) {
    let m1 = cycle_field_transition(m, event);
    match m1.ui.connection_page_focus {
        ConnectionPageFocus::ConnectionLog => (
            connection_log_focus_transition(m1, event),
            CommandModel::Idle,
        ),
        ConnectionPageFocus::RegenerateSwarm => match event {
            InputEvent::Key { code: KeyCode::Enter, modifiers: Modifiers::Plain } => (
                regenerate_transition(m1),
                CommandModel::Regenerate,
            ),
            _ => (m1, CommandModel::Idle),
        },
        ConnectionPageFocus::AddrInputField => match event {
            InputEvent::Key { code, modifiers } => addr_input_transition(m1, code, modifiers),
            _ => (m1, CommandModel::Idle),
        },
    }
}

/// What one input event does to the whole application state: Tab toggles
/// the page focus and is consumed; the quit combination ends the loop; any
/// other event acts on the page that has focus. Input handling never fails:
/// every failure becomes a diagnostic log entry.
pub open spec fn dispatch_transition(m: AppModel, event: InputEvent) -> (
    AppModel,
    InputTask,
    CommandModel,
) {
    if event matches InputEvent::Key { code: KeyCode::Tab, modifiers: Modifiers::Plain } {
        (
            AppModel { ui: UiModel { page_focus: m.ui.page_focus.spec_next(), ..m.ui }, ..m },
            InputTask::Continue,
            CommandModel::Idle,
        )
    } else if event matches InputEvent::Key {
        code: KeyCode::Char('c'),
        modifiers: Modifiers::Control,
    } {
        (m, InputTask::Quit, CommandModel::Idle)
    } else {
        match m.ui.page_focus {
            PageFocus::Chat => {
                let r = chat_page_transition(m, event);
                (r.0, InputTask::Continue, r.1)
            },
            PageFocus::Connection => {
                let r = connection_page_transition(m, event);
                (r.0, InputTask::Continue, r.1)
            },
        }
    }
}

/// Law: every input event keeps the connection-log selection a valid index
/// into the log (or index zero on an empty log): scroll steps clamp to the
/// log's bounds, the log only grows outside regeneration, and regeneration
/// resets the selection to none along with clearing the log.
pub proof fn lemma_dispatch_preserves_selection_range(m: AppModel, event: InputEvent)
    requires
        crate::app::selection_in_range(m),
    ensures
        crate::app::selection_in_range(dispatch_transition(m, event).0),
{
}

/// Law: a committed regeneration leaves the diagnostic log empty and the
/// log selection at none, and once the runtime has replaced the handle the
/// live generation differs from the superseded one, so a publish obliged by
/// a subsequent chat commit acts on the new handle and never on the old.
pub proof fn lemma_regeneration_isolates_handle(m: AppModel, local_peer_id: Seq<char>)
    requires
        m.connection.swarm.generation < u64::MAX,
    ensures
        ({
            let committed = regenerate_transition(m);
            let rebuilt = AppModel {
                connection: (ConnectionModel {
                    swarm: (crate::connection::SwarmHandle {
                        generation: (committed.connection.swarm.generation + 1) as u64,
                    }),
                    local_peer_id,
                    ..committed.connection
                }),
                ..committed
            };
            let publish = chat_page_transition(
                rebuilt,
                InputEvent::Key { code: KeyCode::Enter, modifiers: Modifiers::Plain },
            ).1;
            &&& committed.connection.log.len() == 0
            &&& committed.ui.connection_log_selection is None
            &&& rebuilt.connection.swarm.generation != m.connection.swarm.generation
            &&& publish matches CommandModel::Publish { generation, .. }
                && generation == rebuilt.connection.swarm.generation
                && generation != m.connection.swarm.generation
        }),
{
}

/// Handles one input event on the chat page, exactly as
/// `chat_page_transition` describes.
pub fn handle_input_event_chat_page(event: InputEvent, app: &mut App) -> (cmd: SwarmCommand)
    ensures
        final(app)@ == chat_page_transition(old(app)@, event).0,
        cmd@ == chat_page_transition(old(app)@, event).1,
{
    let ghost target = chat_page_transition(old(app)@, event);
    match event {
        InputEvent::Key { code, modifiers } => match (code, modifiers) {
            (KeyCode::Backspace, Modifiers::Plain) => {
                string_pop(&mut app.ui.chat_input);
                assert(app@ =~= target.0);
                SwarmCommand::Idle
            },
            (KeyCode::Enter, Modifiers::Plain) => {
                let cmd = SwarmCommand::Publish {
                    generation: app.connection.swarm.generation,
                    topic: app.connection.current_topic.clone(),
                    text: app.ui.chat_input.clone(),
                };
                let ghost prior_history = app.history@;
                let local = app.connection.local_peer_id.duplicate();
                app.history.push(ChatMessage::new(Some(local), None, app.ui.chat_input.clone()));
                app.ui.chat_input = String::new();
                proof {
                    crate::utils::lemma_map_values_push(
                        prior_history,
                        |msg: ChatMessage| msg@,
                        app.history@.last(),
                    );
                    assert(app@ =~= target.0);
                    assert(cmd@ =~= target.1);
                }
                cmd
            },
            (KeyCode::Char('u'), Modifiers::Control) => {
                app.ui.chat_input = String::new();
                assert(app@ =~= target.0);
                SwarmCommand::Idle
            },
            (KeyCode::Char(c), Modifiers::Plain) | (KeyCode::Char(c), Modifiers::Shift) => {
                string_push(&mut app.ui.chat_input, c);
                assert(app@ =~= target.0);
                SwarmCommand::Idle
            },
            _ => {
                assert(app@ =~= target.0);
                SwarmCommand::Idle
            },
        },
        _ => {
            assert(app@ =~= target.0);
            SwarmCommand::Idle
        },
    }
}

/// Handles one input event on the connection page, exactly as
/// `connection_page_transition` describes.
pub fn handle_input_event_connection_page(event: InputEvent, app: &mut App) -> (cmd: SwarmCommand)
    ensures
        final(app)@ == connection_page_transition(old(app)@, event).0,
        cmd@ == connection_page_transition(old(app)@, event).1,
{
    let ghost target = connection_page_transition(old(app)@, event);
    match event {
        InputEvent::Key { code: KeyCode::Down, modifiers: Modifiers::Plain } => {
            app.ui.connection_page_focus = app.ui.connection_page_focus.next();
        },
        InputEvent::Key { code: KeyCode::Up, modifiers: Modifiers::Plain } => {
            app.ui.connection_page_focus = app.ui.connection_page_focus.prev();
        },
        _ => {},
    }
    let ghost m1 = cycle_field_transition(old(app)@, event);
    assert(app@ =~= m1);

    match app.ui.connection_page_focus {
        ConnectionPageFocus::ConnectionLog => {
            match event {
                InputEvent::Mouse { kind, column, row } => match kind {
                    MouseKind::ScrollDown => {
                        if let Some(allocation) = app.ui.connection_log_allocation {
                            if coord_in_rect((column, row), allocation) {
                                app.connection_log_next();
                            }
                        }
                    },
                    MouseKind::ScrollUp => {
                        if let Some(allocation) = app.ui.connection_log_allocation {
                            if coord_in_rect((column, row), allocation) {
                                app.connection_log_previous();
                            }
                        }
                    },
                    MouseKind::Other => {},
                },
                _ => {},
            }
            assert(app@ =~= target.0);
            SwarmCommand::Idle
        },
        ConnectionPageFocus::RegenerateSwarm => match event {
            InputEvent::Key { code: KeyCode::Enter, modifiers: Modifiers::Plain } => {
                app.connection.current_topic = String::from_str("test-net");
                app.connection.log.clear();
                app.connection_log_unselect();
                assert(app@ =~= target.0);
                SwarmCommand::Regenerate
            },
            _ => {
                assert(app@ =~= target.0);
                SwarmCommand::Idle
            },
        },
        ConnectionPageFocus::AddrInputField => match event {
            InputEvent::Key { code, modifiers } => match (code, modifiers) {
                (KeyCode::Char(c), Modifiers::Plain) | (KeyCode::Char(c), Modifiers::Shift) => {
                    string_push(&mut app.ui.addr_input, c);
                    assert(app@ =~= target.0);
                    SwarmCommand::Idle
                },
                (KeyCode::Backspace, Modifiers::Plain) => {
                    string_pop(&mut app.ui.addr_input);
                    assert(app@ =~= target.0);
                    SwarmCommand::Idle
                },
                (KeyCode::Enter, Modifiers::Plain) => match parse_multiaddr(app.ui.addr_input.as_str()) {
                    Ok(canon) => {
                        let cmd = app.connection.dial(canon);
                        proof {
                            assert(app@ =~= target.0);
                            assert(cmd@ =~= target.1);
                        }
                        cmd
                    },
                    Err(e) => {
                        let mut entry = String::from_str(
                            "parsing input as MultiAddr failed with Err ",
                        );
                        entry.append(e.as_str());
                        app.connection.push_log_entry(entry.as_str());
                        assert(app@ =~= target.0);
                        SwarmCommand::Idle
                    },
                },
                _ => {
                    assert(app@ =~= target.0);
                    SwarmCommand::Idle
                },
            },
            _ => {
                assert(app@ =~= target.0);
                SwarmCommand::Idle
            },
        },
    }
}

/// Handles one input event: the global interceptions first (quit, page
/// toggle), then the active page's handler; exactly as
/// `dispatch_transition` describes. Returns whether the loop goes on, and
/// the command the runtime must perform on the live session.
pub fn handle_input_event(event: InputEvent, app: &mut App) -> (r: (InputTask, SwarmCommand))
    ensures
        ({
            let t = dispatch_transition(old(app)@, event);
            &&& final(app)@ == t.0
            &&& r.0 == t.1
            &&& r.1@ == t.2
        }),
{
    let ghost target = dispatch_transition(old(app)@, event);
    match event {
        InputEvent::Key { code: KeyCode::Tab, modifiers: Modifiers::Plain } => {
            app.ui.page_focus = app.ui.page_focus.next();
            assert(app@ =~= target.0);
            (InputTask::Continue, SwarmCommand::Idle)
        },
        InputEvent::Key { code: KeyCode::Char('c'), modifiers: Modifiers::Control } => {
            assert(app@ =~= target.0);
            (InputTask::Quit, SwarmCommand::Idle)
        },
        _ => {
            let cmd = match app.ui.page_focus {
                PageFocus::Chat => handle_input_event_chat_page(event, app),
                PageFocus::Connection => handle_input_event_connection_page(event, app),
            };
            assert(app@ =~= target.0);
            assert(cmd@ =~= target.2);
            (InputTask::Continue, cmd)
        },
    }
}

} // verus!
