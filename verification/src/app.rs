//! The application state: chat history, connection session and UI state,
//! plus the scroll-selection moves on the connection log.

use vstd::prelude::*;

use crate::connection::{Connection, ConnectionModel, log_view, peer_opt_view, PeerId};
use crate::ui::{initial_ui_model, Ui, UiModel};
use crate::utils::lemma_map_values_push;

verus! {

/// One chat message: the identity of its author (when known), an optional
/// nickname, and its text. The author identity is local bookkeeping, set
/// from the delivering event on receipt or to the local identity on send.
#[derive(Clone, Debug, PartialEq, Eq)]
pub struct ChatMessage {
    pub source_peer_id: Option<PeerId>,
    pub nick: Option<String>,
    pub text: String,
}

/// Mathematical model of a chat message.
#[verifier::ext_equal]
pub struct ChatMessageModel {
    pub source_peer_id: Option<Seq<char>>,
    pub nick: Option<Seq<char>>,
    pub text: Seq<char>,
}

/// The text of an optional nickname.
pub open spec fn nick_opt_view(n: Option<String>) -> Option<Seq<char>> {
    match n {
        Some(s) => Some(s@),
        None => None,
    }
}

impl View for ChatMessage {
    type V = ChatMessageModel;

    open spec fn view(&self) -> ChatMessageModel {
        ChatMessageModel {
            source_peer_id: peer_opt_view(self.source_peer_id),
            nick: nick_opt_view(self.nick),
            text: self.text@,
        }
    }
}

impl ChatMessage {
    pub fn new(source_peer_id: Option<PeerId>, nick: Option<String>, text: String) -> (m: ChatMessage)
        ensures
            m@ == (ChatMessageModel {
                source_peer_id: peer_opt_view(source_peer_id),
                nick: nick_opt_view(nick),
                text: text@,
            }),
    {
        ChatMessage { source_peer_id, nick, text }
    }
}

/// The models of the messages in a history.
pub open spec fn history_view(history: Seq<ChatMessage>) -> Seq<ChatMessageModel> {
    history.map_values(|m: ChatMessage| m@)
}

/// The whole application state: UI, chat history and connection session.
pub struct App {
    pub ui: Ui,
    pub history: Vec<ChatMessage>,
    pub connection: Connection,
}

/// Mathematical model of the whole application state.
#[verifier::ext_equal]
pub struct AppModel {
    pub ui: UiModel,
    pub history: Seq<ChatMessageModel>,
    pub connection: ConnectionModel,
}

impl View for App {
    type V = AppModel;

    open spec fn view(&self) -> AppModel {
        AppModel {
            ui: self.ui@,
            history: history_view(self.history@),
            connection: self.connection@,
        }
    }
}

/// The connection-log selection, when present, is a valid index into the
/// log — or index zero on an empty log, which rendering treats as nothing
/// selectable.
pub open spec fn selection_in_range(m: AppModel) -> bool {
    m.ui.connection_log_selection matches Some(i) ==> (i < m.connection.log.len() || i == 0)
}

/// The selection after one forward scroll step: an unselected list selects
/// the first entry; a selection below the last entry moves down one; at the
/// last entry (or past it, on an empty log) it stays put.
pub open spec fn next_selection(sel: Option<usize>, len: nat) -> Option<usize> {
    match sel {
        None => Some(0usize),
        Some(i) => if i + 1 < len {
            Some((i + 1) as usize)
        } else {
            Some(i)
        },
    }
}

/// The selection after one backward scroll step: an unselected list selects
/// the first entry; otherwise the selection moves up one and stops at zero.
pub open spec fn prev_selection(sel: Option<usize>) -> Option<usize> {
    match sel {
        None => Some(0usize),
        Some(i) => if i == 0 {
            Some(0usize)
        } else {
            Some((i - 1) as usize)
        },
    }
}

/// The selection after `k` forward scroll steps.
pub open spec fn iterate_next_selection(sel: Option<usize>, len: nat, k: nat) -> Option<usize>
    decreases k,
{
    if k == 0 {
        sel
    } else {
        next_selection(iterate_next_selection(sel, len, (k - 1) as nat), len)
    }
}

/// The selection after `k` backward scroll steps.
pub open spec fn iterate_prev_selection(sel: Option<usize>, k: nat) -> Option<usize>
    decreases k,
{
    if k == 0 {
        sel
    } else {
        prev_selection(iterate_prev_selection(sel, (k - 1) as nat))
    }
}

/// Law: on a log of length `len >= 1` with no prior selection, one forward
/// step selects the first entry, and `k` forward steps select entry `k - 1`
/// until the selection saturates at the last entry, which it never exceeds.
pub proof fn lemma_log_next_saturates(len: nat, k: nat)
    requires
        1 <= len <= usize::MAX,
        1 <= k,
    ensures
        iterate_next_selection(None, len, k) matches Some(i) && i == (if k - 1 < len - 1 {
            k - 1
        } else {
            len - 1
        }) && i < len,
    decreases k,
{
    if k == 1 {
        assert(iterate_next_selection(None, len, 0) == None::<usize>);
        assert(iterate_next_selection(None, len, 1) == next_selection(None, len));
    } else {
        lemma_log_next_saturates(len, (k - 1) as nat);
        assert(iterate_next_selection(None, len, k) == next_selection(
            iterate_next_selection(None, len, (k - 1) as nat),
            len,
        ));
    }
}

/// Law: from a selection at entry `start`, `k` backward steps select entry
/// `start - k` until the selection saturates at the first entry.
pub proof fn lemma_log_prev_saturates(start: usize, k: nat)
    ensures
        iterate_prev_selection(Some(start), k) matches Some(i) && i == (if k < start {
            start - k
        } else {
            0
        }),
    decreases k,
{
    if k > 0 {
        lemma_log_prev_saturates(start, (k - 1) as nat);
    }
}

impl App {
    /// A fresh application around a newly created session: initial UI state
    /// and an empty chat history.
    pub fn new(connection: Connection) -> (app: App)
        ensures
            app@ == (AppModel {
                ui: initial_ui_model(),
                history: Seq::empty(),
                connection: connection@,
            }),
    {
        let app = App { ui: Ui::new(), history: Vec::new(), connection };
        assert(app@ =~= (AppModel {
            ui: initial_ui_model(),
            history: Seq::empty(),
            connection: app.connection@,
        }));
        app
    }

    /// Moves the connection-log selection one entry forward, clamping at the
    /// last entry. The new selection shows only once the list is next drawn.
    pub fn connection_log_next(&mut self)
        ensures
            final(self)@ == (AppModel {
                ui: (UiModel {
                    connection_log_selection: next_selection(
                        old(self)@.ui.connection_log_selection,
                        old(self)@.connection.log.len(),
                    ),
                    ..old(self)@.ui
                }),
                ..old(self)@
            }),
    {
        let i: usize = match self.ui.connection_log_liststate.selected {
            Some(i) => {
                if self.connection.log.len() > 0 && i < self.connection.log.len() - 1 {
                    i + 1
                } else {
                    i
                }
            },
            None => 0,
        };
        self.ui.connection_log_liststate.select(Some(i));
        assert(self@ =~= (AppModel {
            ui: (UiModel {
                connection_log_selection: next_selection(
                    old(self)@.ui.connection_log_selection,
                    old(self)@.connection.log.len(),
                ),
                ..old(self)@.ui
            }),
            ..old(self)@
        }));
    }

    /// Moves the connection-log selection one entry backward, clamping at
    /// the first entry. The new selection shows only once the list is next
    /// drawn.
    pub fn connection_log_previous(&mut self)
        ensures
            final(self)@ == (AppModel {
                ui: (UiModel {
                    connection_log_selection: prev_selection(old(self)@.ui.connection_log_selection),
                    ..old(self)@.ui
                }),
                ..old(self)@
            }),
    {
        let i: usize = match self.ui.connection_log_liststate.selected {
            Some(i) => {
                if i == 0 {
                    0
                } else {
                    i - 1
                }
            },
            None => 0,
        };
        self.ui.connection_log_liststate.select(Some(i));
        assert(self@ =~= (AppModel {
            ui: (UiModel {
                connection_log_selection: prev_selection(old(self)@.ui.connection_log_selection),
                ..old(self)@.ui
            }),
            ..old(self)@
        }));
    }

    /// Clears the connection-log selection.
    pub fn connection_log_unselect(&mut self)
        ensures
            final(self)@ == (AppModel {
                ui: (UiModel { connection_log_selection: None, ..old(self)@.ui }),
                ..old(self)@
            }),
    {
        self.ui.connection_log_liststate.select(None);
        assert(self@ =~= (AppModel {
            ui: (UiModel { connection_log_selection: None, ..old(self)@.ui }),
            ..old(self)@
        }));
    }
}

} // verus!
