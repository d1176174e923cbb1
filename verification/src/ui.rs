//! UI focus state: which page is shown and which field of the connection
//! page is active, both small cyclic state machines, plus the buffers and
//! scroll state that input handling mutates.

use vstd::prelude::*;

use crate::utils::Rect;

verus! {

/// A focus value that can be cycled forwards and backwards.
pub trait CycleFocus: Sized {
    /// The successor in the cycle.
    spec fn spec_next(self) -> Self;

    /// The predecessor in the cycle.
    spec fn spec_prev(self) -> Self;

    fn next(self) -> (r: Self)
        ensures
            r == self.spec_next(),
    ;

    fn prev(self) -> (r: Self)
        ensures
            r == self.spec_prev(),
    ;
}

/// Which page of the interface has focus.
#[derive(Clone, Copy, Debug, PartialEq, Eq, Structural)]
pub enum PageFocus {
    Chat,
    Connection,
}

/// Which field of the connection page has focus.
#[derive(Clone, Copy, Debug, PartialEq, Eq, Structural)]
pub enum ConnectionPageFocus {
    ConnectionLog,
    RegenerateSwarm,
    AddrInputField,
}

impl CycleFocus for PageFocus {
    open spec fn spec_next(self) -> Self {
        match self {
            PageFocus::Chat => PageFocus::Connection,
            PageFocus::Connection => PageFocus::Chat,
        }
    }

    open spec fn spec_prev(self) -> Self {
        match self {
            PageFocus::Chat => PageFocus::Connection,
            PageFocus::Connection => PageFocus::Chat,
        }
    }

    fn next(self) -> (r: Self) {
        match self {
            PageFocus::Chat => PageFocus::Connection,
            PageFocus::Connection => PageFocus::Chat,
        }
    }

    fn prev(self) -> (r: Self) {
        match self {
            PageFocus::Chat => PageFocus::Connection,
            PageFocus::Connection => PageFocus::Chat,
        }
    }
}

impl CycleFocus for ConnectionPageFocus {
    open spec fn spec_next(self) -> Self {
        match self {
            ConnectionPageFocus::ConnectionLog => ConnectionPageFocus::RegenerateSwarm,
            ConnectionPageFocus::RegenerateSwarm => ConnectionPageFocus::AddrInputField,
            ConnectionPageFocus::AddrInputField => ConnectionPageFocus::ConnectionLog,
        }
    }

    open spec fn spec_prev(self) -> Self {
        match self {
            ConnectionPageFocus::ConnectionLog => ConnectionPageFocus::AddrInputField,
            ConnectionPageFocus::RegenerateSwarm => ConnectionPageFocus::ConnectionLog,
            ConnectionPageFocus::AddrInputField => ConnectionPageFocus::RegenerateSwarm,
        }
    }

    fn next(self) -> (r: Self) {
        match self {
            ConnectionPageFocus::ConnectionLog => ConnectionPageFocus::RegenerateSwarm,
            ConnectionPageFocus::RegenerateSwarm => ConnectionPageFocus::AddrInputField,
            ConnectionPageFocus::AddrInputField => ConnectionPageFocus::ConnectionLog,
        }
    }

    fn prev(self) -> (r: Self) {
        match self {
            ConnectionPageFocus::ConnectionLog => ConnectionPageFocus::AddrInputField,
            ConnectionPageFocus::RegenerateSwarm => ConnectionPageFocus::ConnectionLog,
            ConnectionPageFocus::AddrInputField => ConnectionPageFocus::RegenerateSwarm,
        }
    }
}

/// The page reached from `p` after `n` page-focus toggles.
pub open spec fn page_after_toggles(p: PageFocus, n: nat) -> PageFocus
    decreases n,
{
    if n == 0 {
        p
    } else {
        page_after_toggles(p, (n - 1) as nat).spec_next()
    }
}

/// Law: starting from the chat page, `n` page toggles land on the chat page
/// when `n` is even and on the connection page when `n` is odd.
pub proof fn lemma_page_toggle_parity(n: nat)
    ensures
        page_after_toggles(PageFocus::Chat, n) == (if n % 2 == 0 {
            PageFocus::Chat
        } else {
            PageFocus::Connection
        }),
    decreases n,
{
    if n > 0 {
        lemma_page_toggle_parity((n - 1) as nat);
    }
}

/// Law: on the connection-field focus, `next` followed by `prev` is the
/// identity, and so is `prev` followed by `next`.
pub proof fn lemma_connection_focus_next_prev(f: ConnectionPageFocus)
    ensures
        f.spec_next().spec_prev() == f,
        f.spec_prev().spec_next() == f,
{
}

/// Law: the connection-field focus cycle has length three: applying `next`
/// three times returns to the starting field.
pub proof fn lemma_connection_focus_cycle(f: ConnectionPageFocus)
    ensures
        f.spec_next().spec_next().spec_next() == f,
{
}

/// The scroll/selection state of the connection-log list.
#[derive(Clone, Copy, Debug, PartialEq, Eq, Structural)]
pub struct ListSelection {
    pub selected: Option<usize>,
}

impl ListSelection {
    pub fn select(&mut self, index: Option<usize>)
        ensures
            final(self).selected == index,
    {
        self.selected = index;
    }
}

/// All UI state owned by the application: focus, input buffers, and the
/// hit-testing and scroll state of the connection-log list.
pub struct Ui {
    pub page_focus: PageFocus,
    pub connection_page_focus: ConnectionPageFocus,
    pub chat_input: String,
    pub addr_input: String,
    pub connection_log_allocation: Option<Rect>,
    pub connection_log_liststate: ListSelection,
}

/// Mathematical model of the UI state.
#[verifier::ext_equal]
pub struct UiModel {
    pub page_focus: PageFocus,
    pub connection_page_focus: ConnectionPageFocus,
    pub chat_input: Seq<char>,
    pub addr_input: Seq<char>,
    pub connection_log_allocation: Option<Rect>,
    pub connection_log_selection: Option<usize>,
}

impl View for Ui {
    type V = UiModel;

    open spec fn view(&self) -> UiModel {
        UiModel {
            page_focus: self.page_focus,
            connection_page_focus: self.connection_page_focus,
            chat_input: self.chat_input@,
            addr_input: self.addr_input@,
            connection_log_allocation: self.connection_log_allocation,
            connection_log_selection: self.connection_log_liststate.selected,
        }
    }
}

/// The UI state a fresh application starts in.
pub open spec fn initial_ui_model() -> UiModel {
    UiModel {
        page_focus: PageFocus::Chat,
        connection_page_focus: ConnectionPageFocus::AddrInputField,
        chat_input: Seq::empty(),
        addr_input: Seq::empty(),
        connection_log_allocation: None,
        connection_log_selection: Some(0usize),
    }
}

impl Ui {
    pub fn new() -> (ui: Ui)
        ensures
            ui@ == initial_ui_model(),
    {
        let mut connection_log_liststate = ListSelection { selected: None };
        connection_log_liststate.select(Some(0));

        let ui = Ui {
            page_focus: PageFocus::Chat,
            connection_page_focus: ConnectionPageFocus::AddrInputField,
            chat_input: String::new(),
            addr_input: String::new(),
            connection_log_allocation: None,
            connection_log_liststate,
        };
        assert(ui@ =~= initial_ui_model());
        ui
    }
}

} // verus!
