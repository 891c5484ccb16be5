use crate::state::lemmas::lemma_ring_round_trip;
use crate::state::{Focus, Menu, State, StateView, SHORTCUT_COUNT};
use crate::ui::SPINNER_FRAME_COUNT;
use vstd::prelude::*;

verus! {

/// Specify terminal event poll rate in milliseconds.
pub const TICK_RATE_IN_MS: u64 = 60;

/// Specify different terminal event types.
#[derive(Debug)]
pub enum Event<I> {
    Input(I),
    Tick,
}

/// The key of a key event.
#[derive(Debug, Clone, Copy, PartialEq, Eq, Structural)]
pub enum KeyCode {
    Backspace,
    Enter,
    Left,
    Right,
    Up,
    Down,
    Home,
    End,
    PageUp,
    PageDown,
    Tab,
    BackTab,
    Delete,
    Insert,
    F(u8),
    Char(char),
    Null,
    Esc,
}

/// The modifier keys held down with a key.
#[derive(Debug, Clone, Copy, PartialEq, Eq, Structural)]
pub struct KeyModifiers {
    pub shift: bool,
    pub control: bool,
    pub alt: bool,
}

/// A key pressed on the terminal.
#[derive(Debug, Clone, Copy, PartialEq, Eq, Structural)]
pub struct KeyEvent {
    pub code: KeyCode,
    pub modifiers: KeyModifiers,
}

impl KeyModifiers {
    /// No modifier key.
    pub open spec fn none() -> KeyModifiers {
        KeyModifiers { shift: false, control: false, alt: false }
    }

    /// The control key and no other.
    pub open spec fn control() -> KeyModifiers {
        KeyModifiers { shift: false, control: true, alt: false }
    }

    /// Whether no modifier key is held.
    pub fn is_none(&self) -> (res: bool)
        ensures
            res == (*self == KeyModifiers::none()),
    {
        !self.shift && !self.control && !self.alt
    }

    /// Whether the control key is held and no other.
    pub fn is_control(&self) -> (res: bool)
        ensures
            res == (*self == KeyModifiers::control()),
    {
        !self.shift && self.control && !self.alt
    }
}

impl KeyEvent {
    /// Whether the key asks to leave the application: `q` with any
    /// modifiers, or `c` with the control key alone.
    pub open spec fn is_exit(self) -> bool {
        ||| self.code == KeyCode::Char('q')
        ||| (self.code == KeyCode::Char('c') && self.modifiers == KeyModifiers::control())
    }
}

/// The state after `key` was pressed. `h` and `l` walk the ring of menus
/// and `k` and `j` move the cursor of the active menu, all four only while
/// the menu has the focus; Enter selects what the cursor of the active menu
/// points at. Every other key, and every key pressed with a modifier, leaves
/// the state as it is.
pub open spec fn after_key(state: StateView, key: KeyEvent) -> StateView {
    if key.is_exit() || key.modifiers != KeyModifiers::none() {
        state
    } else if key.code == KeyCode::Enter {
        match state.current_menu {
            Menu::Status => state,
            Menu::Shortcuts => state.select_shortcut(),
            Menu::TopList => state.select_top_list_item(),
        }
    } else if state.current_focus != Focus::Menu {
        state
    } else {
        match key.code {
            KeyCode::Char('h') => state.previous_menu(),
            KeyCode::Char('l') => state.next_menu(),
            KeyCode::Char('k') => match state.current_menu {
                Menu::Status => state,
                Menu::Shortcuts => state.previous_shortcut(),
                Menu::TopList => state.previous_top_list_item(),
            },
            KeyCode::Char('j') => match state.current_menu {
                Menu::Status => state,
                Menu::Shortcuts => state.next_shortcut(),
                Menu::TopList => state.next_top_list_item(),
            },
            _ => state,
        }
    }
}

/// The state after a terminal event: a tick moves the loading indicator, a
/// key acts as `after_key` says.
pub open spec fn after_event(state: StateView, event: Event<KeyEvent>) -> StateView {
    match event {
        Event::Input(key) => after_key(state, key),
        Event::Tick => state.advance_spinner(),
    }
}

/// Whether the application goes on after `event`: it does unless the event
/// is a key that asks to leave.
pub open spec fn continues_after(event: Event<KeyEvent>) -> bool {
    match event {
        Event::Input(key) => !key.is_exit(),
        Event::Tick => true,
    }
}

/// Every terminal event leads from a well-formed state to a well-formed
/// state: no key and no tick can move a cursor out of its list or leave the
/// screen without a view.
pub proof fn lemma_after_event_wf(state: StateView, event: Event<KeyEvent>)
    requires
        state.wf(),
    ensures
        after_event(state, event).wf(),
{
    lemma_ring_round_trip(state.spinner_index, SPINNER_FRAME_COUNT as int);
    lemma_ring_round_trip(state.current_shortcut_index, SHORTCUT_COUNT as int);
    if state.projects.len() > 0 {
        lemma_ring_round_trip(state.current_top_list_item, state.projects.len() as int);
    }
}

/// A tick changes the frame of the loading indicator and nothing else.
pub proof fn lemma_tick_keeps_navigation(state: StateView)
    ensures
        after_event(state, Event::Tick) == (StateView {
            spinner_index: after_event(state, Event::Tick).spinner_index,
            ..state
        }),
{
}

/// A key changes nothing when it asks to leave, when a modifier is held
/// with it, when it is none of `h`, `l`, `j`, `k` and Enter, and, unless it
/// is Enter, while the view has the focus.
pub proof fn lemma_key_ignored(state: StateView, key: KeyEvent)
    requires
        key.is_exit() || key.modifiers != KeyModifiers::none() || (key.code != KeyCode::Enter
            && state.current_focus == Focus::View) || (key.code != KeyCode::Char('h') && key.code
            != KeyCode::Char('l') && key.code != KeyCode::Char('j') && key.code
            != KeyCode::Char('k') && key.code != KeyCode::Enter),
    ensures
        after_key(state, key) == state,
{
}

/// No key changes what was fetched, the terminal size or the frame of the
/// loading indicator, and a key that is not Enter enqueues no request.
pub proof fn lemma_key_keeps_data(state: StateView, key: KeyEvent)
    ensures
        after_key(state, key).user == state.user,
        after_key(state, key).workspaces == state.workspaces,
        after_key(state, key).active_workspace_gid == state.active_workspace_gid,
        after_key(state, key).projects == state.projects,
        after_key(state, key).terminal_size == state.terminal_size,
        after_key(state, key).spinner_index == state.spinner_index,
        key.code != KeyCode::Enter ==> after_key(state, key).requests == state.requests,
{
}

/// Interprets terminal events against the application state.
pub struct Handler {}

impl Handler {
    /// Return new instance.
    pub fn new() -> Self {
        Handler {  }
    }

    /// Handle the given terminal event accordingly. Returns true if the
    /// application should continue or false if exit was requested.
    pub fn handle_next(&self, state: &mut State, event: Event<KeyEvent>) -> (res: bool)
        ensures
            final(state)@ == after_event(old(state)@, event),
            res == continues_after(event),
    {
        match event {
            Event::Input(key) => {
                let is_q = match key.code {
                    KeyCode::Char(c) => c == 'q',
                    _ => false,
                };
                let is_c = match key.code {
                    KeyCode::Char(c) => c == 'c',
                    _ => false,
                };
                if is_q || (is_c && key.modifiers.is_control()) {
                    return false;
                }
                if !key.modifiers.is_none() {
                    return true;
                }
                let in_menu = match state.current_focus() {
                    Focus::Menu => true,
                    Focus::View => false,
                };
                let menu = *state.current_menu();
                match key.code {
                    KeyCode::Enter => {
                        match menu {
                            Menu::Status => (),
                            Menu::Shortcuts => {
                                state.select_current_shortcut_index();
                            },
                            Menu::TopList => {
                                state.select_current_top_list_item();
                            },
                        }
                    },
                    KeyCode::Char(c) => {
                        if in_menu && c == 'h' {
                            state.previous_menu();
                        } else if in_menu && c == 'l' {
                            state.next_menu();
                        } else if in_menu && c == 'k' {
                            match menu {
                                Menu::Status => (),
                                Menu::Shortcuts => {
                                    state.previous_shortcut_index();
                                },
                                Menu::TopList => {
                                    state.previous_top_list_item();
                                },
                            }
                        } else if in_menu && c == 'j' {
                            match menu {
                                Menu::Status => (),
                                Menu::Shortcuts => {
                                    state.next_shortcut_index();
                                },
                                Menu::TopList => {
                                    state.next_top_list_item();
                                },
                            }
                        }
                    },
                    _ => (),
                }
            },
            Event::Tick => {
                state.advance_spinner_index();
            },
        }
        true
    }
}

} // verus!
