use asana_tui::asana::Project;
use asana_tui::events::network::Event as NetworkEvent;
use asana_tui::events::terminal::{
    Event, Handler, KeyCode, KeyEvent, KeyModifiers, TICK_RATE_IN_MS,
};
use asana_tui::state::{Focus, Menu, State, View};
use asana_tui::ui::SPINNER_FRAME_COUNT;

const NONE: KeyModifiers = KeyModifiers {
    shift: false,
    control: false,
    alt: false,
};

const CONTROL: KeyModifiers = KeyModifiers {
    shift: false,
    control: true,
    alt: false,
};

fn key(c: char) -> Event<KeyEvent> {
    Event::Input(KeyEvent {
        code: KeyCode::Char(c),
        modifiers: NONE,
    })
}

fn enter() -> Event<KeyEvent> {
    Event::Input(KeyEvent {
        code: KeyCode::Enter,
        modifiers: NONE,
    })
}

fn project(gid: &str, name: &str) -> Project {
    Project {
        gid: gid.to_string(),
        name: name.to_string(),
    }
}

#[test]
fn tick_rate_is_sixty_milliseconds() {
    assert_eq!(TICK_RATE_IN_MS, 60);
}

#[test]
fn q_requests_exit_with_any_modifier() {
    let handler = Handler::new();
    let mut state = State::default();
    assert!(!handler.handle_next(&mut state, key('q')));
    let shifted = Event::Input(KeyEvent {
        code: KeyCode::Char('q'),
        modifiers: KeyModifiers {
            shift: true,
            control: false,
            alt: true,
        },
    });
    assert!(!handler.handle_next(&mut state, shifted));
    assert_eq!(*state.current_menu(), Menu::Shortcuts);
    assert_eq!(*state.current_focus(), Focus::Menu);
}

#[test]
fn control_c_requests_exit() {
    let handler = Handler::new();
    let mut state = State::default();
    let event = Event::Input(KeyEvent {
        code: KeyCode::Char('c'),
        modifiers: CONTROL,
    });
    assert!(!handler.handle_next(&mut state, event));
}

#[test]
fn plain_c_and_control_shift_c_do_not_exit() {
    let handler = Handler::new();
    let mut state = State::default();
    assert!(handler.handle_next(&mut state, key('c')));
    let event = Event::Input(KeyEvent {
        code: KeyCode::Char('c'),
        modifiers: KeyModifiers {
            shift: true,
            control: true,
            alt: false,
        },
    });
    assert!(handler.handle_next(&mut state, event));
}

#[test]
fn h_and_l_walk_the_menus() {
    let handler = Handler::new();
    let mut state = State::default();
    assert!(handler.handle_next(&mut state, key('l')));
    assert_eq!(*state.current_menu(), Menu::TopList);
    assert!(handler.handle_next(&mut state, key('l')));
    assert_eq!(*state.current_menu(), Menu::Status);
    assert!(handler.handle_next(&mut state, key('h')));
    assert_eq!(*state.current_menu(), Menu::TopList);
    assert!(handler.handle_next(&mut state, key('h')));
    assert_eq!(*state.current_menu(), Menu::Shortcuts);
}

#[test]
fn cursor_keys_are_ignored_while_the_view_has_the_focus() {
    let handler = Handler::new();
    let mut state = State::default();
    state.set_projects(vec![project("1", "a"), project("2", "b")]);
    state.focus_view();
    for c in ['h', 'l', 'j', 'k'] {
        assert!(handler.handle_next(&mut state, key(c)));
    }
    assert_eq!(*state.current_menu(), Menu::Shortcuts);
    assert_eq!(*state.current_shortcut_index(), 0);
    assert_eq!(*state.current_top_list_item(), 0);
    assert_eq!(*state.current_view(), View::Welcome);
    assert_eq!(*state.current_focus(), Focus::View);
    assert!(state.pending_requests().is_empty());
}

#[test]
fn enter_selects_again_while_the_view_has_the_focus() {
    let handler = Handler::new();
    let mut state = State::default();
    assert!(handler.handle_next(&mut state, enter()));
    assert_eq!(*state.current_focus(), Focus::View);
    assert_eq!(*state.pending_requests(), vec![NetworkEvent::MyTasks]);
    assert!(handler.handle_next(&mut state, enter()));
    assert_eq!(*state.current_view(), View::MyTasks);
    assert_eq!(*state.current_focus(), Focus::View);
    assert_eq!(
        *state.pending_requests(),
        vec![NetworkEvent::MyTasks, NetworkEvent::MyTasks]
    );
}

#[test]
fn enter_with_a_modifier_is_ignored() {
    let handler = Handler::new();
    let mut state = State::default();
    let event = Event::Input(KeyEvent {
        code: KeyCode::Enter,
        modifiers: CONTROL,
    });
    assert!(handler.handle_next(&mut state, event));
    assert_eq!(*state.current_view(), View::Welcome);
    assert_eq!(*state.current_focus(), Focus::Menu);
    assert!(state.pending_requests().is_empty());
}

#[test]
fn keys_with_a_modifier_are_ignored() {
    let handler = Handler::new();
    let mut state = State::default();
    for c in ['h', 'l', 'j', 'k'] {
        let event = Event::Input(KeyEvent {
            code: KeyCode::Char(c),
            modifiers: CONTROL,
        });
        assert!(handler.handle_next(&mut state, event));
    }
    assert_eq!(*state.current_menu(), Menu::Shortcuts);
    assert_eq!(*state.current_shortcut_index(), 0);
}

#[test]
fn j_and_k_move_the_shortcut_cursor() {
    let handler = Handler::new();
    let mut state = State::default();
    handler.handle_next(&mut state, key('j'));
    assert_eq!(*state.current_shortcut_index(), 1);
    handler.handle_next(&mut state, key('j'));
    assert_eq!(*state.current_shortcut_index(), 2);
    handler.handle_next(&mut state, key('j'));
    assert_eq!(*state.current_shortcut_index(), 0);
    handler.handle_next(&mut state, key('k'));
    assert_eq!(*state.current_shortcut_index(), 2);
}

#[test]
fn j_and_k_move_the_top_list_cursor() {
    let handler = Handler::new();
    let mut state = State::default();
    state.set_projects(vec![project("1", "a"), project("2", "b"), project("3", "c")]);
    state.next_menu();
    handler.handle_next(&mut state, key('k'));
    assert_eq!(*state.current_top_list_item(), 2);
    handler.handle_next(&mut state, key('j'));
    assert_eq!(*state.current_top_list_item(), 0);
    handler.handle_next(&mut state, key('j'));
    assert_eq!(*state.current_top_list_item(), 1);
    assert_eq!(*state.current_shortcut_index(), 0);
}

#[test]
fn j_and_k_do_nothing_in_an_empty_top_list() {
    let handler = Handler::new();
    let mut state = State::default();
    state.next_menu();
    handler.handle_next(&mut state, key('k'));
    assert_eq!(*state.current_top_list_item(), 0);
    handler.handle_next(&mut state, key('j'));
    assert_eq!(*state.current_top_list_item(), 0);
}

#[test]
fn j_and_k_do_nothing_on_the_status_menu() {
    let handler = Handler::new();
    let mut state = State::default();
    state.set_projects(vec![project("1", "a"), project("2", "b")]);
    state.previous_menu();
    handler.handle_next(&mut state, key('j'));
    handler.handle_next(&mut state, key('k'));
    handler.handle_next(&mut state, enter());
    assert_eq!(*state.current_shortcut_index(), 0);
    assert_eq!(*state.current_top_list_item(), 0);
    assert_eq!(*state.current_view(), View::Welcome);
    assert_eq!(*state.current_focus(), Focus::Menu);
}

#[test]
fn enter_selects_the_shortcut() {
    let handler = Handler::new();
    let mut state = State::default();
    handler.handle_next(&mut state, key('j'));
    handler.handle_next(&mut state, key('j'));
    assert!(handler.handle_next(&mut state, enter()));
    assert_eq!(*state.current_view(), View::RecentlyCompleted);
    assert_eq!(*state.current_focus(), Focus::View);
    assert!(state.pending_requests().is_empty());
}

#[test]
fn enter_selects_the_project() {
    let handler = Handler::new();
    let mut state = State::default();
    state.set_projects(vec![project("1", "a"), project("2", "b")]);
    handler.handle_next(&mut state, key('l'));
    handler.handle_next(&mut state, key('j'));
    assert!(handler.handle_next(&mut state, enter()));
    assert_eq!(*state.get_project().unwrap(), project("2", "b"));
    assert_eq!(*state.current_view(), View::ProjectTasks);
    assert_eq!(*state.current_focus(), Focus::View);
    assert_eq!(*state.pending_requests(), vec![NetworkEvent::ProjectTasks]);
}

#[test]
fn other_keys_change_nothing() {
    let handler = Handler::new();
    let mut state = State::default();
    let codes = [
        KeyCode::Backspace,
        KeyCode::Left,
        KeyCode::Right,
        KeyCode::Up,
        KeyCode::Down,
        KeyCode::Home,
        KeyCode::End,
        KeyCode::PageUp,
        KeyCode::PageDown,
        KeyCode::Tab,
        KeyCode::BackTab,
        KeyCode::Delete,
        KeyCode::Insert,
        KeyCode::F(1),
        KeyCode::Char('x'),
        KeyCode::Null,
        KeyCode::Esc,
    ];
    for code in codes {
        let event = Event::Input(KeyEvent {
            code,
            modifiers: NONE,
        });
        assert!(handler.handle_next(&mut state, event));
    }
    assert_eq!(*state.current_menu(), Menu::Shortcuts);
    assert_eq!(*state.current_focus(), Focus::Menu);
    assert_eq!(*state.current_shortcut_index(), 0);
    assert_eq!(*state.current_top_list_item(), 0);
    assert_eq!(*state.current_view(), View::Welcome);
    assert_eq!(*state.get_spinner_index(), 0);
    assert!(state.pending_requests().is_empty());
}

#[test]
fn tick_advances_the_spinner_only() {
    let handler = Handler::new();
    let mut state = State::default();
    assert!(handler.handle_next(&mut state, Event::Tick));
    assert_eq!(*state.get_spinner_index(), 1);
    assert_eq!(*state.current_menu(), Menu::Shortcuts);
    assert_eq!(*state.current_focus(), Focus::Menu);
    assert_eq!(*state.current_view(), View::Welcome);
}

#[test]
fn spinner_cycles_through_every_frame_and_wraps() {
    let handler = Handler::new();
    let mut state = State::default();
    let mut seen = vec![*state.get_spinner_index()];
    for _ in 0..SPINNER_FRAME_COUNT + 1 {
        assert!(handler.handle_next(&mut state, Event::Tick));
        seen.push(*state.get_spinner_index());
    }
    assert_eq!(seen, vec![0, 1, 2, 3, 4, 5, 0, 1]);
}
