use asana_tui::asana::{Project, Task, User, Workspace};
use asana_tui::state::{Rect, State};
use asana_tui::ui::render::{main, shortcuts, status, top_list};
use asana_tui::ui::widgets::spinner::{widget, FRAMES};
use asana_tui::ui::{Content, Emphasis, Line, Panel, SPINNER_FRAME_COUNT};

fn size(height: u16) -> Rect {
    Rect {
        x: 0,
        y: 0,
        width: 40,
        height,
    }
}

fn lines_of(panel: &Panel) -> Vec<(String, Emphasis)> {
    match &panel.content {
        Content::Lines(lines) => lines
            .iter()
            .map(|line: &Line| (line.text.clone(), line.emphasis))
            .collect(),
        other => panic!("expected lines, got {:?}", other),
    }
}

fn spinner_of(panel: &Panel) -> (String, u16) {
    match &panel.content {
        Content::Loading(spinner) => (spinner.frame.to_string(), spinner.lines_above),
        other => panic!("expected the loading indicator, got {:?}", other),
    }
}

fn project(name: &str) -> Project {
    Project {
        gid: format!("gid of {}", name),
        name: name.to_string(),
    }
}

fn task(name: &str) -> Task {
    Task {
        gid: format!("gid of {}", name),
        name: name.to_string(),
    }
}

#[test]
fn there_are_as_many_frames_as_the_spinner_counts() {
    assert_eq!(FRAMES.len(), SPINNER_FRAME_COUNT);
    assert_eq!(SPINNER_FRAME_COUNT, 6);
}

#[test]
fn spinner_shows_the_frame_of_the_state() {
    let mut state = State::default();
    for index in 0..SPINNER_FRAME_COUNT {
        let spinner = widget(&state, 9);
        assert_eq!(spinner.frame, FRAMES[index]);
        state.advance_spinner_index();
    }
    assert_eq!(widget(&state, 9).frame, FRAMES[0]);
}

#[test]
fn spinner_is_centered_in_its_container() {
    let state = State::default();
    assert_eq!(widget(&state, 9).lines_above, 3);
    assert_eq!(widget(&state, 10).lines_above, 3);
    assert_eq!(widget(&state, 5).lines_above, 1);
    assert_eq!(widget(&state, 4).lines_above, 0);
    assert_eq!(widget(&state, 3).lines_above, 0);
    assert_eq!(widget(&state, 65535).lines_above, 32766);
}

#[test]
fn spinner_fits_a_container_lower_than_three_lines() {
    let state = State::default();
    assert_eq!(widget(&state, 2).lines_above, 0);
    assert_eq!(widget(&state, 0).lines_above, 0);
}

#[test]
fn status_loads_until_user_and_workspace_are_known() {
    let mut state = State::default();
    let panel = status(&state, size(5));
    assert_eq!(panel.title, "Status");
    assert!(!panel.active);
    assert_eq!(spinner_of(&panel), (FRAMES[0].to_string(), 1));
    state.set_user(User {
        gid: "u1".to_string(),
        name: "Ada".to_string(),
        email: "ada@example.com".to_string(),
    });
    state.advance_spinner_index().advance_spinner_index();
    let panel = status(&state, size(7));
    assert_eq!(spinner_of(&panel), (FRAMES[2].to_string(), 2));
}

#[test]
fn status_shows_user_and_workspace() {
    let mut state = State::default();
    state.set_user(User {
        gid: "u1".to_string(),
        name: "Ada".to_string(),
        email: "ada@example.com".to_string(),
    });
    state.set_workspaces(vec![Workspace {
        gid: "w1".to_string(),
        name: "Engine".to_string(),
    }]);
    state.previous_menu();
    let panel = status(&state, size(5));
    assert!(panel.active);
    assert_eq!(
        lines_of(&panel),
        vec![
            ("User: Ada".to_string(), Emphasis::Normal),
            ("Email: ada@example.com".to_string(), Emphasis::Normal),
            ("Workspace: Engine".to_string(), Emphasis::Normal),
        ]
    );
    state.focus_view();
    assert!(!status(&state, size(5)).active);
}

#[test]
fn shortcuts_mark_the_cursor() {
    let mut state = State::default();
    state.next_shortcut_index();
    let panel = shortcuts(&state);
    assert_eq!(panel.title, "Shortcuts");
    assert!(panel.active);
    assert_eq!(
        lines_of(&panel),
        vec![
            ("My Tasks".to_string(), Emphasis::Normal),
            ("Recently Modified".to_string(), Emphasis::Active),
            ("Recently Completed".to_string(), Emphasis::Normal),
        ]
    );
    state.next_menu();
    let panel = shortcuts(&state);
    assert!(!panel.active);
    assert_eq!(
        lines_of(&panel),
        vec![
            ("My Tasks".to_string(), Emphasis::Normal),
            ("Recently Modified".to_string(), Emphasis::Current),
            ("Recently Completed".to_string(), Emphasis::Normal),
        ]
    );
}

#[test]
fn top_list_loads_until_there_are_projects() {
    let mut state = State::default();
    state.advance_spinner_index();
    let panel = top_list(&state, size(11));
    assert_eq!(panel.title, "Projects");
    assert!(!panel.active);
    assert_eq!(spinner_of(&panel), (FRAMES[1].to_string(), 4));
}

#[test]
fn top_list_marks_the_cursor() {
    let mut state = State::default();
    state.set_projects(vec![project("Alpha"), project("Beta")]);
    state.next_top_list_item();
    let panel = top_list(&state, size(11));
    assert!(!panel.active);
    assert_eq!(
        lines_of(&panel),
        vec![
            ("Alpha".to_string(), Emphasis::Normal),
            ("Beta".to_string(), Emphasis::Current),
        ]
    );
    state.next_menu();
    let panel = top_list(&state, size(11));
    assert!(panel.active);
    assert_eq!(
        lines_of(&panel),
        vec![
            ("Alpha".to_string(), Emphasis::Normal),
            ("Beta".to_string(), Emphasis::Active),
        ]
    );
    state.focus_view();
    assert!(!top_list(&state, size(11)).active);
}

#[test]
fn main_shows_the_welcome_view_first() {
    let state = State::default();
    let panel = main(&state, size(20));
    assert_eq!(panel.title, "Welcome");
    assert!(!panel.active);
    assert!(matches!(panel.content, Content::Welcome));
}

#[test]
fn main_loads_until_there_are_tasks() {
    let mut state = State::default();
    state.select_current_shortcut_index();
    let panel = main(&state, size(20));
    assert_eq!(panel.title, "My Tasks");
    assert!(panel.active);
    assert_eq!(spinner_of(&panel), (FRAMES[0].to_string(), 8));
    state.set_tasks(vec![task("Write"), task("Prove")]);
    let panel = main(&state, size(20));
    assert_eq!(
        lines_of(&panel),
        vec![
            ("Write".to_string(), Emphasis::Normal),
            ("Prove".to_string(), Emphasis::Normal),
        ]
    );
}

#[test]
fn main_is_titled_by_the_view() {
    let mut state = State::default();
    state.next_shortcut_index();
    state.select_current_shortcut_index();
    assert_eq!(main(&state, size(20)).title, "Recently Modified");
    state.next_shortcut_index();
    state.select_current_shortcut_index();
    assert_eq!(main(&state, size(20)).title, "Recently Completed");
    state.set_projects(vec![project("Alpha"), project("Beta")]);
    state.next_top_list_item();
    state.select_current_top_list_item();
    assert_eq!(main(&state, size(20)).title, "Beta");
    state.focus_menu();
    assert!(!main(&state, size(20)).active);
}
