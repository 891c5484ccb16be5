use crate::asana::TaskView;
use crate::state::{Focus, Rect, State, StateView, View};
use crate::ui::widgets::spinner;
use crate::ui::{Content, Emphasis, Line, LineView, Panel};
use vstd::prelude::*;
use vstd::string::StringExecFns;
use vstd::view::View as _;

verus! {

/// The title of the main panel: the name of the view shown, and for the
/// tasks of a project the name of the selected project if there is one.
pub open spec fn view_title(state: StateView) -> Seq<char> {
    match state.current_view() {
        View::Welcome => "Welcome"@,
        View::MyTasks => "My Tasks"@,
        View::RecentlyModified => "Recently Modified"@,
        View::RecentlyCompleted => "Recently Completed"@,
        View::ProjectTasks => match state.project {
            Some(project) => project.name,
            None => "Project"@,
        },
    }
}

/// The lines of a list of tasks: the name of every task.
pub open spec fn task_lines(tasks: Seq<TaskView>) -> Seq<LineView> {
    Seq::new(tasks.len(), |i: int| LineView { text: tasks[i].name, emphasis: Emphasis::Normal })
}

/// Render main widget according to state: the welcome text in the welcome
/// view; in every other view the tasks once there are any, and the loading
/// indicator until then.
pub fn main(state: &State, size: Rect) -> (res: Panel)
    ensures
        res.title@ == view_title(state@),
        res.active == (state@.current_focus == Focus::View),
        if state@.current_view() == View::Welcome {
            res.content is Welcome
        } else if state@.tasks.len() == 0 {
            res.content.is_loading(state@, size.height as int)
        } else {
            res.content.is_lines(task_lines(state@.tasks))
        },
{
    let active = match state.current_focus() {
        Focus::View => true,
        Focus::Menu => false,
    };
    match state.current_view() {
        View::Welcome => Panel {
            title: String::from_str("Welcome"),
            active,
            content: Content::Welcome,
        },
        View::MyTasks => Panel {
            title: String::from_str("My Tasks"),
            active,
            content: task_list(state, size),
        },
        View::RecentlyModified => Panel {
            title: String::from_str("Recently Modified"),
            active,
            content: task_list(state, size),
        },
        View::RecentlyCompleted => Panel {
            title: String::from_str("Recently Completed"),
            active,
            content: task_list(state, size),
        },
        View::ProjectTasks => {
            let title = match state.get_project() {
                Some(project) => project.name.clone(),
                None => String::from_str("Project"),
            };
            Panel { title, active, content: task_list(state, size) }
        },
    }
}

/// The list of tasks, or the loading indicator while there is none.
fn task_list(state: &State, size: Rect) -> (res: Content)
    ensures
        if state@.tasks.len() == 0 {
            res.is_loading(state@, size.height as int)
        } else {
            res.is_lines(task_lines(state@.tasks))
        },
{
    let tasks = state.get_tasks();
    if tasks.len() == 0 {
        return Content::Loading(spinner::widget(state, size.height));
    }
    let mut items: Vec<Line> = Vec::new();
    let mut i: usize = 0;
    while i < tasks.len()
        invariant
            i <= tasks.len(),
            items@.len() == i,
            tasks.deep_view() == state@.tasks,
            forall|j: int| 0 <= j < i ==> (#[trigger] items@[j])@ == task_lines(state@.tasks)[j],
        decreases tasks.len() - i,
    {
        assert(tasks.deep_view()[i as int] == tasks[i as int]@);
        items.push(Line { text: tasks[i].name.clone(), emphasis: Emphasis::Normal });
        i += 1;
    }
    assert(items.deep_view() =~= task_lines(state@.tasks));
    Content::Lines(items)
}

} // verus!
