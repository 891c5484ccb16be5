use crate::state::{Focus, Menu, Rect, State, StateView};
use crate::ui::widgets::spinner;
use crate::ui::{item_emphasis, menu_is_active, Content, Emphasis, Line, LineView, Panel};
use vstd::prelude::*;
use vstd::string::StringExecFns;

verus! {

pub const BLOCK_TITLE: &'static str = "Projects";

/// The lines of the top list: the name of every project, the one under the
/// cursor standing out.
pub open spec fn top_list_lines(state: StateView) -> Seq<LineView> {
    Seq::new(
        state.projects.len(),
        |i: int|
            LineView {
                text: state.projects[i].name,
                emphasis: item_emphasis(
                    i == state.current_top_list_item,
                    menu_is_active(state, Menu::TopList),
                ),
            },
    )
}

/// Render top list widget according to state: the projects once there are
/// any, the loading indicator until then.
pub fn top_list(state: &State, size: Rect) -> (res: Panel)
    ensures
        res.title@ == BLOCK_TITLE@,
        res.active == menu_is_active(state@, Menu::TopList),
        if state@.projects.len() == 0 {
            res.content.is_loading(state@, size.height as int)
        } else {
            res.content.is_lines(top_list_lines(state@))
        },
{
    let in_menu = match state.current_focus() {
        Focus::Menu => true,
        Focus::View => false,
    };
    let on_top_list = match state.current_menu() {
        Menu::TopList => true,
        _ => false,
    };
    let active = in_menu && on_top_list;
    let list_item_style = if active {
        Emphasis::Active
    } else {
        Emphasis::Current
    };
    let projects = state.get_projects();
    if projects.len() == 0 {
        return Panel {
            title: String::from_str(BLOCK_TITLE),
            active,
            content: Content::Loading(spinner::widget(state, size.height)),
        };
    }
    let current = *state.current_top_list_item();
    let mut items: Vec<Line> = Vec::new();
    let mut i: usize = 0;
    while i < projects.len()
        invariant
            i <= projects.len(),
            items@.len() == i,
            projects.deep_view() == state@.projects,
            active == menu_is_active(state@, Menu::TopList),
            list_item_style == item_emphasis(true, active),
            current == state@.current_top_list_item,
            forall|j: int| 0 <= j < i ==> (#[trigger] items@[j])@ == top_list_lines(state@)[j],
        decreases projects.len() - i,
    {
        assert(projects.deep_view()[i as int] == projects[i as int]@);
        let style = if i == current {
            list_item_style
        } else {
            Emphasis::Normal
        };
        items.push(Line { text: projects[i].name.clone(), emphasis: style });
        i += 1;
    }
    assert(items.deep_view() =~= top_list_lines(state@));
    Panel { title: String::from_str(BLOCK_TITLE), active, content: Content::Lines(items) }
}

} // verus!
