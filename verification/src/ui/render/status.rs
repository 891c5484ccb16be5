use crate::asana::{UserView, WorkspaceView};
use crate::state::{Focus, Menu, Rect, State};
use crate::ui::widgets::spinner;
use crate::ui::{menu_is_active, Content, Emphasis, Line, LineView, Panel};
use vstd::prelude::*;
use vstd::string::StringExecFns;

verus! {

pub const BLOCK_TITLE: &'static str = "Status";

/// The lines of the status panel for a user in a workspace.
pub open spec fn status_lines(user: UserView, workspace: WorkspaceView) -> Seq<LineView> {
    seq![
        LineView { text: "User: "@ + user.name, emphasis: Emphasis::Normal },
        LineView { text: "Email: "@ + user.email, emphasis: Emphasis::Normal },
        LineView { text: "Workspace: "@ + workspace.name, emphasis: Emphasis::Normal },
    ]
}

/// A line of ordinary text made of a label and a value.
fn labelled(label: &str, value: &str) -> (res: Line)
    ensures
        res@ == (LineView { text: label@ + value@, emphasis: Emphasis::Normal }),
{
    Line { text: String::from_str(label).concat(value), emphasis: Emphasis::Normal }
}

/// Render status widget according to state: the user and the active
/// workspace once both are known, the loading indicator until then.
pub fn status(state: &State, size: Rect) -> (res: Panel)
    ensures
        res.title@ == BLOCK_TITLE@,
        res.active == menu_is_active(state@, Menu::Status),
        match (state@.user, state@.active_workspace()) {
            (Some(user), Some(workspace)) => res.content.is_lines(status_lines(user, workspace)),
            _ => res.content.is_loading(state@, size.height as int),
        },
{
    let in_menu = match state.current_focus() {
        Focus::Menu => true,
        Focus::View => false,
    };
    let on_status = match state.current_menu() {
        Menu::Status => true,
        _ => false,
    };
    let content = match (state.get_user(), state.get_active_workspace()) {
        (Some(user), Some(workspace)) => {
            let mut text: Vec<Line> = Vec::new();
            text.push(labelled("User: ", user.name.as_str()));
            text.push(labelled("Email: ", user.email.as_str()));
            text.push(labelled("Workspace: ", workspace.name.as_str()));
            assert(text.deep_view() =~= status_lines(user@, workspace@));
            Content::Lines(text)
        },
        _ => Content::Loading(spinner::widget(state, size.height)),
    };
    Panel { title: String::from_str(BLOCK_TITLE), active: in_menu && on_status, content }
}

} // verus!
