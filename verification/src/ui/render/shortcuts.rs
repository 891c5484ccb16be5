use crate::state::{Focus, Menu, State, StateView, SHORTCUTS, SHORTCUT_COUNT};
use crate::ui::{item_emphasis, menu_is_active, Content, Emphasis, Line, LineView, Panel};
use vstd::prelude::*;
use vstd::string::StringExecFns;

verus! {

pub const BLOCK_TITLE: &'static str = "Shortcuts";

/// The lines of the shortcuts panel: the label of every shortcut, the one
/// under the cursor standing out.
pub open spec fn shortcut_lines(state: StateView) -> Seq<LineView> {
    Seq::new(
        SHORTCUT_COUNT as nat,
        |i: int|
            LineView {
                text: SHORTCUTS[i]@,
                emphasis: item_emphasis(
                    i == state.current_shortcut_index,
                    menu_is_active(state, Menu::Shortcuts),
                ),
            },
    )
}

/// Render shortcuts widget according to state.
pub fn shortcuts(state: &State) -> (res: Panel)
    ensures
        res.title@ == BLOCK_TITLE@,
        res.active == menu_is_active(state@, Menu::Shortcuts),
        res.content.is_lines(shortcut_lines(state@)),
{
    let in_menu = match state.current_focus() {
        Focus::Menu => true,
        Focus::View => false,
    };
    let on_shortcuts = match state.current_menu() {
        Menu::Shortcuts => true,
        _ => false,
    };
    let active = in_menu && on_shortcuts;
    let list_item_style = if active {
        Emphasis::Active
    } else {
        Emphasis::Current
    };
    let current = *state.current_shortcut_index();
    let mut text: Vec<Line> = Vec::new();
    let mut i: usize = 0;
    while i < SHORTCUT_COUNT
        invariant
            i <= SHORTCUT_COUNT,
            text@.len() == i,
            active == menu_is_active(state@, Menu::Shortcuts),
            list_item_style == item_emphasis(true, active),
            current == state@.current_shortcut_index,
            forall|j: int| 0 <= j < i ==> (#[trigger] text@[j])@ == shortcut_lines(state@)[j],
        decreases SHORTCUT_COUNT - i,
    {
        let style = if i == current {
            list_item_style
        } else {
            Emphasis::Normal
        };
        text.push(Line { text: String::from_str(SHORTCUTS[i]), emphasis: style });
        i += 1;
    }
    assert(text.deep_view() =~= shortcut_lines(state@));
    Panel { title: String::from_str(BLOCK_TITLE), active, content: Content::Lines(text) }
}

} // verus!
