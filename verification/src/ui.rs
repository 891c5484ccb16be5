//! What the screen shows, computed from the application state as plain
//! values for a renderer to draw.

use crate::state::{Focus, Menu, StateView};
use crate::ui::widgets::spinner::{lines_above, FRAMES};
use vstd::prelude::*;

pub mod render;
pub mod widgets;

verus! {

/// Number of frames of the loading indicator.
pub const SPINNER_FRAME_COUNT: usize = 6;

/// How a line of a panel stands out.
#[derive(Debug, Clone, Copy, PartialEq, Eq, Structural)]
pub enum Emphasis {
    /// Ordinary text.
    Normal,
    /// The line under the cursor of a panel that is not active.
    Current,
    /// The line under the cursor of the active panel.
    Active,
}

/// What a [`Line`] holds, as mathematical values.
pub struct LineView {
    pub text: Seq<char>,
    pub emphasis: Emphasis,
}

/// One line of a panel.
#[derive(Debug)]
pub struct Line {
    pub text: String,
    pub emphasis: Emphasis,
}

impl View for Line {
    type V = LineView;

    open spec fn view(&self) -> LineView {
        LineView { text: self.text@, emphasis: self.emphasis }
    }
}

impl DeepView for Line {
    type V = LineView;

    open spec fn deep_view(&self) -> LineView {
        self@
    }
}

/// The loading indicator: the frame to show, below a number of empty lines
/// that centers it in its container.
#[derive(Debug, Clone, Copy)]
pub struct Spinner {
    pub frame: &'static str,
    pub lines_above: u16,
}

/// What fills a panel.
#[derive(Debug)]
pub enum Content {
    /// Nothing is loaded yet: the loading indicator.
    Loading(Spinner),
    /// The lines to show, from the top.
    Lines(Vec<Line>),
    /// The welcome banner and its text.
    Welcome,
}

impl Content {
    /// Whether this is the loading indicator at the frame that `state` has
    /// reached, centered in a container of the given height.
    pub open spec fn is_loading(self, state: StateView, container_height: int) -> bool {
        self matches Content::Loading(spinner) && spinner.frame@ == FRAMES[state.spinner_index]@
            && spinner.lines_above == lines_above(container_height)
    }

    /// Whether this is the given lines.
    pub open spec fn is_lines(self, lines: Seq<LineView>) -> bool {
        self matches Content::Lines(shown) && shown.deep_view() == lines
    }
}

/// Whether `menu` is the panel that key input goes to: the menu has the
/// focus and `menu` is the active one.
pub open spec fn menu_is_active(state: StateView, menu: Menu) -> bool {
    state.current_focus == Focus::Menu && state.current_menu == menu
}

/// How a list item stands out: not at all unless the cursor is on it, and
/// then by whether its panel is the active one.
pub open spec fn item_emphasis(is_current: bool, panel_is_active: bool) -> Emphasis {
    if !is_current {
        Emphasis::Normal
    } else if panel_is_active {
        Emphasis::Active
    } else {
        Emphasis::Current
    }
}

/// A bordered area of the screen.
#[derive(Debug)]
pub struct Panel {
    pub title: String,
    /// Whether the panel has the focus, and is drawn to show it.
    pub active: bool,
    pub content: Content,
}

} // verus!
