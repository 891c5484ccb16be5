use crate::state::State;
use crate::ui::Spinner;
use vstd::prelude::*;

verus! {

/// Define frames for loading indicator.
pub const FRAMES: [&'static str; 6] = ["▄ ▆ ▇", "▄ ▆ ▇", "▆ ▇ ▄", "▆ ▇ ▄", "▇ ▄ ▆", "▇ ▄ ▆"];

/// The number of empty lines above the loading indicator in a container of
/// the given height: half of what is left of the height once the two borders
/// and the indicator's own line are taken off, and none in a container too
/// low for them.
pub open spec fn lines_above(container_height: int) -> int {
    if container_height < 3 {
        0
    } else {
        (container_height - 3) / 2
    }
}

/// Build the spinner widget according to state.
pub fn widget(state: &State, container_height: u16) -> (res: Spinner)
    ensures
        res.frame@ == FRAMES[state@.spinner_index]@,
        res.lines_above == lines_above(container_height as int),
{
    let vertical_line_offset = if container_height < 3 {
        0
    } else {
        (container_height - 3) / 2
    };
    Spinner { frame: FRAMES[*state.get_spinner_index()], lines_above: vertical_line_offset }
}

} // verus!
