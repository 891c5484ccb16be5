use crate::asana::WorkspaceView;
use crate::events::network::Event as NetworkEvent;
use crate::state::{
    lemma_ring_steps, ring_next, ring_previous, Focus, StateView, View, SHORTCUT_COUNT,
};
use crate::ui::SPINNER_FRAME_COUNT;
use vstd::prelude::*;

verus! {

/// The state after the workspaces were replaced by each list of `lists`, one
/// after the other.
pub open spec fn with_workspaces_in_turn(
    state: StateView,
    lists: Seq<Seq<WorkspaceView>>,
) -> StateView
    decreases lists.len(),
{
    if lists.len() == 0 {
        state
    } else {
        with_workspaces_in_turn(state, lists.drop_last()).with_workspaces(lists.last())
    }
}

/// The state after `count` ticks of the loading indicator.
pub open spec fn advance_spinner_times(state: StateView, count: nat) -> StateView
    decreases count,
{
    if count == 0 {
        state
    } else {
        advance_spinner_times(state, (count - 1) as nat).advance_spinner()
    }
}

/// Replacing the workspaces sets the active GID to the first workspace's
/// where it was unset and a workspace is supplied, and leaves it as it was
/// where it was set or no workspace is supplied.
pub proof fn lemma_with_workspaces_active(state: StateView, workspaces: Seq<WorkspaceView>)
    ensures
        state.active_workspace_gid is None && workspaces.len() > 0 ==> state.with_workspaces(
            workspaces,
        ).active_workspace_gid == Some(workspaces[0].gid),
        state.active_workspace_gid is Some || workspaces.len() == 0 ==> state.with_workspaces(
            workspaces,
        ).active_workspace_gid == state.active_workspace_gid,
        state.with_workspaces(workspaces).workspaces == workspaces,
{
}

/// An active GID that is set outlasts every sequence of replacements of the
/// workspaces, whether or not a workspace still carries it.
pub proof fn lemma_active_workspace_kept(state: StateView, lists: Seq<Seq<WorkspaceView>>)
    requires
        state.active_workspace_gid is Some,
    ensures
        with_workspaces_in_turn(state, lists).active_workspace_gid == state.active_workspace_gid,
    decreases lists.len(),
{
    if lists.len() > 0 {
        lemma_active_workspace_kept(state, lists.drop_last());
    }
}

/// Where the active GID is unset, a sequence of replacements of the
/// workspaces sets it to the GID of the first workspace of the first list
/// that is not empty, here the one at `first`.
pub proof fn lemma_active_workspace_chosen(
    state: StateView,
    lists: Seq<Seq<WorkspaceView>>,
    first: int,
)
    requires
        state.active_workspace_gid is None,
        0 <= first < lists.len(),
        lists[first].len() > 0,
        forall|j: int| 0 <= j < first ==> (#[trigger] lists[j]).len() == 0,
    ensures
        with_workspaces_in_turn(state, lists).active_workspace_gid == Some(lists[first][0].gid),
    decreases lists.len(),
{
    let before = with_workspaces_in_turn(state, lists.drop_last());
    if first == lists.len() - 1 {
        lemma_active_workspace_unset(state, lists.drop_last());
    } else {
        lemma_active_workspace_chosen(state, lists.drop_last(), first);
    }
}

/// Where the active GID is unset, replacing the workspaces by empty lists
/// leaves it unset.
pub proof fn lemma_active_workspace_unset(state: StateView, lists: Seq<Seq<WorkspaceView>>)
    requires
        state.active_workspace_gid is None,
        forall|j: int| 0 <= j < lists.len() ==> (#[trigger] lists[j]).len() == 0,
    ensures
        with_workspaces_in_turn(state, lists).active_workspace_gid is None,
    decreases lists.len(),
{
    if lists.len() > 0 {
        lemma_active_workspace_unset(state, lists.drop_last());
    }
}

/// The menus form a ring of three: three steps forward lead back to the
/// start, and a step back followed by a step forward, or the other way
/// round, changes nothing.
pub proof fn lemma_menu_ring(state: StateView)
    ensures
        state.next_menu().next_menu().next_menu() == state,
        state.previous_menu().next_menu() == state,
        state.next_menu().previous_menu() == state,
        state.next_menu() != state,
        state.next_menu().next_menu() != state,
{
}

/// A step forward and a step back in a ring undo each other.
pub proof fn lemma_ring_round_trip(index: int, count: int)
    requires
        0 <= index < count,
    ensures
        0 <= ring_next(index, count) < count,
        0 <= ring_previous(index, count) < count,
        ring_previous(ring_next(index, count), count) == index,
        ring_next(ring_previous(index, count), count) == index,
{
    lemma_ring_steps(index, count);
    lemma_ring_steps(ring_next(index, count), count);
    lemma_ring_steps(ring_previous(index, count), count);
}

/// Moving the shortcut cursor forward and then back, or back and then
/// forward, changes nothing; the cursor wraps from the last shortcut to the
/// first and from the first to the last.
pub proof fn lemma_shortcut_round_trip(state: StateView)
    requires
        state.wf(),
    ensures
        state.next_shortcut().previous_shortcut() == state,
        state.previous_shortcut().next_shortcut() == state,
        state.next_shortcut().wf(),
        state.previous_shortcut().wf(),
        state.current_shortcut_index == SHORTCUT_COUNT - 1 ==> state.next_shortcut().current_shortcut_index
            == 0,
        state.current_shortcut_index == 0 ==> state.previous_shortcut().current_shortcut_index
            == SHORTCUT_COUNT - 1,
{
    lemma_ring_round_trip(state.current_shortcut_index, SHORTCUT_COUNT as int);
    lemma_ring_steps(state.current_shortcut_index, SHORTCUT_COUNT as int);
}

/// Moving the cursor of the top list forward and then back, or back and then
/// forward, changes nothing, whether or not there are projects.
pub proof fn lemma_top_list_round_trip(state: StateView)
    requires
        state.wf(),
    ensures
        state.next_top_list_item().previous_top_list_item() == state,
        state.previous_top_list_item().next_top_list_item() == state,
        state.next_top_list_item().wf(),
        state.previous_top_list_item().wf(),
{
    if state.projects.len() > 0 {
        lemma_ring_round_trip(state.current_top_list_item, state.projects.len() as int);
    }
}

/// Selecting in the top list while there is no project changes nothing: the
/// selected project, the view stack and all the rest stay as they were.
pub proof fn lemma_select_in_empty_top_list(state: StateView)
    requires
        state.projects.len() == 0,
    ensures
        state.select_top_list_item() == state,
{
}

/// Selecting a project of the top list makes it the selected project, shows
/// its tasks view alone, drops the tasks held, gives the view the focus and
/// enqueues one request for the project's tasks behind those already
/// pending.
pub proof fn lemma_select_in_top_list(state: StateView)
    requires
        state.wf(),
        state.projects.len() > 0,
    ensures
        state.select_top_list_item().project == Some(state.projects[state.current_top_list_item]),
        state.select_top_list_item().current_view() == View::ProjectTasks,
        state.select_top_list_item().tasks.len() == 0,
        state.select_top_list_item().current_focus == Focus::View,
        state.select_top_list_item().requests == state.requests.push(NetworkEvent::ProjectTasks),
        state.select_top_list_item().wf(),
{
}

/// Selecting the first shortcut, "My Tasks", leaves no task in the state,
/// enqueues exactly one request for the user's tasks behind those already
/// pending, shows the my-tasks view and gives the view the focus.
pub proof fn lemma_select_my_tasks(state: StateView)
    requires
        state.wf(),
        state.current_shortcut_index == 0,
    ensures
        state.select_shortcut().tasks.len() == 0,
        state.select_shortcut().requests == state.requests.push(NetworkEvent::MyTasks),
        state.select_shortcut().current_view() == View::MyTasks,
        state.select_shortcut().view_stack.len() == 1,
        state.select_shortcut().current_focus == Focus::View,
        state.select_shortcut().wf(),
{
    assert(state.requests + seq![NetworkEvent::MyTasks] =~= state.requests.push(
        NetworkEvent::MyTasks,
    ));
}

/// Selecting another shortcut than the first shows its view, drops the tasks
/// held and gives the view the focus, and enqueues nothing.
pub proof fn lemma_select_other_shortcut(state: StateView)
    requires
        state.wf(),
        state.current_shortcut_index != 0,
    ensures
        state.select_shortcut().tasks.len() == 0,
        state.select_shortcut().requests == state.requests,
        state.select_shortcut().current_view() == if state.current_shortcut_index == 1 {
            View::RecentlyModified
        } else {
            View::RecentlyCompleted
        },
        state.select_shortcut().current_focus == Focus::View,
        state.select_shortcut().wf(),
{
    assert(state.requests + Seq::<NetworkEvent>::empty() =~= state.requests);
}

/// After `count` ticks the loading indicator stands `count` frames further
/// round its ring, and nothing else has changed.
pub proof fn lemma_spinner_after_ticks(state: StateView, count: nat)
    requires
        state.wf(),
    ensures
        advance_spinner_times(state, count) == (StateView {
            spinner_index: (state.spinner_index + count) % (SPINNER_FRAME_COUNT as int),
            ..state
        }),
        advance_spinner_times(state, count).wf(),
    decreases count,
{
    if count > 0 {
        lemma_spinner_after_ticks(state, (count - 1) as nat);
    }
}

/// The loading indicator cycles through exactly as many values as it has
/// frames: from the first frame, each tick short of a full round leads to
/// the frame of its number, and the tick that completes the round leads
/// back to the first frame.
pub proof fn lemma_spinner_cycle(state: StateView, count: nat)
    requires
        state.wf(),
        state.spinner_index == 0,
        count <= SPINNER_FRAME_COUNT,
    ensures
        count < SPINNER_FRAME_COUNT ==> advance_spinner_times(state, count).spinner_index == count,
        count == SPINNER_FRAME_COUNT ==> advance_spinner_times(state, count) == state,
{
    lemma_spinner_after_ticks(state, count);
}

/// A full round of ticks leads back to the frame it started from.
pub proof fn lemma_spinner_full_round(state: StateView)
    requires
        state.wf(),
    ensures
        advance_spinner_times(state, SPINNER_FRAME_COUNT as nat) == state,
{
    lemma_spinner_after_ticks(state, SPINNER_FRAME_COUNT as nat);
}

} // verus!
