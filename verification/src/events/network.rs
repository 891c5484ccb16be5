use crate::asana::{Project, ProjectView, Task, TaskView, User, UserView, Workspace, WorkspaceView};
use crate::state::{State, StateView};
use vstd::prelude::*;

verus! {

/// Specify different network event types.
#[derive(Debug, Clone, Copy, PartialEq, Eq, Structural)]
pub enum Event {
    Me,
    ProjectTasks,
    MyTasks,
}

/// What a [`Request`] holds, as mathematical values.
pub enum RequestView {
    Me,
    Projects { workspace_gid: Seq<char> },
    MyTasks { user_gid: Seq<char>, workspace_gid: Seq<char> },
    ProjectTasks { project_gid: Seq<char> },
}

/// A fetch that the worker asks of the remote account, with the GIDs it is
/// made for.
#[derive(Debug)]
pub enum Request {
    /// The current user and the workspaces available to them.
    Me,
    /// The projects of a workspace.
    Projects { workspace_gid: String },
    /// The incomplete tasks assigned to a user in a workspace.
    MyTasks { user_gid: String, workspace_gid: String },
    /// The tasks of a project.
    ProjectTasks { project_gid: String },
}

impl View for Request {
    type V = RequestView;

    open spec fn view(&self) -> RequestView {
        match self {
            Request::Me => RequestView::Me,
            Request::Projects { workspace_gid } => RequestView::Projects {
                workspace_gid: workspace_gid@,
            },
            Request::MyTasks { user_gid, workspace_gid } => RequestView::MyTasks {
                user_gid: user_gid@,
                workspace_gid: workspace_gid@,
            },
            Request::ProjectTasks { project_gid } => RequestView::ProjectTasks {
                project_gid: project_gid@,
            },
        }
    }
}

impl DeepView for Request {
    type V = RequestView;

    open spec fn deep_view(&self) -> RequestView {
        self@
    }
}

/// What a [`Response`] holds, as mathematical values.
pub enum ResponseView {
    Me { user: UserView, workspaces: Seq<WorkspaceView> },
    Projects { projects: Seq<ProjectView> },
    Tasks { tasks: Seq<TaskView> },
}

/// What the remote account answered to a [`Request`].
#[derive(Debug)]
pub enum Response {
    /// The answer to [`Request::Me`].
    Me { user: User, workspaces: Vec<Workspace> },
    /// The answer to [`Request::Projects`].
    Projects { projects: Vec<Project> },
    /// The answer to [`Request::MyTasks`] and to [`Request::ProjectTasks`].
    Tasks { tasks: Vec<Task> },
}

impl View for Response {
    type V = ResponseView;

    open spec fn view(&self) -> ResponseView {
        match self {
            Response::Me { user, workspaces } => ResponseView::Me {
                user: user@,
                workspaces: workspaces.deep_view(),
            },
            Response::Projects { projects } => ResponseView::Projects {
                projects: projects.deep_view(),
            },
            Response::Tasks { tasks } => ResponseView::Tasks { tasks: tasks.deep_view() },
        }
    }
}

/// Why a fetch brought no answer.
#[derive(Debug, Clone, Copy, PartialEq, Eq, Structural)]
pub enum FetchError {
    Unauthorized,
    NotFound,
    Network,
    Decode,
}

/// The request that the worker makes for `event` in `state`, if it makes
/// one. The tasks of a project are asked for only where a project is
/// selected, and the user's tasks only where the user is known and the
/// active workspace is among the workspaces.
pub open spec fn request_for(state: StateView, event: Event) -> Option<RequestView> {
    match event {
        Event::Me => Some(RequestView::Me),
        Event::ProjectTasks => match state.project {
            Some(project) => Some(RequestView::ProjectTasks { project_gid: project.gid }),
            None => None,
        },
        Event::MyTasks => match (state.user, state.active_workspace()) {
            (Some(user), Some(workspace)) => Some(
                RequestView::MyTasks { user_gid: user.gid, workspace_gid: workspace.gid },
            ),
            _ => None,
        },
    }
}

/// The state after the worker received `outcome`. A failed fetch changes
/// nothing. The user and the workspaces come together, and an empty list of
/// workspaces does not replace the one held.
pub open spec fn after_outcome(state: StateView, outcome: Result<ResponseView, FetchError>) -> StateView {
    match outcome {
        Err(_) => state,
        Ok(ResponseView::Me { user, workspaces }) => {
            let with_user = StateView { user: Some(user), ..state };
            if workspaces.len() > 0 {
                with_user.with_workspaces(workspaces)
            } else {
                with_user
            }
        },
        Ok(ResponseView::Projects { projects }) => state.with_projects(projects),
        Ok(ResponseView::Tasks { tasks }) => StateView { tasks, ..state },
    }
}

/// The request that follows `outcome` at once: after the user and their
/// workspaces, the projects of the first workspace.
pub open spec fn request_after(outcome: Result<ResponseView, FetchError>) -> Option<RequestView> {
    match outcome {
        Ok(ResponseView::Me { user, workspaces }) => if workspaces.len() > 0 {
            Some(RequestView::Projects { workspace_gid: workspaces[0].gid })
        } else {
            None
        },
        _ => None,
    }
}

/// The view of an outcome of a fetch.
pub open spec fn outcome_view(outcome: Result<Response, FetchError>) -> Result<
    ResponseView,
    FetchError,
> {
    match outcome {
        Ok(response) => Ok(response@),
        Err(error) => Err(error),
    }
}

/// Every outcome of a fetch leads from a well-formed state to a well-formed
/// state, and a failed fetch leaves the state as it was.
pub proof fn lemma_after_outcome_wf(state: StateView, outcome: Result<ResponseView, FetchError>)
    requires
        state.wf(),
    ensures
        after_outcome(state, outcome).wf(),
        outcome is Err ==> after_outcome(state, outcome) == state,
        outcome is Err ==> request_after(outcome) is None,
{
}

/// No outcome of a fetch touches the navigation: focus, menu, shortcut
/// cursor, view stack, selected project and pending requests stay as they
/// were.
pub proof fn lemma_after_outcome_keeps_navigation(
    state: StateView,
    outcome: Result<ResponseView, FetchError>,
)
    ensures
        after_outcome(state, outcome).current_focus == state.current_focus,
        after_outcome(state, outcome).current_menu == state.current_menu,
        after_outcome(state, outcome).current_shortcut_index == state.current_shortcut_index,
        after_outcome(state, outcome).view_stack == state.view_stack,
        after_outcome(state, outcome).project == state.project,
        after_outcome(state, outcome).requests == state.requests,
{
}

/// Decides what the worker fetches and what becomes of the answers.
pub struct Handler {}

impl Handler {
    /// Return new instance.
    pub fn new() -> Self {
        Handler {  }
    }

    /// Handle network events by type: returns the request to make for the
    /// event, or None where the state holds nothing to make it for.
    pub fn handle(&self, state: &State, event: Event) -> (res: Option<Request>)
        ensures
            res.deep_view() == request_for(state@, event),
    {
        match event {
            Event::Me => Some(self.me()),
            Event::ProjectTasks => self.project_tasks(state),
            Event::MyTasks => self.my_tasks(state),
        }
    }

    /// Update state with the outcome of a request. Returns the request that
    /// follows it, if one does.
    pub fn receive(&self, state: &mut State, outcome: Result<Response, FetchError>) -> (res: Option<
        Request,
    >)
        ensures
            final(state)@ == after_outcome(old(state)@, outcome_view(outcome)),
            res.deep_view() == request_after(outcome_view(outcome)),
    {
        match outcome {
            Err(_) => None,
            Ok(Response::Me { user, workspaces }) => {
                state.set_user(user);
                if workspaces.len() > 0 {
                    assert(workspaces.deep_view()[0] == workspaces[0]@);
                    let workspace_gid = workspaces[0].gid.clone();
                    state.set_workspaces(workspaces);
                    Some(Request::Projects { workspace_gid })
                } else {
                    None
                }
            },
            Ok(Response::Projects { projects }) => {
                state.set_projects(projects);
                None
            },
            Ok(Response::Tasks { tasks }) => {
                state.set_tasks(tasks);
                None
            },
        }
    }

    /// The request for user details and available workspaces.
    fn me(&self) -> (res: Request)
        ensures
            res@ == RequestView::Me,
    {
        Request::Me
    }

    /// The request for the tasks of the selected project.
    fn project_tasks(&self, state: &State) -> (res: Option<Request>)
        ensures
            res.deep_view() == request_for(state@, Event::ProjectTasks),
    {
        match state.get_project() {
            Some(project) => Some(Request::ProjectTasks { project_gid: project.gid.clone() }),
            None => None,
        }
    }

    /// The request for the tasks assigned to the user.
    fn my_tasks(&self, state: &State) -> (res: Option<Request>)
        ensures
            res.deep_view() == request_for(state@, Event::MyTasks),
    {
        match (state.get_user(), state.get_active_workspace()) {
            (Some(user), Some(workspace)) => Some(
                Request::MyTasks {
                    user_gid: user.gid.clone(),
                    workspace_gid: workspace.gid.clone(),
                },
            ),
            _ => None,
        }
    }
}

} // verus!
