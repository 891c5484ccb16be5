use crate::asana::{Project, ProjectView, Task, TaskView, User, UserView, Workspace, WorkspaceView};
use crate::events::network::Event as NetworkEvent;
use crate::ui::SPINNER_FRAME_COUNT;
use vstd::prelude::*;
use vstd::view::View as _;

pub mod lemmas;
pub mod view;

verus! {

/// Specifying the different foci.
#[derive(Debug, Clone, Copy, PartialEq, Eq, Structural)]
pub enum Focus {
    Menu,
    View,
}

/// Specifying the different menus.
#[derive(Debug, Clone, Copy, PartialEq, Eq, Structural)]
pub enum Menu {
    Status,
    Shortcuts,
    TopList,
}

/// Specifying the different views.
#[derive(Debug, Clone, Copy, PartialEq, Eq, Structural)]
pub enum View {
    Welcome,
    MyTasks,
    RecentlyModified,
    RecentlyCompleted,
    ProjectTasks,
}

/// A rectangular area of the terminal, in character cells.
#[derive(Debug, Clone, Copy, PartialEq, Eq, Structural)]
pub struct Rect {
    pub x: u16,
    pub y: u16,
    pub width: u16,
    pub height: u16,
}

/// Number of entries of the shortcut menu.
pub const SHORTCUT_COUNT: usize = 3;

/// Specifying the different shortcuts.
pub const SHORTCUTS: [&'static str; 3] = ["My Tasks", "Recently Modified", "Recently Completed"];

impl Menu {
    /// The menu that follows this one in the ring Status, Shortcuts, TopList.
    pub open spec fn next(self) -> Menu {
        match self {
            Menu::Status => Menu::Shortcuts,
            Menu::Shortcuts => Menu::TopList,
            Menu::TopList => Menu::Status,
        }
    }

    /// The menu that precedes this one in the ring.
    pub open spec fn previous(self) -> Menu {
        match self {
            Menu::Status => Menu::TopList,
            Menu::Shortcuts => Menu::Status,
            Menu::TopList => Menu::Shortcuts,
        }
    }
}

/// The position after `index` in a ring of `count` positions.
pub open spec fn ring_next(index: int, count: int) -> int {
    (index + 1) % count
}

/// The position before `index` in a ring of `count` positions.
pub open spec fn ring_previous(index: int, count: int) -> int {
    (index + count - 1) % count
}

/// In a ring of `count` positions the step forward from the last position
/// leads to the first, the step back from the first leads to the last, and
/// every other step moves by one.
pub proof fn lemma_ring_steps(index: int, count: int)
    requires
        0 <= index < count,
    ensures
        ring_next(index, count) == if index + 1 == count { 0 } else { index + 1 },
        ring_previous(index, count) == if index == 0 { count - 1 } else { index - 1 },
{
    if index + 1 == count {
        assert((index + 1) % count == 0) by (nonlinear_arith)
            requires
                index + 1 == count,
                count > 0,
        ;
    } else {
        assert((index + 1) % count == index + 1) by (nonlinear_arith)
            requires
                0 <= index + 1 < count,
        ;
    }
    if index == 0 {
        assert((index + count - 1) % count == count - 1) by (nonlinear_arith)
            requires
                index == 0,
                count > 0,
        ;
    } else {
        assert((index + count - 1) % count == index - 1) by (nonlinear_arith)
            requires
                0 < index < count,
        ;
    }
}

/// The view that the shortcut at `index` opens.
pub open spec fn shortcut_view(index: int) -> View {
    if index == 0 {
        View::MyTasks
    } else if index == 1 {
        View::RecentlyModified
    } else {
        View::RecentlyCompleted
    }
}

/// The requests that selecting the shortcut at `index` enqueues: only the
/// first shortcut fetches anything.
pub open spec fn shortcut_requests(index: int) -> Seq<NetworkEvent> {
    if index == 0 {
        seq![NetworkEvent::MyTasks]
    } else {
        Seq::empty()
    }
}

/// Whether `index` is the first position of `workspaces` that holds `gid`.
pub open spec fn is_first_with_gid(workspaces: Seq<WorkspaceView>, gid: Seq<char>, index: int) -> bool {
    &&& 0 <= index < workspaces.len()
    &&& workspaces[index].gid == gid
    &&& forall|j: int| 0 <= j < index ==> (#[trigger] workspaces[j]).gid != gid
}

/// The first workspace of `workspaces` that carries `gid`, if there is one.
pub open spec fn first_with_gid(workspaces: Seq<WorkspaceView>, gid: Seq<char>) -> Option<
    WorkspaceView,
> {
    if exists|i: int| is_first_with_gid(workspaces, gid, i) {
        Some(workspaces[choose|i: int| is_first_with_gid(workspaces, gid, i)])
    } else {
        None
    }
}

/// The application state as mathematical values: what a frame is rendered
/// from, where the navigation stands, and the requests not yet handed to the
/// worker.
pub struct StateView {
    pub user: Option<UserView>,
    pub workspaces: Seq<WorkspaceView>,
    pub active_workspace_gid: Option<Seq<char>>,
    pub terminal_size: Rect,
    pub spinner_index: int,
    pub current_focus: Focus,
    pub current_menu: Menu,
    pub current_shortcut_index: int,
    pub current_top_list_item: int,
    pub view_stack: Seq<View>,
    pub tasks: Seq<TaskView>,
    pub projects: Seq<ProjectView>,
    pub project: Option<ProjectView>,
    pub requests: Seq<NetworkEvent>,
}

impl StateView {
    /// The state at startup: nothing loaded, the shortcut menu focused, the
    /// welcome view shown, no request pending.
    pub open spec fn initial() -> StateView {
        StateView {
            user: None,
            workspaces: Seq::empty(),
            active_workspace_gid: None,
            terminal_size: Rect { x: 0, y: 0, width: 0, height: 0 },
            spinner_index: 0,
            current_focus: Focus::Menu,
            current_menu: Menu::Shortcuts,
            current_shortcut_index: 0,
            current_top_list_item: 0,
            view_stack: seq![View::Welcome],
            tasks: Seq::empty(),
            projects: Seq::empty(),
            project: None,
            requests: Seq::empty(),
        }
    }

    /// What holds of every state: the cursors are within their lists and a
    /// view is always shown.
    pub open spec fn wf(self) -> bool {
        &&& 0 <= self.spinner_index < SPINNER_FRAME_COUNT
        &&& 0 <= self.current_shortcut_index < SHORTCUT_COUNT
        &&& 0 <= self.current_top_list_item
        &&& self.current_top_list_item < self.projects.len() || (self.projects.len() == 0
            && self.current_top_list_item == 0)
        &&& self.view_stack.len() >= 1
    }

    /// The view that is shown: the top of the view stack.
    pub open spec fn current_view(self) -> View {
        self.view_stack.last()
    }

    /// The first workspace that carries the active GID, if there is one.
    pub open spec fn active_workspace(self) -> Option<WorkspaceView> {
        match self.active_workspace_gid {
            None => None,
            Some(gid) => first_with_gid(self.workspaces, gid),
        }
    }

    /// The state after the workspaces were replaced by `workspaces`: the
    /// active GID is initialised to the first one's if it was unset and there
    /// is a first one, and is left alone otherwise.
    pub open spec fn with_workspaces(self, workspaces: Seq<WorkspaceView>) -> StateView {
        StateView {
            workspaces,
            active_workspace_gid: if self.active_workspace_gid is None && workspaces.len() > 0 {
                Some(workspaces[0].gid)
            } else {
                self.active_workspace_gid
            },
            ..self
        }
    }

    /// The state after the projects were replaced by `projects`: a cursor
    /// that no longer points into the list goes back to its start.
    pub open spec fn with_projects(self, projects: Seq<ProjectView>) -> StateView {
        StateView {
            projects,
            current_top_list_item: if self.current_top_list_item < projects.len() {
                self.current_top_list_item
            } else {
                0
            },
            ..self
        }
    }

    /// The state after one tick of the loading indicator.
    pub open spec fn advance_spinner(self) -> StateView {
        StateView {
            spinner_index: ring_next(self.spinner_index, SPINNER_FRAME_COUNT as int),
            ..self
        }
    }

    /// The state with the next menu activated.
    pub open spec fn next_menu(self) -> StateView {
        StateView { current_menu: self.current_menu.next(), ..self }
    }

    /// The state with the previous menu activated.
    pub open spec fn previous_menu(self) -> StateView {
        StateView { current_menu: self.current_menu.previous(), ..self }
    }

    /// The state with the next shortcut activated.
    pub open spec fn next_shortcut(self) -> StateView {
        StateView {
            current_shortcut_index: ring_next(self.current_shortcut_index, SHORTCUT_COUNT as int),
            ..self
        }
    }

    /// The state with the previous shortcut activated.
    pub open spec fn previous_shortcut(self) -> StateView {
        StateView {
            current_shortcut_index: ring_previous(
                self.current_shortcut_index,
                SHORTCUT_COUNT as int,
            ),
            ..self
        }
    }

    /// The state after the current shortcut was selected: its view replaces
    /// the view stack, the tasks are dropped, the view gets the focus, and the
    /// shortcut's requests are enqueued.
    pub open spec fn select_shortcut(self) -> StateView {
        StateView {
            view_stack: seq![shortcut_view(self.current_shortcut_index)],
            tasks: Seq::empty(),
            current_focus: Focus::View,
            requests: self.requests + shortcut_requests(self.current_shortcut_index),
            ..self
        }
    }

    /// The state with the next project of the top list activated; the same
    /// state where there is no project.
    pub open spec fn next_top_list_item(self) -> StateView {
        if self.projects.len() == 0 {
            self
        } else {
            StateView {
                current_top_list_item: ring_next(
                    self.current_top_list_item,
                    self.projects.len() as int,
                ),
                ..self
            }
        }
    }

    /// The state with the previous project of the top list activated; the
    /// same state where there is no project.
    pub open spec fn previous_top_list_item(self) -> StateView {
        if self.projects.len() == 0 {
            self
        } else {
            StateView {
                current_top_list_item: ring_previous(
                    self.current_top_list_item,
                    self.projects.len() as int,
                ),
                ..self
            }
        }
    }

    /// The state after the current project of the top list was selected: it
    /// becomes the selected project, its task view replaces the view stack,
    /// the tasks are dropped, the view gets the focus and a request for its
    /// tasks is enqueued. The same state where there is no project.
    pub open spec fn select_top_list_item(self) -> StateView {
        if self.projects.len() == 0 {
            self
        } else {
            StateView {
                project: Some(self.projects[self.current_top_list_item]),
                view_stack: seq![View::ProjectTasks],
                tasks: Seq::empty(),
                current_focus: Focus::View,
                requests: self.requests.push(NetworkEvent::ProjectTasks),
                ..self
            }
        }
    }
}

/// Houses data representative of application state.
pub struct State {
    requests: Vec<NetworkEvent>,
    user: Option<User>,
    workspaces: Vec<Workspace>,
    active_workspace_gid: Option<String>,
    terminal_size: Rect,
    spinner_index: usize,
    current_focus: Focus,
    current_menu: Menu,
    current_shortcut_index: usize,
    current_top_list_item: usize,
    view_stack: Vec<View>,
    tasks: Vec<Task>,
    projects: Vec<Project>,
    project: Option<Project>,
}

impl vstd::view::View for State {
    type V = StateView;

    closed spec fn view(&self) -> StateView {
        StateView {
            user: self.user.deep_view(),
            workspaces: self.workspaces.deep_view(),
            active_workspace_gid: self.active_workspace_gid.deep_view(),
            terminal_size: self.terminal_size,
            spinner_index: self.spinner_index as int,
            current_focus: self.current_focus,
            current_menu: self.current_menu,
            current_shortcut_index: self.current_shortcut_index as int,
            current_top_list_item: self.current_top_list_item as int,
            view_stack: self.view_stack@,
            tasks: self.tasks.deep_view(),
            projects: self.projects.deep_view(),
            project: self.project.deep_view(),
            requests: self.requests@,
        }
    }
}

/// Defines default application state.
impl Default for State {
    fn default() -> (res: State)
        ensures
            res@ == StateView::initial(),
    {
        let res = State {
            requests: Vec::new(),
            user: None,
            workspaces: Vec::new(),
            active_workspace_gid: None,
            terminal_size: Rect { x: 0, y: 0, width: 0, height: 0 },
            spinner_index: 0,
            current_focus: Focus::Menu,
            current_menu: Menu::Shortcuts,
            current_shortcut_index: 0,
            current_top_list_item: 0,
            view_stack: vec![View::Welcome],
            tasks: Vec::new(),
            projects: Vec::new(),
            project: None,
        };
        assert(res@.workspaces =~= Seq::empty());
        assert(res@.tasks =~= Seq::empty());
        assert(res@.projects =~= Seq::empty());
        assert(res@.view_stack =~= seq![View::Welcome]);
        res
    }
}

impl State {
    /// Every state that executable code can hold is well formed.
    #[verifier::type_invariant]
    pub open spec fn inv(&self) -> bool {
        self@.wf()
    }

    /// Returns the state at startup.
    pub fn new() -> (res: State)
        ensures
            res@ == StateView::initial(),
    {
        State::default()
    }

    /// Returns details for current user.
    pub fn get_user(&self) -> (res: Option<&User>)
        ensures
            res.deep_view() == self@.user,
    {
        self.user.as_ref()
    }

    /// Sets details for current user.
    pub fn set_user(&mut self, user: User) -> (ret: &mut Self)
        ensures
            ret@ == (StateView { user: Some(user@), ..old(self)@ }),
            *final(self) == *final(ret),
    {
        proof {
            use_type_invariant(&*self);
        }
        self.user = Some(user);
        self
    }

    /// Returns the GID of the active workspace or None. The GID stays as it
    /// was set even where no workspace carries it any more.
    pub fn get_active_workspace_gid(&self) -> (res: Option<&String>)
        ensures
            res.deep_view() == self@.active_workspace_gid,
    {
        self.active_workspace_gid.as_ref()
    }

    /// Returns a reference to the active workspace or None.
    pub fn get_active_workspace(&self) -> (res: Option<&Workspace>)
        ensures
            res.deep_view() == self@.active_workspace(),
    {
        match &self.active_workspace_gid {
            Some(active_workspace_gid) => {
                let ghost gid = active_workspace_gid@;
                let mut i: usize = 0;
                while i < self.workspaces.len()
                    invariant
                        i <= self.workspaces.len(),
                        self@.workspaces.len() == self.workspaces.len(),
                        self@.active_workspace_gid == Some(gid),
                        gid == active_workspace_gid@,
                        forall|j: int| 0 <= j < i ==> (#[trigger] self@.workspaces[j]).gid != gid,
                    decreases self.workspaces.len() - i,
                {
                    assert(self@.workspaces[i as int] == self.workspaces[i as int]@);
                    if *active_workspace_gid == self.workspaces[i].gid {
                        proof {
                            assert(is_first_with_gid(self@.workspaces, gid, i as int));
                            let k = choose|k: int| is_first_with_gid(self@.workspaces, gid, k);
                            assert(k == i) by {
                                if k < i {
                                    assert(self@.workspaces[k].gid != gid);
                                }
                                if i < k {
                                    assert(self@.workspaces[i as int].gid != gid);
                                }
                            }
                        }
                        return Some(&self.workspaces[i]);
                    }
                    i += 1;
                }
                proof {
                    assert forall|k: int| !is_first_with_gid(self@.workspaces, gid, k) by {
                        if 0 <= k < self@.workspaces.len() {
                            assert(self@.workspaces[k].gid != gid);
                        }
                    }
                }
                None
            },
            None => None,
        }
    }

    /// Sets the active workspace by the given workspace GID.
    pub fn set_active_workspace(&mut self, workspace_gid: String) -> (ret: &mut Self)
        ensures
            ret@ == (StateView { active_workspace_gid: Some(workspace_gid@), ..old(self)@ }),
            *final(self) == *final(ret),
    {
        proof {
            use_type_invariant(&*self);
        }
        self.active_workspace_gid = Some(workspace_gid);
        self
    }

    /// Returns the workspaces available to current user.
    pub fn get_workspaces(&self) -> (res: &Vec<Workspace>)
        ensures
            res.deep_view() == self@.workspaces,
    {
        &self.workspaces
    }

    /// Sets workspaces available to current user, initializing the active
    /// workspace GID if unset and at least one workspace is available.
    pub fn set_workspaces(&mut self, workspaces: Vec<Workspace>) -> (ret: &mut Self)
        ensures
            ret@ == old(self)@.with_workspaces(workspaces.deep_view()),
            *final(self) == *final(ret),
    {
        proof {
            use_type_invariant(&*self);
        }
        if self.active_workspace_gid.is_none() && workspaces.len() > 0 {
            assert(workspaces.deep_view()[0] == workspaces[0]@);
            self.active_workspace_gid = Some(workspaces[0].gid.clone());
        }
        self.workspaces = workspaces;
        self
    }

    /// Returns the terminal size.
    pub fn terminal_size(&self) -> (res: &Rect)
        ensures
            *res == self@.terminal_size,
    {
        &self.terminal_size
    }

    /// Sets the terminal size.
    pub fn set_terminal_size(&mut self, size: Rect) -> (ret: &mut Self)
        ensures
            ret@ == (StateView { terminal_size: size, ..old(self)@ }),
            *final(self) == *final(ret),
    {
        proof {
            use_type_invariant(&*self);
        }
        self.terminal_size = size;
        self
    }

    /// Advance the spinner index.
    pub fn advance_spinner_index(&mut self) -> (ret: &mut Self)
        ensures
            ret@ == old(self)@.advance_spinner(),
            *final(self) == *final(ret),
    {
        proof {
            use_type_invariant(&*self);
        }
        if self.spinner_index + 1 >= SPINNER_FRAME_COUNT {
            self.spinner_index = 0;
        } else {
            self.spinner_index += 1;
        }
        self
    }

    /// Return the current spinner index.
    pub fn get_spinner_index(&self) -> (res: &usize)
        ensures
            *res == self@.spinner_index,
            *res < SPINNER_FRAME_COUNT,
    {
        proof {
            use_type_invariant(self);
        }
        &self.spinner_index
    }

    /// Return the current focus.
    pub fn current_focus(&self) -> (res: &Focus)
        ensures
            *res == self@.current_focus,
    {
        &self.current_focus
    }

    /// Change focus to the current menu.
    pub fn focus_menu(&mut self) -> (ret: &mut Self)
        ensures
            ret@ == (StateView { current_focus: Focus::Menu, ..old(self)@ }),
            *final(self) == *final(ret),
    {
        proof {
            use_type_invariant(&*self);
        }
        self.current_focus = Focus::Menu;
        self
    }

    /// Change focus to the current view.
    pub fn focus_view(&mut self) -> (ret: &mut Self)
        ensures
            ret@ == (StateView { current_focus: Focus::View, ..old(self)@ }),
            *final(self) == *final(ret),
    {
        proof {
            use_type_invariant(&*self);
        }
        self.current_focus = Focus::View;
        self
    }

    /// Return the current menu.
    pub fn current_menu(&self) -> (res: &Menu)
        ensures
            *res == self@.current_menu,
    {
        &self.current_menu
    }

    /// Activate the next menu.
    pub fn next_menu(&mut self) -> (ret: &mut Self)
        ensures
            ret@ == old(self)@.next_menu(),
            *final(self) == *final(ret),
    {
        proof {
            use_type_invariant(&*self);
        }
        match self.current_menu {
            Menu::Status => self.current_menu = Menu::Shortcuts,
            Menu::Shortcuts => self.current_menu = Menu::TopList,
            Menu::TopList => self.current_menu = Menu::Status,
        }
        self
    }

    /// Activate the previous menu.
    pub fn previous_menu(&mut self) -> (ret: &mut Self)
        ensures
            ret@ == old(self)@.previous_menu(),
            *final(self) == *final(ret),
    {
        proof {
            use_type_invariant(&*self);
        }
        match self.current_menu {
            Menu::Status => self.current_menu = Menu::TopList,
            Menu::Shortcuts => self.current_menu = Menu::Status,
            Menu::TopList => self.current_menu = Menu::Shortcuts,
        }
        self
    }

    /// Return the current shortcut.
    pub fn current_shortcut_index(&self) -> (res: &usize)
        ensures
            *res == self@.current_shortcut_index,
            *res < SHORTCUT_COUNT,
    {
        proof {
            use_type_invariant(self);
        }
        &self.current_shortcut_index
    }

    /// Activate the next shortcut.
    pub fn next_shortcut_index(&mut self) -> (ret: &mut Self)
        ensures
            ret@ == old(self)@.next_shortcut(),
            *final(self) == *final(ret),
    {
        proof {
            use_type_invariant(&*self);
        }
        if self.current_shortcut_index + 1 >= SHORTCUT_COUNT {
            self.current_shortcut_index = 0;
        } else {
            self.current_shortcut_index += 1;
        }
        self
    }

    /// Activate the previous shortcut.
    pub fn previous_shortcut_index(&mut self) -> (ret: &mut Self)
        ensures
            ret@ == old(self)@.previous_shortcut(),
            *final(self) == *final(ret),
    {
        proof {
            use_type_invariant(&*self);
        }
        if self.current_shortcut_index > 0 {
            self.current_shortcut_index -= 1;
        } else {
            self.current_shortcut_index = SHORTCUT_COUNT - 1;
        }
        self
    }

    /// Select the current shortcut.
    pub fn select_current_shortcut_index(&mut self) -> (ret: &mut Self)
        ensures
            ret@ == old(self)@.select_shortcut(),
            *final(self) == *final(ret),
    {
        proof {
            use_type_invariant(&*self);
        }
        self.tasks = Vec::new();
        if self.current_shortcut_index == 0 {
            self.dispatch(NetworkEvent::MyTasks);
            self.view_stack = vec![View::MyTasks];
        } else if self.current_shortcut_index == 1 {
            self.view_stack = vec![View::RecentlyModified];
        } else {
            self.view_stack = vec![View::RecentlyCompleted];
        }
        self.current_focus = Focus::View;
        proof {
            let after = old(self)@.select_shortcut();
            assert(self@.view_stack =~= after.view_stack);
            assert(self@.tasks =~= after.tasks);
            assert(self@.requests =~= after.requests);
        }
        self
    }

    /// Activate the next top list item.
    pub fn next_top_list_item(&mut self) -> (ret: &mut Self)
        ensures
            ret@ == old(self)@.next_top_list_item(),
            *final(self) == *final(ret),
    {
        proof {
            use_type_invariant(&*self);
            if self.projects.len() > 0 {
                lemma_ring_steps(self.current_top_list_item as int, self.projects.len() as int);
            }
        }
        if self.projects.len() == 0 {
            return self;
        }
        if self.current_top_list_item + 1 >= self.projects.len() {
            self.current_top_list_item = 0;
        } else {
            self.current_top_list_item += 1;
        }
        self
    }

    /// Activate the previous top list item.
    pub fn previous_top_list_item(&mut self) -> (ret: &mut Self)
        ensures
            ret@ == old(self)@.previous_top_list_item(),
            *final(self) == *final(ret),
    {
        proof {
            use_type_invariant(&*self);
            if self.projects.len() > 0 {
                lemma_ring_steps(self.current_top_list_item as int, self.projects.len() as int);
            }
        }
        if self.projects.len() == 0 {
            return self;
        }
        if self.current_top_list_item > 0 {
            self.current_top_list_item -= 1;
        } else {
            self.current_top_list_item = self.projects.len() - 1;
        }
        self
    }

    /// Return the current top list item.
    pub fn current_top_list_item(&self) -> (res: &usize)
        ensures
            *res == self@.current_top_list_item,
            *res < self@.projects.len() || (*res == 0 && self@.projects.len() == 0),
    {
        proof {
            use_type_invariant(self);
        }
        &self.current_top_list_item
    }

    /// Select the current top list item.
    pub fn select_current_top_list_item(&mut self) -> (ret: &mut Self)
        ensures
            ret@ == old(self)@.select_top_list_item(),
            *final(self) == *final(ret),
    {
        proof {
            use_type_invariant(&*self);
        }
        if self.projects.len() == 0 {
            return self;
        }
        assert(self@.projects[self.current_top_list_item as int]
            == self.projects[self.current_top_list_item as int]@);
        self.project = Some(self.projects[self.current_top_list_item].clone());
        self.view_stack = vec![View::ProjectTasks];
        self.tasks = Vec::new();
        self.dispatch(NetworkEvent::ProjectTasks);
        self.current_focus = Focus::View;
        proof {
            let after = old(self)@.select_top_list_item();
            assert(self@.view_stack =~= after.view_stack);
            assert(self@.tasks =~= after.tasks);
        }
        self
    }

    /// Return the current view.
    pub fn current_view(&self) -> (res: &View)
        ensures
            *res == self@.current_view(),
    {
        proof {
            use_type_invariant(self);
        }
        &self.view_stack[self.view_stack.len() - 1]
    }

    /// Return the list of tasks.
    pub fn get_tasks(&self) -> (res: &Vec<Task>)
        ensures
            res.deep_view() == self@.tasks,
    {
        &self.tasks
    }

    /// Set the list of tasks.
    pub fn set_tasks(&mut self, tasks: Vec<Task>) -> (ret: &mut Self)
        ensures
            ret@ == (StateView { tasks: tasks.deep_view(), ..old(self)@ }),
            *final(self) == *final(ret),
    {
        proof {
            use_type_invariant(&*self);
        }
        self.tasks = tasks;
        self
    }

    /// Return the list of projects.
    pub fn get_projects(&self) -> (res: &Vec<Project>)
        ensures
            res.deep_view() == self@.projects,
    {
        &self.projects
    }

    /// Set the list of projects.
    pub fn set_projects(&mut self, projects: Vec<Project>) -> (ret: &mut Self)
        ensures
            ret@ == old(self)@.with_projects(projects.deep_view()),
            *final(self) == *final(ret),
    {
        proof {
            use_type_invariant(&*self);
        }
        if self.current_top_list_item >= projects.len() {
            self.current_top_list_item = 0;
        }
        self.projects = projects;
        self
    }

    /// Return the current project.
    pub fn get_project(&self) -> (res: Option<&Project>)
        ensures
            res.deep_view() == self@.project,
    {
        self.project.as_ref()
    }

    /// Return the requests that were enqueued and not taken yet, oldest first.
    pub fn pending_requests(&self) -> (res: &Vec<NetworkEvent>)
        ensures
            res@ == self@.requests,
    {
        &self.requests
    }

    /// Take the enqueued requests out of the state, oldest first, for the
    /// caller to hand them to the worker.
    pub fn take_requests(&mut self) -> (res: Vec<NetworkEvent>)
        ensures
            res@ == old(self)@.requests,
            final(self)@ == (StateView { requests: Seq::empty(), ..old(self)@ }),
    {
        proof {
            use_type_invariant(&*self);
        }
        let mut taken: Vec<NetworkEvent> = Vec::new();
        std::mem::swap(&mut self.requests, &mut taken);
        taken
    }

    /// Enqueues an asynchronous network event.
    fn dispatch(&mut self, event: NetworkEvent)
        ensures
            final(self)@ == (StateView { requests: old(self)@.requests.push(event), ..old(self)@ }),
    {
        proof {
            use_type_invariant(&*self);
        }
        let mut requests: Vec<NetworkEvent> = Vec::new();
        std::mem::swap(&mut self.requests, &mut requests);
        requests.push(event);
        self.requests = requests;
    }
}

} // verus!
