use vstd::prelude::*;
use vstd::std_specs::cmp::PartialEqSpecImpl;

verus! {

/// What a [`User`] holds, as mathematical values.
pub struct UserView {
    pub gid: Seq<char>,
    pub name: Seq<char>,
    pub email: Seq<char>,
}

/// Defines user data structure.
#[derive(Debug)]
pub struct User {
    pub gid: String,
    pub name: String,
    pub email: String,
}

impl View for User {
    type V = UserView;

    open spec fn view(&self) -> UserView {
        UserView { gid: self.gid@, name: self.name@, email: self.email@ }
    }
}

impl Clone for User {
    fn clone(&self) -> (res: Self)
        ensures
            res@ == self@,
    {
        User { gid: self.gid.clone(), name: self.name.clone(), email: self.email.clone() }
    }
}

impl PartialEq for User {
    fn eq(&self, other: &Self) -> (res: bool) {
        self.gid == other.gid && self.name == other.name && self.email == other.email
    }
}

impl PartialEqSpecImpl for User {
    open spec fn obeys_eq_spec() -> bool {
        true
    }

    open spec fn eq_spec(&self, other: &Self) -> bool {
        self@ == other@
    }
}

/// What a [`Workspace`] holds, as mathematical values.
pub struct WorkspaceView {
    pub gid: Seq<char>,
    pub name: Seq<char>,
}

/// Defines workspace data structure.
#[derive(Debug)]
pub struct Workspace {
    pub gid: String,
    pub name: String,
}

impl View for Workspace {
    type V = WorkspaceView;

    open spec fn view(&self) -> WorkspaceView {
        WorkspaceView { gid: self.gid@, name: self.name@ }
    }
}

impl Clone for Workspace {
    fn clone(&self) -> (res: Self)
        ensures
            res@ == self@,
    {
        Workspace { gid: self.gid.clone(), name: self.name.clone() }
    }
}

impl PartialEq for Workspace {
    fn eq(&self, other: &Self) -> (res: bool) {
        self.gid == other.gid && self.name == other.name
    }
}

impl PartialEqSpecImpl for Workspace {
    open spec fn obeys_eq_spec() -> bool {
        true
    }

    open spec fn eq_spec(&self, other: &Self) -> bool {
        self@ == other@
    }
}

/// What a [`Task`] holds, as mathematical values.
pub struct TaskView {
    pub gid: Seq<char>,
    pub name: Seq<char>,
}

/// Defines task data structure.
#[derive(Debug)]
pub struct Task {
    pub gid: String,
    pub name: String,
}

impl View for Task {
    type V = TaskView;

    open spec fn view(&self) -> TaskView {
        TaskView { gid: self.gid@, name: self.name@ }
    }
}

impl Clone for Task {
    fn clone(&self) -> (res: Self)
        ensures
            res@ == self@,
    {
        Task { gid: self.gid.clone(), name: self.name.clone() }
    }
}

impl PartialEq for Task {
    fn eq(&self, other: &Self) -> (res: bool) {
        self.gid == other.gid && self.name == other.name
    }
}

impl PartialEqSpecImpl for Task {
    open spec fn obeys_eq_spec() -> bool {
        true
    }

    open spec fn eq_spec(&self, other: &Self) -> bool {
        self@ == other@
    }
}

/// What a [`Project`] holds, as mathematical values.
pub struct ProjectView {
    pub gid: Seq<char>,
    pub name: Seq<char>,
}

/// Defines project data structure.
#[derive(Debug)]
pub struct Project {
    pub gid: String,
    pub name: String,
}

impl View for Project {
    type V = ProjectView;

    open spec fn view(&self) -> ProjectView {
        ProjectView { gid: self.gid@, name: self.name@ }
    }
}

impl Clone for Project {
    fn clone(&self) -> (res: Self)
        ensures
            res@ == self@,
    {
        Project { gid: self.gid.clone(), name: self.name.clone() }
    }
}

impl PartialEq for Project {
    fn eq(&self, other: &Self) -> (res: bool) {
        self.gid == other.gid && self.name == other.name
    }
}

impl PartialEqSpecImpl for Project {
    open spec fn obeys_eq_spec() -> bool {
        true
    }

    open spec fn eq_spec(&self, other: &Self) -> bool {
        self@ == other@
    }
}

impl DeepView for User {
    type V = UserView;

    open spec fn deep_view(&self) -> UserView {
        self@
    }
}

impl DeepView for Workspace {
    type V = WorkspaceView;

    open spec fn deep_view(&self) -> WorkspaceView {
        self@
    }
}

impl DeepView for Task {
    type V = TaskView;

    open spec fn deep_view(&self) -> TaskView {
        self@
    }
}

impl DeepView for Project {
    type V = ProjectView;

    open spec fn deep_view(&self) -> ProjectView {
        self@
    }
}

} // verus!
