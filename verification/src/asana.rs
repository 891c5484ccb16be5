//! Data fetched from the remote account, and how it is asked for.

pub mod client;
pub mod query;
pub mod resource;

pub use client::Client;
pub use resource::{Project, ProjectView, Task, TaskView, User, UserView, Workspace, WorkspaceView};
