//! State coordination for a terminal client of a remote task-management
//! account: the shared application state, the navigation state machine driven
//! by key and tick events, and the decisions of the worker that fetches data.

pub mod asana;
pub mod config;
pub mod events;
pub mod state;
pub mod ui;
