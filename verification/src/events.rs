//! Events that drive the application: requests for remote data and terminal
//! input.

pub mod network;
pub mod terminal;
