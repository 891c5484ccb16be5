//! The panels of the screen.

pub mod main;
pub mod shortcuts;
pub mod status;
pub mod top_list;

pub use main::main;
pub use shortcuts::shortcuts;
pub use status::status;
pub use top_list::top_list;
