//! Building blocks shared by the panels.

pub mod spinner;
