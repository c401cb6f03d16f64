//! Monitors: their geometry, their neighbours, and the moves between them.

pub mod lemmas;
pub mod structs;
pub mod utils;
