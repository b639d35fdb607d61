//! Decision core of a command re-runner: when to spawn the next child, what to
//! do with each line it prints, and when the whole run ends.

pub mod stop;
pub mod memory;
pub mod summary;
pub mod engine;
