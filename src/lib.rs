//! Build orchestration for multi-target web projects: which build tasks run,
//! how their toolchain invocations are formed, how each task's result is
//! decided, and how the results of one cycle are reduced to one outcome.

pub mod text;
pub mod outcome;
pub mod change;
pub mod interrupt;
pub mod runner;
pub mod store;
pub mod cargo;
pub mod tasks;
pub mod config;
pub mod laws;
pub mod site;
