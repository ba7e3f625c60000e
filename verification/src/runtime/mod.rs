pub mod task;
pub mod runner;
