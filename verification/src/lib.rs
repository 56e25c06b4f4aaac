//! Hierarchical time tracking: named tasks with a start and an end instant,
//! trackers that aggregate them into projects and sub-projects, and a
//! rendered report of where the time went.

pub mod prelude;
pub mod report;
pub mod task;
pub mod time;
pub mod time_tracker;
