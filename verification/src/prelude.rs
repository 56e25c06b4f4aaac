//! The types that most callers need.

pub use crate::report::{Report, ShareTexts};
pub use crate::task::{CompletedTask, Task};
pub use crate::time::{Duration, TimeOverflow, Timestamp};
pub use crate::time_tracker::TimeTracker;
