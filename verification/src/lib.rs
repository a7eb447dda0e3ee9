//! Task handles and sleep timers for futures that run on dispatch queues.
//!
//! The queues themselves belong to the host: this library holds the decisions
//! that the handles make (what a poll answers, when a timer is armed, how a
//! delay is handed to the queue) and proves them.

pub mod error;
pub mod spawned;
pub mod task;
pub mod sleep;
pub mod dispatch;
pub mod laws;
