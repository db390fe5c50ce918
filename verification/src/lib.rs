//! The decisions behind JavaScript-style `setTimeout` and `setInterval` on a
//! `tokio` runtime: how long a timeout waits, how often an interval ticks, and
//! which ticks of an interval run the callback.

mod duration;
pub mod interval;
pub mod timeout;

pub use duration::duration_of_millis;
pub use interval::{IntervalModel, IntervalSchedule, TickAction};
pub use timeout::timeout_delay;
