//! A rate limiter: lets an action run at most once per cooldown period.
//!
//! Time is modelled as a count of nanoseconds on a monotonic timeline, so
//! that every decision the limiter takes is stated and proved over integers.

mod clock;
pub mod laws;
pub mod limiter;
pub mod model;
pub mod time;
pub mod timer;
pub mod trace;

pub use limiter::RateLimiter;
pub use time::{Duration, Instant};
pub use timer::Timer;
