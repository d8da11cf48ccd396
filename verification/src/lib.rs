//! Countdown timers for three periodic in-game events.
//!
//! Each event first happened at a fixed unix timestamp and repeats at a fixed
//! interval. The library computes the seconds left until the next occurrence
//! and renders them as `H:MM:SS`.

pub mod args;
pub mod clock;
pub mod color;
pub mod counts;
pub mod delta;
pub mod event;
pub mod hms;

pub use args::{setup_logging, Args, LogLevel};
pub use clock::unix_now;
pub use color::{get_color, Rgb};
pub use counts::{update, Counts, Message};
pub use delta::{calc_delta, calc_delta_at, time_until, DeltaError};
pub use event::{EventType, LE_EVERY, LE_INIT, RW_EVERY, RW_INIT, WB_EVERY, WB_INIT};
pub use hms::get_hms;
