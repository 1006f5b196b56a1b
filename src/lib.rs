//! A replay worker that clicks repeatedly at a recorded pointer position,
//! stopping when the pointer is moved away or a stop command arrives.
//!
//! The worker is a state machine: it is fed the outcome of each outside
//! operation (a received command, a pointer query, a move, a click, a sleep)
//! and answers with the next operation to perform. The foreground reaches it
//! through a command channel.

mod channel;
pub mod laws;
mod model;
mod worker;

pub use channel::AppState;
pub use model::{drifted, Position, ReplayCommand, ReplayState, DEFAULT_INTERVAL_MS, IDLE_POLL_MS, TOLERANCE};
pub use worker::{Action, Event, Phase, Worker};
