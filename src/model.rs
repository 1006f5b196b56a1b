use vstd::prelude::*;

verus! {

/// Largest deviation, on each axis, that still counts as "the pointer did not move".
pub const TOLERANCE: i32 = 5;

/// Sleep between polls while no replay is running.
pub const IDLE_POLL_MS: u64 = 50;

/// Interval used before any start command supplied one.
pub const DEFAULT_INTERVAL_MS: u64 = 100;

/// An absolute screen coordinate.
#[derive(Clone, Copy, Debug, PartialEq, Eq, Structural)]
pub struct Position {
    pub x: i32,
    pub y: i32,
}

/// A user intent carried from the foreground to the worker.
#[derive(Clone, Copy, Debug, PartialEq, Eq, Structural)]
pub enum ReplayCommand {
    Record,
    Start { wait_time_ms: u64 },
    Stop,
}

/// Absolute value of a mathematical integer.
pub open spec fn abs(v: int) -> int {
    if v < 0 { -v } else { v }
}

/// The pointer at `current` has left `target` by more than the tolerance on some axis.
pub open spec fn is_drift(target: Position, current: Position) -> bool {
    abs(current.x - target.x) > TOLERANCE || abs(current.y - target.y) > TOLERANCE
}

/// Decides whether the pointer has been moved away from the target.
pub fn drifted(target: Position, current: Position) -> (r: bool)
    ensures
        r == is_drift(target, current),
{
    let dx: i64 = current.x as i64 - target.x as i64;
    let dy: i64 = current.y as i64 - target.y as i64;
    let adx: i64 = if dx < 0 { -dx } else { dx };
    let ady: i64 = if dy < 0 { -dy } else { dy };
    adx > TOLERANCE as i64 || ady > TOLERANCE as i64
}

/// Everything the worker remembers between ticks.
#[derive(Clone, Copy, Debug, PartialEq, Eq, Structural)]
pub struct ReplayState {
    /// The last captured pointer position, if any.
    pub recorded_position: Option<Position>,
    /// Whether the click loop is active.
    pub is_replaying: bool,
    /// Delay between clicks while replaying.
    pub interval_ms: u64,
}

impl ReplayState {
    /// A replay only runs towards a recorded position.
    pub open spec fn wf(self) -> bool {
        self.is_replaying ==> self.recorded_position is Some
    }

    /// How long the worker sleeps at the end of a tick in this state.
    pub open spec fn spec_sleep_ms(self) -> u64 {
        if self.is_replaying { self.interval_ms } else { IDLE_POLL_MS }
    }

    /// The state with replay switched off and all else kept.
    pub open spec fn idle(self) -> ReplayState {
        ReplayState { is_replaying: false, ..self }
    }

    /// The state at startup: idle, nothing recorded, default interval.
    pub fn new() -> (r: ReplayState)
        ensures
            r.recorded_position is None,
            !r.is_replaying,
            r.interval_ms == DEFAULT_INTERVAL_MS,
            r.wf(),
    {
        ReplayState { recorded_position: None, is_replaying: false, interval_ms: DEFAULT_INTERVAL_MS }
    }

    /// Sleep at the end of a tick: the interval while replaying, the idle poll otherwise.
    pub fn sleep_ms(&self) -> (r: u64)
        ensures
            r == self.spec_sleep_ms(),
    {
        if self.is_replaying { self.interval_ms } else { IDLE_POLL_MS }
    }
}

} // verus!
