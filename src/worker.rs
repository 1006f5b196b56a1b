use vstd::prelude::*;
use crate::model::{Position, ReplayCommand, ReplayState, drifted, is_drift};

verus! {

/// Where the worker stands within a tick: which outcome it waits for.
#[derive(Clone, Copy, Debug, PartialEq, Eq, Structural)]
pub enum Phase {
    /// Waiting for the result of a non-blocking receive on the command channel.
    Receiving,
    /// Waiting for the pointer location asked for by a record command.
    Recording,
    /// Waiting for the first move of a replay that a start command asked for.
    Starting { target: Position, wait_time_ms: u64 },
    /// Waiting for the pointer location used to detect a manual move.
    Checking,
    /// Waiting for the corrective move to the target.
    Repositioning { target: Position },
    /// Waiting for the synthetic primary-button click.
    Clicking,
    /// Waiting for the end-of-tick sleep.
    Sleeping,
}

/// The outcome of the operation the worker last asked for.
#[derive(Clone, Copy, Debug, PartialEq, Eq, Structural)]
pub enum Event {
    /// A command taken from the channel, or `None` when none was pending.
    Command(Option<ReplayCommand>),
    /// The pointer location, or `None` when the query failed.
    Location(Option<Position>),
    /// Whether the pointer move succeeded.
    Moved(bool),
    /// Whether the click succeeded.
    Clicked(bool),
    /// The sleep is over.
    Slept,
}

/// The outside operation the worker asks to be performed next.
#[derive(Clone, Copy, Debug, PartialEq, Eq, Structural)]
pub enum Action {
    /// Try to receive one command without blocking.
    Receive,
    /// Query the current pointer location.
    QueryLocation,
    /// Move the pointer to an absolute position.
    MoveTo(Position),
    /// Click the primary button once.
    Click,
    /// Sleep this many milliseconds.
    Sleep(u64),
}

/// The replay worker: its remembered state and its place within the current tick.
#[derive(Clone, Copy, Debug, PartialEq, Eq, Structural)]
pub struct Worker {
    pub state: ReplayState,
    pub phase: Phase,
}

/// After a command is handled: go on with the replay step if replaying, else to sleep.
pub open spec fn settle(s: ReplayState) -> Worker {
    Worker { state: s, phase: if s.is_replaying { Phase::Checking } else { Phase::Sleeping } }
}

/// Replay is switched off and the tick ends with a sleep.
pub open spec fn halt(s: ReplayState) -> Worker {
    Worker { state: s.idle(), phase: Phase::Sleeping }
}

impl Worker {
    /// The worker at startup.
    pub open spec fn initial() -> Worker {
        Worker {
            state: ReplayState { recorded_position: None, is_replaying: false, interval_ms: crate::model::DEFAULT_INTERVAL_MS },
            phase: Phase::Receiving,
        }
    }

    /// Replay runs only towards a recorded position, and a start is only
    /// pending while idle with a position recorded.
    pub open spec fn wf(self) -> bool {
        &&& self.state.wf()
        &&& (self.phase is Starting ==> self.state.recorded_position is Some && !self.state.is_replaying)
    }

    /// The operation the worker waits on in its current phase.
    pub open spec fn spec_action(self) -> Action {
        match self.phase {
            Phase::Receiving => Action::Receive,
            Phase::Recording => Action::QueryLocation,
            Phase::Starting { target, wait_time_ms } => Action::MoveTo(target),
            Phase::Checking => Action::QueryLocation,
            Phase::Repositioning { target } => Action::MoveTo(target),
            Phase::Clicking => Action::Click,
            Phase::Sleeping => Action::Sleep(self.state.spec_sleep_ms()),
        }
    }

    /// How a command taken from the channel is applied.
    pub open spec fn on_command(self, c: Option<ReplayCommand>) -> Worker {
        let s = self.state;
        match c {
            None => settle(s),
            Some(ReplayCommand::Record) => Worker { state: s, phase: Phase::Recording },
            Some(ReplayCommand::Start { wait_time_ms }) => {
                if s.is_replaying {
                    settle(s)
                } else {
                    match s.recorded_position {
                        Some(p) => Worker { state: s, phase: Phase::Starting { target: p, wait_time_ms } },
                        None => settle(s),
                    }
                }
            },
            Some(ReplayCommand::Stop) => settle(s.idle()),
        }
    }

    /// The worker after the outcome `e` of its pending operation. An outcome
    /// of another operation than the pending one leaves the worker unchanged.
    pub open spec fn next(self, e: Event) -> Worker {
        let s = self.state;
        match self.phase {
            Phase::Receiving => match e {
                Event::Command(c) => self.on_command(c),
                _ => self,
            },
            Phase::Recording => match e {
                Event::Location(Some(p)) => settle(ReplayState { recorded_position: Some(p), ..s }),
                Event::Location(None) => settle(s),
                _ => self,
            },
            Phase::Starting { target, wait_time_ms } => match e {
                Event::Moved(true) => settle(ReplayState { is_replaying: true, interval_ms: wait_time_ms, ..s }),
                Event::Moved(false) => Worker { state: s, phase: Phase::Sleeping },
                _ => self,
            },
            Phase::Checking => match e {
                Event::Location(loc) => match (s.recorded_position, loc) {
                    (Some(t), Some(p)) => if is_drift(t, p) {
                        halt(s)
                    } else {
                        Worker { state: s, phase: Phase::Repositioning { target: t } }
                    },
                    _ => halt(s),
                },
                _ => self,
            },
            Phase::Repositioning { target } => match e {
                Event::Moved(true) => Worker { state: s, phase: Phase::Clicking },
                Event::Moved(false) => halt(s),
                _ => self,
            },
            Phase::Clicking => match e {
                Event::Clicked(true) => Worker { state: s, phase: Phase::Sleeping },
                Event::Clicked(false) => halt(s),
                _ => self,
            },
            Phase::Sleeping => match e {
                Event::Slept => Worker { state: s, phase: Phase::Receiving },
                _ => self,
            },
        }
    }

    /// The worker at startup: idle, nothing recorded, about to receive.
    pub fn new() -> (r: Worker)
        ensures
            r == Worker::initial(),
            r.wf(),
    {
        Worker { state: ReplayState::new(), phase: Phase::Receiving }
    }

    /// The operation the worker waits on.
    pub fn pending_action(&self) -> (r: Action)
        ensures
            r == self.spec_action(),
    {
        match self.phase {
            Phase::Receiving => Action::Receive,
            Phase::Recording => Action::QueryLocation,
            Phase::Starting { target, wait_time_ms: _ } => Action::MoveTo(target),
            Phase::Checking => Action::QueryLocation,
            Phase::Repositioning { target } => Action::MoveTo(target),
            Phase::Clicking => Action::Click,
            Phase::Sleeping => Action::Sleep(self.state.sleep_ms()),
        }
    }

    /// Ends the handling of a command: the replay step follows if replaying,
    /// the sleep otherwise.
    fn settle(&mut self)
        ensures
            *final(self) == settle(old(self).state),
    {
        self.phase = if self.state.is_replaying { Phase::Checking } else { Phase::Sleeping };
    }

    /// Switches replay off and ends the tick.
    fn halt(&mut self)
        ensures
            *final(self) == halt(old(self).state),
    {
        self.state.is_replaying = false;
        self.phase = Phase::Sleeping;
    }

    /// Applies a command taken from the channel, or its absence.
    fn apply_command(&mut self, c: Option<ReplayCommand>)
        ensures
            *final(self) == old(self).on_command(c),
    {
        match c {
            None => self.settle(),
            Some(ReplayCommand::Record) => {
                self.phase = Phase::Recording;
            },
            Some(ReplayCommand::Start { wait_time_ms }) => {
                if self.state.is_replaying {
                    self.settle();
                } else {
                    match self.state.recorded_position {
                        Some(p) => {
                            self.phase = Phase::Starting { target: p, wait_time_ms };
                        },
                        None => self.settle(),
                    }
                }
            },
            Some(ReplayCommand::Stop) => {
                self.state.is_replaying = false;
                self.settle();
            },
        }
    }

    /// Feeds the outcome of the pending operation to the worker and returns
    /// the operation to perform next.
    pub fn step(&mut self, e: Event) -> (r: Action)
        ensures
            *final(self) == old(self).next(e),
            r == final(self).spec_action(),
            old(self).wf() ==> final(self).wf(),
    {
        match self.phase {
            Phase::Receiving => {
                if let Event::Command(c) = e {
                    self.apply_command(c);
                }
            },
            Phase::Recording => {
                if let Event::Location(loc) = e {
                    if let Some(p) = loc {
                        self.state.recorded_position = Some(p);
                    }
                    self.settle();
                }
            },
            Phase::Starting { target: _, wait_time_ms } => {
                if let Event::Moved(ok) = e {
                    if ok {
                        self.state.is_replaying = true;
                        self.state.interval_ms = wait_time_ms;
                        self.settle();
                    } else {
                        self.phase = Phase::Sleeping;
                    }
                }
            },
            Phase::Checking => {
                if let Event::Location(loc) = e {
                    match (self.state.recorded_position, loc) {
                        (Some(t), Some(p)) => {
                            if drifted(t, p) {
                                self.halt();
                            } else {
                                self.phase = Phase::Repositioning { target: t };
                            }
                        },
                        _ => self.halt(),
                    }
                }
            },
            Phase::Repositioning { target: _ } => {
                if let Event::Moved(ok) = e {
                    if ok {
                        self.phase = Phase::Clicking;
                    } else {
                        self.halt();
                    }
                }
            },
            Phase::Clicking => {
                if let Event::Clicked(ok) = e {
                    if ok {
                        self.phase = Phase::Sleeping;
                    } else {
                        self.halt();
                    }
                }
            },
            Phase::Sleeping => {
                if let Event::Slept = e {
                    self.phase = Phase::Receiving;
                }
            },
        }
        self.pending_action()
    }
}

} // verus!
