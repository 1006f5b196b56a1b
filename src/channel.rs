use vstd::prelude::*;
use std::sync::mpsc::Sender;
use crate::model::ReplayCommand;

verus! {

/// Declares std's `std::sync::mpsc::Sender` so that a handle can hold one; nothing is stated of it.
#[verifier::external_type_specification]
#[verifier::external_body]
#[verifier::reject_recursive_types(T)]
pub struct ExSender<T>(std::sync::mpsc::Sender<T>);

/// The foreground's handle on the worker: the sending end of its command channel.
pub struct AppState {
    command_sender: Sender<ReplayCommand>,
    /// The commands this handle has put on the channel, oldest first.
    sent_log: Ghost<Seq<ReplayCommand>>,
}

impl AppState {
    /// Wraps the sending end of the worker's command channel.
    pub fn new(command_sender: Sender<ReplayCommand>) -> (r: AppState)
        ensures
            r.sender() == command_sender,
            r.sent() == Seq::<ReplayCommand>::empty(),
    {
        AppState { command_sender, sent_log: Ghost(Seq::empty()) }
    }

    /// The channel this handle sends on.
    pub closed spec fn sender(&self) -> Sender<ReplayCommand> {
        self.command_sender
    }

    /// The commands this handle has put on the channel, oldest first.
    pub closed spec fn sent(&self) -> Seq<ReplayCommand> {
        self.sent_log@
    }

    /// Relies on `std::sync::mpsc::Sender::send`: a successful send puts the
    /// command at the back of the channel, and a failed one (the receiving side
    /// is gone) hands it back unsent; the error is turned into its message.
    /// Whether the receiver is alive is outside the library's view, so which of
    /// the two comes back is not promised.
    #[verifier::external_body]
    fn send(&mut self, command: ReplayCommand) -> (r: Result<(), String>)
        ensures
            final(self).sender() == old(self).sender(),
            r is Ok ==> final(self).sent() == old(self).sent().push(command),
            r is Err ==> final(self).sent() == old(self).sent(),
    {
        match self.command_sender.send(command) {
            Ok(()) => Ok(()),
            Err(e) => Err(e.to_string()),
        }
    }

    /// Asks the worker to capture the current pointer position.
    /// Fails, sending nothing, only when the worker is gone.
    pub fn record(&mut self) -> (r: Result<(), String>)
        ensures
            final(self).sender() == old(self).sender(),
            r is Ok ==> final(self).sent() == old(self).sent().push(ReplayCommand::Record),
            r is Err ==> final(self).sent() == old(self).sent(),
    {
        self.send(ReplayCommand::Record)
    }

    /// Asks the worker to start replaying with the given interval.
    /// Fails, sending nothing, only when the worker is gone.
    pub fn start_replay(&mut self, wait_time_ms: u64) -> (r: Result<(), String>)
        ensures
            final(self).sender() == old(self).sender(),
            r is Ok ==> final(self).sent() == old(self).sent().push(ReplayCommand::Start { wait_time_ms }),
            r is Err ==> final(self).sent() == old(self).sent(),
    {
        self.send(ReplayCommand::Start { wait_time_ms })
    }

    /// Asks the worker to stop replaying.
    /// Fails, sending nothing, only when the worker is gone.
    pub fn stop_replay(&mut self) -> (r: Result<(), String>)
        ensures
            final(self).sender() == old(self).sender(),
            r is Ok ==> final(self).sent() == old(self).sent().push(ReplayCommand::Stop),
            r is Err ==> final(self).sent() == old(self).sent(),
    {
        self.send(ReplayCommand::Stop)
    }
}

} // verus!
