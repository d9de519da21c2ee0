//! The listener's control plane: the running flag's transitions and the
//! decision taken after each accept attempt.
//!
//! The flag itself is shared across tasks at run time; these functions are
//! its whole logic, so the owner of the real flag only loads, stores and
//! swaps the values decided here.

use vstd::prelude::*;

verus! {

/// How long the listener sleeps after an empty accept poll, in milliseconds.
pub const ACCEPT_RETRY_MILLIS: u64 = 100;

/// The process-wide control state: whether the server is running.
pub struct ServerState {
    pub running: bool,
}

/// What a call to stop decided.
#[derive(PartialEq, Eq, Structural, Clone, Copy, Debug)]
pub enum StopNotice {
    /// The first stop after a start: the shutdown signal was sent.
    SignalSent,
    /// The server was already stopped or never ran; a non-fatal notice.
    AlreadyStopped,
}

impl ServerState {
    /// A freshly constructed server is not yet running.
    pub fn new() -> (r: ServerState)
        ensures
            !r.running,
    {
        ServerState { running: false }
    }

    /// Entering the run loop sets the running flag.
    pub fn start(&mut self)
        ensures
            final(self).running,
    {
        self.running = true;
    }

    /// Stopping clears the flag; only the first call after a start has any
    /// effect, and every later call is a no-op that merely reports so.
    pub fn stop(&mut self) -> (notice: StopNotice)
        ensures
            !final(self).running,
            notice == (if old(self).running {
                StopNotice::SignalSent
            } else {
                StopNotice::AlreadyStopped
            }),
    {
        if self.running {
            self.running = false;
            StopNotice::SignalSent
        } else {
            StopNotice::AlreadyStopped
        }
    }
}

/// What one accept attempt on the listening socket produced.
#[derive(PartialEq, Eq, Structural, Clone, Copy, Debug)]
pub enum AcceptEvent {
    /// A connection is ready.
    Accepted,
    /// Nothing pending on the non-blocking socket.
    NoPending,
    /// The accept failed in some other way.
    Failed,
}

/// What the listener loop must do next.
#[derive(PartialEq, Eq, Structural, Clone, Copy, Debug)]
pub enum ListenAction {
    /// Spawn a handler task that owns the accepted connection.
    SpawnHandler,
    /// Sleep for `ACCEPT_RETRY_MILLIS` and poll again.
    SleepRetry,
    /// Report the accept error and keep the loop alive; non-fatal.
    ReportAndContinue,
    /// The running flag is down: leave the loop.
    ExitLoop,
}

/// The decision owed after each accept attempt: while running, a connection
/// spawns a handler, an empty poll sleeps, an error is reported and survived;
/// once stopped, the loop exits whatever the attempt produced.
pub open spec fn spec_listen_step(running: bool, ev: AcceptEvent) -> ListenAction {
    if !running {
        ListenAction::ExitLoop
    } else {
        match ev {
            AcceptEvent::Accepted => ListenAction::SpawnHandler,
            AcceptEvent::NoPending => ListenAction::SleepRetry,
            AcceptEvent::Failed => ListenAction::ReportAndContinue,
        }
    }
}

/// Computes `spec_listen_step`.
pub fn listen_step(running: bool, ev: AcceptEvent) -> (r: ListenAction)
    ensures
        r == spec_listen_step(running, ev),
{
    if !running {
        return ListenAction::ExitLoop;
    }
    match ev {
        AcceptEvent::Accepted => ListenAction::SpawnHandler,
        AcceptEvent::NoPending => ListenAction::SleepRetry,
        AcceptEvent::Failed => ListenAction::ReportAndContinue,
    }
}

} // verus!
