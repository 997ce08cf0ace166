//! Start and stop of the capture session: at most one session at a time.

use vstd::prelude::*;

verus! {

/// Whether a capture session is marked as running.
#[derive(Debug)]
pub struct CaptureState {
    running: bool,
}

/// What a call of [`CaptureState::start`] asks of the caller.
#[derive(Clone, Copy, Debug, PartialEq, Eq, Structural)]
pub enum StartOutcome {
    /// No session was running: spawn exactly one.
    Spawn,
    /// A session is already marked as running: do nothing.
    AlreadyRunning,
}

impl View for CaptureState {
    type V = bool;

    closed spec fn view(&self) -> bool {
        self.running
    }
}

impl CaptureState {
    /// The state at application start: nothing runs.
    pub fn new() -> (state: CaptureState)
        ensures
            !state@,
    {
        CaptureState { running: false }
    }

    /// Whether a session is marked as running.
    pub fn is_running(&self) -> (running: bool)
        ensures
            running == self@,
    {
        self.running
    }

    /// Marks a session as running and says whether the caller is to spawn it.
    /// A second start without a stop in between is a no-op.
    pub fn start(&mut self) -> (outcome: StartOutcome)
        ensures
            final(self)@,
            outcome == if old(self)@ {
                StartOutcome::AlreadyRunning
            } else {
                StartOutcome::Spawn
            },
    {
        let was_running = self.running;
        self.running = true;
        if was_running {
            StartOutcome::AlreadyRunning
        } else {
            StartOutcome::Spawn
        }
    }

    /// Clears the mark. Advisory: a session that runs is not interrupted.
    pub fn stop(&mut self)
        ensures
            !final(self)@,
    {
        self.running = false;
    }
}

} // verus!
