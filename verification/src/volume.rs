//! The audio monitor: events it hands to the daemon's loop, and the decisions
//! of its loops around the audio server.
use vstd::prelude::*;

verus! {

/// Events sent from background threads to the main event loop.
#[derive(Clone, Copy, Debug, PartialEq, Eq, Structural)]
pub enum DaemonEvent {
    /// The default sink's volume, in percent.
    VolumeChanged(u8),
    /// The audio monitor lost its server.
    PulseDisconnected,
    /// A termination signal arrived.
    Shutdown,
}

/// Remembers the last volume that the audio monitor reported, so that it reports
/// only changes.
pub struct VolumeMonitor {
    last: Option<u8>,
}

impl VolumeMonitor {
    pub closed spec fn last_reported(&self) -> Option<u8> {
        self.last
    }

    pub fn new() -> (m: VolumeMonitor)
        ensures
            m.last_reported() is None,
    {
        VolumeMonitor { last: None }
    }

    /// Records the volume `vol` just read; returns whether it has to be reported,
    /// that is whether it differs from the last one reported.
    pub fn observe(&mut self, vol: u8) -> (report: bool)
        ensures
            report == (old(self).last_reported() != Some(vol)),
            final(self).last_reported() == Some(vol),
    {
        if self.last == Some(vol) {
            false
        } else {
            self.last = Some(vol);
            true
        }
    }
}

/// Most mainloop iterations spent waiting for a connection to the audio server.
pub const MAX_CONNECT_ITERATIONS: usize = 500;

/// Most mainloop iterations spent waiting for one request to the audio server.
pub const MAX_OP_ITERATIONS: usize = 200;

/// State of a connection context of the audio server.
#[derive(Clone, Copy, Debug, PartialEq, Eq, Structural)]
pub enum ContextState {
    Ready,
    Failed,
    Terminated,
    /// Any state on the way to ready.
    Pending,
}

/// Outcome of one blocking mainloop iteration while connecting.
#[derive(Clone, Copy, Debug, PartialEq, Eq, Structural)]
pub enum ConnectIteration {
    /// The mainloop quit or failed.
    Failed,
    /// It ran; the context is now in this state.
    Ran(ContextState),
}

/// What follows an iteration while connecting.
#[derive(Clone, Copy, Debug, PartialEq, Eq, Structural)]
pub enum ConnectWait {
    /// Iterate again.
    Continue,
    /// The connection is ready.
    Ready,
    /// Give up: the mainloop failed.
    IterateFailed,
    /// Give up: the context failed or was terminated.
    ContextFailed,
    /// Give up: the connection took too many iterations.
    TimedOut,
}

pub open spec fn spec_pa_connect_step(iteration: usize, outcome: ConnectIteration) -> ConnectWait {
    match outcome {
        ConnectIteration::Failed => ConnectWait::IterateFailed,
        ConnectIteration::Ran(ContextState::Ready) => ConnectWait::Ready,
        ConnectIteration::Ran(ContextState::Failed) => ConnectWait::ContextFailed,
        ConnectIteration::Ran(ContextState::Terminated) => ConnectWait::ContextFailed,
        ConnectIteration::Ran(ContextState::Pending) => if iteration + 1 < MAX_CONNECT_ITERATIONS {
            ConnectWait::Continue
        } else {
            ConnectWait::TimedOut
        },
    }
}

/// Decides what follows iteration number `iteration` (from 0) of the wait for
/// a connection; the wait ends after `MAX_CONNECT_ITERATIONS` iterations.
pub fn pa_connect_step(iteration: usize, outcome: ConnectIteration) -> (w: ConnectWait)
    requires
        iteration < MAX_CONNECT_ITERATIONS,
    ensures
        w == spec_pa_connect_step(iteration, outcome),
{
    match outcome {
        ConnectIteration::Failed => ConnectWait::IterateFailed,
        ConnectIteration::Ran(ContextState::Ready) => ConnectWait::Ready,
        ConnectIteration::Ran(ContextState::Failed) => ConnectWait::ContextFailed,
        ConnectIteration::Ran(ContextState::Terminated) => ConnectWait::ContextFailed,
        ConnectIteration::Ran(ContextState::Pending) => if iteration + 1 < MAX_CONNECT_ITERATIONS {
            ConnectWait::Continue
        } else {
            ConnectWait::TimedOut
        },
    }
}

/// The wait for a connection goes on exactly while the context is still on its
/// way and the iteration limit is not reached; it ends ready exactly when the
/// context became ready, and times out only on the last allowed iteration.
pub proof fn law_connect_wait(iteration: usize, outcome: ConnectIteration)
    ensures
        (spec_pa_connect_step(iteration, outcome) == ConnectWait::Continue) <==> (outcome
            == ConnectIteration::Ran(ContextState::Pending) && iteration + 1
            < MAX_CONNECT_ITERATIONS),
        (spec_pa_connect_step(iteration, outcome) == ConnectWait::Ready) <==> (outcome
            == ConnectIteration::Ran(ContextState::Ready)),
        (spec_pa_connect_step(iteration, outcome) == ConnectWait::IterateFailed) <==> (outcome
            == ConnectIteration::Failed),
        (spec_pa_connect_step(iteration, outcome) == ConnectWait::ContextFailed) <==> (outcome
            == ConnectIteration::Ran(ContextState::Failed) || outcome == ConnectIteration::Ran(
            ContextState::Terminated,
        )),
        (spec_pa_connect_step(iteration, outcome) == ConnectWait::TimedOut) <==> (outcome
            == ConnectIteration::Ran(ContextState::Pending) && iteration + 1
            >= MAX_CONNECT_ITERATIONS),
{
}

/// Outcome of one blocking mainloop iteration while a request runs.
#[derive(Clone, Copy, Debug, PartialEq, Eq, Structural)]
pub enum OpIteration {
    /// The mainloop quit or failed.
    Failed,
    /// It ran; the request is still running or not.
    Ran { running: bool },
}

/// What follows an iteration while a request runs.
#[derive(Clone, Copy, Debug, PartialEq, Eq, Structural)]
pub enum OpWait {
    /// Iterate again.
    Continue,
    /// Stop waiting: the request is over, or it took too many iterations.
    Done,
    /// Give up: the server is gone.
    Disconnected,
}

pub open spec fn spec_await_op_step(iteration: usize, outcome: OpIteration) -> OpWait {
    match outcome {
        OpIteration::Failed => OpWait::Disconnected,
        OpIteration::Ran { running } => if running && iteration + 1 < MAX_OP_ITERATIONS {
            OpWait::Continue
        } else {
            OpWait::Done
        },
    }
}

/// Decides what follows iteration number `iteration` (from 0) of the wait for a
/// request; the wait ends after `MAX_OP_ITERATIONS` iterations either way.
pub fn await_op_step(iteration: usize, outcome: OpIteration) -> (w: OpWait)
    requires
        iteration < MAX_OP_ITERATIONS,
    ensures
        w == spec_await_op_step(iteration, outcome),
{
    match outcome {
        OpIteration::Failed => OpWait::Disconnected,
        OpIteration::Ran { running } => if running && iteration + 1 < MAX_OP_ITERATIONS {
            OpWait::Continue
        } else {
            OpWait::Done
        },
    }
}

/// The wait for a request goes on exactly while the request runs and the
/// iteration limit is not reached; it reports a lost server exactly when the
/// mainloop failed, and otherwise ends done.
pub proof fn law_request_wait(iteration: usize, outcome: OpIteration)
    ensures
        (spec_await_op_step(iteration, outcome) == OpWait::Continue) <==> (outcome
            == OpIteration::Ran { running: true } && iteration + 1 < MAX_OP_ITERATIONS),
        (spec_await_op_step(iteration, outcome) == OpWait::Disconnected) <==> (outcome
            == OpIteration::Failed),
{
}

/// What the monitor loop does at the start of a round.
#[derive(Clone, Copy, Debug, PartialEq, Eq, Structural)]
pub enum MonitorStep {
    /// Shutdown was asked for: stop quietly.
    Stop,
    /// The server connection is no longer ready: report it and stop.
    ReportDisconnect,
    /// Wait for the next server event.
    Continue,
}

/// Decides the start of a monitor round from the shutdown flag and whether the
/// server connection is ready; shutdown comes first.
pub fn monitor_step(shutdown: bool, ready: bool) -> (m: MonitorStep)
    ensures
        m == (if shutdown {
            MonitorStep::Stop
        } else if !ready {
            MonitorStep::ReportDisconnect
        } else {
            MonitorStep::Continue
        }),
{
    if shutdown {
        MonitorStep::Stop
    } else if !ready {
        MonitorStep::ReportDisconnect
    } else {
        MonitorStep::Continue
    }
}

} // verus!
