//! The observed condition of the daemon and the shutdown-report latch.

use vstd::prelude::*;

verus! {

/// The current state of the Sunshine daemon.
#[derive(Clone, Copy, PartialEq, Eq, Structural, Debug)]
pub enum SunshineState {
    /// The daemon is stopped.
    Stopped,
    /// The daemon is running.
    Running,
    /// The daemon has a client connected to it.
    ClientConnected,
}

/// Whether or not to report a shutdown to the user via a notification.
///
/// The flag works as a one-way latch: it starts as `DoNotReport`, is set to
/// `Report` once the daemon has been seen running, and is never set back.
#[derive(Clone, Copy, PartialEq, Eq, Structural, Debug)]
pub enum ReportShutdown {
    /// Report a shutdown.
    Report,
    /// Do not report a shutdown.
    DoNotReport,
}

impl SunshineState {
    /// True for the two states in which the daemon is up: every state but
    /// `Stopped`.
    pub open spec fn is_up(self) -> bool {
        self != SunshineState::Stopped
    }
}

} // verus!
