//! The desktop notifications that a change of state can call for.

use vstd::prelude::*;

verus! {

/// A desktop notification, named by the event it reports.
#[derive(Clone, Copy, PartialEq, Eq, Structural, Debug)]
pub enum Notification {
    /// The daemon stopped while it was being watched.
    SunshineStopped,
    /// The daemon is running and serves no client.
    ClientDisconnected,
    /// A client connected to the daemon.
    ClientConnected,
}

/// The application name under which every notification is shown.
pub const APP_NAME: &'static str = "Sunshine Status";

impl Notification {
    /// The one-line summary of the notification.
    pub open spec fn summary_text(self) -> Seq<char> {
        match self {
            Notification::SunshineStopped => "Sunshine stopped"@,
            Notification::ClientDisconnected => "Client disconnected"@,
            Notification::ClientConnected => "Client connected"@,
        }
    }

    /// The body text of the notification.
    pub open spec fn body_text(self) -> Seq<char> {
        match self {
            Notification::SunshineStopped => "Sunshine stopped running unexpectedly."@,
            Notification::ClientDisconnected => "A client disconnected from Sunshine."@,
            Notification::ClientConnected => "A client connected to Sunshine."@,
        }
    }

    /// Returns the one-line summary to show.
    pub fn summary(self) -> (text: &'static str)
        ensures
            text@ == self.summary_text(),
    {
        match self {
            Notification::SunshineStopped => "Sunshine stopped",
            Notification::ClientDisconnected => "Client disconnected",
            Notification::ClientConnected => "Client connected",
        }
    }

    /// Returns the body text to show.
    pub fn body(self) -> (text: &'static str)
        ensures
            text@ == self.body_text(),
    {
        match self {
            Notification::SunshineStopped => "Sunshine stopped running unexpectedly.",
            Notification::ClientDisconnected => "A client disconnected from Sunshine.",
            Notification::ClientConnected => "A client connected to Sunshine.",
        }
    }
}

} // verus!
