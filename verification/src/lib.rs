//! Status monitor for the Sunshine streaming daemon.
//!
//! The library holds the decisions of a tray monitor: how raw observations of
//! the operating system map to a daemon state, which desktop notification a
//! change of state calls for, and which icon and menu present a state. It
//! performs no input or output itself. A host samples the system, hands the
//! observations in, and carries out what comes back.

pub mod command;
pub mod history;
pub mod icon;
pub mod menu;
pub mod notification;
pub mod pixmap;
pub mod poll;
pub mod state;
pub mod tray_icon;

pub use crate::notification::Notification;
pub use crate::state::ReportShutdown;
pub use crate::state::SunshineState;
pub use crate::tray_icon::TrayIcon;
