//! The tray icon's state machine: which notification a newly sampled state
//! calls for, and how state and latch move on.

use vstd::prelude::*;
use crate::icon::create_icon;
use crate::icon::icon_for;
use crate::icon::Icon;
use crate::menu::menu_layout;
use crate::menu::MenuAction;
use crate::menu::MenuItem;
use crate::menu::StandardItem;
use crate::notification::Notification;
use crate::poll::listing_view;
use crate::poll::poll_status;
use crate::poll::sampled_state;
use crate::state::ReportShutdown;
use crate::state::SunshineState;

verus! {

/// What a tray icon knows: the state last observed and the latch.
pub ghost struct TrayIconView {
    pub daemon_state: SunshineState,
    pub report_shutdown: ReportShutdown,
}

/// The notification to show when `new_state` is observed next.
///
/// A stop is reported only once the latch is set. Arriving at `Running` from
/// either other state is reported as a client that disconnected, again only
/// with the latch set before the arrival. A client that connects is always
/// reported.
pub open spec fn notification_for(
    daemon_state: SunshineState,
    new_state: SunshineState,
    report_shutdown: ReportShutdown,
) -> Option<Notification> {
    match new_state {
        SunshineState::Stopped => if report_shutdown == ReportShutdown::Report {
            Some(Notification::SunshineStopped)
        } else {
            None
        },
        SunshineState::Running => if report_shutdown == ReportShutdown::Report && (daemon_state
            == SunshineState::Stopped || daemon_state == SunshineState::ClientConnected) {
            Some(Notification::ClientDisconnected)
        } else {
            None
        },
        SunshineState::ClientConnected => Some(Notification::ClientConnected),
    }
}

/// The latch after `new_state` was observed: set by `Running`, left as it is
/// by the other two states.
pub open spec fn latch_after(
    new_state: SunshineState,
    report_shutdown: ReportShutdown,
) -> ReportShutdown {
    if new_state == SunshineState::Running {
        ReportShutdown::Report
    } else {
        report_shutdown
    }
}

impl TrayIconView {
    /// The tray icon right after its first sample.
    pub open spec fn fresh(daemon_state: SunshineState) -> TrayIconView {
        TrayIconView { daemon_state, report_shutdown: ReportShutdown::DoNotReport }
    }

    /// Whether observing `new_state` is a change.
    pub open spec fn changes_on(self, new_state: SunshineState) -> bool {
        self.daemon_state != new_state
    }

    /// What observing `new_state` makes of the tray icon. Observing the
    /// present state again changes nothing.
    pub open spec fn observe(self, new_state: SunshineState) -> TrayIconView {
        if self.changes_on(new_state) {
            TrayIconView {
                daemon_state: new_state,
                report_shutdown: latch_after(new_state, self.report_shutdown),
            }
        } else {
            self
        }
    }

    /// The notification that observing `new_state` calls for. Observing the
    /// present state again calls for none.
    pub open spec fn notifies(self, new_state: SunshineState) -> Option<Notification> {
        if self.changes_on(new_state) {
            notification_for(self.daemon_state, new_state, self.report_shutdown)
        } else {
            None
        }
    }
}

/// This keeps track of the tray icons current state.
#[derive(Debug)]
pub struct TrayIcon {
    /// The state of the Sunshine daemon.
    daemon_state: SunshineState,
    /// Whether or not to report a shutdown to the user.
    report_shutdown: ReportShutdown,
}

impl View for TrayIcon {
    type V = TrayIconView;

    closed spec fn view(&self) -> TrayIconView {
        TrayIconView { daemon_state: self.daemon_state, report_shutdown: self.report_shutdown }
    }
}

impl TrayIcon {
    /// Creates a new [`TrayIcon`] from the first sample. The latch starts out
    /// unset.
    pub fn new(service_status: Option<i32>, thread_listing: Option<&[u8]>) -> (tray: Self)
        ensures
            tray@ == TrayIconView::fresh(sampled_state(service_status, listing_view(thread_listing))),
            tray@.report_shutdown == ReportShutdown::DoNotReport,
    {
        let daemon_state = poll_status(service_status, thread_listing);
        TrayIcon { daemon_state, report_shutdown: ReportShutdown::DoNotReport }
    }

    /// The state of the Sunshine daemon as last observed.
    pub fn daemon_state(&self) -> (state: SunshineState)
        ensures
            state == self@.daemon_state,
    {
        self.daemon_state
    }

    /// Whether a shutdown would be reported to the user.
    pub fn report_shutdown(&self) -> (latch: ReportShutdown)
        ensures
            latch == self@.report_shutdown,
    {
        self.report_shutdown
    }

    /// Update the tray icon to reflect the daemon's current state. Returns the
    /// notification to show, if any, and whether the state changed, in which
    /// case icon and menu are to be drawn anew.
    pub fn update_state(&mut self, new_state: SunshineState) -> (outcome: (Option<Notification>, bool))
        ensures
            final(self)@ == old(self)@.observe(new_state),
            outcome.0 == old(self)@.notifies(new_state),
            outcome.1 == old(self)@.changes_on(new_state),
            new_state == old(self)@.daemon_state ==> outcome == (None::<Notification>, false)
                && final(self)@ == old(self)@,
            final(self)@.daemon_state == new_state,
    {
        if self.daemon_state == new_state {
            return (None, false);
        }
        let notification = self.create_notifications(new_state);
        self.daemon_state = new_state;
        (notification, true)
    }

    /// Create notifications, if necessary: picks the notification that the
    /// arrival of `new_state` calls for and sets the latch when the daemon is
    /// seen running. The observed state itself stays as it is.
    fn create_notifications(&mut self, new_state: SunshineState) -> (notification: Option<Notification>)
        ensures
            notification == notification_for(
                old(self)@.daemon_state,
                new_state,
                old(self)@.report_shutdown,
            ),
            final(self)@.report_shutdown == latch_after(new_state, old(self)@.report_shutdown),
            final(self)@.daemon_state == old(self)@.daemon_state,
    {
        match new_state {
            SunshineState::Stopped => {
                if self.report_shutdown == ReportShutdown::Report {
                    Some(Notification::SunshineStopped)
                } else {
                    None
                }
            },
            SunshineState::Running => {
                let armed = self.report_shutdown == ReportShutdown::Report;
                if !armed {
                    self.report_shutdown = ReportShutdown::Report;
                }
                if armed && (self.daemon_state == SunshineState::Stopped || self.daemon_state
                    == SunshineState::ClientConnected) {
                    Some(Notification::ClientDisconnected)
                } else {
                    None
                }
            },
            SunshineState::ClientConnected => Some(Notification::ClientConnected),
        }
    }

    /// Samples and updates: maps the two observations to a state and feeds it
    /// to `update_state`.
    pub fn update(
        &mut self,
        service_status: Option<i32>,
        thread_listing: Option<&[u8]>,
    ) -> (outcome: (Option<Notification>, bool))
        ensures
            final(self)@ == old(self)@.observe(
                sampled_state(service_status, listing_view(thread_listing)),
            ),
            outcome.0 == old(self)@.notifies(
                sampled_state(service_status, listing_view(thread_listing)),
            ),
            outcome.1 == old(self)@.changes_on(
                sampled_state(service_status, listing_view(thread_listing)),
            ),
    {
        self.update_state(poll_status(service_status, thread_listing))
    }

    /// The icon that should be displayed right now.
    pub fn icon_pixmap(&self) -> (icons: Vec<Icon>)
        ensures
            icons@ == seq![icon_for(self@.daemon_state)],
    {
        let mut icons: Vec<Icon> = Vec::new();
        icons.push(create_icon(self.daemon_state));
        icons
    }

    /// The title of the tray item.
    pub fn title(&self) -> (title: String)
        ensures
            title@ == "Sunshine"@,
    {
        "Sunshine".to_owned()
    }

    /// A click on the icon itself: opens the configuration while the daemon is
    /// up, and does nothing while it is stopped. The position of the click
    /// plays no part.
    pub fn activate(&self, _x: i32, _y: i32) -> (action: Option<MenuAction>)
        ensures
            self@.daemon_state.is_up() ==> action == Some(MenuAction::Configuration),
            !self@.daemon_state.is_up() ==> action is None,
    {
        if self.daemon_state != SunshineState::Stopped {
            Some(MenuAction::Configuration)
        } else {
            None
        }
    }

    /// The menu to display right now.
    pub fn menu(&self) -> (v: Vec<MenuItem>)
        ensures
            v@ == menu_layout(self@.daemon_state),
    {
        let mut v: Vec<MenuItem> = Vec::new();

        //Add button to open config menu
        v.push(
            MenuItem::Standard(
                StandardItem {
                    activate: MenuAction::Configuration,
                    enabled: self.daemon_state != SunshineState::Stopped,
                },
            ),
        );

        v.push(MenuItem::Separator);

        //Add restart button
        v.push(
            MenuItem::Standard(
                StandardItem {
                    activate: MenuAction::Restart,
                    enabled: self.daemon_state != SunshineState::Stopped,
                },
            ),
        );
        //Add startup if stopped
        if self.daemon_state == SunshineState::Stopped {
            v.push(MenuItem::Standard(StandardItem { activate: MenuAction::Startup, enabled: true }));
        }
        //Add shutdown if running
        if self.daemon_state != SunshineState::Stopped {
            v.push(
                MenuItem::Standard(StandardItem { activate: MenuAction::Shutdown, enabled: true }),
            );
        }
        v.push(MenuItem::Separator);

        //Add button to close the tray icon
        v.push(MenuItem::Standard(StandardItem { activate: MenuAction::Quit, enabled: true }));

        assert(v@ =~= menu_layout(self@.daemon_state));
        v
    }
}

} // verus!
