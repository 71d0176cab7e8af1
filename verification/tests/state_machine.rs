use sunshine_tray::notification::Notification;
use sunshine_tray::state::ReportShutdown;
use sunshine_tray::state::SunshineState;
use sunshine_tray::state::SunshineState::ClientConnected;
use sunshine_tray::state::SunshineState::Running;
use sunshine_tray::state::SunshineState::Stopped;
use sunshine_tray::tray_icon::TrayIcon;

const STATES: [SunshineState; 3] =
    [SunshineState::Stopped, SunshineState::Running, SunshineState::ClientConnected];

/// A fresh tray icon whose first sample was `state`.
fn fresh(state: SunshineState) -> TrayIcon {
    let tray = match state {
        SunshineState::Stopped => TrayIcon::new(None, None),
        SunshineState::Running => TrayIcon::new(Some(0), Some(b"".as_slice())),
        SunshineState::ClientConnected => TrayIcon::new(Some(0), Some(b"threaded-ml".as_slice())),
    };
    assert_eq!(tray.daemon_state(), state);
    assert_eq!(tray.report_shutdown(), ReportShutdown::DoNotReport);
    tray
}

/// A tray icon in `state` whose latch is set.
fn armed(state: SunshineState) -> TrayIcon {
    let mut tray = fresh(SunshineState::Stopped);
    tray.update_state(SunshineState::Running);
    tray.update_state(state);
    assert_eq!(tray.daemon_state(), state);
    assert_eq!(tray.report_shutdown(), ReportShutdown::Report);
    tray
}

#[test]
fn new_starts_with_latch_unset() {
    for state in STATES {
        let tray = fresh(state);
        assert_eq!(tray.daemon_state(), state);
        assert_eq!(tray.report_shutdown(), ReportShutdown::DoNotReport);
    }
}

#[test]
fn same_state_is_idle() {
    for state in STATES {
        let mut tray = fresh(state);
        assert_eq!(tray.update_state(state), (None, false));
        assert_eq!(tray.update_state(state), (None, false));
        assert_eq!(tray.daemon_state(), state);
        assert_eq!(tray.report_shutdown(), ReportShutdown::DoNotReport);

        let mut tray = armed(state);
        assert_eq!(tray.update_state(state), (None, false));
        assert_eq!(tray.daemon_state(), state);
        assert_eq!(tray.report_shutdown(), ReportShutdown::Report);
    }
}

#[test]
fn change_is_flagged_and_state_follows() {
    for from in STATES {
        for to in STATES {
            let mut tray = fresh(from);
            let (_, changed) = tray.update_state(to);
            assert_eq!(changed, from != to);
            assert_eq!(tray.daemon_state(), to);
        }
    }
}

#[test]
fn first_stop_is_not_reported() {
    let mut tray = fresh(SunshineState::Stopped);
    assert_eq!(tray.update_state(SunshineState::Stopped), (None, false));

    let mut tray = fresh(SunshineState::Running);
    assert_eq!(tray.update_state(SunshineState::Stopped), (None, true));
    assert_eq!(tray.report_shutdown(), ReportShutdown::DoNotReport);

    let mut tray = fresh(SunshineState::ClientConnected);
    assert_eq!(tray.update_state(SunshineState::Stopped), (None, true));
    assert_eq!(tray.report_shutdown(), ReportShutdown::DoNotReport);
}

#[test]
fn running_sets_the_latch() {
    let mut tray = fresh(SunshineState::Stopped);
    assert_eq!(tray.update_state(SunshineState::Running), (None, true));
    assert_eq!(tray.report_shutdown(), ReportShutdown::Report);

    let mut tray = fresh(SunshineState::ClientConnected);
    assert_eq!(tray.update_state(SunshineState::Running), (None, true));
    assert_eq!(tray.report_shutdown(), ReportShutdown::Report);
}

#[test]
fn client_connected_leaves_the_latch() {
    let mut tray = fresh(SunshineState::Stopped);
    assert_eq!(
        tray.update_state(SunshineState::ClientConnected),
        (Some(Notification::ClientConnected), true)
    );
    assert_eq!(tray.report_shutdown(), ReportShutdown::DoNotReport);
    assert_eq!(tray.update_state(SunshineState::Stopped), (None, true));

    let mut tray = armed(SunshineState::Stopped);
    tray.update_state(SunshineState::ClientConnected);
    assert_eq!(tray.report_shutdown(), ReportShutdown::Report);
}

#[test]
fn stop_is_reported_once_per_arrival() {
    let mut tray = armed(SunshineState::Running);
    assert_eq!(
        tray.update_state(SunshineState::Stopped),
        (Some(Notification::SunshineStopped), true)
    );
    assert_eq!(tray.update_state(SunshineState::Stopped), (None, false));
    assert_eq!(tray.update_state(SunshineState::Stopped), (None, false));
    assert_eq!(tray.report_shutdown(), ReportShutdown::Report);

    assert_eq!(
        tray.update_state(SunshineState::Running),
        (Some(Notification::ClientDisconnected), true)
    );
    assert_eq!(
        tray.update_state(SunshineState::Stopped),
        (Some(Notification::SunshineStopped), true)
    );
}

#[test]
fn latch_stays_set() {
    for from in STATES {
        for to in STATES {
            let mut tray = armed(from);
            tray.update_state(to);
            assert_eq!(tray.report_shutdown(), ReportShutdown::Report);
        }
    }
}

#[test]
fn full_cycle_emits_in_order() {
    let mut tray = fresh(SunshineState::Stopped);
    assert_eq!(tray.update_state(SunshineState::Stopped), (None, false));
    assert_eq!(tray.report_shutdown(), ReportShutdown::DoNotReport);
    assert_eq!(tray.update_state(SunshineState::Running), (None, true));
    assert_eq!(tray.report_shutdown(), ReportShutdown::Report);
    assert_eq!(
        tray.update_state(SunshineState::ClientConnected),
        (Some(Notification::ClientConnected), true)
    );
    assert_eq!(
        tray.update_state(SunshineState::Running),
        (Some(Notification::ClientDisconnected), true)
    );
    assert_eq!(
        tray.update_state(SunshineState::Stopped),
        (Some(Notification::SunshineStopped), true)
    );
    assert_eq!(tray.daemon_state(), SunshineState::Stopped);
}

#[test]
fn transition_table_with_latch_unset() {
    let table = [
        (Stopped, Running, None, ReportShutdown::Report),
        (Stopped, ClientConnected, Some(Notification::ClientConnected), ReportShutdown::DoNotReport),
        (Running, Stopped, None, ReportShutdown::DoNotReport),
        (Running, ClientConnected, Some(Notification::ClientConnected), ReportShutdown::DoNotReport),
        (ClientConnected, Stopped, None, ReportShutdown::DoNotReport),
        (ClientConnected, Running, None, ReportShutdown::Report),
    ];
    for (from, to, notification, latch) in table {
        let mut tray = fresh(from);
        assert_eq!(tray.update_state(to), (notification, true));
        assert_eq!(tray.daemon_state(), to);
        assert_eq!(tray.report_shutdown(), latch);
    }
}

#[test]
fn transition_table_with_latch_set() {
    let table = [
        (Stopped, Running, Some(Notification::ClientDisconnected)),
        (Stopped, ClientConnected, Some(Notification::ClientConnected)),
        (Running, Stopped, Some(Notification::SunshineStopped)),
        (Running, ClientConnected, Some(Notification::ClientConnected)),
        (ClientConnected, Stopped, Some(Notification::SunshineStopped)),
        (ClientConnected, Running, Some(Notification::ClientDisconnected)),
    ];
    for (from, to, notification) in table {
        let mut tray = armed(from);
        assert_eq!(tray.update_state(to), (notification, true));
        assert_eq!(tray.daemon_state(), to);
        assert_eq!(tray.report_shutdown(), ReportShutdown::Report);
    }
}

#[test]
fn client_connected_is_reported_from_any_other_state() {
    for from in [SunshineState::Stopped, SunshineState::Running] {
        let mut tray = fresh(from);
        let (notification, changed) = tray.update_state(SunshineState::ClientConnected);
        assert!(changed);
        assert_eq!(notification, Some(Notification::ClientConnected));
        assert_eq!(notification.unwrap().body(), "A client connected to Sunshine.");

        let mut tray = armed(from);
        assert_eq!(
            tray.update_state(SunshineState::ClientConnected),
            (Some(Notification::ClientConnected), true)
        );
    }
}

#[test]
fn update_samples_then_feeds() {
    let mut tray = TrayIcon::new(Some(3), Some(b"threaded-ml".as_slice()));
    assert_eq!(tray.daemon_state(), SunshineState::Stopped);

    assert_eq!(tray.update(Some(0), Some(b"  PID  SPID CMD\n".as_slice())), (None, true));
    assert_eq!(tray.daemon_state(), SunshineState::Running);
    assert_eq!(tray.report_shutdown(), ReportShutdown::Report);

    assert_eq!(tray.update(Some(0), Some(b"".as_slice())), (None, false));

    let listing = b"  PID  SPID TTY   TIME CMD\n 812  812 ?  00:00:01 sunshine\n 812  840 ?  00:00:00 threaded-ml\n";
    assert_eq!(
        tray.update(Some(0), Some(listing.as_slice())),
        (Some(Notification::ClientConnected), true)
    );
    assert_eq!(tray.daemon_state(), SunshineState::ClientConnected);

    assert_eq!(
        tray.update(Some(0), None),
        (Some(Notification::SunshineStopped), true)
    );
    assert_eq!(tray.daemon_state(), SunshineState::Stopped);

    assert_eq!(tray.update(None, Some(listing.as_slice())), (None, false));
}

#[test]
fn notification_texts() {
    assert_eq!(Notification::SunshineStopped.summary(), "Sunshine stopped");
    assert_eq!(Notification::SunshineStopped.body(), "Sunshine stopped running unexpectedly.");
    assert_eq!(Notification::ClientDisconnected.summary(), "Client disconnected");
    assert_eq!(Notification::ClientDisconnected.body(), "A client disconnected from Sunshine.");
    assert_eq!(Notification::ClientConnected.summary(), "Client connected");
    assert_eq!(Notification::ClientConnected.body(), "A client connected to Sunshine.");
    assert_eq!(sunshine_tray::notification::APP_NAME, "Sunshine Status");
}
