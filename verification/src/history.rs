//! What holds of a tray icon over any run of observations.

use vstd::prelude::*;
use crate::notification::Notification;
use crate::state::ReportShutdown;
use crate::state::SunshineState;
use crate::tray_icon::TrayIconView;

verus! {

impl TrayIconView {
    /// The tray icon after a run of observations, taken in order.
    pub open spec fn observe_all(self, samples: Seq<SunshineState>) -> TrayIconView
        decreases samples.len(),
    {
        if samples.len() == 0 {
            self
        } else {
            self.observe_all(samples.drop_last()).observe(samples.last())
        }
    }
}

/// Sampling the state that the tray icon already shows is idle: nothing is
/// notified and nothing changes, however often it is repeated.
pub proof fn lemma_same_state_is_idle(tray: TrayIconView)
    ensures
        tray.notifies(tray.daemon_state) is None,
        !tray.changes_on(tray.daemon_state),
        tray.observe(tray.daemon_state) == tray,
{
}

/// After an observation the tray icon shows the observed state, and observing
/// it once more is idle.
pub proof fn lemma_observed_state_is_shown(tray: TrayIconView, new_state: SunshineState)
    ensures
        tray.observe(new_state).daemon_state == new_state,
        tray.observe(new_state).notifies(new_state) is None,
        tray.observe(new_state).observe(new_state) == tray.observe(new_state),
{
}

/// With the latch unset no stop is reported: a monitor that has not yet seen
/// the daemon start cannot tell a crash from a daemon that never ran.
pub proof fn lemma_unset_latch_mutes_stop(tray: TrayIconView, new_state: SunshineState)
    requires
        tray.report_shutdown == ReportShutdown::DoNotReport,
    ensures
        tray.notifies(new_state) != Some(Notification::SunshineStopped),
        tray.notifies(SunshineState::Stopped) is None,
{
}

/// A fresh tray icon stays silent when the daemon is first seen stopped, and
/// when it is first seen running.
pub proof fn lemma_fresh_is_silent(first: SunshineState)
    ensures
        TrayIconView::fresh(first).notifies(SunshineState::Stopped) is None,
        TrayIconView::fresh(first).notifies(SunshineState::Running) is None,
{
}

/// Arriving at `Running` sets the latch, whatever it was before.
pub proof fn lemma_running_sets_latch(tray: TrayIconView)
    requires
        tray.daemon_state != SunshineState::Running,
    ensures
        tray.observe(SunshineState::Running).report_shutdown == ReportShutdown::Report,
{
}

/// Once the daemon was seen arriving at `Running`, its next stop is reported.
pub proof fn lemma_stop_after_running_is_reported(tray: TrayIconView)
    requires
        tray.daemon_state != SunshineState::Running,
    ensures
        tray.observe(SunshineState::Running).notifies(SunshineState::Stopped) == Some(
            Notification::SunshineStopped,
        ),
{
}

/// The latch changes in one way only: an observation that leaves it different
/// is an arrival at `Running`, and sets it.
pub proof fn lemma_latch_changes_only_on_running(tray: TrayIconView, new_state: SunshineState)
    requires
        tray.observe(new_state).report_shutdown != tray.report_shutdown,
    ensures
        new_state == SunshineState::Running,
        tray.daemon_state != SunshineState::Running,
        tray.report_shutdown == ReportShutdown::DoNotReport,
        tray.observe(new_state).report_shutdown == ReportShutdown::Report,
{
}

/// Once set, the latch stays set.
pub proof fn lemma_latch_stays_set(tray: TrayIconView, new_state: SunshineState)
    requires
        tray.report_shutdown == ReportShutdown::Report,
    ensures
        tray.observe(new_state).report_shutdown == ReportShutdown::Report,
{
}

/// With the latch set, every arrival at `Stopped` is reported, and reported
/// once: the daemon has to be seen up again before a stop is reported anew.
pub proof fn lemma_stop_is_reported_once(tray: TrayIconView)
    requires
        tray.report_shutdown == ReportShutdown::Report,
        tray.daemon_state != SunshineState::Stopped,
    ensures
        tray.notifies(SunshineState::Stopped) == Some(Notification::SunshineStopped),
        tray.observe(SunshineState::Stopped).notifies(SunshineState::Stopped) is None,
        tray.observe(SunshineState::Stopped).report_shutdown == ReportShutdown::Report,
{
}

/// A client that connects is reported from either other state, with the latch
/// set or not.
pub proof fn lemma_connection_is_reported(tray: TrayIconView)
    requires
        tray.daemon_state != SunshineState::ClientConnected,
    ensures
        tray.notifies(SunshineState::ClientConnected) == Some(Notification::ClientConnected),
        tray.observe(SunshineState::ClientConnected).report_shutdown == tray.report_shutdown,
{
}

/// Arriving at `Running` with the latch set is reported as a client that
/// disconnected, from `Stopped` as much as from `ClientConnected`; with the
/// latch unset it is not reported.
pub proof fn lemma_running_is_reported_when_set(tray: TrayIconView)
    requires
        tray.daemon_state != SunshineState::Running,
    ensures
        tray.report_shutdown == ReportShutdown::Report ==> tray.notifies(SunshineState::Running)
            == Some(Notification::ClientDisconnected),
        tray.report_shutdown == ReportShutdown::DoNotReport ==> tray.notifies(
            SunshineState::Running,
        ) is None,
{
}

/// Whatever is notified, the state changed: no notification without a change.
pub proof fn lemma_notification_means_change(tray: TrayIconView, new_state: SunshineState)
    ensures
        tray.notifies(new_state) is Some ==> tray.changes_on(new_state),
{
}

/// After a run of observations the tray icon shows the last one.
pub proof fn lemma_run_shows_last(tray: TrayIconView, samples: Seq<SunshineState>)
    requires
        samples.len() > 0,
    ensures
        tray.observe_all(samples).daemon_state == samples.last(),
{
}

/// Over any run of observations a set latch stays set.
pub proof fn lemma_run_keeps_latch_set(tray: TrayIconView, samples: Seq<SunshineState>)
    requires
        tray.report_shutdown == ReportShutdown::Report,
    ensures
        tray.observe_all(samples).report_shutdown == ReportShutdown::Report,
    decreases samples.len(),
{
    if samples.len() > 0 {
        lemma_run_keeps_latch_set(tray, samples.drop_last());
    }
}

/// A run of observations in which `Running` never occurs leaves an unset
/// latch unset.
pub proof fn lemma_run_without_running_keeps_latch_unset(
    tray: TrayIconView,
    samples: Seq<SunshineState>,
)
    requires
        tray.report_shutdown == ReportShutdown::DoNotReport,
        !samples.contains(SunshineState::Running),
    ensures
        tray.observe_all(samples).report_shutdown == ReportShutdown::DoNotReport,
    decreases samples.len(),
{
    if samples.len() > 0 {
        let earlier = samples.drop_last();
        assert(samples[samples.len() - 1] != SunshineState::Running);
        assert forall|i: int| 0 <= i < earlier.len() implies earlier[i]
            != SunshineState::Running by {
            assert(earlier[i] == samples[i]);
        }
        lemma_run_without_running_keeps_latch_unset(tray, earlier);
    }
}

/// No stop is reported before the daemon was seen running: when a tray icon
/// that started fresh reports a stop after a run of observations, `Running`
/// occurs in that run.
pub proof fn lemma_stop_report_needs_running_before(
    first: SunshineState,
    samples: Seq<SunshineState>,
    new_state: SunshineState,
)
    requires
        TrayIconView::fresh(first).observe_all(samples).notifies(new_state) == Some(
            Notification::SunshineStopped,
        ),
    ensures
        new_state == SunshineState::Stopped,
        samples.contains(SunshineState::Running),
{
    if !samples.contains(SunshineState::Running) {
        lemma_run_without_running_keeps_latch_unset(TrayIconView::fresh(first), samples);
    }
}

} // verus!
