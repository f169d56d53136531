//! What the control panel makes of the work in the background: discovery, the reports of the
//! bridge, and its end.

use crate::bridge::{BridgeEvent, BridgeEventView};
use crate::clock::{Moment, MomentView};
use crate::devices::{EndpointCatalog, EndpointCatalogView};
use crate::gui::app::{AecBridgeApp, AppView, Outcome, OutcomeView};
use crate::gui::login::{LoginAutoStartState, LoginView};
use crate::gui::window::restore_after_fatal_bridge_error;
use crate::text::{decimal, digits};
use vstd::prelude::*;

verus! {

/// What came of discovery.
#[derive(Debug)]
pub enum DiscoveryReport {
    Found(EndpointCatalog),
    Failed(String),
    /// It ended without a word.
    Disconnected,
}

impl View for DiscoveryReport {
    type V = Result<EndpointCatalogView, Seq<char>>;

    open spec fn view(&self) -> Result<EndpointCatalogView, Seq<char>> {
        match self {
            DiscoveryReport::Found(catalog) => Ok(catalog@),
            DiscoveryReport::Failed(error) => Err(error@),
            DiscoveryReport::Disconnected => Err(
                "endpoint discovery stopped before returning a result"@,
            ),
        }
    }
}

impl AppView {
    /// The state after endpoints were found. What a given-up start left to be read stays.
    pub open spec fn catalog_taken(self, catalog: EndpointCatalogView, now: MomentView) -> AppView {
        AppView {
            refreshing: false,
            catalog,
            error: if self.login_auto_start is Failed {
                self.error
            } else {
                None
            },
            ..self.logged(
                "Endpoint scan complete: "@ + digits(catalog.capture.len()) + " capture, "@
                    + digits(catalog.render.len()) + " playback."@,
                now,
            )
        }
    }

    /// The state after discovery failed. A start that waits goes on waiting.
    pub open spec fn refresh_failed(self, error: Seq<char>, now: MomentView) -> AppView {
        let message = "Device refresh failed: "@ + error;
        let emptied = AppView {
            refreshing: false,
            catalog: EndpointCatalogView::empty(),
            ..self.logged("ERROR: "@ + message, now)
        };
        match self.login_auto_start {
            LoginView::Waiting { deadline, next_retry, attempt, .. } => emptied.waiting_on(
                deadline,
                next_retry,
                attempt,
                message,
            ),
            _ => AppView {
                error: Some(message),
                status: "Device refresh failed"@,
                restore_window: self.restore_window || self.window_hidden_to_tray,
                ..emptied
            },
        }
    }

    /// The state after discovery ended.
    pub open spec fn refresh_finished(
        self,
        report: Result<EndpointCatalogView, Seq<char>>,
        now: MomentView,
    ) -> AppView {
        match report {
            Ok(catalog) => self.catalog_taken(catalog, now),
            Err(error) => self.refresh_failed(error, now),
        }
    }

    /// The state after the bridge began.
    pub open spec fn bridge_starting(self, now: MomentView) -> AppView {
        AppView {
            status: "Starting: resolving endpoints"@,
            error: None,
            metrics: None,
            started_streams: Seq::empty(),
            ..self.logged("Starting bridge and resolving selected endpoints."@, now)
        }
    }

    /// The state after a stream opened.
    pub open spec fn stream_opened(
        self,
        label: Seq<char>,
        buffer_frames: u32,
        now: MomentView,
    ) -> AppView {
        let message = label + ": "@ + digits(buffer_frames as nat) + "-frame shared buffer"@;
        let streams = self.started_streams.push(message);
        AppView {
            started_streams: streams,
            status: "Starting: "@ + digits(streams.len()) + "/3 audio streams ready"@,
            ..self.logged("WASAPI stream ready: "@ + message + "."@, now)
        }
    }

    /// The state after the bridge ran, and whether it is told to stop: a start by itself that was
    /// called off, or that took too long, does not stand.
    pub open spec fn bridge_running(self, now: MomentView) -> (AppView, bool) {
        match self.login_auto_start {
            LoginView::Cancelling => (
                AppView {
                    status: "Cancelling automatic start"@,
                    ..self.logged(
                        "Cancelled automatic start reported ready late; stopping it again."@,
                        now,
                    )
                },
                self.bridge_active,
            ),
            LoginView::Starting { deadline, .. } => self.started_by_itself(deadline, now),
            LoginView::Failed(message) => self.started_after_failure(now),
            _ => (self.bridge_stands(now), false),
        }
    }

    /// The state after a bridge that started by itself ran, and whether it is told to stop: it has
    /// until its deadline.
    pub open spec fn started_by_itself(self, deadline: u64, now: MomentView) -> (AppView, bool) {
        if now.nanos >= deadline {
            (
                self.start_failed(
                    "Automatic start reported ready after its 90-second deadline; a stop was requested."@,
                    now,
                ),
                self.bridge_active,
            )
        } else {
            (AppView { login_auto_start: LoginView::Complete, ..self.bridge_stands(now) }, false)
        }
    }

    /// The state after a bridge ran although the start by itself was given up, and whether it is
    /// told to stop: after a sign-in it is.
    pub open spec fn started_after_failure(self, now: MomentView) -> (AppView, bool) {
        if self.launch_options.login_startup {
            (
                AppView {
                    status: "Automatic start paused"@,
                    restore_window: true,
                    ..self.logged(
                        "A timed-out automatic start reported ready late; stopping it."@,
                        now,
                    )
                },
                self.bridge_active,
            )
        } else {
            (self.bridge_stands(now), false)
        }
    }

    /// The state in which the bridge runs.
    pub open spec fn bridge_stands(self, now: MomentView) -> AppView {
        AppView { status: "Running"@, ..self.logged("Bridge is running."@, now) }
    }

    /// The state after the bridge told how it goes.
    pub open spec fn metrics_taken(self, summary: Seq<char>, now: MomentView) -> AppView {
        AppView { metrics: Some(summary), ..self.logged("AEC metrics: "@ + summary, now) }
    }

    /// The state after the bridge ended well.
    pub open spec fn bridge_stopped(self, summary: Seq<char>, now: MomentView) -> AppView {
        AppView {
            status: "Stopped cleanly"@,
            metrics: Some(summary),
            login_auto_start: if self.login_auto_start.completed_start() {
                LoginView::Cancelled
            } else {
                self.login_auto_start
            },
            ..self.logged("Bridge stopped: "@ + summary, now)
        }
    }

    /// The state after the bridge failed for good. The window comes back where it is hidden, or
    /// where the bridge had started by itself.
    pub open spec fn bridge_lost(self, message: Seq<char>) -> AppView {
        AppView {
            status: "Failed"@,
            error: Some(message),
            login_auto_start: if self.login_auto_start.completed_start() {
                LoginView::Failed(message)
            } else {
                self.login_auto_start
            },
            restore_window: self.login_auto_start.completed_start() || self.window_hidden_to_tray,
            ..self
        }
    }

    /// The state after the bridge failed: a start by itself tries again.
    pub open spec fn bridge_failure_taken(
        self,
        heading: Seq<char>,
        message: Seq<char>,
        now: MomentView,
    ) -> AppView {
        let logged = self.logged(heading + message, now);
        let (taken, handled) = logged.start_failure_taken(message, now);
        if handled {
            taken
        } else {
            logged.bridge_lost(message)
        }
    }

    /// The state after a report of the bridge, and whether the bridge is told to stop.
    pub open spec fn event_taken(self, event: BridgeEventView, now: MomentView) -> (AppView, bool) {
        match event {
            BridgeEventView::Starting => (self.bridge_starting(now), false),
            BridgeEventView::StreamStarted { label, buffer_frames } => (
                self.stream_opened(label, buffer_frames, now),
                false,
            ),
            BridgeEventView::Running => self.bridge_running(now),
            BridgeEventView::Metrics(summary) => (self.metrics_taken(summary, now), false),
            BridgeEventView::Stopped(summary) => (self.bridge_stopped(summary, now), false),
            BridgeEventView::Failed(message) => (
                self.bridge_failure_taken("ERROR: Bridge failed: "@, message, now),
                false,
            ),
        }
    }

    /// The state after several reports, and whether any of them has the bridge told to stop.
    pub open spec fn events_taken(self, events: Seq<BridgeEventView>, now: MomentView) -> (
        AppView,
        bool,
    )
        decreases events.len(),
    {
        if events.len() == 0 {
            (self, false)
        } else {
            let (first, stop) = self.event_taken(events[0], now);
            let (rest, later) = first.events_taken(events.drop_first(), now);
            (rest, stop || later)
        }
    }

    /// The state after it was seen whether the thread of the bridge has ended.
    pub open spec fn thread_seen(self, reaped: Result<bool, Seq<char>>, now: MomentView) -> AppView {
        match reaped {
            Ok(ended) => AppView { bridge_active: self.bridge_active && !ended, ..self },
            Err(error) => (AppView { bridge_active: false, ..self }).bridge_failure_taken(
                "ERROR: Bridge worker failed: "@,
                error,
                now,
            ),
        }
    }

    /// The state after a look at everything in the background, and what follows. Discovery counts
    /// where it is under way, and the bridge where it is active.
    pub open spec fn background_seen(
        self,
        report: Option<Result<EndpointCatalogView, Seq<char>>>,
        events: Seq<BridgeEventView>,
        reaped: Result<bool, Seq<char>>,
        now: MomentView,
    ) -> (AppView, OutcomeView) {
        let refreshed = if self.refreshing && report is Some {
            self.refresh_finished(report->0, now)
        } else {
            self
        };
        let (told, stop) = if self.bridge_active {
            refreshed.events_taken(events, now)
        } else {
            (refreshed, false)
        };
        let settled = if self.bridge_active {
            told.thread_seen(reaped, now)
        } else {
            told
        };
        let (advanced, outcome) = settled.start_advanced(now);
        (advanced, OutcomeView { stop_bridge: stop || outcome.stop_bridge, ..outcome })
    }
}

impl AecBridgeApp {
    fn take_catalog(&mut self, catalog: EndpointCatalog, now: &Moment)
        ensures
            final(self)@ == old(self)@.catalog_taken(catalog@, now@),
            old(self)@.in_order() ==> final(self)@.in_order(),
    {
        let mut line = "Endpoint scan complete: ".to_owned();
        line.append(decimal(catalog.capture.len() as u64).as_str());
        line.append(" capture, ");
        line.append(decimal(catalog.render.len() as u64).as_str());
        line.append(" playback.");
        let failed = match &self.login_auto_start {
            LoginAutoStartState::Failed(_) => true,
            _ => false,
        };
        self.push_log(line.as_str(), now);
        self.refreshing = false;
        self.catalog = catalog;
        if !failed {
            self.error = None;
        }
    }

    fn empty_catalog(&mut self)
        ensures
            final(self)@ == (AppView {
                refreshing: false,
                catalog: EndpointCatalogView::empty(),
                ..old(self)@
            }),
    {
        self.refreshing = false;
        self.catalog = EndpointCatalog::default();
    }

    fn show_refresh_failure(&mut self, message: String)
        ensures
            final(self)@ == (AppView {
                error: Some(message@),
                status: "Device refresh failed"@,
                restore_window: old(self)@.restore_window || old(self)@.window_hidden_to_tray,
                ..old(self)@
            }),
    {
        self.error = Some(message);
        self.status = "Device refresh failed".to_owned();
        self.restore_window = self.restore_window || self.window_hidden_to_tray;
    }

    fn take_refresh_failure(&mut self, error: &str, now: &Moment)
        ensures
            final(self)@ == old(self)@.refresh_failed(error@, now@),
            old(self)@.in_order() ==> final(self)@.in_order(),
    {
        let mut message = "Device refresh failed: ".to_owned();
        message.append(error);
        let mut line = "ERROR: ".to_owned();
        line.append(message.as_str());
        let waiting = match &self.login_auto_start {
            LoginAutoStartState::Waiting { deadline, next_retry, attempt, .. } => Some(
                (*deadline, *next_retry, *attempt),
            ),
            _ => None,
        };
        self.push_log(line.as_str(), now);
        self.empty_catalog();
        match waiting {
            Some((deadline, next_retry, attempt)) => {
                self.keep_waiting(deadline, next_retry, attempt, message);
            },
            None => {
                self.show_refresh_failure(message);
            },
        }
    }

    /// Takes in what came of discovery.
    pub fn take_discovery_report(&mut self, report: DiscoveryReport, now: &Moment)
        ensures
            final(self)@ == old(self)@.refresh_finished(report@, now@),
            old(self)@.in_order() ==> final(self)@.in_order(),
    {
        match report {
            DiscoveryReport::Found(catalog) => {
                self.take_catalog(catalog, now);
            },
            DiscoveryReport::Failed(error) => {
                self.take_refresh_failure(error.as_str(), now);
            },
            DiscoveryReport::Disconnected => {
                self.take_refresh_failure(
                    "endpoint discovery stopped before returning a result",
                    now,
                );
            },
        }
    }

    fn take_starting(&mut self, now: &Moment)
        ensures
            final(self)@ == old(self)@.bridge_starting(now@),
            old(self)@.in_order() ==> final(self)@.in_order(),
    {
        self.push_log("Starting bridge and resolving selected endpoints.", now);
        self.status = "Starting: resolving endpoints".to_owned();
        self.error = None;
        self.metrics = None;
        self.started_streams = Vec::new();
        assert(self.started_streams.deep_view() =~= Seq::<Seq<char>>::empty());
    }

    fn take_stream(&mut self, label: &str, buffer_frames: u32, now: &Moment)
        ensures
            final(self)@ == old(self)@.stream_opened(label@, buffer_frames, now@),
            old(self)@.in_order() ==> final(self)@.in_order(),
    {
        let mut message = label.to_owned();
        message.append(": ");
        message.append(decimal(buffer_frames as u64).as_str());
        message.append("-frame shared buffer");
        let mut line = "WASAPI stream ready: ".to_owned();
        line.append(message.as_str());
        line.append(".");
        self.push_log(line.as_str(), now);
        self.started_streams.push(message);
        assert(self.started_streams.deep_view() =~= old(self).started_streams.deep_view().push(
            message@,
        ));
        let mut status = "Starting: ".to_owned();
        status.append(decimal(self.started_streams.len() as u64).as_str());
        status.append("/3 audio streams ready");
        self.status = status;
    }

    fn stop_late_cancelled_start(&mut self, now: &Moment)
        ensures
            final(self)@ == (AppView {
                status: "Cancelling automatic start"@,
                ..old(self)@.logged(
                    "Cancelled automatic start reported ready late; stopping it again."@,
                    now@,
                )
            }),
            old(self)@.in_order() ==> final(self)@.in_order(),
    {
        self.push_log("Cancelled automatic start reported ready late; stopping it again.", now);
        self.status = "Cancelling automatic start".to_owned();
    }

    fn stop_late_failed_start(&mut self, now: &Moment)
        ensures
            final(self)@ == (AppView {
                status: "Automatic start paused"@,
                restore_window: true,
                ..old(self)@.logged(
                    "A timed-out automatic start reported ready late; stopping it."@,
                    now@,
                )
            }),
            old(self)@.in_order() ==> final(self)@.in_order(),
    {
        self.push_log("A timed-out automatic start reported ready late; stopping it.", now);
        self.status = "Automatic start paused".to_owned();
        self.restore_window = true;
    }

    fn note_running(&mut self, now: &Moment)
        ensures
            final(self)@ == old(self)@.bridge_stands(now@),
            old(self)@.in_order() ==> final(self)@.in_order(),
    {
        self.push_log("Bridge is running.", now);
        self.status = "Running".to_owned();
    }

    fn complete_login_start(&mut self, now: &Moment)
        ensures
            final(self)@ == (AppView {
                login_auto_start: LoginView::Complete,
                ..old(self)@.bridge_stands(now@)
            }),
            old(self)@.in_order() ==> final(self)@.in_order(),
    {
        self.note_running(now);
        self.login_auto_start = LoginAutoStartState::Complete;
    }

    fn take_own_start(&mut self, deadline: u64, now: &Moment) -> (stop_bridge: bool)
        ensures
            (final(self)@, stop_bridge) == old(self)@.started_by_itself(deadline, now@),
            old(self)@.in_order() ==> final(self)@.in_order(),
    {
        let active = self.bridge_active;
        if now.nanos >= deadline {
            self.fail_login_auto_start(
                "Automatic start reported ready after its 90-second deadline; a stop was requested.".to_owned(),
                now,
            );
            return active;
        }
        self.complete_login_start(now);
        false
    }

    fn take_start_after_failure(&mut self, now: &Moment) -> (stop_bridge: bool)
        ensures
            (final(self)@, stop_bridge) == old(self)@.started_after_failure(now@),
            old(self)@.in_order() ==> final(self)@.in_order(),
    {
        let active = self.bridge_active;
        if self.launch_options.login_startup {
            self.stop_late_failed_start(now);
            return active;
        }
        self.note_running(now);
        false
    }

    fn take_running(&mut self, now: &Moment) -> (stop_bridge: bool)
        ensures
            (final(self)@, stop_bridge) == old(self)@.bridge_running(now@),
            old(self)@.in_order() ==> final(self)@.in_order(),
    {
        let active = self.bridge_active;
        match &self.login_auto_start {
            LoginAutoStartState::Cancelling => {
                self.stop_late_cancelled_start(now);
                active
            },
            LoginAutoStartState::Starting { deadline, .. } => {
                let deadline: u64 = *deadline;
                self.take_own_start(deadline, now)
            },
            LoginAutoStartState::Failed(_) => self.take_start_after_failure(now),
            _ => {
                self.note_running(now);
                false
            },
        }
    }

    fn take_metrics(&mut self, summary: String, now: &Moment)
        ensures
            final(self)@ == old(self)@.metrics_taken(summary@, now@),
            old(self)@.in_order() ==> final(self)@.in_order(),
    {
        let mut line = "AEC metrics: ".to_owned();
        line.append(summary.as_str());
        self.push_log(line.as_str(), now);
        self.metrics = Some(summary);
    }

    fn take_stop(&mut self, summary: String, now: &Moment)
        ensures
            final(self)@ == old(self)@.bridge_stopped(summary@, now@),
            old(self)@.in_order() ==> final(self)@.in_order(),
    {
        let completed = self.login_auto_start.is_completed_start();
        let mut line = "Bridge stopped: ".to_owned();
        line.append(summary.as_str());
        self.push_log(line.as_str(), now);
        self.status = "Stopped cleanly".to_owned();
        self.metrics = Some(summary);
        if completed {
            self.login_auto_start = LoginAutoStartState::Cancelled;
        }
    }

    fn lose_bridge(&mut self, message: String)
        ensures
            final(self)@ == old(self)@.bridge_lost(message@),
            old(self)@.in_order() ==> final(self)@.in_order(),
    {
        let completed = self.login_auto_start.is_completed_start();
        self.status = "Failed".to_owned();
        self.error = Some(message.clone());
        self.restore_window = restore_after_fatal_bridge_error(
            completed,
            self.window_hidden_to_tray,
        );
        if completed {
            self.login_auto_start = LoginAutoStartState::Failed(message);
        }
    }

    fn take_failure(&mut self, heading: &str, message: String, now: &Moment)
        requires
            now@.in_range(),
        ensures
            final(self)@ == old(self)@.bridge_failure_taken(heading@, message@, now@),
            old(self)@.in_order() ==> final(self)@.in_order(),
    {
        let mut line = heading.to_owned();
        line.append(message.as_str());
        self.push_log(line.as_str(), now);
        if !self.retry_login_after_start_failure(message.as_str(), now) {
            self.lose_bridge(message);
        }
    }

    /// Takes in a report of the bridge, and says whether the bridge is told to stop.
    pub fn take_bridge_event(&mut self, event: &BridgeEvent, now: &Moment) -> (stop_bridge: bool)
        requires
            now@.in_range(),
        ensures
            (final(self)@, stop_bridge) == old(self)@.event_taken(event@, now@),
            old(self)@.in_order() ==> final(self)@.in_order(),
    {
        match event {
            BridgeEvent::Starting => {
                self.take_starting(now);
                false
            },
            BridgeEvent::StreamStarted { label, buffer_frames } => {
                self.take_stream(*label, *buffer_frames, now);
                false
            },
            BridgeEvent::Running => self.take_running(now),
            BridgeEvent::Metrics(summary) => {
                self.take_metrics(summary.clone(), now);
                false
            },
            BridgeEvent::Stopped(summary) => {
                self.take_stop(summary.clone(), now);
                false
            },
            BridgeEvent::Failed(message) => {
                self.take_failure("ERROR: Bridge failed: ", message.clone(), now);
                false
            },
        }
    }

    fn take_bridge_events(&mut self, events: &Vec<BridgeEvent>, now: &Moment) -> (stop_bridge: bool)
        requires
            now@.in_range(),
        ensures
            (final(self)@, stop_bridge) == old(self)@.events_taken(events.deep_view(), now@),
            old(self)@.in_order() ==> final(self)@.in_order(),
    {
        let ghost all = events.deep_view();
        let mut stop_bridge = false;
        let mut index: usize = 0;
        assert(all.skip(0) =~= all);
        while index < events.len()
            invariant
                index <= events@.len(),
                all == events.deep_view(),
                now@.in_range(),
                ({
                    let (rest, later) = self@.events_taken(all.skip(index as int), now@);
                    old(self)@.events_taken(all, now@) == (rest, stop_bridge || later)
                }),
                old(self)@.in_order() ==> self@.in_order(),
            decreases events@.len() - index,
        {
            assert(all.skip(index as int)[0] == events@[index as int]@);
            assert(all.skip(index as int).drop_first() =~= all.skip(index + 1));
            let stop = self.take_bridge_event(&events[index], now);
            stop_bridge = stop_bridge || stop;
            index = index + 1;
        }
        stop_bridge
    }

    fn take_thread_end(&mut self, reaped: Result<bool, String>, now: &Moment)
        requires
            now@.in_range(),
        ensures
            final(self)@ == old(self)@.thread_seen(
                match reaped {
                    Ok(ended) => Ok(ended),
                    Err(error) => Err(error@),
                },
                now@,
            ),
            old(self)@.in_order() ==> final(self)@.in_order(),
    {
        match reaped {
            Ok(ended) => {
                self.bridge_active = self.bridge_active && !ended;
            },
            Err(error) => {
                self.bridge_active = false;
                self.take_failure("ERROR: Bridge worker failed: ", error, now);
            },
        }
    }

    /// Looks at everything in the background: what came of discovery, what the bridge reported in
    /// its order, whether its thread has ended or fallen over, and then the start by itself.
    pub fn poll_background_work(
        &mut self,
        report: Option<DiscoveryReport>,
        events: &Vec<BridgeEvent>,
        reaped: Result<bool, String>,
        now: &Moment,
    ) -> (outcome: Outcome)
        requires
            now@.in_range(),
        ensures
            (final(self)@, outcome@) == old(self)@.background_seen(
                match report {
                    Some(report) => Some(report@),
                    None => None,
                },
                events.deep_view(),
                match reaped {
                    Ok(ended) => Ok(ended),
                    Err(error) => Err(error@),
                },
                now@,
            ),
            old(self)@.in_order() ==> final(self)@.in_order(),
    {
        let active = self.bridge_active;
        if self.refreshing {
            if let Some(report) = report {
                self.take_discovery_report(report, now);
            }
        }
        let mut stop_bridge = false;
        if active {
            stop_bridge = self.take_bridge_events(events, now);
            self.take_thread_end(reaped, now);
        }
        let outcome = self.advance_login_auto_start(now);
        Outcome { stop_bridge: stop_bridge || outcome.stop_bridge, follow_up: outcome.follow_up }
    }
}

} // verus!
