//! Starting the bridge: when it can, by whom, and how the start after a sign-in goes on, is
//! repeated, called off or given up.

use crate::clock::{Moment, MomentView, LAST_MOMENT, SECOND};
use crate::devices::{
    EndpointCatalog, EndpointCatalogView, EndpointDescriptor, EndpointDescriptorView,
};
use crate::gui::app::{
    AecBridgeApp, AppView, FollowUp, FollowUpView, Outcome, OutcomeView, StartOrigin,
};
use crate::gui::login::{login_retry_seconds, retry_seconds, LoginAutoStartState, LoginView};
use crate::gui::readiness::{
    choice_readiness, endpoint_readiness, ReadinessView, StartReadiness,
};
use crate::gui::settings::{name_or, saved_endpoint_name, PersistedSettings, SettingsView};
use crate::text::{decimal, digits};
use crate::{EndpointArgs, EndpointArgsView, ReferenceMode, RunArgs, RunArgsView};
use vstd::prelude::*;

verus! {

/// How the reference is read, in words.
pub open spec fn method_name(mode: ReferenceMode) -> Seq<char> {
    match mode {
        ReferenceMode::Loopback => "playback loopback"@,
        ReferenceMode::Capture => "recording device/virtual mix"@,
    }
}

/// How the reference is read, in words.
pub fn reference_method(mode: ReferenceMode) -> (name: &'static str)
    ensures
        name@ == method_name(mode),
{
    match mode {
        ReferenceMode::Loopback => "playback loopback",
        ReferenceMode::Capture => "recording device/virtual mix",
    }
}

impl ReadinessView {
    /// The issue that stands in the way, if any.
    pub open spec fn problem(self) -> Option<Seq<char>> {
        match self {
            ReadinessView::Ready => None,
            ReadinessView::Waiting(issue) => Some(issue),
            ReadinessView::Blocked(issue) => Some(issue),
        }
    }
}

impl OutcomeView {
    /// Nothing is asked for.
    pub open spec fn quiet() -> OutcomeView {
        OutcomeView { stop_bridge: false, follow_up: FollowUpView::Nothing }
    }

    /// The bridge is told to stop or not; nothing follows.
    pub open spec fn stopping(stop_bridge: bool) -> OutcomeView {
        OutcomeView { stop_bridge, follow_up: FollowUpView::Nothing }
    }
}

impl Outcome {
    /// Nothing is asked for.
    pub fn quiet() -> (outcome: Outcome)
        ensures
            outcome@ == OutcomeView::quiet(),
    {
        Outcome { stop_bridge: false, follow_up: FollowUp::Nothing }
    }

    /// The bridge is told to stop or not; nothing follows.
    pub fn stopping(stop_bridge: bool) -> (outcome: Outcome)
        ensures
            outcome@ == OutcomeView::stopping(stop_bridge),
    {
        Outcome { stop_bridge, follow_up: FollowUp::Nothing }
    }
}

impl SettingsView {
    /// The line that announces a start.
    pub open spec fn start_line(self) -> Seq<char> {
        "Start requested: mic='"@ + name_or(self.microphone, "<missing>"@) + "', reference='"@
            + name_or(self.reference, "<missing>"@) + "' ("@ + method_name(self.reference_mode)
            + "), handoff='"@ + name_or(self.handoff_render, "<missing>"@) + "'."@
    }
}

impl AppView {
    /// The endpoints that the reference is chosen from.
    pub open spec fn reference_endpoints(self) -> Seq<EndpointDescriptorView> {
        match self.settings.reference_mode {
            ReferenceMode::Loopback => self.catalog.render,
            ReferenceMode::Capture => self.catalog.capture,
        }
    }

    /// Whether all three chosen endpoints are ready: the first that is not decides.
    pub open spec fn endpoints_ready(self) -> ReadinessView {
        let microphone = choice_readiness(
            "Raw microphone"@,
            self.settings.microphone,
            self.catalog.capture,
            true,
        );
        let reference = choice_readiness(
            "AEC reference"@,
            self.settings.reference,
            self.reference_endpoints(),
            true,
        );
        let output = choice_readiness(
            "Virtual cable output"@,
            self.settings.handoff_render,
            self.catalog.render,
            true,
        );
        if microphone !is Ready {
            microphone
        } else if reference !is Ready {
            reference
        } else {
            output
        }
    }

    /// Whether the bridge can start.
    pub open spec fn start_readiness(self) -> ReadinessView {
        if self.bridge_active {
            ReadinessView::Blocked("The bridge is already active."@)
        } else if self.refreshing {
            ReadinessView::Waiting("Waiting for device discovery to finish."@)
        } else if self.settings.microphone is None {
            ReadinessView::Blocked("Raw microphone is not selected."@)
        } else if self.settings.reference is None {
            ReadinessView::Blocked("Echo reference is not selected."@)
        } else if self.settings.handoff_render is None {
            ReadinessView::Blocked("Virtual cable output is not selected."@)
        } else {
            match self.settings.configuration_problem() {
                Some(problem) => ReadinessView::Blocked(problem),
                None => self.endpoints_ready(),
            }
        }
    }

    /// What a bridge is started with: the very identifiers that were chosen.
    pub open spec fn run_args(self) -> RunArgsView {
        RunArgsView {
            endpoints: EndpointArgsView {
                mic: self.settings.microphone->0.id,
                reference: self.settings.reference->0.id,
                reference_mode: self.settings.reference_mode,
                output: self.settings.handoff_render->0.id,
            },
            capture_delay_ms: self.settings.capture_delay_ms,
            stream_delay_ms: self.settings.stream_delay_ms,
            duration_seconds: 0,
            bypass: self.bypass,
            mute_output: self.mute_output,
        }
    }

    /// The state after discovery was asked for, and whether it is to be started.
    pub open spec fn refresh_asked(self, now: MomentView) -> (AppView, FollowUpView) {
        if self.refreshing {
            (self, FollowUpView::Nothing)
        } else {
            (
                self.logged("Scanning active Windows audio endpoints."@, now),
                FollowUpView::Discover,
            )
        }
    }

    /// The state after discovery was started.
    pub open spec fn refresh_begun(self) -> AppView {
        AppView { refreshing: true, error: None, ..self }
    }

    /// The state after discovery could not be started.
    pub open spec fn refresh_refused(self, error: Seq<char>, now: MomentView) -> AppView {
        let message = "Could not start endpoint discovery: "@ + error;
        AppView {
            error: Some(message),
            status: "Device refresh failed"@,
            restore_window: self.restore_window || self.window_hidden_to_tray,
            ..self.logged("ERROR: "@ + message, now)
        }
    }

    /// The state after the start by itself was given up. A discovery that is under way is
    /// forgotten, and the window comes back.
    pub open spec fn start_failed(self, message: Seq<char>, now: MomentView) -> AppView {
        (AppView {
            refreshing: false,
            status: "Automatic start paused"@,
            error: Some(message),
            login_auto_start: LoginView::Failed(message),
            restore_window: true,
            ..self
        }).logged("ERROR: "@ + message, now)
    }

    /// The state that waits for another attempt after one failed.
    pub open spec fn start_retried(
        self,
        deadline: u64,
        attempt: u8,
        message: Seq<char>,
        now: MomentView,
    ) -> AppView {
        (AppView {
            catalog: EndpointCatalogView::empty(),
            started_streams: Seq::empty(),
            metrics: None,
            error: None,
            status: "Waiting for saved audio devices"@,
            login_auto_start: LoginView::Waiting {
                deadline,
                next_retry: (now.nanos + retry_seconds(attempt) * SECOND) as u64,
                attempt,
                last_issue: Some("audio streams were not ready: "@ + message),
            },
            ..self
        }).logged(
            "Automatic stream startup failed; retrying in "@ + digits(
                retry_seconds(attempt) as nat,
            ) + " second(s)."@,
            now,
        )
    }

    /// The attempt behind an attempt; they are not counted beyond what is held.
    pub open spec fn attempt_after(attempt: u8) -> u8 {
        if attempt < 255 {
            (attempt + 1) as u8
        } else {
            attempt
        }
    }

    /// The state after a start failed, and whether the start by itself takes care of that: it tries
    /// again until its deadline.
    pub open spec fn start_failure_taken(self, message: Seq<char>, now: MomentView) -> (
        AppView,
        bool,
    ) {
        match self.login_auto_start {
            LoginView::Starting { deadline, attempt } => if now.nanos >= deadline {
                (
                    self.start_failed(
                        "Automatic start timed out after an audio stream failed to open: "@
                            + message,
                        now,
                    ),
                    true,
                )
            } else {
                (self.start_retried(deadline, AppView::attempt_after(attempt), message, now), true)
            },
            _ => (self, false),
        }
    }

    /// The state after the start by itself was called off, and whether the bridge is told to stop.
    pub open spec fn start_cancelled(self, reason: Seq<char>, now: MomentView) -> (AppView, bool) {
        let logged = self.logged("Automatic start cancelled: "@ + reason + "."@, now);
        match self.login_auto_start {
            LoginView::Starting { .. } => (
                AppView {
                    login_auto_start: LoginView::Cancelling,
                    status: "Cancelling automatic start"@,
                    ..logged
                },
                self.bridge_active,
            ),
            LoginView::Waiting { .. } => (logged.start_dropped(), false),
            LoginView::Failed(message) => (logged.start_dropped(), false),
            _ => (self, false),
        }
    }

    /// The state in which the start by itself is off.
    pub open spec fn start_dropped(self) -> AppView {
        AppView {
            login_auto_start: LoginView::Cancelled,
            status: if self.bridge_active {
                self.status
            } else {
                "Idle"@
            },
            ..self
        }
    }

    /// The state after a start was tried, and what follows: a bridge, where nothing is in the way.
    pub open spec fn start_tried(self, origin: StartOrigin, stop_bridge: bool, now: MomentView) -> (
        AppView,
        OutcomeView,
    ) {
        match self.start_readiness().problem() {
            Some(problem) => (
                AppView { error: Some(problem), ..self.logged("Start blocked: "@ + problem, now) },
                OutcomeView::stopping(stop_bridge),
            ),
            None => (
                self.logged(self.settings.start_line(), now),
                OutcomeView {
                    stop_bridge,
                    follow_up: FollowUpView::Start { args: self.run_args(), origin },
                },
            ),
        }
    }

    /// The state after the bridge was asked to start, and what follows. A start by hand calls the
    /// start by itself off.
    pub open spec fn start_asked(self, origin: StartOrigin, now: MomentView) -> (
        AppView,
        OutcomeView,
    ) {
        if origin == StartOrigin::Manual {
            let (base, stop_bridge) = self.start_cancelled("a manual start was requested"@, now);
            base.start_tried(origin, stop_bridge, now)
        } else {
            self.start_tried(origin, false, now)
        }
    }

    /// The state after the bridge was started.
    pub open spec fn bridge_begun(self) -> AppView {
        AppView { bridge_active: true, status: "Starting"@, error: None, metrics: None, ..self }
    }

    /// The state after the bridge could not be started.
    pub open spec fn bridge_refused(
        self,
        origin: StartOrigin,
        error: Seq<char>,
        now: MomentView,
    ) -> AppView {
        let message = "Could not start AEC Bridge: "@ + error;
        let logged = self.logged("ERROR: "@ + message, now);
        let (taken, handled) = logged.start_failure_taken(message, now);
        if origin == StartOrigin::Login && handled {
            taken
        } else {
            AppView { status: "Failed"@, error: Some(message), ..logged }
        }
    }

    /// The state that begins to start by itself, and what follows.
    pub open spec fn start_begun(self, deadline: u64, attempt: u8, now: MomentView) -> (
        AppView,
        OutcomeView,
    ) {
        (AppView {
            login_auto_start: LoginView::Starting { deadline, attempt },
            ..self.logged("All exact saved endpoints are ready; starting automatically."@, now)
        }).start_asked(StartOrigin::Login, now)
    }

    /// The state that waits on, until a moment for the next attempt, because of an issue.
    pub open spec fn waiting_on(
        self,
        deadline: u64,
        next_retry: u64,
        attempt: u8,
        problem: Seq<char>,
    ) -> AppView {
        AppView {
            login_auto_start: LoginView::Waiting {
                deadline,
                next_retry,
                attempt,
                last_issue: Some(problem),
            },
            status: "Waiting for saved audio devices"@,
            ..self
        }
    }

    /// The state after an issue was noted, unless it was the last one noted.
    pub open spec fn issue_noted(
        self,
        last_issue: Option<Seq<char>>,
        problem: Seq<char>,
        now: MomentView,
    ) -> AppView {
        if last_issue == Some(problem) {
            self
        } else {
            self.logged("Automatic start is waiting: "@ + problem, now)
        }
    }

    /// The state that looks the endpoints up again, as an attempt, and what follows.
    pub open spec fn discovery_retried(
        self,
        deadline: u64,
        attempt: u8,
        problem: Seq<char>,
        now: MomentView,
    ) -> (AppView, OutcomeView) {
        let (asked, follow_up) = self.waiting_on(
            deadline,
            (now.nanos + retry_seconds(attempt) * SECOND) as u64,
            attempt,
            problem,
        ).logged(
            "Retrying endpoint discovery for automatic start (attempt "@ + digits(attempt as nat)
                + ")."@,
            now,
        ).refresh_asked(now);
        (asked, OutcomeView { stop_bridge: false, follow_up })
    }

    /// The state that goes on waiting because of an issue, and what follows: once the moment for it
    /// has come, the endpoints are looked up again.
    pub open spec fn start_awaited(
        self,
        deadline: u64,
        next_retry: u64,
        attempt: u8,
        last_issue: Option<Seq<char>>,
        problem: Seq<char>,
        now: MomentView,
    ) -> (AppView, OutcomeView) {
        let noted = self.issue_noted(last_issue, problem, now);
        if now.nanos >= next_retry {
            noted.discovery_retried(deadline, AppView::attempt_after(attempt), problem, now)
        } else {
            (noted.waiting_on(deadline, next_retry, attempt, problem), OutcomeView::quiet())
        }
    }

    /// The state after the start by itself was looked after, and what follows.
    pub open spec fn start_advanced(self, now: MomentView) -> (AppView, OutcomeView) {
        match self.login_auto_start {
            LoginView::Starting { deadline, .. } => if now.nanos >= deadline {
                (
                    self.start_failed(
                        "Automatic start exceeded 90 seconds while opening audio streams; a stop was requested."@,
                        now,
                    ),
                    OutcomeView::stopping(self.bridge_active),
                )
            } else {
                (self, OutcomeView::quiet())
            },
            LoginView::Waiting { deadline, next_retry, attempt, last_issue } => {
                if now.nanos >= deadline {
                    let detail = match last_issue {
                        Some(issue) => issue,
                        None => "the saved devices did not become ready"@,
                    };
                    (
                        self.start_failed(
                            "Automatic start paused because "@ + detail
                                + " Refresh the devices and retry when the audio stack is ready."@,
                            now,
                        ),
                        OutcomeView::quiet(),
                    )
                } else if self.refreshing || self.bridge_active {
                    (self, OutcomeView::quiet())
                } else {
                    match self.start_readiness() {
                        ReadinessView::Ready => self.start_begun(deadline, attempt, now),
                        ReadinessView::Blocked(problem) => (
                            self.start_failed("Automatic start is blocked: "@ + problem, now),
                            OutcomeView::quiet(),
                        ),
                        ReadinessView::Waiting(problem) => self.start_awaited(
                            deadline,
                            next_retry,
                            attempt,
                            last_issue,
                            problem,
                            now,
                        ),
                    }
                }
            },
            _ => (self, OutcomeView::quiet()),
        }
    }

    /// The state after the start by itself was asked for again, and what follows.
    pub open spec fn start_armed(self, now: MomentView) -> (AppView, FollowUpView) {
        match self.settings.configuration_problem() {
            Some(problem) => (
                self.start_failed("Automatic start is blocked: "@ + problem, now),
                FollowUpView::Nothing,
            ),
            None => (AppView {
                login_auto_start: LoginView::begun(now.nanos),
                status: "Waiting for saved audio devices"@,
                error: None,
                ..self
            }).logged("Automatic start retry requested for this sign-in."@, now).refresh_asked(now),
        }
    }
}

/// The line that announces a start.
fn start_line(settings: &PersistedSettings) -> (line: String)
    ensures
        line@ == settings@.start_line(),
{
    let mut line = "Start requested: mic='".to_owned();
    line.append(saved_endpoint_name(&settings.microphone, "<missing>").as_str());
    line.append("', reference='");
    line.append(saved_endpoint_name(&settings.reference, "<missing>").as_str());
    line.append("' (");
    line.append(reference_method(settings.reference_mode));
    line.append("), handoff='");
    line.append(saved_endpoint_name(&settings.handoff_render, "<missing>").as_str());
    line.append("'.");
    line
}

/// The attempt behind an attempt.
fn next_attempt(attempt: u8) -> (next: u8)
    ensures
        next == AppView::attempt_after(attempt),
{
    if attempt < 255 {
        attempt + 1
    } else {
        attempt
    }
}

/// The moment of the next attempt.
fn retry_moment(now: u64, attempt: u8) -> (moment: u64)
    requires
        now <= LAST_MOMENT,
    ensures
        moment == now + retry_seconds(attempt) * SECOND,
{
    now + login_retry_seconds(attempt) * SECOND
}

impl AecBridgeApp {
    /// Whether the bridge can start, with exactly the endpoints that were chosen.
    pub fn start_readiness(&self) -> (readiness: StartReadiness)
        ensures
            readiness@ == self@.start_readiness(),
    {
        if self.bridge_active {
            return StartReadiness::Blocked("The bridge is already active.".to_owned());
        }
        if self.refreshing {
            return StartReadiness::Waiting("Waiting for device discovery to finish.".to_owned());
        }
        if self.settings.microphone.is_none() {
            return StartReadiness::Blocked("Raw microphone is not selected.".to_owned());
        }
        if self.settings.reference.is_none() {
            return StartReadiness::Blocked("Echo reference is not selected.".to_owned());
        }
        if self.settings.handoff_render.is_none() {
            return StartReadiness::Blocked("Virtual cable output is not selected.".to_owned());
        }
        if let Some(problem) = self.settings.automatic_start_configuration_problem() {
            return StartReadiness::Blocked(problem);
        }
        self.endpoints_readiness()
    }

    /// The endpoints that the reference is chosen from: playback endpoints for a loopback reference,
    /// recording endpoints otherwise.
    pub fn reference_choices(&self) -> (list: &Vec<EndpointDescriptor>)
        ensures
            list.deep_view() == self@.reference_endpoints(),
    {
        match self.settings.reference_mode {
            ReferenceMode::Loopback => &self.catalog.render,
            ReferenceMode::Capture => &self.catalog.capture,
        }
    }

    fn endpoints_readiness(&self) -> (readiness: StartReadiness)
        ensures
            readiness@ == self@.endpoints_ready(),
    {
        match endpoint_readiness(
            "Raw microphone",
            self.settings.microphone.as_ref(),
            self.catalog.capture.as_slice(),
            true,
        ) {
            StartReadiness::Ready => {},
            issue => {
                return issue;
            },
        }
        match endpoint_readiness(
            "AEC reference",
            self.settings.reference.as_ref(),
            self.reference_choices().as_slice(),
            true,
        ) {
            StartReadiness::Ready => {},
            issue => {
                return issue;
            },
        }
        endpoint_readiness(
            "Virtual cable output",
            self.settings.handoff_render.as_ref(),
            self.catalog.render.as_slice(),
            true,
        )
    }

    /// What keeps the bridge from starting, if anything.
    pub fn start_problem(&self) -> (problem: Option<String>)
        ensures
            problem.deep_view() == self@.start_readiness().problem(),
    {
        match self.start_readiness() {
            StartReadiness::Ready => None,
            StartReadiness::Waiting(problem) => Some(problem),
            StartReadiness::Blocked(problem) => Some(problem),
        }
    }

    /// Asks for discovery of the endpoints, and says whether it is to be started.
    pub fn request_refresh(&mut self, now: &Moment) -> (follow_up: FollowUp)
        ensures
            (final(self)@, follow_up@) == old(self)@.refresh_asked(now@),
            old(self)@.in_order() ==> final(self)@.in_order(),
    {
        if self.refreshing {
            return FollowUp::Nothing;
        }
        self.push_log("Scanning active Windows audio endpoints.", now);
        FollowUp::Discover
    }

    /// Takes in that discovery was started.
    pub fn refresh_spawned(&mut self)
        ensures
            final(self)@ == old(self)@.refresh_begun(),
            old(self)@.in_order() ==> final(self)@.in_order(),
    {
        self.refreshing = true;
        self.error = None;
    }

    /// Takes in that discovery could not be started.
    pub fn refresh_spawn_failed(&mut self, error: &str, now: &Moment)
        ensures
            final(self)@ == old(self)@.refresh_refused(error@, now@),
            old(self)@.in_order() ==> final(self)@.in_order(),
    {
        let mut message = "Could not start endpoint discovery: ".to_owned();
        message.append(error);
        let mut line = "ERROR: ".to_owned();
        line.append(message.as_str());
        self.push_log(line.as_str(), now);
        self.error = Some(message);
        self.status = "Device refresh failed".to_owned();
        self.restore_window = self.restore_window || self.window_hidden_to_tray;
    }

    /// Gives the start by itself up.
    pub fn fail_login_auto_start(&mut self, message: String, now: &Moment)
        ensures
            final(self)@ == old(self)@.start_failed(message@, now@),
            old(self)@.in_order() ==> final(self)@.in_order(),
    {
        let mut line = "ERROR: ".to_owned();
        line.append(message.as_str());
        self.refreshing = false;
        self.push_log(line.as_str(), now);
        self.status = "Automatic start paused".to_owned();
        self.error = Some(message.clone());
        self.login_auto_start = LoginAutoStartState::Failed(message);
        self.restore_window = true;
    }

    fn wait_for_next_attempt(&mut self, deadline: u64, attempt: u8, message: &str, now: &Moment)
        requires
            now@.in_range(),
        ensures
            final(self)@ == old(self)@.start_retried(deadline, attempt, message@, now@),
            old(self)@.in_order() ==> final(self)@.in_order(),
    {
        let mut issue = "audio streams were not ready: ".to_owned();
        issue.append(message);
        let mut line = "Automatic stream startup failed; retrying in ".to_owned();
        line.append(decimal(login_retry_seconds(attempt)).as_str());
        line.append(" second(s).");
        self.catalog = EndpointCatalog::default();
        self.started_streams = Vec::new();
        assert(self.started_streams.deep_view() =~= Seq::<Seq<char>>::empty());
        self.metrics = None;
        self.error = None;
        self.status = "Waiting for saved audio devices".to_owned();
        self.login_auto_start = LoginAutoStartState::Waiting {
            deadline,
            next_retry: retry_moment(now.nanos, attempt),
            attempt,
            last_issue: Some(issue),
        };
        self.push_log(line.as_str(), now);
    }

    /// Lets the start by itself take care of a start that failed, where the start was its own: it
    /// tries again, or gives up at its deadline. Says whether it did.
    pub fn retry_login_after_start_failure(&mut self, message: &str, now: &Moment) -> (taken: bool)
        requires
            now@.in_range(),
        ensures
            (final(self)@, taken) == old(self)@.start_failure_taken(message@, now@),
            old(self)@.in_order() ==> final(self)@.in_order(),
    {
        let (deadline, attempt) = match &self.login_auto_start {
            LoginAutoStartState::Starting { deadline, attempt } => (*deadline, *attempt),
            _ => {
                return false;
            },
        };
        if now.nanos >= deadline {
            let mut failure =
                "Automatic start timed out after an audio stream failed to open: ".to_owned();
            failure.append(message);
            self.fail_login_auto_start(failure, now);
        } else {
            self.wait_for_next_attempt(deadline, next_attempt(attempt), message, now);
        }
        true
    }

    fn note_cancellation(&mut self, reason: &str, now: &Moment)
        ensures
            final(self)@ == old(self)@.logged(
                "Automatic start cancelled: "@ + reason@ + "."@,
                now@,
            ),
            old(self)@.in_order() ==> final(self)@.in_order(),
    {
        let mut line = "Automatic start cancelled: ".to_owned();
        line.append(reason);
        line.append(".");
        self.push_log(line.as_str(), now);
    }

    fn begin_cancelling(&mut self)
        ensures
            final(self)@ == (AppView {
                login_auto_start: LoginView::Cancelling,
                status: "Cancelling automatic start"@,
                ..old(self)@
            }),
    {
        self.login_auto_start = LoginAutoStartState::Cancelling;
        self.status = "Cancelling automatic start".to_owned();
    }

    fn drop_login_auto_start(&mut self)
        ensures
            final(self)@ == old(self)@.start_dropped(),
    {
        self.login_auto_start = LoginAutoStartState::Cancelled;
        if !self.bridge_active {
            self.status = "Idle".to_owned();
        }
    }

    /// Calls the start by itself off, where it is under way or was given up. Says whether the
    /// active bridge is told to stop.
    pub fn cancel_login_auto_start(&mut self, reason: &str, now: &Moment) -> (stop_bridge: bool)
        ensures
            (final(self)@, stop_bridge) == old(self)@.start_cancelled(reason@, now@),
            final(self)@.settings == old(self)@.settings,
            final(self).bypass == old(self).bypass,
            final(self).mute_output == old(self).mute_output,
            old(self)@.in_order() ==> final(self)@.in_order(),
    {
        let (was_starting, concerned) = match &self.login_auto_start {
            LoginAutoStartState::Starting { .. } => (true, true),
            LoginAutoStartState::Waiting { .. } => (false, true),
            LoginAutoStartState::Failed(_) => (false, true),
            _ => (false, false),
        };
        if !concerned {
            return false;
        }
        let stop_bridge = was_starting && self.bridge_active;
        self.note_cancellation(reason, now);
        if was_starting {
            self.begin_cancelling();
        } else {
            self.drop_login_auto_start();
        }
        stop_bridge
    }

    fn run_args(&self) -> (args: RunArgs)
        requires
            self@.settings.microphone is Some,
            self@.settings.reference is Some,
            self@.settings.handoff_render is Some,
        ensures
            args@ == self@.run_args(),
            args.bypass == self.bypass,
            args.mute_output == self.mute_output,
            args.capture_delay_ms == self.settings.capture_delay_ms,
            args.stream_delay_ms == self.settings.stream_delay_ms,
            args.duration_seconds == 0,
    {
        RunArgs {
            endpoints: EndpointArgs {
                mic: self.settings.microphone.as_ref().unwrap().id.clone(),
                reference: self.settings.reference.as_ref().unwrap().id.clone(),
                reference_mode: self.settings.reference_mode,
                output: self.settings.handoff_render.as_ref().unwrap().id.clone(),
            },
            capture_delay_ms: self.settings.capture_delay_ms,
            stream_delay_ms: self.settings.stream_delay_ms,
            duration_seconds: 0,
            bypass: self.bypass,
            mute_output: self.mute_output,
        }
    }

    fn note_blocked_start(&mut self, problem: String, now: &Moment)
        ensures
            final(self)@ == (AppView {
                error: Some(problem@),
                ..old(self)@.logged("Start blocked: "@ + problem@, now@)
            }),
            old(self)@.in_order() ==> final(self)@.in_order(),
    {
        let mut line = "Start blocked: ".to_owned();
        line.append(problem.as_str());
        self.push_log(line.as_str(), now);
        self.error = Some(problem);
    }

    /// Asks the bridge to start. A start by hand calls the start by itself off.
    pub fn start_bridge(&mut self, origin: StartOrigin, now: &Moment) -> (outcome: Outcome)
        ensures
            (final(self)@, outcome@) == old(self)@.start_asked(origin, now@),
            outcome.follow_up matches FollowUp::Start { args, .. } ==> {
                &&& args.bypass == old(self).bypass
                &&& args.mute_output == old(self).mute_output
                &&& args.capture_delay_ms == old(self).settings.capture_delay_ms
                &&& args.stream_delay_ms == old(self).settings.stream_delay_ms
                &&& args.duration_seconds == 0
            },
            old(self)@.in_order() ==> final(self)@.in_order(),
    {
        let stop_bridge = if origin == StartOrigin::Manual {
            self.cancel_login_auto_start("a manual start was requested", now)
        } else {
            false
        };
        self.try_start(origin, stop_bridge, now)
    }

    fn try_start(&mut self, origin: StartOrigin, stop_bridge: bool, now: &Moment) -> (outcome:
        Outcome)
        ensures
            (final(self)@, outcome@) == old(self)@.start_tried(origin, stop_bridge, now@),
            outcome.follow_up matches FollowUp::Start { args, .. } ==> {
                &&& args.bypass == old(self).bypass
                &&& args.mute_output == old(self).mute_output
                &&& args.capture_delay_ms == old(self).settings.capture_delay_ms
                &&& args.stream_delay_ms == old(self).settings.stream_delay_ms
                &&& args.duration_seconds == 0
            },
            old(self)@.in_order() ==> final(self)@.in_order(),
    {
        if let Some(problem) = self.start_problem() {
            self.note_blocked_start(problem, now);
            return Outcome::stopping(stop_bridge);
        }
        self.follow_start(origin, stop_bridge, now)
    }

    fn follow_start(&mut self, origin: StartOrigin, stop_bridge: bool, now: &Moment) -> (outcome:
        Outcome)
        requires
            old(self)@.start_readiness() is Ready,
        ensures
            final(self)@ == old(self)@.logged(old(self)@.settings.start_line(), now@),
            outcome@ == (OutcomeView {
                stop_bridge,
                follow_up: FollowUpView::Start { args: old(self)@.run_args(), origin },
            }),
            outcome.follow_up matches FollowUp::Start { args, .. } ==> {
                &&& args.bypass == old(self).bypass
                &&& args.mute_output == old(self).mute_output
                &&& args.capture_delay_ms == old(self).settings.capture_delay_ms
                &&& args.stream_delay_ms == old(self).settings.stream_delay_ms
                &&& args.duration_seconds == 0
            },
            old(self)@.in_order() ==> final(self)@.in_order(),
    {
        let args = self.run_args();
        self.announce_start(now);
        Outcome { stop_bridge, follow_up: FollowUp::Start { args, origin } }
    }

    fn announce_start(&mut self, now: &Moment)
        ensures
            final(self)@ == old(self)@.logged(old(self)@.settings.start_line(), now@),
            old(self)@.in_order() ==> final(self)@.in_order(),
    {
        let line = start_line(&self.settings);
        self.push_log(line.as_str(), now);
    }

    /// Takes in that the bridge was started.
    pub fn bridge_spawned(&mut self)
        ensures
            final(self)@ == old(self)@.bridge_begun(),
            old(self)@.in_order() ==> final(self)@.in_order(),
    {
        self.bridge_active = true;
        self.status = "Starting".to_owned();
        self.error = None;
        self.metrics = None;
    }

    fn show_failure(&mut self, message: String)
        ensures
            final(self)@ == (AppView {
                status: "Failed"@,
                error: Some(message@),
                ..old(self)@
            }),
    {
        self.status = "Failed".to_owned();
        self.error = Some(message);
    }

    /// Takes in that the bridge could not be started.
    pub fn bridge_spawn_failed(&mut self, origin: StartOrigin, error: &str, now: &Moment)
        requires
            now@.in_range(),
        ensures
            final(self)@ == old(self)@.bridge_refused(origin, error@, now@),
            old(self)@.in_order() ==> final(self)@.in_order(),
    {
        let mut message = "Could not start AEC Bridge: ".to_owned();
        message.append(error);
        let mut line = "ERROR: ".to_owned();
        line.append(message.as_str());
        self.push_log(line.as_str(), now);
        if origin != StartOrigin::Login || !self.retry_login_after_start_failure(
            message.as_str(),
            now,
        ) {
            self.show_failure(message);
        }
    }

    fn begin_login_start(&mut self, deadline: u64, attempt: u8, now: &Moment) -> (outcome: Outcome)
        ensures
            (final(self)@, outcome@) == old(self)@.start_begun(deadline, attempt, now@),
            old(self)@.in_order() ==> final(self)@.in_order(),
    {
        self.push_log("All exact saved endpoints are ready; starting automatically.", now);
        self.login_auto_start = LoginAutoStartState::Starting { deadline, attempt };
        self.start_bridge(StartOrigin::Login, now)
    }

    /// Waits on, until a moment for the next attempt, because of a problem.
    pub(crate) fn keep_waiting(
        &mut self,
        deadline: u64,
        next_retry: u64,
        attempt: u8,
        problem: String,
    )
        ensures
            final(self)@ == old(self)@.waiting_on(deadline, next_retry, attempt, problem@),
            old(self)@.in_order() ==> final(self)@.in_order(),
    {
        self.login_auto_start = LoginAutoStartState::Waiting {
            deadline,
            next_retry,
            attempt,
            last_issue: Some(problem),
        };
        self.status = "Waiting for saved audio devices".to_owned();
    }

    fn note_waiting(&mut self, previous_issue: &Option<String>, problem: &String, now: &Moment)
        ensures
            final(self)@ == old(self)@.issue_noted(previous_issue.deep_view(), problem@, now@),
            old(self)@.in_order() ==> final(self)@.in_order(),
    {
        let known = match previous_issue {
            Some(issue) => *issue == *problem,
            None => false,
        };
        if !known {
            let mut line = "Automatic start is waiting: ".to_owned();
            line.append(problem.as_str());
            self.push_log(line.as_str(), now);
        }
    }

    fn note_retry(&mut self, attempt: u8, now: &Moment)
        ensures
            final(self)@ == old(self)@.logged(
                "Retrying endpoint discovery for automatic start (attempt "@ + digits(
                    attempt as nat,
                ) + ")."@,
                now@,
            ),
            old(self)@.in_order() ==> final(self)@.in_order(),
    {
        let mut line = "Retrying endpoint discovery for automatic start (attempt ".to_owned();
        line.append(decimal(attempt as u64).as_str());
        line.append(").");
        self.push_log(line.as_str(), now);
    }

    fn await_endpoints(
        &mut self,
        deadline: u64,
        next_retry: u64,
        attempt: u8,
        previous_issue: &Option<String>,
        problem: String,
        now: &Moment,
    ) -> (outcome: Outcome)
        requires
            now@.in_range(),
        ensures
            (final(self)@, outcome@) == old(self)@.start_awaited(
                deadline,
                next_retry,
                attempt,
                previous_issue.deep_view(),
                problem@,
                now@,
            ),
            old(self)@.in_order() ==> final(self)@.in_order(),
    {
        self.note_waiting(previous_issue, &problem, now);
        if now.nanos < next_retry {
            self.keep_waiting(deadline, next_retry, attempt, problem);
            return Outcome::quiet();
        }
        self.retry_discovery(deadline, next_attempt(attempt), problem, now)
    }

    fn retry_discovery(&mut self, deadline: u64, attempt: u8, problem: String, now: &Moment)
        -> (outcome: Outcome)
        requires
            now@.in_range(),
        ensures
            (final(self)@, outcome@) == old(self)@.discovery_retried(
                deadline,
                attempt,
                problem@,
                now@,
            ),
            old(self)@.in_order() ==> final(self)@.in_order(),
    {
        self.keep_waiting(deadline, retry_moment(now.nanos, attempt), attempt, problem);
        self.note_retry(attempt, now);
        let follow_up = self.request_refresh(now);
        Outcome { stop_bridge: false, follow_up }
    }

    fn block_login_auto_start(&mut self, problem: &str, now: &Moment)
        ensures
            final(self)@ == old(self)@.start_failed(
                "Automatic start is blocked: "@ + problem@,
                now@,
            ),
            old(self)@.in_order() ==> final(self)@.in_order(),
    {
        let mut message = "Automatic start is blocked: ".to_owned();
        message.append(problem);
        self.fail_login_auto_start(message, now);
    }

    fn expire_login_auto_start(&mut self, previous_issue: &Option<String>, now: &Moment)
        ensures
            final(self)@ == old(self)@.start_failed(
                "Automatic start paused because "@ + (match previous_issue.deep_view() {
                    Some(issue) => issue,
                    None => "the saved devices did not become ready"@,
                }) + " Refresh the devices and retry when the audio stack is ready."@,
                now@,
            ),
            old(self)@.in_order() ==> final(self)@.in_order(),
    {
        let mut message = "Automatic start paused because ".to_owned();
        match previous_issue {
            Some(issue) => {
                message.append(issue.as_str());
            },
            None => {
                message.append("the saved devices did not become ready");
            },
        }
        message.append(" Refresh the devices and retry when the audio stack is ready.");
        self.fail_login_auto_start(message, now);
    }

    fn expire_starting(&mut self, now: &Moment) -> (outcome: Outcome)
        ensures
            final(self)@ == old(self)@.start_failed(
                "Automatic start exceeded 90 seconds while opening audio streams; a stop was requested."@,
                now@,
            ),
            outcome@ == OutcomeView::stopping(old(self)@.bridge_active),
            old(self)@.in_order() ==> final(self)@.in_order(),
    {
        let stop_bridge = self.bridge_active;
        self.fail_login_auto_start(
            "Automatic start exceeded 90 seconds while opening audio streams; a stop was requested.".to_owned(),
            now,
        );
        Outcome::stopping(stop_bridge)
    }

    /// Looks after the start by itself: starts once every chosen endpoint is ready, looks again
    /// while some may still come, and gives up at the deadline or where the user has to act.
    pub fn advance_login_auto_start(&mut self, now: &Moment) -> (outcome: Outcome)
        requires
            now@.in_range(),
        ensures
            (final(self)@, outcome@) == old(self)@.start_advanced(now@),
            old(self)@.in_order() ==> final(self)@.in_order(),
    {
        let (deadline, next_retry, attempt, previous_issue) = match &self.login_auto_start {
            LoginAutoStartState::Starting { deadline, .. } => {
                if now.nanos >= *deadline {
                    return self.expire_starting(now);
                }
                return Outcome::quiet();
            },
            LoginAutoStartState::Waiting { deadline, next_retry, attempt, last_issue } => (
                *deadline,
                *next_retry,
                *attempt,
                match last_issue {
                    Some(issue) => Some(issue.clone()),
                    None => None,
                },
            ),
            _ => {
                return Outcome::quiet();
            },
        };
        if now.nanos >= deadline {
            self.expire_login_auto_start(&previous_issue, now);
            return Outcome::quiet();
        }
        if self.refreshing || self.bridge_active {
            return Outcome::quiet();
        }
        match self.start_readiness() {
            StartReadiness::Ready => self.begin_login_start(deadline, attempt, now),
            StartReadiness::Blocked(problem) => {
                self.block_login_auto_start(problem.as_str(), now);
                Outcome::quiet()
            },
            StartReadiness::Waiting(problem) => self.await_endpoints(
                deadline,
                next_retry,
                attempt,
                &previous_issue,
                problem,
                now,
            ),
        }
    }

    fn rearm_login_auto_start(&mut self, now: &Moment)
        requires
            now@.in_range(),
        ensures
            final(self)@ == (AppView {
                login_auto_start: LoginView::begun(now@.nanos),
                status: "Waiting for saved audio devices"@,
                error: None,
                ..old(self)@
            }).logged("Automatic start retry requested for this sign-in."@, now@),
            old(self)@.in_order() ==> final(self)@.in_order(),
    {
        self.login_auto_start = LoginAutoStartState::waiting(now.nanos);
        self.status = "Waiting for saved audio devices".to_owned();
        self.error = None;
        self.push_log("Automatic start retry requested for this sign-in.", now);
    }

    /// Begins the start by itself anew, with all its time, and says whether discovery is to be
    /// started.
    pub fn arm_login_auto_start(&mut self, now: &Moment) -> (follow_up: FollowUp)
        requires
            now@.in_range(),
        ensures
            (final(self)@, follow_up@) == old(self)@.start_armed(now@),
            old(self)@.in_order() ==> final(self)@.in_order(),
    {
        if let Some(problem) = self.settings.automatic_start_configuration_problem() {
            self.block_login_auto_start(problem.as_str(), now);
            return FollowUp::Nothing;
        }
        self.rearm_login_auto_start(now);
        self.request_refresh(now)
    }
}

} // verus!
