//! What holds of the control panel whatever happens.

use crate::bridge::BridgeEventView;
use crate::clock::MomentView;
use crate::devices::{EndpointCatalogView, EndpointDescriptorView};
use crate::gui::app::{AppView, StartOrigin, TrayEnableOrigin};
use crate::gui::console::{command_of, list_lines, Command};
use crate::gui::controls::Slot;
use crate::gui::login::LoginView;
use crate::gui::readiness::ready_means_the_exact_endpoint;
use crate::gui::settings::{startable_settings_are_safe, SavedEndpointView};
use crate::gui::window::WindowVisibilityAction;
use crate::text::{digits, trimmed};
use crate::ReferenceMode;
use vstd::prelude::*;

verus! {

impl AppView {
    /// Whether the chosen endpoint of a direction is listed, by its very identifier, and suits.
    pub open spec fn listed_and_suits(
        endpoints: Seq<EndpointDescriptorView>,
        choice: Option<SavedEndpointView>,
    ) -> bool {
        &&& choice is Some
        &&& exists|i: int|
            0 <= i < endpoints.len() && (#[trigger] endpoints[i]).id == choice->0.id
                && endpoints[i].compatible
    }

    /// Whether a bridge may start: none is active, the three chosen endpoints are listed and suit,
    /// the bridge is not fed its own audio, and the output is one that the user confirmed.
    pub open spec fn may_start(self) -> bool {
        &&& !self.bridge_active
        &&& AppView::listed_and_suits(self.catalog.capture, self.settings.microphone)
        &&& AppView::listed_and_suits(self.reference_endpoints(), self.settings.reference)
        &&& AppView::listed_and_suits(self.catalog.render, self.settings.handoff_render)
        &&& self.settings.microphone->0.id != self.settings.reference->0.id
        &&& self.settings.reference_mode == ReferenceMode::Loopback
            ==> self.settings.reference->0.id != self.settings.handoff_render->0.id
        &&& self.settings.approved_handoff_id == Some(self.settings.handoff_render->0.id)
    }

    /// The number of the attempt that is under way.
    pub open spec fn attempt(self) -> u8 {
        match self.login_auto_start {
            LoginView::Waiting { attempt, .. } => attempt,
            LoginView::Starting { attempt, .. } => attempt,
            _ => 0,
        }
    }
}

proof fn ready_may_start(app: AppView)
    requires
        app.start_readiness() is Ready,
    ensures
        app.may_start(),
{
    startable_settings_are_safe(app.settings);
    ready_means_the_exact_endpoint(
        "Raw microphone"@,
        app.settings.microphone,
        app.catalog.capture,
    );
    ready_means_the_exact_endpoint(
        "AEC reference"@,
        app.settings.reference,
        app.reference_endpoints(),
    );
    ready_means_the_exact_endpoint(
        "Virtual cable output"@,
        app.settings.handoff_render,
        app.catalog.render,
    );
}

/// A bridge starts, by hand or by itself, only where it may, and with the very identifiers that
/// were chosen; no other endpoint ever stands in for one.
pub proof fn a_start_uses_exactly_the_chosen_endpoints(
    app: AppView,
    origin: StartOrigin,
    now: MomentView,
)
    requires
        app.start_asked(origin, now).1.follow_up is Start,
    ensures
        app.may_start(),
        ({
            let args = app.start_asked(origin, now).1.follow_up->args;
            &&& args.endpoints.mic == app.settings.microphone->0.id
            &&& args.endpoints.reference == app.settings.reference->0.id
            &&& args.endpoints.reference_mode == app.settings.reference_mode
            &&& args.endpoints.output == app.settings.handoff_render->0.id
        }),
        app.start_asked(origin, now).1.follow_up->origin == origin,
{
    let base = if origin == StartOrigin::Manual {
        app.start_cancelled("a manual start was requested"@, now).0
    } else {
        app
    };
    ready_may_start(base);
}

pub(crate) proof fn events_keep(app: AppView, events: Seq<BridgeEventView>, now: MomentView)
    ensures
        ({
            let after = app.events_taken(events, now).0;
            &&& after.settings == app.settings
            &&& after.bridge_active == app.bridge_active
            &&& after.login_auto_start.deadline() is Some ==> after.login_auto_start.deadline()
                == app.login_auto_start.deadline() && after.attempt() >= app.attempt()
        }),
    decreases events.len(),
{
    if events.len() > 0 {
        events_keep(app.event_taken(events[0], now).0, events.drop_first(), now);
    }
}

impl AppView {
    /// The state in which a look at the background finds the start by itself.
    pub open spec fn settled(
        self,
        report: Option<Result<EndpointCatalogView, Seq<char>>>,
        events: Seq<BridgeEventView>,
        reaped: Result<bool, Seq<char>>,
        now: MomentView,
    ) -> AppView {
        let refreshed = if self.refreshing && report is Some {
            self.refresh_finished(report->0, now)
        } else {
            self
        };
        if self.bridge_active {
            refreshed.events_taken(events, now).0.thread_seen(reaped, now)
        } else {
            refreshed
        }
    }
}

pub(crate) proof fn settling_keeps(
    app: AppView,
    report: Option<Result<EndpointCatalogView, Seq<char>>>,
    events: Seq<BridgeEventView>,
    reaped: Result<bool, Seq<char>>,
    now: MomentView,
)
    ensures
        ({
            let after = app.settled(report, events, reaped, now);
            &&& after.settings == app.settings
            &&& after.login_auto_start.deadline() is Some ==> after.login_auto_start.deadline()
                == app.login_auto_start.deadline() && after.attempt() >= app.attempt()
            &&& app.background_seen(report, events, reaped, now).0 == after.start_advanced(now).0
            &&& app.background_seen(report, events, reaped, now).1.follow_up
                == after.start_advanced(now).1.follow_up
        }),
{
    let refreshed = if app.refreshing && report is Some {
        app.refresh_finished(report->0, now)
    } else {
        app
    };
    events_keep(refreshed, events, now);
}

/// Work in the background never changes what the user set.
pub proof fn background_work_keeps_the_settings(
    app: AppView,
    report: Option<Result<EndpointCatalogView, Seq<char>>>,
    events: Seq<BridgeEventView>,
    reaped: Result<bool, Seq<char>>,
    now: MomentView,
)
    ensures
        app.background_seen(report, events, reaped, now).0.settings == app.settings,
{
    settling_keeps(app, report, events, reaped, now);
}

/// The bridge starts by itself only while that is wanted, before the deadline, where a bridge may
/// start, and with the very identifiers that the user chose.
pub proof fn an_unattended_start_is_wanted_and_exact(
    app: AppView,
    report: Option<Result<EndpointCatalogView, Seq<char>>>,
    events: Seq<BridgeEventView>,
    reaped: Result<bool, Seq<char>>,
    now: MomentView,
)
    requires
        app.background_seen(report, events, reaped, now).1.follow_up is Start,
    ensures
        app.settled(report, events, reaped, now).login_auto_start is Waiting,
        app.settled(report, events, reaped, now).may_start(),
        app.login_auto_start.deadline() is Some,
        now.nanos < app.login_auto_start.deadline()->0,
        app.background_seen(report, events, reaped, now).1.follow_up->origin == StartOrigin::Login,
        ({
            let args = app.background_seen(report, events, reaped, now).1.follow_up->args;
            &&& args.endpoints.mic == app.settings.microphone->0.id
            &&& args.endpoints.reference == app.settings.reference->0.id
            &&& args.endpoints.output == app.settings.handoff_render->0.id
        }),
{
    settling_keeps(app, report, events, reaped, now);
    let settled = app.settled(report, events, reaped, now);
    ready_may_start(settled);
}

/// However often the start by itself is repeated, its deadline stays where it is, and its attempts
/// are counted up.
pub proof fn retries_never_extend_the_deadline(
    app: AppView,
    report: Option<Result<EndpointCatalogView, Seq<char>>>,
    events: Seq<BridgeEventView>,
    reaped: Result<bool, Seq<char>>,
    now: MomentView,
)
    ensures
        ({
            let after = app.background_seen(report, events, reaped, now).0;
            after.login_auto_start.deadline() is Some ==> after.login_auto_start.deadline()
                == app.login_auto_start.deadline() && after.attempt() >= app.attempt()
        }),
{
    settling_keeps(app, report, events, reaped, now);
}

/// At its deadline the start by itself neither waits nor opens streams any longer.
pub proof fn nothing_waits_past_the_deadline(
    app: AppView,
    report: Option<Result<EndpointCatalogView, Seq<char>>>,
    events: Seq<BridgeEventView>,
    reaped: Result<bool, Seq<char>>,
    now: MomentView,
)
    requires
        app.login_auto_start.deadline() matches Some(deadline) ==> now.nanos >= deadline,
    ensures
        app.background_seen(report, events, reaped, now).0.login_auto_start.deadline() is None,
{
    settling_keeps(app, report, events, reaped, now);
}

/// A start by itself that is called off is off: it does not wait, does not open streams, and has
/// not failed.
pub proof fn a_cancelled_start_is_off(app: AppView, reason: Seq<char>, now: MomentView)
    ensures
        ({
            let after = app.start_cancelled(reason, now).0.login_auto_start;
            &&& after.deadline() is None
            &&& after !is Failed
        }),
{
}

/// A start by itself that was called off stays off, whatever the background reports, until it is
/// asked for again.
pub proof fn a_cancelled_start_stays_off(
    app: AppView,
    report: Option<Result<EndpointCatalogView, Seq<char>>>,
    events: Seq<BridgeEventView>,
    reaped: Result<bool, Seq<char>>,
    now: MomentView,
)
    requires
        app.login_auto_start.deadline() is None,
    ensures
        app.background_seen(report, events, reaped, now).0.login_auto_start.deadline() is None,
        app.background_seen(report, events, reaped, now).1.follow_up !is Start,
{
    settling_keeps(app, report, events, reaped, now);
}

/// Another output is never played into without a confirmation of its own, by hand or unattended.
pub proof fn another_output_needs_another_confirmation(
    app: AppView,
    choice: Option<SavedEndpointView>,
    now: MomentView,
)
    requires
        app.settings.handoff_render != choice,
    ensures
        ({
            let after = app.endpoint_chosen(Slot::Handoff, choice, now).0;
            &&& !after.settings.handoff_approved()
            &&& !after.settings.auto_start_bridge
            &&& forall|origin: StartOrigin, later: MomentView|
                (#[trigger] after.start_asked(origin, later)).1.follow_up !is Start
        }),
{
    let after = app.endpoint_chosen(Slot::Handoff, choice, now).0;
    assert forall|origin: StartOrigin, later: MomentView|
        (#[trigger] after.start_asked(origin, later)).1.follow_up !is Start by {
        if after.start_asked(origin, later).1.follow_up is Start {
            a_start_uses_exactly_the_chosen_endpoints(after, origin, later);
        }
    }
}

/// A start by itself that is given up brings the window back and leaves its reason to be read.
pub proof fn a_failed_start_is_seen(app: AppView, message: Seq<char>, now: MomentView)
    ensures
        app.start_failed(message, now).restore_window,
        app.start_failed(message, now).error == Some(message),
        app.start_failed(message, now).login_auto_start == LoginView::Failed(message),
{
}

/// A hidden window comes back when the bridge fails for good, and when discovery fails while
/// nothing waits for it.
pub proof fn a_hidden_window_comes_back_on_failure(app: AppView, error: Seq<char>, now: MomentView)
    requires
        app.window_hidden_to_tray,
    ensures
        app.bridge_lost(error).restore_window,
        app.login_auto_start !is Waiting ==> app.refresh_failed(error, now).restore_window,
        app.refresh_refused(error, now).restore_window,
{
}

/// While the program quits, nothing is done to the window; else a window that is to come back
/// comes back, whatever it was before.
pub proof fn quitting_wins_over_restoring_wins_over_hiding(app: AppView, minimized: bool)
    ensures
        app.window_action(true, minimized) == WindowVisibilityAction::Stay,
        app.restore_window ==> app.window_action(false, minimized)
            == WindowVisibilityAction::Restore,
{
}

/// What is done about the icon leaves the route, its confirmation and the start by itself alone.
pub proof fn the_icon_leaves_the_route_alone(
    app: AppView,
    enabled: bool,
    origin: TrayEnableOrigin,
    error: Seq<char>,
    now: MomentView,
)
    requires
        app.unattended_start_is_approved(),
    ensures
        app.tray_set(enabled, now).unattended_start_is_approved(),
        app.tray_made(now).unattended_start_is_approved(),
        app.tray_refused(origin, error, now).unattended_start_is_approved(),
{
}

/// Giving the icon up never loses the window.
pub proof fn a_window_outlives_its_icon(app: AppView, now: MomentView)
    requires
        app.window_hidden_to_tray,
    ensures
        app.tray_set(false, now).restore_window,
{
}

proof fn logging_keeps(app: AppView, messages: Seq<Seq<char>>, now: MomentView)
    ensures
        app.all_logged(messages, now) == (AppView {
            log: app.all_logged(messages, now).log,
            ..app
        }),
    decreases messages.len(),
{
    if messages.len() > 0 {
        logging_keeps(app.logged(messages[0], now), messages.drop_first(), now);
    }
}

/// The console changes no setting. It starts a bridge only for `start`, looks endpoints up only
/// for `refresh`, and has the bridge stopped only for `start` and `stop`.
pub proof fn the_console_runs_only_its_commands(app: AppView, line: Seq<char>, now: MomentView)
    ensures
        ({
            let (after, outcome) = app.line_entered(line, now);
            let command = command_of(trimmed(line));
            &&& after.settings == app.settings
            &&& outcome.follow_up is Start ==> command == Command::Start
            &&& outcome.follow_up is Discover ==> command == Command::Refresh
            &&& outcome.stop_bridge ==> command == Command::Start || command == Command::Stop
        }),
{
    let echoed = app.logged("> "@ + trimmed(line), now);
    let capture = list_lines("capture"@, echoed.catalog.capture);
    let playback = list_lines("playback"@, echoed.catalog.render);
    let headed = echoed.logged(
        "Capture endpoints ("@ + digits(echoed.catalog.capture.len()) + "):"@,
        now,
    );
    logging_keeps(headed, capture, now);
    let headed_again = headed.all_logged(capture, now).logged(
        "Playback endpoints ("@ + digits(echoed.catalog.render.len()) + "):"@,
        now,
    );
    logging_keeps(headed_again, playback, now);
}

/// A line of white space does nothing.
pub proof fn a_blank_line_does_nothing(app: AppView, line: Seq<char>, now: MomentView)
    requires
        trimmed(line).len() == 0,
    ensures
        app.line_entered(line, now).0 == app,
        app.line_entered(line, now).1.follow_up is Nothing,
        !app.line_entered(line, now).1.stop_bridge,
{
}

/// Where the configuration check of the console passes, a start by hand starts a bridge.
pub proof fn a_passed_check_means_a_start(app: AppView, now: MomentView)
    requires
        app.start_readiness() is Ready,
    ensures
        app.start_asked(StartOrigin::Manual, now).1.follow_up is Start,
        app.start_asked(StartOrigin::Login, now).1.follow_up is Start,
{
}

/// A bridge that began is not started again while it is active.
pub proof fn an_active_bridge_is_not_started_again(
    app: AppView,
    origin: StartOrigin,
    now: MomentView,
)
    ensures
        app.bridge_begun().start_asked(origin, now).1.follow_up !is Start,
{
}

} // verus!
