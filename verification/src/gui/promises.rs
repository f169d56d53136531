//! What the control panel promises of a start: when it follows, what it carries, how it is repeated,
//! and how it ends.

use crate::bridge::BridgeEventView;
use crate::clock::MomentView;
use crate::devices::{EndpointCatalogView, EndpointDescriptorView};
use crate::gui::app::{AppView, FollowUpView, StartOrigin};
use crate::gui::laws::{
    a_start_uses_exactly_the_chosen_endpoints, events_keep, settling_keeps,
};
use crate::gui::login::{retry_seconds, LoginView};
use crate::gui::readiness::choice_readiness;
use crate::gui::settings::SavedEndpointView;
use crate::text::{digits, trimmed};
use crate::{ReferenceMode, RunArgsView};
use vstd::prelude::*;

verus! {

/// Whether the arguments of a start are what the panel shows: every option as it stands there, both
/// delays, the very identifiers that were chosen, and no end of its own.
pub open spec fn carries_the_panel(args: RunArgsView, app: AppView) -> bool {
    &&& args.bypass == app.bypass
    &&& args.mute_output == app.mute_output
    &&& args.capture_delay_ms == app.settings.capture_delay_ms
    &&& args.stream_delay_ms == app.settings.stream_delay_ms
    &&& args.duration_seconds == 0
    &&& args.endpoints.reference_mode == app.settings.reference_mode
    &&& app.settings.microphone matches Some(saved) && args.endpoints.mic == saved.id
    &&& app.settings.reference matches Some(saved) && args.endpoints.reference == saved.id
    &&& app.settings.handoff_render matches Some(saved) && args.endpoints.output == saved.id
}

/// Whenever a start follows, by hand, by a command or by itself, its arguments carry every option of
/// the panel unchanged: what is muted stays muted, and what is cancelled stays cancelled.
pub proof fn a_start_carries_every_option(
    app: AppView,
    origin: StartOrigin,
    line: Seq<char>,
    report: Option<Result<EndpointCatalogView, Seq<char>>>,
    events: Seq<BridgeEventView>,
    reaped: Result<bool, Seq<char>>,
    now: MomentView,
)
    ensures
        app.start_asked(origin, now).1.follow_up matches FollowUpView::Start { args, .. }
            ==> carries_the_panel(args, app),
        app.line_entered(line, now).1.follow_up matches FollowUpView::Start { args, .. }
            ==> carries_the_panel(args, app),
        app.background_seen(report, events, reaped, now).1.follow_up matches FollowUpView::Start {
            args,
            ..
        } ==> carries_the_panel(args, app),
{
    a_start_carries_the_panel(app, origin, now);
    a_start_by_command_carries_the_panel(app, line, now);
    a_start_by_itself_carries_the_panel(app, report, events, reaped, now);
}

proof fn a_start_by_command_carries_the_panel(app: AppView, line: Seq<char>, now: MomentView)
    ensures
        app.line_entered(line, now).1.follow_up matches FollowUpView::Start { args, .. }
            ==> carries_the_panel(args, app),
{
    let echoed = app.logged("> "@ + trimmed(line), now);
    a_start_carries_the_panel(echoed, StartOrigin::Manual, now);
}

proof fn a_start_by_itself_carries_the_panel(
    app: AppView,
    report: Option<Result<EndpointCatalogView, Seq<char>>>,
    events: Seq<BridgeEventView>,
    reaped: Result<bool, Seq<char>>,
    now: MomentView,
)
    ensures
        app.background_seen(report, events, reaped, now).1.follow_up matches FollowUpView::Start {
            args,
            ..
        } ==> carries_the_panel(args, app),
{
    settling_keeps(app, report, events, reaped, now);
    settling_keeps_the_options(app, report, events, reaped, now);
    advancing_carries_the_panel(app.settled(report, events, reaped, now), now);
}

proof fn advancing_carries_the_panel(app: AppView, now: MomentView)
    ensures
        app.start_advanced(now).1.follow_up matches FollowUpView::Start { args, .. }
            ==> carries_the_panel(args, app),
{
    if let LoginView::Waiting { deadline, attempt, .. } = app.login_auto_start {
        let begun = AppView {
            login_auto_start: LoginView::Starting { deadline, attempt },
            ..app.logged("All exact saved endpoints are ready; starting automatically."@, now)
        };
        a_start_carries_the_panel(begun, StartOrigin::Login, now);
    }
}

proof fn a_start_carries_the_panel(app: AppView, origin: StartOrigin, now: MomentView)
    ensures
        app.start_asked(origin, now).1.follow_up matches FollowUpView::Start { args, .. }
            ==> carries_the_panel(args, app),
{
    if app.start_asked(origin, now).1.follow_up is Start {
        a_start_uses_exactly_the_chosen_endpoints(app, origin, now);
    }
}

proof fn events_keep_the_options(app: AppView, events: Seq<BridgeEventView>, now: MomentView)
    ensures
        app.events_taken(events, now).0.bypass == app.bypass,
        app.events_taken(events, now).0.mute_output == app.mute_output,
    decreases events.len(),
{
    if events.len() > 0 {
        events_keep_the_options(app.event_taken(events[0], now).0, events.drop_first(), now);
    }
}

proof fn settling_keeps_the_options(
    app: AppView,
    report: Option<Result<EndpointCatalogView, Seq<char>>>,
    events: Seq<BridgeEventView>,
    reaped: Result<bool, Seq<char>>,
    now: MomentView,
)
    ensures
        app.settled(report, events, reaped, now).bypass == app.bypass,
        app.settled(report, events, reaped, now).mute_output == app.mute_output,
{
    let refreshed = if app.refreshing && report is Some {
        app.refresh_finished(report->0, now)
    } else {
        app
    };
    events_keep_the_options(refreshed, events, now);
}

impl AppView {
    /// Whether the first endpoint of a list that bears the identifier of a choice suits.
    pub open spec fn first_listed_suits(
        endpoints: Seq<EndpointDescriptorView>,
        choice: Option<SavedEndpointView>,
    ) -> bool {
        &&& choice is Some
        &&& exists|i: int|
            {
                &&& 0 <= i < endpoints.len()
                &&& (#[trigger] endpoints[i]).id == choice->0.id
                &&& endpoints[i].compatible
                &&& forall|j: int| 0 <= j < i ==> (#[trigger] endpoints[j]).id != choice->0.id
            }
    }
}

proof fn choice_is_ready_where_the_first_suits(
    label: Seq<char>,
    choice: Option<SavedEndpointView>,
    endpoints: Seq<EndpointDescriptorView>,
)
    ensures
        choice_readiness(label, choice, endpoints, true) is Ready <==> AppView::first_listed_suits(
            endpoints,
            choice,
        ),
    decreases endpoints.len(),
{
    if choice is Some && endpoints.len() > 0 {
        let id = choice->0.id;
        let rest = endpoints.drop_first();
        if endpoints[0].id == id {
            if endpoints[0].compatible {
                assert(endpoints[0].id == choice->0.id);
                assert(AppView::first_listed_suits(endpoints, choice));
            } else if AppView::first_listed_suits(endpoints, choice) {
                let i = choose|i: int|
                    {
                        &&& 0 <= i < endpoints.len()
                        &&& (#[trigger] endpoints[i]).id == choice->0.id
                        &&& endpoints[i].compatible
                        &&& forall|j: int|
                            0 <= j < i ==> (#[trigger] endpoints[j]).id != choice->0.id
                    };
                assert(i == 0);
            }
        } else {
            choice_is_ready_where_the_first_suits(label, choice, rest);
            if AppView::first_listed_suits(rest, choice) {
                let i = choose|i: int|
                    {
                        &&& 0 <= i < rest.len()
                        &&& (#[trigger] rest[i]).id == choice->0.id
                        &&& rest[i].compatible
                        &&& forall|j: int| 0 <= j < i ==> (#[trigger] rest[j]).id != choice->0.id
                    };
                assert(endpoints[i + 1] == rest[i]);
                assert forall|j: int| 0 <= j < i + 1 implies (#[trigger] endpoints[j]).id
                    != choice->0.id by {
                    if j > 0 {
                        assert(rest[j - 1] == endpoints[j]);
                    }
                }
            }
            if AppView::first_listed_suits(endpoints, choice) {
                let i = choose|i: int|
                    {
                        &&& 0 <= i < endpoints.len()
                        &&& (#[trigger] endpoints[i]).id == choice->0.id
                        &&& endpoints[i].compatible
                        &&& forall|j: int|
                            0 <= j < i ==> (#[trigger] endpoints[j]).id != choice->0.id
                    };
                assert(rest[i - 1] == endpoints[i]);
                assert forall|j: int| 0 <= j < i - 1 implies (#[trigger] rest[j]).id
                    != choice->0.id by {
                    assert(endpoints[j + 1] == rest[j]);
                }
            }
        }
    }
}

/// A start follows exactly where no bridge is active and no discovery is under way, all three chosen
/// endpoints are there and suit, the microphone for capture, the output for playback and the
/// reference for what its method says, the bridge would not hear itself, and the user confirmed the
/// very output. Where it does not follow, the panel says what is missing.
pub proof fn a_start_follows_exactly_where_the_route_is_whole(
    app: AppView,
    origin: StartOrigin,
    now: MomentView,
)
    ensures
        app.start_asked(origin, now).1.follow_up is Start <==> {
            &&& !app.bridge_active
            &&& !app.refreshing
            &&& AppView::first_listed_suits(app.catalog.capture, app.settings.microphone)
            &&& AppView::first_listed_suits(
                if app.settings.reference_mode == ReferenceMode::Loopback {
                    app.catalog.render
                } else {
                    app.catalog.capture
                },
                app.settings.reference,
            )
            &&& AppView::first_listed_suits(app.catalog.render, app.settings.handoff_render)
            &&& app.settings.microphone->0.id != app.settings.reference->0.id
            &&& app.settings.reference_mode == ReferenceMode::Capture
                || app.settings.reference->0.id != app.settings.handoff_render->0.id
            &&& app.settings.approved_handoff_id == Some(app.settings.handoff_render->0.id)
        },
        app.start_asked(origin, now).1.follow_up !is Start ==> {
            &&& app.start_asked(origin, now).1.follow_up is Nothing
            &&& app.start_asked(origin, now).0.error is Some
        },
{
    choice_is_ready_where_the_first_suits(
        "Raw microphone"@,
        app.settings.microphone,
        app.catalog.capture,
    );
    choice_is_ready_where_the_first_suits(
        "AEC reference"@,
        app.settings.reference,
        app.reference_endpoints(),
    );
    choice_is_ready_where_the_first_suits(
        "Virtual cable output"@,
        app.settings.handoff_render,
        app.catalog.render,
    );
}

/// Calling the start by itself off stops the active bridge exactly where it is the one that is being
/// opened. Nothing else of the panel changes but what is said of it, and a start that is not under
/// way and was not given up is left alone.
pub proof fn calling_off_touches_nothing_else(app: AppView, reason: Seq<char>, now: MomentView)
    ensures
        ({
            let (after, stop_bridge) = app.start_cancelled(reason, now);
            &&& stop_bridge <==> app.login_auto_start is Starting && app.bridge_active
            &&& after == (AppView {
                login_auto_start: after.login_auto_start,
                status: after.status,
                log: after.log,
                ..app
            })
            &&& app.login_auto_start is Inactive || app.login_auto_start is Complete
                || app.login_auto_start is Cancelled || app.login_auto_start is Cancelling
                ==> after == app
            &&& app.login_auto_start is Starting ==> after.login_auto_start is Cancelling
            &&& app.login_auto_start is Waiting || app.login_auto_start is Failed
                ==> after.login_auto_start is Cancelled
        }),
{
}

/// A start by itself that waits looks for the endpoints again exactly when the moment for that has
/// come, counts the attempt, and sets the next moment by the attempt; before that it asks for
/// nothing. It never moves its deadline, and it never starts what is not ready.
pub proof fn a_wait_looks_again_when_it_is_due(
    app: AppView,
    deadline: u64,
    next_retry: u64,
    attempt: u8,
    last_issue: Option<Seq<char>>,
    now: MomentView,
)
    requires
        app.login_auto_start == (LoginView::Waiting { deadline, next_retry, attempt, last_issue }),
        now.in_range(),
    ensures
        ({
            let (after, outcome) = app.start_advanced(now);
            let idle = !app.refreshing && !app.bridge_active;
            &&& !outcome.stop_bridge
            &&& after.login_auto_start is Failed <==> now.nanos >= deadline || (idle
                && app.start_readiness() is Blocked)
            &&& outcome.follow_up is Start <==> now.nanos < deadline && app.start_readiness() is Ready
            &&& outcome.follow_up is Discover <==> now.nanos < deadline && idle
                && app.start_readiness() is Waiting && now.nanos >= next_retry
            &&& now.nanos < deadline && !idle ==> after == app
            &&& outcome.follow_up is Discover ==> {
                let counted = if attempt < 255 {
                    attempt + 1
                } else {
                    255
                };
                &&& after.login_auto_start matches LoginView::Waiting {
                    deadline: stays,
                    next_retry: next,
                    attempt: number,
                    last_issue: issue,
                } && stays == deadline && number == counted && next == now.nanos + retry_seconds(
                    number,
                ) * 1_000_000_000 && issue == app.start_readiness().problem()
            }
            &&& outcome.follow_up is Start ==> after.login_auto_start == (LoginView::Starting {
                deadline,
                attempt,
            })
        }),
{
}

/// While the streams open, the start by itself ends only at its deadline, and then the bridge that
/// it opened is stopped; else nothing is done.
pub proof fn opening_lasts_until_the_deadline(
    app: AppView,
    deadline: u64,
    attempt: u8,
    now: MomentView,
)
    requires
        app.login_auto_start == (LoginView::Starting { deadline, attempt }),
    ensures
        ({
            let (after, outcome) = app.start_advanced(now);
            &&& outcome.follow_up is Nothing
            &&& now.nanos < deadline ==> after == app && !outcome.stop_bridge
            &&& now.nanos >= deadline ==> after.login_auto_start is Failed && outcome.stop_bridge
                == app.bridge_active && after.restore_window && !after.refreshing
        }),
{
}

/// A start by itself that failed is repeated until its deadline: the attempt is counted, the wait
/// goes by the attempt, what was found is forgotten, and no error shows. At the deadline it is given
/// up. A start by hand is never repeated.
pub proof fn a_failed_start_is_repeated_until_the_deadline(
    app: AppView,
    message: Seq<char>,
    now: MomentView,
)
    requires
        now.in_range(),
    ensures
        ({
            let (after, taken) = app.start_failure_taken(message, now);
            &&& taken <==> app.login_auto_start is Starting
            &&& !taken ==> after == app
            &&& after.settings == app.settings
            &&& after.bridge_active == app.bridge_active
            &&& app.login_auto_start matches LoginView::Starting { deadline, attempt } ==> {
                let counted = if attempt < 255 {
                    attempt + 1
                } else {
                    255
                };
                &&& now.nanos >= deadline ==> after.login_auto_start is Failed && after.error is Some
                    && after.restore_window
                &&& now.nanos < deadline ==> {
                    &&& after.login_auto_start matches LoginView::Waiting {
                        deadline: stays,
                        next_retry,
                        attempt: number,
                        ..
                    } && stays == deadline && number == counted && next_retry == now.nanos
                        + retry_seconds(number) * 1_000_000_000
                    &&& after.error is None
                    &&& after.catalog.capture.len() == 0
                    &&& after.catalog.render.len() == 0
                    &&& after.started_streams.len() == 0
                }
            }
        }),
{
}

/// A bridge that reports to run is stopped again exactly where nobody wants it any more: its start
/// was called off, took longer than its deadline, or was given up after a sign-in. Any other runs,
/// and one that started by itself in time has come to its end.
pub proof fn a_bridge_that_runs_is_stopped_only_where_unwanted(app: AppView, now: MomentView)
    ensures
        ({
            let (after, stop_bridge) = app.event_taken(BridgeEventView::Running, now);
            let late = app.login_auto_start matches LoginView::Starting { deadline, .. }
                && now.nanos >= deadline;
            let unwanted = app.login_auto_start is Cancelling || late || (
            app.login_auto_start is Failed && app.launch_options.login_startup);
            &&& stop_bridge <==> unwanted && app.bridge_active
            &&& !unwanted ==> after.status == "Running"@ && after.error == app.error
            &&& app.login_auto_start is Starting && !late ==> after.login_auto_start is Complete
            &&& late ==> after.login_auto_start is Failed
            &&& app.login_auto_start !is Starting ==> after.login_auto_start
                == app.login_auto_start
            &&& after.bridge_active == app.bridge_active
        }),
{
    reveal_strlit("Running");
}

/// A report that a bridge failed makes a start by itself go on until its deadline; any other failure
/// is shown in full. A bridge that ended well leaves its summary, and a start by itself that it came
/// from is over.
pub proof fn the_end_of_a_bridge_is_shown(app: AppView, text: Seq<char>, now: MomentView)
    ensures
        ({
            let failed = app.event_taken(BridgeEventView::Failed(text), now).0;
            &&& app.login_auto_start !is Starting ==> failed.error == Some(text) && failed.status
                == "Failed"@
            &&& app.login_auto_start is Complete || app.login_auto_start is Cancelling
                ==> failed.login_auto_start == LoginView::Failed(text) && failed.restore_window
            &&& app.login_auto_start is Starting ==> failed.login_auto_start is Waiting
                || failed.login_auto_start is Failed
        }),
        ({
            let stopped = app.event_taken(BridgeEventView::Stopped(text), now).0;
            &&& stopped.metrics == Some(text)
            &&& stopped.status == "Stopped cleanly"@
            &&& stopped.error == app.error
            &&& stopped.login_auto_start == if app.login_auto_start is Complete
                || app.login_auto_start is Cancelling {
                LoginView::Cancelled
            } else {
                app.login_auto_start
            }
        }),
        app.event_taken(BridgeEventView::Metrics(text), now).0.metrics == Some(text),
        !app.event_taken(BridgeEventView::Failed(text), now).1,
        !app.event_taken(BridgeEventView::Stopped(text), now).1,
{
}

/// A bridge counts as active until its thread has ended, well or not, and from no report alone; what
/// a thread that fell over leaves is an error, or another attempt of the start by itself.
pub proof fn a_bridge_is_active_until_its_thread_ends(
    app: AppView,
    events: Seq<BridgeEventView>,
    reaped: Result<bool, Seq<char>>,
    now: MomentView,
)
    ensures
        app.events_taken(events, now).0.bridge_active == app.bridge_active,
        app.thread_seen(reaped, now).bridge_active <==> app.bridge_active && reaped == Ok::<
            bool,
            Seq<char>,
        >(false),
        reaped is Ok ==> app.thread_seen(reaped, now) == (AppView {
            bridge_active: app.thread_seen(reaped, now).bridge_active,
            ..app
        }),
        reaped matches Err(error) ==> app.login_auto_start !is Starting ==> app.thread_seen(
            reaped,
            now,
        ).error == Some(error),
{
    events_keep(app, events, now);
}

/// Discovery that ends is over. What it found takes the place of what was known before; where it
/// failed nothing is known any more, a start by itself that waits goes on waiting with the same
/// times and the failure as its issue, and else the failure is shown.
pub proof fn discovery_that_ends_is_taken_over(
    app: AppView,
    report: Result<EndpointCatalogView, Seq<char>>,
    now: MomentView,
)
    ensures
        ({
            let after = app.refresh_finished(report, now);
            &&& !after.refreshing
            &&& after.bridge_active == app.bridge_active
            &&& report matches Ok(catalog) ==> after.catalog == catalog && after.login_auto_start
                == app.login_auto_start && (app.login_auto_start is Failed ==> after.error
                == app.error) && (app.login_auto_start !is Failed ==> after.error is None)
            &&& report matches Err(error) ==> {
                let message = "Device refresh failed: "@ + error;
                &&& after.catalog.capture.len() == 0
                &&& after.catalog.render.len() == 0
                &&& app.login_auto_start matches LoginView::Waiting {
                    deadline,
                    next_retry,
                    attempt,
                    ..
                } ==> after.login_auto_start == (LoginView::Waiting {
                    deadline,
                    next_retry,
                    attempt,
                    last_issue: Some(message),
                }) && after.error == app.error
                &&& app.login_auto_start !is Waiting ==> after.error == Some(message)
                    && after.login_auto_start == app.login_auto_start
            }
        }),
{
}

/// Each stream that opens is counted towards three, and told of with its name and its buffer.
pub proof fn opened_streams_are_counted(
    app: AppView,
    label: Seq<char>,
    buffer_frames: u32,
    now: MomentView,
)
    ensures
        ({
            let after = app.event_taken(
                BridgeEventView::StreamStarted { label, buffer_frames },
                now,
            ).0;
            &&& after.started_streams.len() == app.started_streams.len() + 1
            &&& after.started_streams.drop_last() == app.started_streams
            &&& after.started_streams.last() == label + ": "@ + digits(buffer_frames as nat)
                + "-frame shared buffer"@
            &&& after.status == "Starting: "@ + digits((app.started_streams.len() + 1) as nat)
                + "/3 audio streams ready"@
        }),
{
    let after = app.event_taken(BridgeEventView::StreamStarted { label, buffer_frames }, now).0;
    assert(after.started_streams.drop_last() =~= app.started_streams);
}

} // verus!
