//! What the acts of the user come to, and what they leave alone.

use crate::clock::MomentView;
use crate::devices::EndpointDescriptorView;
use crate::gui::app::{AppView, StartOrigin, TrayEnableOrigin, TrayRequest};
use crate::gui::cards::{choice_shown, entry_shown, StartupControl, Tone};
use crate::gui::console::{command_of, list_lines, Command};
use crate::gui::controls::Slot;
use crate::gui::login::LoginView;
use crate::gui::promises::calling_off_touches_nothing_else;
use crate::gui::readiness::{find_endpoint, found_endpoint_is_the_one_asked_for};
use crate::gui::settings::{SavedEndpointView, SettingsView};
use crate::gui::window::{LoginStartupWindowAction, WindowVisibilityAction};
use crate::gui::GuiLaunchOptions;
use crate::startup::LoginStartupStatusView;
use crate::text::{ascii_lower, begins_with, digits, equal_ignoring_ascii_case, trimmed};
use crate::tray::TrayAction;
use crate::ReferenceMode;
use vstd::prelude::*;

verus! {

/// A choice changes its own slot and no other, and no delay, method or preference with it; only
/// another output takes the confirmation and the start by itself away. The choice that stands
/// already changes nothing at all.
pub proof fn a_choice_changes_only_its_slot(
    app: AppView,
    slot: Slot,
    choice: Option<SavedEndpointView>,
    now: MomentView,
)
    ensures
        ({
            let after = app.endpoint_chosen(slot, choice, now).0;
            let before = app.settings;
            &&& after.settings.microphone == if slot == Slot::Microphone {
                choice
            } else {
                before.microphone
            }
            &&& after.settings.reference == if slot == Slot::Reference {
                choice
            } else {
                before.reference
            }
            &&& after.settings.handoff_render == if slot == Slot::Handoff {
                choice
            } else {
                before.handoff_render
            }
            &&& after.settings.downstream_capture == if slot == Slot::Downstream {
                choice
            } else {
                before.downstream_capture
            }
            &&& after.settings.reference_mode == before.reference_mode
            &&& after.settings.capture_delay_ms == before.capture_delay_ms
            &&& after.settings.stream_delay_ms == before.stream_delay_ms
            &&& after.settings.dark_mode == before.dark_mode
            &&& after.settings.minimize_to_tray == before.minimize_to_tray
            &&& slot != Slot::Handoff ==> after.settings.approved_handoff_id
                == before.approved_handoff_id && after.settings.auto_start_bridge
                == before.auto_start_bridge
            &&& slot == Slot::Handoff && before.handoff_render != choice
                ==> after.settings.approved_handoff_id is None && !after.settings.auto_start_bridge
            &&& after.bypass == app.bypass && after.mute_output == app.mute_output
            &&& after.catalog == app.catalog
            &&& after.bridge_active == app.bridge_active
        }),
        ({
            let stands = match slot {
                Slot::Microphone => app.settings.microphone,
                Slot::Reference => app.settings.reference,
                Slot::Handoff => app.settings.handoff_render,
                Slot::Downstream => app.settings.downstream_capture,
            };
            stands == choice ==> app.endpoint_chosen(slot, choice, now) == (app, false)
        }),
{
    if app.settings.chosen(slot) != choice {
        let taken = app.resettled(app.settings.choosing(slot, choice));
        calling_off_for_a_slot_keeps(taken, slot, now);
        match slot {
            Slot::Microphone => {},
            Slot::Reference => {},
            Slot::Handoff => {},
            Slot::Downstream => {},
        }
    }
}

proof fn calling_off_for_a_slot_keeps(app: AppView, slot: Slot, now: MomentView)
    ensures
        ({
            let after = app.cancelled_for(slot, now).0;
            &&& after.settings == app.settings
            &&& after.bypass == app.bypass
            &&& after.mute_output == app.mute_output
            &&& after.catalog == app.catalog
            &&& after.bridge_active == app.bridge_active
        }),
{
}

/// A choice of an endpoint that the bridge uses calls the start by itself off, and stops the bridge
/// that it was opening; a choice for the user's information does neither.
pub proof fn a_choice_calls_the_start_off(
    app: AppView,
    slot: Slot,
    choice: Option<SavedEndpointView>,
    now: MomentView,
)
    requires
        app.settings.chosen(slot) != choice,
    ensures
        ({
            let (after, stop_bridge) = app.endpoint_chosen(slot, choice, now);
            &&& after.error is None
            &&& slot == Slot::Downstream ==> after.login_auto_start == app.login_auto_start
                && !stop_bridge
            &&& slot != Slot::Downstream ==> after.login_auto_start.deadline() is None
            &&& stop_bridge <==> slot != Slot::Downstream && app.login_auto_start is Starting
                && app.bridge_active
        }),
{
}

/// With another way to read the reference nothing is chosen for it any more, and the start by itself
/// is called off; no other choice changes. The same way again changes nothing.
pub proof fn another_method_needs_another_reference(
    app: AppView,
    mode: ReferenceMode,
    now: MomentView,
)
    ensures
        ({
            let (after, stop_bridge) = app.method_chosen(mode, now);
            &&& after.settings.reference_mode == mode
            &&& app.settings.reference_mode == mode ==> after == app && !stop_bridge
            &&& app.settings.reference_mode != mode ==> {
                &&& after.settings == (SettingsView {
                    reference_mode: mode,
                    reference: None,
                    ..app.settings
                })
                &&& after.login_auto_start.deadline() is None
                &&& after.start_readiness() !is Ready
                &&& stop_bridge <==> app.login_auto_start is Starting && app.bridge_active
            }
        }),
{
}

/// A confirmation is for the very output that is chosen, and lasts until it is taken back; then the
/// bridge does not start by itself either. Neither touches anything else of the settings.
pub proof fn a_confirmation_is_given_and_taken_back(app: AppView, now: MomentView)
    requires
        app.settings.handoff_render is Some,
    ensures
        ({
            let (given, stops) = app.handoff_confirmed(true, now);
            &&& given.settings == (SettingsView {
                approved_handoff_id: Some(app.settings.handoff_render->0.id),
                ..app.settings
            })
            &&& given.settings.handoff_approved()
            &&& given.login_auto_start == app.login_auto_start
            &&& !stops
        }),
        ({
            let (taken, stops) = app.handoff_confirmed(false, now);
            &&& taken.settings == (SettingsView {
                approved_handoff_id: None,
                auto_start_bridge: false,
                ..app.settings
            })
            &&& !taken.settings.handoff_approved()
            &&& taken.login_auto_start.deadline() is None
            &&& stops <==> app.login_auto_start is Starting && app.bridge_active
        }),
{
}

/// Turning the start by itself on or off sets just that. Turned off, it is called off too.
pub proof fn turning_the_start_on_or_off_sets_just_that(
    app: AppView,
    enabled: bool,
    now: MomentView,
)
    ensures
        ({
            let (after, stop_bridge) = app.auto_start_set(enabled, now);
            &&& after.settings == (SettingsView { auto_start_bridge: enabled, ..app.settings })
            &&& enabled ==> after.login_auto_start == app.login_auto_start && !stop_bridge
            &&& !enabled ==> after.login_auto_start.deadline() is None
            &&& stop_bridge <==> !enabled && app.login_auto_start is Starting && app.bridge_active
        }),
{
    if !enabled {
        let changed = AppView {
            settings: SettingsView { auto_start_bridge: false, ..app.settings },
            ..app
        };
        calling_off_touches_nothing_else(
            changed,
            "automatic bridge start was disabled"@,
            now,
        );
    }
}

/// The start by itself can be turned on only where the program is registered for sign-in as it is
/// and the settings let the bridge start; it can always be turned off.
pub proof fn the_start_can_be_turned_on_only_where_it_works(app: AppView)
    ensures
        app.auto_start_available() <==> app.settings.auto_start_bridge || (
        app.login_startup_status == Some(LoginStartupStatusView::Current)
            && app.settings.configuration_problem() is None),
{
}

/// A registration that was made or taken away is shown as such, and without one the bridge does not
/// start by itself any more. One that could not be changed leaves everything but the complaint.
pub proof fn a_registration_is_shown_as_it_is(
    app: AppView,
    enabled: bool,
    error: Seq<char>,
    now: MomentView,
)
    ensures
        ({
            let (after, stop_bridge) = app.registration_changed(
                enabled,
                Ok::<(), Seq<char>>(()),
                now,
            );
            &&& after.login_startup_status == Some(
                if enabled {
                    LoginStartupStatusView::Current
                } else {
                    LoginStartupStatusView::Disabled
                },
            )
            &&& after.startup_error is None
            &&& enabled ==> after.settings == app.settings && after.login_auto_start
                == app.login_auto_start && !stop_bridge
            &&& !enabled ==> after.settings == (SettingsView {
                auto_start_bridge: false,
                ..app.settings
            }) && after.login_auto_start.deadline() is None
            &&& stop_bridge <==> !enabled && app.login_auto_start is Starting && app.bridge_active
        }),
        ({
            let (after, stop_bridge) = app.registration_changed(
                enabled,
                Err::<(), Seq<char>>(error),
                now,
            );
            &&& !stop_bridge
            &&& after.startup_error is Some
            &&& after == (AppView {
                startup_notice: None,
                startup_error: after.startup_error,
                log: after.log,
                ..app
            })
        }),
        app.registered() <==> (app.login_startup_status matches Some(status)
            && status !is Disabled),
{
}

/// Whether a word is a command, whatever the case of its letters.
pub open spec fn spells(word: Seq<char>, command: Seq<char>) -> bool {
    &&& word.len() == command.len()
    &&& forall|i: int|
        0 <= i < word.len() ==> ascii_lower(#[trigger] word[i]) == ascii_lower(command[i])
}

proof fn commands_differ(word: Seq<char>, one: Seq<char>, other: Seq<char>, at: int)
    requires
        one.len() != other.len() || (0 <= at < one.len() && ascii_lower(one[at]) != ascii_lower(
            other[at],
        )),
    ensures
        !(equal_ignoring_ascii_case(word, one) && equal_ignoring_ascii_case(word, other)),
{
    if equal_ignoring_ascii_case(word, one) && equal_ignoring_ascii_case(word, other) {
        assert(ascii_lower(word[at]) == ascii_lower(one[at]));
        assert(ascii_lower(word[at]) == ascii_lower(other[at]));
    }
}

proof fn commands_are_apart(word: Seq<char>)
    ensures
        spells(word, "help"@) ==> command_of(word) == Command::Help,
        spells(word, "list"@) ==> command_of(word) == Command::List,
        spells(word, "check"@) ==> command_of(word) == Command::Check,
        spells(word, "status"@) ==> command_of(word) == Command::Status,
        spells(word, "refresh"@) ==> command_of(word) == Command::Refresh,
        spells(word, "start"@) ==> command_of(word) == Command::Start,
        spells(word, "stop"@) ==> command_of(word) == Command::Stop,
{
    reveal_strlit("clear");
    reveal_strlit("help");
    reveal_strlit("list");
    reveal_strlit("check");
    reveal_strlit("status");
    reveal_strlit("refresh");
    reveal_strlit("start");
    reveal_strlit("stop");
    commands_differ(word, "help"@, "list"@, 0);
    commands_differ(word, "help"@, "stop"@, 0);
    commands_differ(word, "list"@, "stop"@, 0);
    commands_differ(word, "clear"@, "check"@, 1);
    commands_differ(word, "clear"@, "start"@, 0);
    commands_differ(word, "check"@, "start"@, 0);
}

/// Each command has one word, in whatever case, and every other word is none.
pub proof fn each_command_has_one_word(word: Seq<char>)
    ensures
        command_of(word) == Command::Clear <==> spells(word, "clear"@),
        command_of(word) == Command::Help <==> spells(word, "help"@),
        command_of(word) == Command::List <==> spells(word, "list"@),
        command_of(word) == Command::Check <==> spells(word, "check"@),
        command_of(word) == Command::Status <==> spells(word, "status"@),
        command_of(word) == Command::Refresh <==> spells(word, "refresh"@),
        command_of(word) == Command::Start <==> spells(word, "start"@),
        command_of(word) == Command::Stop <==> spells(word, "stop"@),
{
    commands_are_apart(word);
}

/// What a command does: `start` asks for a start by hand, and only while no bridge is active;
/// `stop` stops an active bridge, and calls the start by itself off; `refresh` looks the endpoints
/// up where neither a bridge nor another lookup is under way; `clear` empties the log. The others
/// only tell something.
pub proof fn a_command_does_what_it_says(app: AppView, word: Seq<char>, now: MomentView)
    ensures
        ({
            let (after, outcome) = app.command_run(Command::Start, word, now);
            &&& app.bridge_active ==> outcome.follow_up is Nothing && !outcome.stop_bridge
                && after.bridge_active
            &&& !app.bridge_active ==> (after, outcome) == app.start_asked(StartOrigin::Manual, now)
        }),
        ({
            let (after, outcome) = app.command_run(Command::Stop, word, now);
            &&& outcome.stop_bridge <==> app.bridge_active
            &&& outcome.follow_up is Nothing
            &&& app.bridge_active ==> after.status == "Stopping"@
                && after.login_auto_start.deadline() is None
            &&& after.bridge_active == app.bridge_active
        }),
        ({
            let (after, outcome) = app.command_run(Command::Refresh, word, now);
            &&& outcome.follow_up is Discover <==> !app.bridge_active && !app.refreshing
            &&& !outcome.stop_bridge
        }),
        app.command_run(Command::Clear, word, now).0 == (AppView { log: Seq::empty(), ..app }),
        ({
            let (after, outcome) = app.command_run(Command::Unknown, word, now);
            &&& outcome.follow_up is Nothing && !outcome.stop_bridge
            &&& after == (AppView { log: after.log, ..app })
        }),
        ({
            let (after, outcome) = app.command_run(Command::Status, word, now);
            &&& outcome.follow_up is Nothing && !outcome.stop_bridge
            &&& after == (AppView { log: after.log, ..app })
        }),
        ({
            let (after, outcome) = app.command_run(Command::Check, word, now);
            &&& outcome.follow_up is Nothing && !outcome.stop_bridge
            &&& after == (AppView { log: after.log, ..app })
        }),
{
}

/// A bridge that is stopped by hand is stopping, and the start by itself does not bring it back.
pub proof fn stopping_by_hand_is_final(app: AppView, message: Seq<char>, now: MomentView)
    ensures
        app.stop_asked(message, now).status == "Stopping"@,
        app.stop_asked(message, now).login_auto_start.deadline() is None,
        app.stop_asked(message, now).login_auto_start !is Failed,
        app.stop_asked(message, now).settings == app.settings,
        app.stop_asked(message, now).bridge_active == app.bridge_active,
{
}

/// A request from the icon to quit is heard once and wins over opening the window; a request to open
/// it brings the window back. Nothing else changes.
pub proof fn quitting_wins_over_opening(app: AppView, actions: Seq<TrayAction>, now: MomentView)
    ensures
        ({
            let after = app.asked(actions, now);
            &&& after.quit_requested <==> app.quit_requested || actions.contains(TrayAction::Quit)
            &&& app.quit_requested ==> after == app
            &&& !app.quit_requested && actions.contains(TrayAction::Quit) ==> !after.restore_window
            &&& !after.quit_requested ==> (after.restore_window <==> app.restore_window
                || actions.contains(TrayAction::Open))
            &&& after == (AppView {
                quit_requested: after.quit_requested,
                restore_window: after.restore_window,
                log: after.log,
                ..app
            })
        }),
{
}

/// The icon that is asked for, made, refused or given up: the preference follows what the user has,
/// except that one that was stored outlives an icon that could not be made.
pub proof fn the_preference_follows_the_icon(
    app: AppView,
    origin: TrayEnableOrigin,
    error: Seq<char>,
    now: MomentView,
)
    ensures
        app.tray_made(now).tray_available,
        app.tray_made(now).settings == (SettingsView { minimize_to_tray: true, ..app.settings }),
        !app.tray_set(false, now).tray_available,
        app.tray_set(false, now).settings == (SettingsView {
            minimize_to_tray: false,
            ..app.settings
        }),
        app.tray_set(false, now).tray_error is None,
        app.tray_set(true, now).tray_available == app.tray_available,
        app.tray_set(true, now).settings == (SettingsView {
            minimize_to_tray: app.settings.minimize_to_tray || app.tray_available,
            ..app.settings
        }),
        app.tray_refused(origin, error, now).settings == (SettingsView {
            minimize_to_tray: origin == TrayEnableOrigin::SavedPreference,
            ..app.settings
        }),
        app.tray_refused(origin, error, now).tray_error is Some,
        app.tray_refused(origin, error, now).tray_available == app.tray_available,
{
}

/// A window hides only where an icon can bring it back, and a window that came back is not hidden
/// and not asked for any more.
pub proof fn a_hidden_window_can_come_back(app: AppView, message: Seq<char>, now: MomentView)
    ensures
        ({
            let after = app.hidden(message, now);
            &&& after.window_hidden_to_tray <==> app.window_hidden_to_tray || app.tray_available
            &&& after.restore_window == app.restore_window
            &&& after == (AppView {
                window_hidden_to_tray: after.window_hidden_to_tray,
                log: after.log,
                ..app
            })
        }),
        app.restored() == (AppView {
            window_hidden_to_tray: false,
            restore_window: false,
            ..app
        }),
{
}

/// A control panel that opens chooses nothing and starts nothing: it keeps the settings that were
/// stored, and the start by itself waits exactly where the panel was opened at sign-in and the user
/// wants that, for ninety seconds.
pub proof fn an_opened_panel_waits_only_after_a_sign_in(
    settings: SettingsView,
    startup: Result<LoginStartupStatusView, Seq<char>>,
    options: GuiLaunchOptions,
    now: MomentView,
)
    requires
        now.in_range(),
    ensures
        ({
            let app = AppView::opened(settings, startup, options, now);
            &&& app.settings == settings
            &&& app.launch_options == options
            &&& !app.bridge_active && !app.refreshing && !app.bypass && !app.mute_output
            &&& !app.quit_requested && !app.window_hidden_to_tray && !app.tray_available
            &&& app.catalog.capture.len() == 0 && app.catalog.render.len() == 0
            &&& app.login_auto_start is Waiting <==> options.login_startup
                && settings.auto_start_bridge
            &&& app.login_auto_start is Waiting || app.login_auto_start is Inactive
            &&& app.login_auto_start.deadline() matches Some(deadline) ==> deadline == now.nanos
                + 90 * 1_000_000_000
            &&& startup is Err <==> app.startup_error is Some
            &&& startup matches Ok(status) ==> app.login_startup_status == Some(status)
        }),
{
}

/// Once opened, the panel goes on to start by itself only where the settings let it; the window then
/// hides where an icon can bring it back, and else goes to the taskbar. Where they do not let it, it
/// says why and gives up.
pub proof fn a_launch_goes_on_only_with_safe_settings(app: AppView, now: MomentView)
    ensures
        ({
            let (after, action) = app.launched(now);
            let wanted = app.launch_options.login_startup && app.settings.auto_start_bridge;
            let safe = app.settings.configuration_problem() is None;
            &&& !wanted ==> after == app && action is None
            &&& wanted && !safe ==> after.login_auto_start is Failed && after.error is Some
                && action is None
            &&& wanted && safe ==> after.login_auto_start == app.login_auto_start && action == Some(
                if app.tray_available {
                    LoginStartupWindowAction::HideToTray
                } else {
                    LoginStartupWindowAction::MinimizeToTaskbar
                },
            ) && (after.window_hidden_to_tray <==> app.window_hidden_to_tray || app.tray_available)
            &&& after.settings == app.settings
        }),
{
}

/// The start by itself can be begun anew where it was given up or called off in a session in which
/// it is wanted, once no bridge is active; it can be called off while it waits.
pub proof fn the_start_can_be_repeated_or_called_off(app: AppView)
    ensures
        ({
            let wanted = app.launch_options.login_startup && app.settings.auto_start_bridge;
            let over = app.login_auto_start is Failed || app.login_auto_start is Cancelled;
            &&& app.startup_control() == StartupControl::Retry <==> over && wanted
                && !app.bridge_active
            &&& app.startup_control() == StartupControl::Cancel <==> app.login_auto_start is Waiting
            &&& app.startup_control() == StartupControl::AwaitEnd <==> app.login_auto_start is Failed
                && app.bridge_active
        }),
{
}

/// Begun anew, the start by itself has all its time again; with settings that do not let it, it is
/// given up at once.
pub proof fn a_start_begun_anew_has_all_its_time(app: AppView, now: MomentView)
    requires
        now.in_range(),
    ensures
        ({
            let (after, follow_up) = app.start_armed(now);
            let safe = app.settings.configuration_problem() is None;
            &&& safe ==> after.login_auto_start.deadline() == Some(
                (now.nanos + 90 * 1_000_000_000) as u64,
            ) && after.login_auto_start is Waiting && after.error is None
            &&& safe ==> (follow_up is Discover <==> !app.refreshing)
            &&& !safe ==> after.login_auto_start is Failed && follow_up is Nothing
            &&& follow_up !is Start
            &&& after.settings == app.settings
        }),
{
}

/// The badge is alarming exactly where something is wrong and the bridge does not run all the same.
pub proof fn the_badge_shows_what_is_wrong(app: AppView)
    ensures
        app.badge().tone == Tone::Danger <==> app.error is Some && app.status != "Running"@,
        app.badge().tone == Tone::Success <==> app.status == "Running"@,
        app.badge().tone != Tone::Danger ==> app.badge().text == app.status,
        app.error is None && (begins_with(app.status, "Starting"@) || begins_with(
            app.status,
            "Waiting"@,
        ) || app.status == "Stopping"@) && app.status != "Running"@ ==> app.badge().tone
            == Tone::Warning,
{
}

/// What is said of a start that waits: the time that is left in whole seconds, none once the
/// deadline has passed, and why it waits.
pub proof fn a_wait_tells_the_seconds_left(
    app: AppView,
    deadline: u64,
    next_retry: u64,
    attempt: u8,
    issue: Seq<char>,
    now: MomentView,
)
    requires
        app.login_auto_start == (LoginView::Waiting {
            deadline,
            next_retry,
            attempt,
            last_issue: Some(issue),
        }),
    ensures
        exists|seconds: nat|
            {
                &&& app.startup_callout(now) matches Some(callout) && callout.detail == issue
                    + " Retrying for up to "@ + #[trigger] digits(seconds) + " more seconds."@
                &&& now.nanos >= deadline ==> seconds == 0
                &&& now.nanos < deadline ==> seconds * 1_000_000_000 <= deadline - now.nanos < (
                seconds + 1) * 1_000_000_000
            },
{
    let seconds: nat = if deadline > now.nanos {
        ((deadline - now.nanos) / 1_000_000_000) as nat
    } else {
        0
    };
    assert(app.startup_callout(now)->0.detail == issue + " Retrying for up to "@ + digits(seconds)
        + " more seconds."@);
}

/// A choice shows the present name of its endpoint where it is there, and else that it is missing.
pub proof fn a_choice_shows_its_endpoint(
    selected: Option<SavedEndpointView>,
    endpoints: Seq<EndpointDescriptorView>,
    endpoint: EndpointDescriptorView,
    informational: bool,
)
    ensures
        selected is None ==> choice_shown(selected, endpoints) == "Not selected"@,
        selected matches Some(saved) ==> {
            let missing = forall|i: int|
                0 <= i < endpoints.len() ==> (#[trigger] endpoints[i]).id != saved.id;
            &&& missing ==> choice_shown(selected, endpoints) == "Missing: "@ + saved.last_name
            &&& !missing ==> exists|i: int|
                0 <= i < endpoints.len() && (#[trigger] endpoints[i]).id == saved.id
                    && endpoints[i].name == choice_shown(selected, endpoints)
        },
        entry_shown(endpoint, informational) == endpoint.name + "  |  "@ + endpoint.format
            <==> informational || endpoint.compatible,
{
    if selected is Some {
        let id = selected->0.id;
        found_endpoint_is_the_one_asked_for(endpoints, id);
        if find_endpoint(endpoints, id) is Some {
            let found = find_endpoint(endpoints, id)->0;
            let i = choose|i: int| 0 <= i < endpoints.len() && endpoints[i] == found;
            assert(endpoints[i].id == id);
        }
    }
    if !(informational || endpoint.compatible) {
        reveal_strlit("  [unsupported]");
        let entry = endpoint.name + "  |  "@ + endpoint.format;
        assert(entry_shown(endpoint, informational).len() == entry.len() + 15);
    }
}

/// What stands below the buttons: the status of an active bridge, and else what keeps the bridge
/// from starting, or that nothing does.
pub proof fn the_note_says_whether_a_start_would_follow(app: AppView, now: MomentView)
    ensures
        app.bridge_active ==> app.action_note().text == app.status,
        !app.bridge_active ==> (app.action_note().tone == Tone::Success <==> app.start_asked(
            StartOrigin::Manual,
            now,
        ).1.follow_up is Start),
        !app.bridge_active && app.action_note().tone != Tone::Success ==> app.start_asked(
            StartOrigin::Manual,
            now,
        ).0.error == Some(app.action_note().text),
{
}

/// Discovery that is asked for follows exactly where none is under way; once begun it is under way
/// and no old error shows, and one that could not begin leaves its error.
pub proof fn discovery_is_asked_for_once(app: AppView, error: Seq<char>, now: MomentView)
    ensures
        app.refresh_asked(now).1 is Discover <==> !app.refreshing,
        app.refresh_asked(now).1 !is Start,
        app.refreshing ==> app.refresh_asked(now).0 == app,
        app.refresh_begun() == (AppView { refreshing: true, error: None, ..app }),
        app.refresh_begun().refresh_asked(now).1 is Nothing,
        app.refresh_refused(error, now).error == Some(
            "Could not start endpoint discovery: "@ + error,
        ),
        app.refresh_refused(error, now).refreshing == app.refreshing,
        app.refresh_refused(error, now).settings == app.settings,
        app.refresh_refused(error, now).login_auto_start == app.login_auto_start,
{
}

/// A bridge that began is active and starting, with no old error or figures. One that could not
/// begin shows why, unless the start by itself that it came from tries again.
pub proof fn a_bridge_begins_or_says_why_not(
    app: AppView,
    origin: StartOrigin,
    error: Seq<char>,
    now: MomentView,
)
    ensures
        app.bridge_begun() == (AppView {
            bridge_active: true,
            status: "Starting"@,
            error: None,
            metrics: None,
            ..app
        }),
        ({
            let after = app.bridge_refused(origin, error, now);
            &&& after.bridge_active == app.bridge_active
            &&& after.settings == app.settings
            &&& origin == StartOrigin::Manual || app.login_auto_start !is Starting ==> after.error
                == Some("Could not start AEC Bridge: "@ + error) && after.status == "Failed"@
                && after.login_auto_start == app.login_auto_start
            &&& origin == StartOrigin::Login && app.login_auto_start is Starting
                ==> after.login_auto_start is Waiting || after.login_auto_start is Failed
        }),
{
}

/// While the start by itself waits, an issue is logged when it is new, and not again while it stays.
pub proof fn an_issue_is_logged_once(
    app: AppView,
    last_issue: Option<Seq<char>>,
    problem: Seq<char>,
    now: MomentView,
)
    ensures
        last_issue == Some(problem) ==> app.issue_noted(last_issue, problem, now) == app,
        last_issue != Some(problem) ==> app.issue_noted(last_issue, problem, now) == app.logged(
            "Automatic start is waiting: "@ + problem,
            now,
        ),
        app.logged(problem, now) == (AppView { log: app.logged(problem, now).log, ..app }),
{
}

/// What is done to the window in a frame is taken in: a window that came back is not hidden, one
/// that hid is, and whether it was minimized is remembered for the next frame.
pub proof fn a_frame_leaves_the_window_as_it_was_seen_to(
    app: AppView,
    quitting: bool,
    minimized: bool,
    now: MomentView,
)
    ensures
        ({
            let after = app.window_seen_to(quitting, minimized, now);
            let action = app.window_action(quitting, minimized);
            &&& after.last_window_minimized == minimized
            &&& app.restore_window && !quitting ==> !after.window_hidden_to_tray
                && !after.restore_window
            &&& action == WindowVisibilityAction::HideToTray ==> after.window_hidden_to_tray
                && app.tray_available && app.settings.minimize_to_tray && minimized
            &&& action == WindowVisibilityAction::Stay ==> after.window_hidden_to_tray
                == app.window_hidden_to_tray && after.restore_window == app.restore_window
            &&& after == (AppView {
                window_hidden_to_tray: after.window_hidden_to_tray,
                restore_window: after.restore_window,
                last_window_minimized: minimized,
                log: after.log,
                ..app
            })
        }),
{
}

/// The route is told in its order: the microphone, the reference with its method, the output, and
/// where the cleaned microphone is picked up.
pub proof fn the_route_is_told_in_order(
    settings: SettingsView,
    microphone: SavedEndpointView,
    reference: SavedEndpointView,
    output: SavedEndpointView,
    downstream: SavedEndpointView,
)
    requires
        settings.microphone == Some(microphone),
        settings.reference == Some(reference),
        settings.handoff_render == Some(output),
        settings.downstream_capture == Some(downstream),
    ensures
        ({
            let method = if settings.reference_mode == ReferenceMode::Loopback {
                "playback loopback"@
            } else {
                "recording device/virtual mix"@
            };
            &&& settings.route_line() == "Route: '"@ + microphone.last_name + "' + '"@
                + reference.last_name + "' ("@ + method + ") -> '"@ + output.last_name + "' -> '"@
                + downstream.last_name + "'."@
            &&& settings.start_line() == "Start requested: mic='"@ + microphone.last_name
                + "', reference='"@ + reference.last_name + "' ("@ + method + "), handoff='"@
                + output.last_name + "'."@
            &&& settings.pairing() == Some(
                "The bridge writes to '"@ + output.last_name + "'. Select '"@ + downstream.last_name
                    + "' as the microphone in your downstream app."@,
            )
            &&& settings.path().1 == "Clean '"@ + microphone.last_name
                + "' using the reference audio."@
            &&& settings.path().2 == "Send the cleaned microphone to '"@ + output.last_name
                + "', paired with '"@ + downstream.last_name + "'."@
            &&& settings.path().0 == if settings.reference_mode == ReferenceMode::Loopback {
                "Listen to '"@ + reference.last_name + "' through Windows playback loopback."@
            } else {
                "Read '"@ + reference.last_name
                    + "' as the recording-device or virtual-mix reference."@
            }
        }),
        settings.approved_line() is Some <==> settings.approved_handoff_id == Some(output.id),
{
}

/// An icon is made where it is wanted and not there, taken away where it is there and not wanted,
/// and else left as it is.
pub proof fn the_icon_is_made_and_removed_as_wanted(app: AppView, enabled: bool)
    ensures
        app.tray_request(enabled) == TrayRequest::Keep <==> enabled == app.tray_available,
        app.tray_request(enabled) == TrayRequest::Create <==> enabled && !app.tray_available,
        app.tray_request(enabled) == TrayRequest::Remove <==> !enabled && app.tray_available,
        app.busy() <==> app.bridge_active || app.refreshing || app.login_auto_start is Waiting,
{
}

/// The check of the console says what a start by hand would come to: that all is ready exactly where
/// one would follow, and else just what the start would complain of.
pub proof fn the_check_says_what_a_start_would(app: AppView, now: MomentView)
    ensures
        ({
            let (after, outcome) = app.start_asked(StartOrigin::Manual, now);
            &&& outcome.follow_up is Start ==> app.check_told(now) == app.logged(
                "Configuration check passed; the bridge is ready to start."@,
                now,
            )
            &&& outcome.follow_up !is Start ==> after.error is Some && app.check_told(now)
                == app.logged("Configuration check failed: "@ + after.error->0, now)
        }),
{
}

/// What stands below the switch of the start by itself: nothing exactly where it could be turned on.
pub proof fn the_hint_says_what_is_missing(app: AppView)
    ensures
        app.auto_start_hint() is None <==> app.login_startup_status == Some(
            LoginStartupStatusView::Current,
        ) && app.settings.configuration_problem() is None,
        app.login_startup_status == Some(LoginStartupStatusView::Current)
            && app.settings.configuration_problem() is Some ==> (app.auto_start_hint() matches Some(
            note,
        ) && Some(note.text) == app.settings.configuration_problem()),
{
}

/// The start by itself is spoken of wherever it is wanted or was; in alarm exactly where it was given
/// up, with its reason, and as a success exactly where it came to its end.
pub proof fn the_start_is_spoken_of_as_it_is(app: AppView, now: MomentView)
    ensures
        ({
            let callout = app.startup_callout(now);
            &&& callout is None <==> app.login_auto_start is Inactive
            &&& callout matches Some(shown) ==> {
                &&& shown.tone == Tone::Danger <==> app.login_auto_start is Failed
                &&& shown.tone == Tone::Success <==> app.login_auto_start is Complete
                &&& shown.tone == Tone::Muted <==> app.login_auto_start is Cancelled
                &&& app.login_auto_start matches LoginView::Failed(message) ==> shown.detail
                    == message
            }
        }),
{
}

/// What keeps the bridge from starting, by kind: an active bridge, a missing choice, or settings
/// that do not let it are for the user to change; discovery that is under way is waited for.
pub proof fn only_what_passes_by_itself_is_waited_for(app: AppView)
    ensures
        app.bridge_active ==> app.start_readiness() is Blocked,
        !app.bridge_active && app.refreshing ==> app.start_readiness() is Waiting,
        !app.bridge_active && !app.refreshing && (app.settings.microphone is None
            || app.settings.reference is None || app.settings.handoff_render is None)
            ==> app.start_readiness() is Blocked,
        !app.bridge_active && !app.refreshing && app.settings.configuration_problem() is Some
            ==> app.start_readiness() is Blocked,
{
}

/// A line runs the command that its word stands for, with what follows from it: nothing is lost
/// between the line and the command.
pub proof fn a_line_runs_its_command(app: AppView, line: Seq<char>, now: MomentView)
    requires
        trimmed(line).len() > 0,
    ensures
        ({
            let (after, outcome) = app.line_entered(line, now);
            let command = command_of(trimmed(line));
            &&& command == Command::Stop && app.bridge_active ==> outcome.stop_bridge
                && after.status == "Stopping"@
            &&& command == Command::Refresh && !app.bridge_active && !app.refreshing
                ==> outcome.follow_up is Discover
            &&& command == Command::Start && app.start_readiness() is Ready
                ==> outcome.follow_up is Start
            &&& command == Command::Clear ==> after.log.len() == 0
        }),
{
    let echoed = app.logged("> "@ + trimmed(line), now);
    assert(echoed.start_readiness() == app.start_readiness());
}

proof fn messages_are_logged_in_order(
    app: AppView,
    first: Seq<Seq<char>>,
    second: Seq<Seq<char>>,
    now: MomentView,
)
    ensures
        app.all_logged(first + second, now) == app.all_logged(first, now).all_logged(second, now),
    decreases first.len(),
{
    if first.len() == 0 {
        assert(first + second =~= second);
    } else {
        assert((first + second).drop_first() =~= first.drop_first() + second);
        messages_are_logged_in_order(
            app.logged(first[0], now),
            first.drop_first(),
            second,
            now,
        );
    }
}

proof fn a_message_is_logged_alone(app: AppView, message: Seq<char>, now: MomentView)
    ensures
        app.all_logged(seq![message], now) == app.logged(message, now),
{
    let list = seq![message];
    assert(list.drop_first() =~= Seq::<Seq<char>>::empty());
    assert(app.logged(message, now).all_logged(list.drop_first(), now) == app.logged(message, now));
}

/// The list tells every endpoint that is known, in order, each under the direction that it is known
/// for: those for capture first, behind their number, then those for playback, behind theirs.
pub proof fn the_list_tells_every_endpoint(app: AppView, now: MomentView)
    ensures
        ({
            let line = |kind: Seq<char>, endpoint: EndpointDescriptorView|
                "  ["@ + kind + "] "@ + endpoint.name + " | "@ + endpoint.format + " | "@
                    + endpoint.id;
            let capture = Seq::new(
                app.catalog.capture.len(),
                |i: int| line("capture"@, app.catalog.capture[i]),
            );
            let playback = Seq::new(
                app.catalog.render.len(),
                |i: int| line("playback"@, app.catalog.render[i]),
            );
            app.list_told(now) == app.all_logged(
                seq!["Capture endpoints ("@ + digits(app.catalog.capture.len()) + "):"@] + capture
                    + seq!["Playback endpoints ("@ + digits(app.catalog.render.len()) + "):"@]
                    + playback,
                now,
            )
        }),
{
    let line = |kind: Seq<char>, endpoint: EndpointDescriptorView|
        "  ["@ + kind + "] "@ + endpoint.name + " | "@ + endpoint.format + " | "@ + endpoint.id;
    let capture = Seq::new(
        app.catalog.capture.len(),
        |i: int| line("capture"@, app.catalog.capture[i]),
    );
    let playback = Seq::new(
        app.catalog.render.len(),
        |i: int| line("playback"@, app.catalog.render[i]),
    );
    let first = "Capture endpoints ("@ + digits(app.catalog.capture.len()) + "):"@;
    let second = "Playback endpoints ("@ + digits(app.catalog.render.len()) + "):"@;
    assert(capture =~= list_lines("capture"@, app.catalog.capture));
    assert(playback =~= list_lines("playback"@, app.catalog.render));
    a_message_is_logged_alone(app, first, now);
    messages_are_logged_in_order(app, seq![first], capture, now);
    let told = app.all_logged(seq![first] + capture, now);
    a_message_is_logged_alone(told, second, now);
    messages_are_logged_in_order(app, seq![first] + capture, seq![second], now);
    messages_are_logged_in_order(app, seq![first] + capture + seq![second], playback, now);
}

/// The status is told as it is: the status itself, whether the program is registered for sign-in,
/// whether the bridge starts by itself, and the route.
pub proof fn the_status_is_told_as_it_is(app: AppView, now: MomentView)
    ensures
        ({
            let registration = match app.login_startup_status {
                None => "unknown"@,
                Some(LoginStartupStatusView::Disabled) => "not registered"@,
                Some(LoginStartupStatusView::Current) => "registered"@,
                Some(LoginStartupStatusView::Stale { .. }) => "needs repair"@,
            };
            let unattended = if app.settings.auto_start_bridge {
                "enabled"@
            } else {
                "disabled"@
            };
            app.status_told(now) == app.logged("Status: "@ + app.status + "."@, now).logged(
                "Windows sign-in startup: "@ + registration + "; automatic bridge start: "@
                    + unattended + "."@,
                now,
            ).logged(app.settings.route_line(), now)
        }),
{
}

} // verus!
