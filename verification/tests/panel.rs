use aec_bridge::bridge::BridgeEvent;
use aec_bridge::clock::Moment;
use aec_bridge::devices::{EndpointCatalog, EndpointDescriptor};
use aec_bridge::gui::app::{
    AecBridgeApp, FollowUp, StartOrigin, TrayEnableOrigin, TrayRequest,
};
use aec_bridge::gui::background::DiscoveryReport;
use aec_bridge::gui::cards::{
    choice_text, entry_text, is_chosen, method_help, reference_field, theme_label, StartupControl,
    Tone,
};
use aec_bridge::gui::controls::Slot;
use aec_bridge::gui::login::LoginAutoStartState;
use aec_bridge::gui::settings::{PersistedSettings, SavedEndpoint};
use aec_bridge::gui::window::{LoginStartupWindowAction, WindowVisibilityAction};
use aec_bridge::gui::GuiLaunchOptions;
use aec_bridge::startup::LoginStartupStatus;
use aec_bridge::tray::TrayAction;
use aec_bridge::ReferenceMode;

const SECOND: u64 = 1_000_000_000;

fn at(seconds: u64) -> Moment {
    Moment {
        nanos: seconds * SECOND,
        seconds: format!("{seconds}.000"),
    }
}

fn saved(id: &str) -> Option<SavedEndpoint> {
    Some(SavedEndpoint {
        id: id.to_owned(),
        last_name: format!("the {id}"),
    })
}

fn descriptor(id: &str) -> EndpointDescriptor {
    EndpointDescriptor {
        id: id.to_owned(),
        name: format!("the {id}"),
        format: "fine".to_owned(),
        compatible: true,
    }
}

fn catalog() -> EndpointCatalog {
    EndpointCatalog {
        capture: vec![descriptor("mic")],
        render: vec![descriptor("phones"), descriptor("cable")],
    }
}

fn route() -> PersistedSettings {
    let mut settings = PersistedSettings::default();
    settings.microphone = saved("mic");
    settings.reference = saved("phones");
    settings.handoff_render = saved("cable");
    settings.approved_handoff_id = Some("cable".to_owned());
    settings
}

fn open(settings: PersistedSettings, login_startup: bool) -> AecBridgeApp {
    AecBridgeApp::new(
        settings,
        Ok(LoginStartupStatus::Current),
        GuiLaunchOptions { login_startup },
        &at(0),
    )
}

fn lines(app: &AecBridgeApp) -> Vec<String> {
    app.debug_log.lines.iter().cloned().collect()
}

fn last_line(app: &AecBridgeApp) -> String {
    lines(app).last().cloned().unwrap_or_default()
}

/// A panel that waits for its saved devices after a sign-in.
fn unattended() -> AecBridgeApp {
    let mut settings = route();
    settings.auto_start_bridge = true;
    let mut app = open(settings, true);
    assert!(matches!(app.request_refresh(&at(0)), FollowUp::Discover));
    app.refresh_spawned();
    assert_eq!(
        app.finish_launch(&at(0)),
        Some(LoginStartupWindowAction::MinimizeToTaskbar)
    );
    app
}

/// A panel whose bridge is starting by itself.
fn starting() -> AecBridgeApp {
    let mut app = unattended();
    let outcome = app.poll_background_work(
        Some(DiscoveryReport::Found(catalog())),
        &vec![],
        Ok(false),
        &at(1),
    );
    match outcome.follow_up {
        FollowUp::Start { args, origin } => {
            assert_eq!(origin, StartOrigin::Login);
            assert_eq!(args.endpoints.mic, "mic");
            assert_eq!(args.endpoints.reference, "phones");
            assert_eq!(args.endpoints.output, "cable");
            assert_eq!(args.capture_delay_ms, 20);
        }
        other => panic!("unexpected follow-up: {:?}", other),
    }
    app.bridge_spawned();
    app
}

#[test]
fn opening_is_logged() {
    let app = open(PersistedSettings::default(), false);
    assert_eq!(lines(&app), vec!["[+   0.000s] AEC Bridge opened.".to_owned()]);
    assert_eq!(app.status, "Idle");
    let app = AecBridgeApp::new(
        PersistedSettings::default(),
        Err("denied".to_owned()),
        GuiLaunchOptions { login_startup: true },
        &at(12),
    );
    assert_eq!(
        lines(&app),
        vec![
            "[+  12.000s] AEC Bridge opened by Windows sign-in startup.".to_owned(),
            "[+  12.000s] ERROR: Could not read Windows startup registration: denied".to_owned(),
        ]
    );
    assert_eq!(
        app.startup_error.as_deref(),
        Some("Could not read Windows startup registration: denied")
    );
}

#[test]
fn the_log_keeps_the_newest_lines() {
    let mut app = open(PersistedSettings::default(), false);
    for number in 0..600 {
        app.push_log(&format!("line {number}"), &at(1));
    }
    assert_eq!(app.debug_log.len(), 500);
    assert_eq!(lines(&app)[0], "[+   1.000s] line 100");
    assert_eq!(last_line(&app), "[+   1.000s] line 599");
    assert_eq!(app.log_counter(), "Rolling log  \u{b7}  500 / 500 lines");
    app.clear_log();
    assert_eq!(app.log_counter(), "Rolling log  \u{b7}  0 / 500 lines");
    app.push_log("one", &at(2));
    app.push_log("two", &at(2));
    assert_eq!(app.debug_log.copy_text(), "[+   2.000s] one\n[+   2.000s] two");
}

#[test]
fn an_unattended_start_uses_the_saved_endpoints() {
    let app = starting();
    assert_eq!(app.status, "Starting");
    assert!(matches!(app.login_auto_start, LoginAutoStartState::Starting { attempt: 0, .. }));
    assert_eq!(
        last_line(&app),
        "[+   1.000s] Start requested: mic='the mic', reference='the phones' (playback loopback), handoff='the cable'."
    );
}

#[test]
fn an_unattended_start_completes() {
    let mut app = starting();
    let events = vec![
        BridgeEvent::Starting,
        BridgeEvent::StreamStarted { label: "reference", buffer_frames: 480 },
        BridgeEvent::Running,
    ];
    let outcome = app.poll_background_work(None, &events, Ok(false), &at(2));
    assert!(!outcome.stop_bridge);
    assert_eq!(app.status, "Running");
    assert_eq!(app.started_streams, vec!["reference: 480-frame shared buffer".to_owned()]);
    assert!(matches!(app.login_auto_start, LoginAutoStartState::Complete));
    assert!(app.bridge_active);
    assert_eq!(app.startup_control(), StartupControl::Nothing);
    let outcome = app.poll_background_work(
        None,
        &vec![BridgeEvent::Stopped("done".to_owned())],
        Ok(true),
        &at(3),
    );
    assert!(matches!(outcome.follow_up, FollowUp::Nothing));
    assert!(!app.bridge_active);
    assert_eq!(app.status, "Stopped cleanly");
    assert_eq!(app.metrics.as_deref(), Some("done"));
    assert!(matches!(app.login_auto_start, LoginAutoStartState::Cancelled));
    assert_eq!(app.startup_control(), StartupControl::Retry);
}

#[test]
fn missing_devices_are_looked_for_again() {
    let mut app = unattended();
    let mut few = catalog();
    few.render.pop();
    let outcome =
        app.poll_background_work(Some(DiscoveryReport::Found(few)), &vec![], Ok(false), &at(0));
    assert!(matches!(outcome.follow_up, FollowUp::Nothing));
    assert_eq!(app.status, "Waiting for saved audio devices");
    assert_eq!(
        last_line(&app),
        "[+   0.000s] Automatic start is waiting: Virtual cable output 'the cable' is not currently available."
    );
    let outcome = app.poll_background_work(None, &vec![], Ok(false), &at(1));
    assert!(matches!(outcome.follow_up, FollowUp::Discover));
    match &app.login_auto_start {
        LoginAutoStartState::Waiting { deadline, next_retry, attempt, last_issue } => {
            assert_eq!(*deadline, 90 * SECOND);
            assert_eq!(*next_retry, 2 * SECOND);
            assert_eq!(*attempt, 1);
            assert!(last_issue.is_some());
        }
        other => panic!("unexpected state: {:?}", other),
    }
    assert_eq!(
        lines(&app)[lines(&app).len() - 2],
        "[+   1.000s] Retrying endpoint discovery for automatic start (attempt 1)."
    );
    assert_eq!(app.repaint_interval(), 100);
}

#[test]
fn waiting_ends_at_the_deadline() {
    let mut app = unattended();
    app.window_hidden_to_tray = true;
    app.tray_available = true;
    let outcome = app.poll_background_work(None, &vec![], Ok(false), &at(90));
    assert!(!outcome.stop_bridge);
    assert_eq!(app.status, "Automatic start paused");
    let message = "Automatic start paused because the saved devices did not become ready Refresh the devices and retry when the audio stack is ready.";
    assert_eq!(app.error.as_deref(), Some(message));
    assert!(app.restore_window);
    assert!(!app.refreshing);
    assert_eq!(app.startup_control(), StartupControl::Retry);
    let outcome = app.poll_background_work(
        Some(DiscoveryReport::Found(catalog())),
        &vec![],
        Ok(false),
        &at(91),
    );
    assert!(matches!(outcome.follow_up, FollowUp::Nothing));
    assert_eq!(app.catalog.capture.len(), 0);
}

#[test]
fn failed_discovery_keeps_an_unattended_start_waiting() {
    let mut app = unattended();
    app.poll_background_work(Some(DiscoveryReport::Disconnected), &vec![], Ok(false), &at(0));
    assert!(app.login_auto_start.is_waiting());
    assert!(app.error.is_none());
    assert_eq!(
        lines(&app)[lines(&app).len() - 2],
        "[+   0.000s] ERROR: Device refresh failed: endpoint discovery stopped before returning a result"
    );
    let mut app = open(route(), false);
    app.refresh_spawned();
    app.window_hidden_to_tray = true;
    app.tray_available = true;
    app.poll_background_work(Some(DiscoveryReport::Failed("x".to_owned())), &vec![], Ok(false), &at(0));
    assert_eq!(app.status, "Device refresh failed");
    assert_eq!(app.error.as_deref(), Some("Device refresh failed: x"));
    assert!(app.restore_window);
}

#[test]
fn a_failed_stream_start_is_repeated() {
    let mut app = starting();
    let failed = vec![BridgeEvent::Failed("busy".to_owned())];
    let outcome = app.poll_background_work(None, &failed, Ok(true), &at(2));
    assert!(matches!(outcome.follow_up, FollowUp::Nothing));
    assert!(app.error.is_none());
    assert_eq!(app.status, "Waiting for saved audio devices");
    match &app.login_auto_start {
        LoginAutoStartState::Waiting { deadline, next_retry, attempt, .. } => {
            assert_eq!(*deadline, 90 * SECOND);
            assert_eq!(*next_retry, 3 * SECOND);
            assert_eq!(*attempt, 1);
        }
        other => panic!("unexpected state: {:?}", other),
    }
    assert!(lines(&app).contains(
        &"[+   2.000s] Automatic stream startup failed; retrying in 1 second(s).".to_owned()
    ));

    let mut late = starting();
    let outcome = late.poll_background_work(None, &failed, Ok(false), &at(90));
    assert!(!outcome.stop_bridge);
    assert_eq!(
        late.error.as_deref(),
        Some("Automatic start timed out after an audio stream failed to open: busy")
    );
}

#[test]
fn a_late_start_does_not_stand() {
    let mut app = starting();
    let outcome = app.poll_background_work(None, &vec![BridgeEvent::Running], Ok(false), &at(91));
    assert!(outcome.stop_bridge);
    assert_eq!(
        app.error.as_deref(),
        Some("Automatic start reported ready after its 90-second deadline; a stop was requested.")
    );
    assert_eq!(app.startup_control(), StartupControl::AwaitEnd);
    let outcome = app.poll_background_work(None, &vec![BridgeEvent::Running], Ok(false), &at(92));
    assert!(outcome.stop_bridge);
    assert_eq!(app.status, "Automatic start paused");

    let mut slow = starting();
    let outcome = slow.poll_background_work(None, &vec![], Ok(false), &at(90));
    assert!(outcome.stop_bridge);
    assert_eq!(
        slow.error.as_deref(),
        Some("Automatic start exceeded 90 seconds while opening audio streams; a stop was requested.")
    );
}

#[test]
fn a_cancelled_start_stays_cancelled() {
    let mut app = starting();
    assert!(app.cancel_login_auto_start("a test", &at(2)));
    assert_eq!(app.status, "Cancelling automatic start");
    assert_eq!(last_line(&app), "[+   2.000s] Automatic start cancelled: a test.");
    let outcome = app.poll_background_work(None, &vec![BridgeEvent::Running], Ok(false), &at(3));
    assert!(outcome.stop_bridge);
    assert_eq!(app.status, "Cancelling automatic start");
    app.poll_background_work(None, &vec![BridgeEvent::Stopped("s".to_owned())], Ok(true), &at(4));
    assert!(matches!(app.login_auto_start, LoginAutoStartState::Cancelled));
    assert!(!app.cancel_login_auto_start("again", &at(5)));

    let mut waiting = unattended();
    assert!(!waiting.cancel_login_auto_start("a test", &at(1)));
    assert_eq!(waiting.status, "Idle");
}

#[test]
fn a_lost_bridge_brings_the_window_back() {
    let mut app = starting();
    app.poll_background_work(None, &vec![BridgeEvent::Running], Ok(false), &at(2));
    app.poll_background_work(None, &vec![], Err("fell over".to_owned()), &at(3));
    assert!(!app.bridge_active);
    assert_eq!(app.status, "Failed");
    assert_eq!(app.error.as_deref(), Some("fell over"));
    assert!(app.restore_window);
    assert_eq!(last_line(&app), "[+   3.000s] ERROR: Bridge worker failed: fell over");
    assert!(matches!(&app.login_auto_start, LoginAutoStartState::Failed(text) if text == "fell over"));
}

#[test]
fn an_unusable_route_refuses_the_unattended_start() {
    let mut settings = route();
    settings.auto_start_bridge = true;
    settings.approved_handoff_id = None;
    let mut app = open(settings, true);
    assert_eq!(app.finish_launch(&at(0)), None);
    assert_eq!(app.status, "Automatic start unavailable");
    assert_eq!(
        app.error.as_deref(),
        Some("Automatic start is unavailable: Confirm that the selected handoff is a virtual cable before enabling automatic start.")
    );
    assert!(matches!(app.arm_login_auto_start(&at(1)), FollowUp::Nothing));
    assert_eq!(app.status, "Automatic start paused");
    app.settings.approved_handoff_id = Some("cable".to_owned());
    assert!(matches!(app.arm_login_auto_start(&at(2)), FollowUp::Discover));
    assert!(app.login_auto_start.is_waiting());
    assert!(app.error.is_none());
}

#[test]
fn a_manual_start_needs_a_ready_route() {
    let mut app = open(route(), false);
    let outcome = app.start_bridge(StartOrigin::Manual, &at(1));
    assert!(matches!(outcome.follow_up, FollowUp::Nothing));
    assert_eq!(
        app.error.as_deref(),
        Some("Raw microphone 'the mic' is not currently available.")
    );
    app.catalog = catalog();
    assert_eq!(app.start_problem(), None);
    let outcome = app.start_bridge(StartOrigin::Manual, &at(2));
    assert!(matches!(outcome.follow_up, FollowUp::Start { origin: StartOrigin::Manual, .. }));
    app.bridge_spawn_failed(StartOrigin::Manual, "no threads", &at(3));
    assert_eq!(app.status, "Failed");
    assert_eq!(app.error.as_deref(), Some("Could not start AEC Bridge: no threads"));
    app.bridge_spawned();
    assert_eq!(app.start_problem(), Some("The bridge is already active.".to_owned()));
    app.bridge_active = false;
    app.refreshing = true;
    assert_eq!(
        app.start_problem(),
        Some("Waiting for device discovery to finish.".to_owned())
    );
}

#[test]
fn a_refused_unattended_start_is_repeated() {
    let mut app = unattended();
    app.poll_background_work(
        Some(DiscoveryReport::Found(catalog())),
        &vec![],
        Ok(false),
        &at(1),
    );
    app.bridge_spawn_failed(StartOrigin::Login, "no threads", &at(1));
    assert!(app.login_auto_start.is_waiting());
    assert_eq!(app.status, "Waiting for saved audio devices");
}

#[test]
fn the_icon_can_be_asked_for_and_given_up() {
    let mut app = open(PersistedSettings::default(), false);
    assert_eq!(app.set_tray_enabled(true, &at(0)), TrayRequest::Create);
    app.tray_created(&at(0));
    assert!(app.settings.minimize_to_tray);
    assert_eq!(app.set_tray_enabled(true, &at(0)), TrayRequest::Keep);
    assert_eq!(
        app.see_to_window(false, true, &at(1)),
        WindowVisibilityAction::HideToTray
    );
    assert!(app.window_hidden_to_tray);
    assert_eq!(app.set_tray_enabled(false, &at(2)), TrayRequest::Remove);
    assert!(!app.settings.minimize_to_tray);
    assert!(app.restore_window);
    assert_eq!(app.see_to_window(false, true, &at(3)), WindowVisibilityAction::Restore);
    assert!(!app.window_hidden_to_tray);
    assert!(!app.restore_window);

    app.tray_failed(TrayEnableOrigin::SavedPreference, "no shell", &at(4));
    assert!(app.settings.minimize_to_tray);
    assert!(app.tray_retry_offered());
    assert_eq!(
        app.tray_error.as_deref(),
        Some("Could not enable notification-area mode: no shell. This session will minimize to the taskbar; the saved preference was kept so the app can try again next launch.")
    );
    app.tray_failed(TrayEnableOrigin::User, "no shell", &at(5));
    assert!(!app.settings.minimize_to_tray);
    assert_eq!(
        app.tray_error.as_deref(),
        Some("Could not enable notification-area mode: no shell. The window will continue to minimize to the taskbar.")
    );
}

#[test]
fn quitting_wins() {
    let mut app = open(PersistedSettings::default(), false);
    app.tray_created(&at(0));
    assert_eq!(app.poll_tray_actions(&vec![], &at(1)), (false, false));
    assert_eq!(app.poll_tray_actions(&vec![TrayAction::Open], &at(1)), (false, false));
    assert!(app.restore_window);
    let both = vec![TrayAction::Open, TrayAction::Quit];
    assert_eq!(app.poll_tray_actions(&both, &at(2)), (true, true));
    assert!(!app.restore_window);
    assert_eq!(last_line(&app), "[+   2.000s] Quit requested from the notification-area menu.");
    assert_eq!(app.poll_tray_actions(&both, &at(3)), (true, false));
    assert_eq!(app.see_to_window(true, true, &at(3)), WindowVisibilityAction::Stay);
}

#[test]
fn an_unattended_start_hides_behind_the_icon() {
    let mut settings = route();
    settings.auto_start_bridge = true;
    let mut app = open(settings, true);
    app.tray_created(&at(0));
    assert_eq!(app.finish_launch(&at(0)), Some(LoginStartupWindowAction::HideToTray));
    assert!(app.window_hidden_to_tray);
    assert_eq!(
        last_line(&app),
        "[+   0.000s] Windows sign-in startup is continuing in the notification area."
    );
}

#[test]
fn the_console_knows_its_commands() {
    let mut app = open(route(), false);
    app.catalog = catalog();
    app.clear_log();
    app.execute_diagnostic_command("   ", &at(1));
    assert_eq!(app.debug_log.len(), 0);
    app.execute_diagnostic_command(" HeLP\t", &at(1));
    assert_eq!(
        lines(&app),
        vec![
            "[+   1.000s] > HeLP".to_owned(),
            "[+   1.000s] Commands: help, list, check, status, refresh, start, stop, clear.".to_owned(),
            "[+   1.000s] This console runs built-in AEC Bridge actions only; it is not a system shell.".to_owned(),
        ]
    );
    app.execute_diagnostic_command("Clear", &at(1));
    assert_eq!(app.debug_log.len(), 0);
    app.execute_diagnostic_command("list", &at(1));
    assert_eq!(
        lines(&app)[1..],
        vec![
            "[+   1.000s] Capture endpoints (1):".to_owned(),
            "[+   1.000s]   [capture] the mic | fine | mic".to_owned(),
            "[+   1.000s] Playback endpoints (2):".to_owned(),
            "[+   1.000s]   [playback] the phones | fine | phones".to_owned(),
            "[+   1.000s]   [playback] the cable | fine | cable".to_owned(),
        ]
    );
    app.execute_diagnostic_command("check", &at(2));
    assert_eq!(
        last_line(&app),
        "[+   2.000s] Configuration check passed; the bridge is ready to start."
    );
    app.clear_log();
    app.execute_diagnostic_command("status", &at(3));
    assert_eq!(
        lines(&app)[1..],
        vec![
            "[+   3.000s] Status: Idle.".to_owned(),
            "[+   3.000s] Windows sign-in startup: registered; automatic bridge start: disabled.".to_owned(),
            "[+   3.000s] Route: 'the mic' + 'the phones' (playback loopback) -> 'the cable' -> '<not selected>'.".to_owned(),
        ]
    );
    app.execute_diagnostic_command("rm -rf", &at(4));
    assert_eq!(
        last_line(&app),
        "[+   4.000s] Unknown command 'rm -rf'. Type 'help' for the built-in command list."
    );
}

#[test]
fn the_console_starts_and_stops() {
    let mut app = open(route(), false);
    assert!(matches!(
        app.execute_diagnostic_command("refresh", &at(1)).follow_up,
        FollowUp::Discover
    ));
    app.execute_diagnostic_command("stop", &at(1));
    assert_eq!(last_line(&app), "[+   1.000s] Stop ignored: the bridge is not running.");
    app.execute_diagnostic_command("check", &at(1));
    assert_eq!(
        last_line(&app),
        "[+   1.000s] Configuration check failed: Raw microphone 'the mic' is not currently available."
    );
    app.catalog = catalog();
    app.diagnostic_command = "start".to_owned();
    let outcome = app.run_entered_command(&at(2));
    assert!(matches!(outcome.follow_up, FollowUp::Start { .. }));
    assert_eq!(app.diagnostic_command, "");
    app.bridge_spawned();
    app.execute_diagnostic_command("start", &at(3));
    assert_eq!(last_line(&app), "[+   3.000s] Start ignored: the bridge is already active.");
    app.execute_diagnostic_command("refresh", &at(3));
    assert_eq!(
        last_line(&app),
        "[+   3.000s] Refresh blocked while the bridge is active; stop it first."
    );
    assert!(app.execute_diagnostic_command("STOP", &at(4)).stop_bridge);
    assert_eq!(app.status, "Stopping");
    assert_eq!(app.stop_button(), ("Stopping...", false));
}

#[test]
fn another_output_loses_its_confirmation() {
    let mut app = open(route(), false);
    assert!(app.auto_start_available());
    assert!(!app.set_auto_start(true, &at(1)));
    assert_eq!(
        last_line(&app),
        "[+   1.000s] Automatic bridge start enabled for future Windows sign-ins."
    );
    app.choose_endpoint(Slot::Handoff, Some(&descriptor("cable")), &at(2));
    assert!(app.settings.auto_start_bridge);
    app.choose_endpoint(Slot::Handoff, Some(&descriptor("speakers")), &at(2));
    assert!(!app.settings.auto_start_bridge);
    assert!(app.settings.approved_handoff_id.is_none());
    assert!(!app.auto_start_available());
    app.confirm_handoff(true, &at(3));
    assert_eq!(app.settings.approved_handoff_id.as_deref(), Some("speakers"));
    assert_eq!(
        app.settings.approved_output().as_deref(),
        Some("Approved automatic output: the speakers")
    );
    app.settings.auto_start_bridge = true;
    app.confirm_handoff(false, &at(4));
    assert!(!app.settings.auto_start_bridge);
    assert!(app.settings.approved_output().is_none());
}

#[test]
fn choices_call_an_unattended_start_off() {
    let mut app = unattended();
    assert!(!app.choose_endpoint(Slot::Microphone, None, &at(1)));
    assert!(matches!(app.login_auto_start, LoginAutoStartState::Cancelled));
    assert_eq!(
        last_line(&app),
        "[+   1.000s] Automatic start cancelled: the microphone selection changed."
    );
    let mut app = unattended();
    app.choose_endpoint(Slot::Downstream, Some(&descriptor("return")), &at(1));
    assert!(app.login_auto_start.is_waiting());
    assert_eq!(
        app.settings.cable_pairing().as_deref(),
        Some("The bridge writes to 'the cable'. Select 'the return' as the microphone in your downstream app.")
    );
    app.choose_endpoint(Slot::Reference, None, &at(1));
    assert!(!app.login_auto_start.is_waiting());
    let mut app = unattended();
    app.choose_reference_mode(ReferenceMode::Loopback, &at(1));
    assert!(app.login_auto_start.is_waiting());
    app.choose_reference_mode(ReferenceMode::Capture, &at(1));
    assert!(app.settings.reference.is_none());
    assert!(!app.login_auto_start.is_waiting());
    let mut app = unattended();
    app.set_auto_start(false, &at(1));
    assert_eq!(last_line(&app), "[+   1.000s] Automatic bridge start disabled.");
    assert!(!app.settings.auto_start_bridge);
}

#[test]
fn the_registration_follows_what_came_of_it() {
    let mut app = open(route(), false);
    app.settings.auto_start_bridge = true;
    app.login_startup_changed(false, Ok(()), &at(1));
    assert!(!app.login_startup_registered());
    assert!(!app.settings.auto_start_bridge);
    assert_eq!(app.startup_notice.as_deref(), Some("Windows sign-in startup is disabled."));
    app.login_startup_changed(true, Err("denied".to_owned()), &at(2));
    assert_eq!(
        app.startup_error.as_deref(),
        Some("Could not enable Windows sign-in startup: denied")
    );
    assert!(app.startup_notice.is_none());
    app.login_startup_changed(false, Err("denied".to_owned()), &at(2));
    assert_eq!(
        app.startup_error.as_deref(),
        Some("Could not disable Windows sign-in startup: denied")
    );
    app.login_startup_changed(true, Ok(()), &at(3));
    assert!(app.login_startup_is_current());
    assert!(app.startup_error.is_none());
    app.login_startup_status = Some(LoginStartupStatus::Stale {
        registered_command: "old.exe".to_owned(),
    });
    assert!(app.login_startup_registered());
    assert!(!app.login_startup_is_current());
    assert_eq!(
        app.stale_command().as_deref(),
        Some("Windows is registered to open a different copy or command: old.exe")
    );
}

#[test]
fn cards_show_the_state() {
    let mut app = open(route(), false);
    let badge = app.header_badge();
    assert_eq!((badge.text.as_str(), badge.tone), ("Idle", Tone::Muted));
    app.status = "Starting: 1/3 audio streams ready".to_owned();
    assert_eq!(app.header_badge().tone, Tone::Warning);
    assert_eq!(app.session_heading(), ("Session activity", true));
    app.error = Some("x".to_owned());
    assert_eq!(app.header_badge().text, "Needs attention");
    app.status = "Running".to_owned();
    assert_eq!(app.header_badge().tone, Tone::Success);
    assert_eq!(app.session_heading(), ("Live session", false));
    assert!(!app.session_shown());
    app.metrics = Some("m".to_owned());
    assert!(app.session_shown());
    assert_eq!(app.toggle_theme(), false);
    assert_eq!(theme_label(false), "Dark theme");
    assert_eq!(theme_label(true), "Light theme");
    assert_eq!(app.stop_button(), ("Stop bridge", true));
    assert!(app.refresh_enabled());
    assert_eq!(app.repaint_interval(), 400);
    assert_eq!(
        app.action_note().text,
        "Raw microphone 'the mic' is not currently available."
    );
    app.catalog = catalog();
    assert_eq!(
        app.action_note().text,
        "Configuration ready. Start the bridge when you are ready."
    );
    app.bridge_active = true;
    let note = app.action_note();
    assert_eq!((note.text.as_str(), note.tone), ("Running", Tone::Success));
}

#[test]
fn the_startup_card_tells_how_far_it_came() {
    let mut app = unattended();
    let callout = app.runtime_status(&at(30)).unwrap();
    assert_eq!(callout.title, "Waiting for saved audio devices");
    assert_eq!(
        callout.detail,
        "Checking the exact saved microphone, reference, and virtual output. Retrying for up to 60 more seconds."
    );
    assert_eq!(callout.tone, Tone::Accent);
    assert!(app.runtime_status(&at(99)).unwrap().detail.contains("up to 0 more"));
    assert_eq!(app.startup_control(), StartupControl::Cancel);
    assert!(app.auto_start_note().is_none());
    app.settings.approved_handoff_id = None;
    assert_eq!(app.auto_start_note().unwrap().tone, Tone::Warning);
    app.login_startup_status = None;
    assert_eq!(
        app.auto_start_note().unwrap().text,
        "Enable or repair Windows sign-in startup before enabling automatic bridge start."
    );
    app.login_auto_start = LoginAutoStartState::Inactive;
    assert!(app.runtime_status(&at(1)).is_none());
    app.login_auto_start = LoginAutoStartState::Failed("because".to_owned());
    let callout = app.runtime_status(&at(1)).unwrap();
    assert_eq!((callout.title, callout.detail.as_str()), ("Automatic start paused", "because"));
}

#[test]
fn the_reference_is_chosen_from_the_list_of_its_method() {
    let mut app = open(route(), false);
    app.catalog = catalog();
    let ids = |app: &AecBridgeApp| -> Vec<String> {
        app.reference_choices().iter().map(|endpoint| endpoint.id.clone()).collect()
    };
    assert_eq!(ids(&app), vec!["phones".to_owned(), "cable".to_owned()]);
    app.choose_reference_mode(ReferenceMode::Capture, &at(1));
    assert_eq!(ids(&app), vec!["mic".to_owned()]);
}

#[test]
fn choices_are_shown() {
    let list = [descriptor("mic")];
    assert_eq!(choice_text(&None, &list), "Not selected");
    assert_eq!(choice_text(&saved("mic"), &list), "the mic");
    assert_eq!(choice_text(&saved("lost"), &list), "Missing: the lost");
    let mut odd = descriptor("odd");
    odd.compatible = false;
    assert_eq!(entry_text(&odd, false), "the odd  |  fine  [unsupported]");
    assert_eq!(entry_text(&odd, true), "the odd  |  fine");
    assert!(is_chosen(&saved("odd"), &odd));
    assert!(!is_chosen(&saved("mic"), &odd));
    assert!(!is_chosen(&None, &odd));
    assert_eq!(reference_field(ReferenceMode::Loopback).0, "Headphones or speaker output");
    assert_eq!(reference_field(ReferenceMode::Capture).0, "Recording device or virtual mix");
    assert!(method_help(ReferenceMode::Loopback).starts_with("Best when"));
    assert!(method_help(ReferenceMode::Capture).starts_with("Choose a recording source"));
    let (reference, cleaning, output) = route().signal_path();
    assert_eq!(reference, "Listen to 'the phones' through Windows playback loopback.");
    assert_eq!(cleaning, "Clean 'the mic' using the reference audio.");
    assert_eq!(
        output,
        "Send the cleaned microphone to 'the cable', paired with 'Downstream cable input'."
    );
}
