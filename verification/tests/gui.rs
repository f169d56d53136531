use aec_bridge::devices::EndpointDescriptor;
use aec_bridge::gui::login::{login_retry_delay, login_retry_seconds, LoginAutoStartState};
use aec_bridge::gui::readiness::{endpoint_position, endpoint_readiness, StartReadiness};
use aec_bridge::gui::settings::{
    keeping, saved_endpoint_name, settings_change_requires_flush, Keeping, PersistedSettings,
    SavedEndpoint,
};
use aec_bridge::gui::window::{
    login_startup_window_action, restore_after_fatal_bridge_error, window_visibility_action,
    LoginStartupWindowAction, WindowVisibilityAction,
};
use aec_bridge::gui::GuiLaunchOptions;
use aec_bridge::startup::{
    launch, opened_at_login, registration_status, Launch, LoginStartupStatus,
};
use aec_bridge::ReferenceMode;
use std::time::Duration;

fn endpoint(id: &str, compatible: bool) -> EndpointDescriptor {
    EndpointDescriptor {
        id: id.to_owned(),
        name: "Test endpoint".to_owned(),
        format: "48 kHz f32 stereo".to_owned(),
        compatible,
    }
}

fn saved(id: &str) -> SavedEndpoint {
    SavedEndpoint {
        id: id.to_owned(),
        last_name: "Saved endpoint".to_owned(),
    }
}

#[test]
fn exact_ready_endpoint_is_accepted() {
    assert_eq!(
        endpoint_readiness(
            "Reference",
            Some(&saved("exact")),
            &[endpoint("exact", true)],
            true
        ),
        StartReadiness::Ready
    );
}

#[test]
fn missing_saved_endpoint_is_retryable_without_fallback() {
    let readiness = endpoint_readiness(
        "Reference",
        Some(&saved("missing")),
        &[endpoint("different", true)],
        true,
    );
    assert!(
        matches!(readiness, StartReadiness::Waiting(message) if message.contains("not currently available"))
    );
}

#[test]
fn incompatible_exact_endpoint_is_terminal() {
    let readiness = endpoint_readiness(
        "Reference",
        Some(&saved("exact")),
        &[endpoint("exact", false)],
        true,
    );
    assert!(
        matches!(readiness, StartReadiness::Blocked(message) if message.contains("not compatible"))
    );
}

#[test]
fn temporarily_unavailable_format_is_retryable() {
    let mut pending = endpoint("exact", false);
    pending.format = "unavailable: device is initializing".to_owned();
    let readiness = endpoint_readiness("Reference", Some(&saved("exact")), &[pending], true);
    assert!(
        matches!(readiness, StartReadiness::Waiting(message) if message.contains("not ready yet"))
    );
}

#[test]
fn login_retry_backoff_caps_at_five_seconds() {
    assert_eq!(login_retry_delay(1), Duration::from_secs(1));
    assert_eq!(login_retry_delay(2), Duration::from_secs(2));
    assert_eq!(login_retry_delay(3), Duration::from_secs(4));
    assert_eq!(login_retry_delay(4), Duration::from_secs(5));
    assert_eq!(login_retry_delay(20), Duration::from_secs(5));
}

#[test]
fn unattended_route_and_approval_changes_require_immediate_flush() {
    let mut previous = PersistedSettings::default();
    let mut current = previous.clone();
    current.approved_handoff_id = Some("cable".to_owned());
    assert!(settings_change_requires_flush(&previous, &current));

    previous = current.clone();
    current.auto_start_bridge = true;
    assert!(settings_change_requires_flush(&previous, &current));

    previous = current.clone();
    current.microphone = Some(saved("new-microphone"));
    assert!(settings_change_requires_flush(&previous, &current));

    let previous = PersistedSettings::default();
    let mut current = previous.clone();
    current.minimize_to_tray = true;
    assert!(settings_change_requires_flush(&previous, &current));
}

#[test]
fn cosmetic_change_without_unattended_start_can_wait_for_normal_save() {
    let previous = PersistedSettings::default();
    let mut current = previous.clone();
    current.dark_mode = !current.dark_mode;
    assert!(!settings_change_requires_flush(&previous, &current));
}

#[test]
fn notification_area_mode_is_opt_in() {
    let settings = PersistedSettings::default();
    assert!(!settings.minimize_to_tray);
    assert_eq!(
        window_visibility_action(
            false,
            false,
            settings.minimize_to_tray,
            true,
            false,
            true,
            false,
        ),
        WindowVisibilityAction::Stay
    );
}

#[test]
fn newly_minimized_window_hides_only_with_a_working_tray() {
    assert_eq!(
        window_visibility_action(false, false, true, true, false, true, false),
        WindowVisibilityAction::HideToTray
    );
    assert_eq!(
        window_visibility_action(false, false, true, false, false, true, false),
        WindowVisibilityAction::Stay
    );
}

#[test]
fn restore_wins_over_stale_minimized_state() {
    assert_eq!(
        window_visibility_action(false, true, true, true, true, true, true),
        WindowVisibilityAction::Restore
    );
    assert_eq!(
        window_visibility_action(true, true, true, true, true, true, true),
        WindowVisibilityAction::Stay
    );
}

#[test]
fn login_start_uses_tray_only_when_it_is_available() {
    assert_eq!(
        login_startup_window_action(true),
        LoginStartupWindowAction::HideToTray
    );
    assert_eq!(
        login_startup_window_action(false),
        LoginStartupWindowAction::MinimizeToTaskbar
    );
}

#[test]
fn fatal_bridge_error_restores_a_manually_hidden_window() {
    assert!(restore_after_fatal_bridge_error(false, true));
    assert!(restore_after_fatal_bridge_error(true, false));
    assert!(!restore_after_fatal_bridge_error(false, false));
}

#[test]
fn readiness_texts_are_exact() {
    assert_eq!(
        endpoint_readiness("Raw microphone", None, &[], true),
        StartReadiness::Blocked("Raw microphone is not selected.".to_owned())
    );
    assert_eq!(
        endpoint_readiness("Raw microphone", Some(&saved("x")), &[], true),
        StartReadiness::Waiting(
            "Raw microphone 'Saved endpoint' is not currently available.".to_owned()
        )
    );
    assert_eq!(
        endpoint_readiness("AEC reference", Some(&saved("x")), &[endpoint("x", false)], true),
        StartReadiness::Blocked(
            "AEC reference 'Test endpoint' is not compatible: 48 kHz f32 stereo. This prototype requires 48 kHz f32; handoff render must be stereo.".to_owned()
        )
    );
    assert_eq!(
        endpoint_readiness("AEC reference", Some(&saved("x")), &[endpoint("x", false)], false),
        StartReadiness::Ready
    );
}

#[test]
fn the_first_endpoint_with_an_identifier_counts() {
    let list = [endpoint("a", false), endpoint("b", true), endpoint("b", false)];
    assert_eq!(endpoint_position(&list, &"b".to_owned()), Some(1));
    assert_eq!(endpoint_position(&list, &"B".to_owned()), None);
    assert_eq!(endpoint_position(&[], &"b".to_owned()), None);
}

#[test]
fn first_attempts_wait_a_second() {
    assert_eq!(login_retry_seconds(0), 1);
    assert_eq!(login_retry_seconds(1), 1);
    assert_eq!(login_retry_seconds(255), 5);
    let state = LoginAutoStartState::waiting(7);
    assert!(state.is_waiting());
    assert!(!state.is_completed_start());
    match state {
        LoginAutoStartState::Waiting { deadline, next_retry, attempt, last_issue } => {
            assert_eq!(deadline, 90_000_000_007);
            assert_eq!(next_retry, 1_000_000_007);
            assert_eq!(attempt, 0);
            assert!(last_issue.is_none());
        }
        other => panic!("unexpected state: {:?}", other),
    }
    assert!(LoginAutoStartState::Complete.is_completed_start());
    assert!(LoginAutoStartState::Cancelling.is_completed_start());
    assert!(!LoginAutoStartState::Cancelled.is_completed_start());
}

#[test]
fn default_settings() {
    let settings = PersistedSettings::default();
    assert_eq!(
        settings,
        PersistedSettings {
            microphone: None,
            reference: None,
            reference_mode: ReferenceMode::Loopback,
            handoff_render: None,
            downstream_capture: None,
            capture_delay_ms: 20,
            stream_delay_ms: 0,
            dark_mode: true,
            approved_handoff_id: None,
            auto_start_bridge: false,
            minimize_to_tray: false,
        }
    );
    assert!(!GuiLaunchOptions::default().login_startup);
    assert_eq!(ReferenceMode::default(), ReferenceMode::Loopback);
}

#[test]
fn configuration_problems_come_in_order() {
    let mut settings = PersistedSettings::default();
    let problem = |settings: &PersistedSettings| settings.automatic_start_configuration_problem();
    assert_eq!(problem(&settings), Some("Select a raw microphone first.".to_owned()));
    settings.microphone = Some(saved("m"));
    assert_eq!(problem(&settings), Some("Select an echo reference first.".to_owned()));
    settings.reference = Some(saved("m"));
    assert_eq!(problem(&settings), Some("Select a virtual cable output first.".to_owned()));
    settings.handoff_render = Some(saved("r"));
    assert_eq!(
        problem(&settings),
        Some("The microphone and echo reference must be different devices.".to_owned())
    );
    settings.reference = Some(saved("r"));
    assert_eq!(
        problem(&settings),
        Some("The playback reference and virtual cable output must be different devices.".to_owned())
    );
    settings.reference_mode = ReferenceMode::Capture;
    assert_eq!(
        problem(&settings),
        Some("Confirm that the selected handoff is a virtual cable before enabling automatic start.".to_owned())
    );
    settings.approved_handoff_id = Some("other".to_owned());
    assert!(!settings.handoff_is_approved());
    assert!(problem(&settings).is_some());
    settings.approved_handoff_id = Some("r".to_owned());
    assert!(settings.handoff_is_approved());
    assert_eq!(problem(&settings), None);
}

#[test]
fn a_confirmation_is_for_one_output() {
    let mut settings = PersistedSettings::default();
    settings.handoff_render = Some(saved("cable"));
    settings.approved_handoff_id = Some("cable".to_owned());
    assert!(settings.handoff_is_approved());
    settings.handoff_render = Some(saved("speakers"));
    assert!(!settings.handoff_is_approved());
}

#[test]
fn settings_are_kept_as_they_change() {
    let previous = PersistedSettings::default();
    let mut current = previous.clone();
    assert_eq!(keeping(&previous, &current), Keeping::Nothing);
    current.capture_delay_ms = 21;
    assert_eq!(keeping(&previous, &current), Keeping::Store);
    current.handoff_render = Some(saved("cable"));
    assert_eq!(keeping(&previous, &current), Keeping::StoreAndFlush);
    let mut only_name = current.clone();
    only_name.handoff_render = Some(SavedEndpoint {
        id: "cable".to_owned(),
        last_name: "Renamed".to_owned(),
    });
    assert_eq!(keeping(&current, &only_name), Keeping::StoreAndFlush);
}

#[test]
fn names_have_a_fallback() {
    assert_eq!(saved_endpoint_name(&None, "<missing>"), "<missing>");
    assert_eq!(saved_endpoint_name(&Some(saved("x")), "<missing>"), "Saved endpoint");
    let remembered = SavedEndpoint::from_descriptor(&endpoint("id", true));
    assert_eq!(remembered.id, "id");
    assert_eq!(remembered.last_name, "Test endpoint");
}

#[test]
fn a_second_copy_at_sign_in_goes_quietly() {
    assert_eq!(
        launch(true, true),
        Launch::Open(GuiLaunchOptions { login_startup: true })
    );
    assert_eq!(
        launch(true, false),
        Launch::Open(GuiLaunchOptions { login_startup: false })
    );
    assert_eq!(launch(false, true), Launch::Quit);
    assert_eq!(launch(false, false), Launch::TellAlreadyRunning);
}

#[test]
fn sign_in_is_told_by_the_only_argument() {
    let words = |list: &[&str]| list.iter().map(|word| (*word).to_owned()).collect::<Vec<String>>();
    assert!(opened_at_login(&words(&["--login"]), "--login"));
    assert!(!opened_at_login(&words(&[]), "--login"));
    assert!(!opened_at_login(&words(&["--login", "x"]), "--login"));
    assert!(!opened_at_login(&words(&["--Login"]), "--login"));
}

#[test]
fn a_registration_is_current_or_stale() {
    let status = |registered: Option<&str>| registration_status(registered.map(str::to_owned), "a.exe -l");
    assert!(matches!(status(None), LoginStartupStatus::Disabled));
    assert!(matches!(status(Some("a.exe -l")), LoginStartupStatus::Current));
    assert!(
        matches!(status(Some("b.exe")), LoginStartupStatus::Stale { registered_command } if registered_command == "b.exe")
    );
}
