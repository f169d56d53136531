use aec_bridge::tray::{
    icon_rgba, menu_action, status_text, tray_action, MenuEvent, MouseButton, MouseButtonState,
    TrayAction, TrayController, TrayIconEvent,
};

fn menu(id: &str) -> MenuEvent {
    MenuEvent { id: id.to_owned() }
}

#[test]
fn tray_icon_has_valid_rgba_dimensions_and_transparency() {
    let (pixels, width, height) = icon_rgba();
    assert_eq!((width, height), (32, 32));
    assert_eq!(pixels.len(), (width * height * 4) as usize);
    assert_eq!(pixels[3], 0);
    assert!(pixels.chunks_exact(4).any(|pixel| pixel[3] == 255));
}

#[test]
fn menu_ids_map_to_open_and_quit_actions() {
    assert_eq!(menu_action(&menu("open"), "open", "quit"), Some(TrayAction::Open));
    assert_eq!(menu_action(&menu("quit"), "open", "quit"), Some(TrayAction::Quit));
    assert_eq!(menu_action(&menu("other"), "open", "quit"), None);
}

#[test]
fn only_left_clicks_on_our_tray_icon_restore_the_window() {
    let left_click = TrayIconEvent::Click {
        id: "ours".to_owned(),
        button: MouseButton::Left,
        button_state: MouseButtonState::Up,
    };
    let right_click = TrayIconEvent::Click {
        id: "ours".to_owned(),
        button: MouseButton::Right,
        button_state: MouseButtonState::Up,
    };
    let other_icon = TrayIconEvent::DoubleClick {
        id: "other".to_owned(),
        button: MouseButton::Left,
    };
    assert_eq!(tray_action(&left_click, "ours"), Some(TrayAction::Open));
    assert_eq!(tray_action(&right_click, "ours"), None);
    assert_eq!(tray_action(&other_icon, "ours"), None);
}

#[test]
fn presses_and_pointer_moves_ask_for_nothing() {
    let press = TrayIconEvent::Click {
        id: "ours".to_owned(),
        button: MouseButton::Left,
        button_state: MouseButtonState::Down,
    };
    let double = TrayIconEvent::DoubleClick {
        id: "ours".to_owned(),
        button: MouseButton::Left,
    };
    let pointer = TrayIconEvent::Pointer { id: "ours".to_owned() };
    assert_eq!(tray_action(&press, "ours"), None);
    assert_eq!(tray_action(&double, "ours"), Some(TrayAction::Open));
    assert_eq!(tray_action(&pointer, "ours"), None);
}

#[test]
fn icon_follows_the_disc_and_the_bars() {
    let bars: [(f32, f32); 5] = [(8.0, 7.0), (12.0, 13.0), (16.0, 19.0), (20.0, 13.0), (24.0, 7.0)];
    let (pixels, _, _) = icon_rgba();
    for y in 0..32u32 {
        for x in 0..32u32 {
            let px = x as f32 + 0.5;
            let py = y as f32 + 0.5;
            let distance = ((px - 15.5).powi(2) + (py - 15.5).powi(2)).sqrt();
            let alpha = ((14.5 + 0.75 - distance) * 255.0).clamp(0.0, 255.0) as u8;
            let wave = bars.iter().any(|(center, height)| {
                (px - center).abs() <= 1.25 && (py - 15.5).abs() <= height / 2.0
            });
            let expected = if wave && alpha > 0 {
                [246, 250, 255, 255]
            } else {
                [40, 143, 235, alpha]
            };
            let at = ((y * 32 + x) * 4) as usize;
            assert_eq!(&pixels[at..at + 4], &expected, "pixel {} {}", x, y);
        }
    }
}

#[test]
fn status_changes_are_shown_once() {
    let mut tray = TrayController::create("icon", "Idle");
    assert_eq!(tray.open_id, "aec-bridge.tray.open");
    assert_eq!(tray.quit_id, "aec-bridge.tray.quit");
    assert_eq!(status_text("Idle"), "Status: Idle");
    assert_eq!(tray.set_status("Idle"), None);
    assert_eq!(tray.set_status("Running"), Some("Status: Running".to_owned()));
    assert_eq!(tray.set_status("Running"), None);
    assert_eq!(tray.last_status, "Running");
}

#[test]
fn menu_choices_come_before_icon_events() {
    let tray = TrayController::create("icon", "Idle");
    let menus = vec![menu("else"), menu("aec-bridge.tray.quit"), menu("aec-bridge.tray.open")];
    let events = vec![
        TrayIconEvent::Pointer { id: "icon".to_owned() },
        TrayIconEvent::DoubleClick { id: "icon".to_owned(), button: MouseButton::Left },
        TrayIconEvent::DoubleClick { id: "other".to_owned(), button: MouseButton::Left },
    ];
    assert_eq!(
        tray.poll_actions(&menus, &events),
        vec![TrayAction::Quit, TrayAction::Open, TrayAction::Open]
    );
    assert_eq!(tray.poll_actions(&vec![], &vec![]), vec![]);
}
