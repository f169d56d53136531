//! When the window hides, and when it comes back.

use vstd::prelude::*;

verus! {

/// What is done to the window.
#[derive(Clone, Copy, Debug, PartialEq, Eq, Structural)]
pub enum WindowVisibilityAction {
    Stay,
    HideToTray,
    Restore,
}

/// Where the window goes when the bridge starts by itself after a sign-in.
#[derive(Clone, Copy, Debug, PartialEq, Eq, Structural)]
pub enum LoginStartupWindowAction {
    HideToTray,
    MinimizeToTaskbar,
}

/// Where the window goes after a sign-in: without an icon to bring it back it must stay in reach.
pub open spec fn login_window_action(tray_available: bool) -> LoginStartupWindowAction {
    if tray_available {
        LoginStartupWindowAction::HideToTray
    } else {
        LoginStartupWindowAction::MinimizeToTaskbar
    }
}

/// Where the window goes when the bridge starts by itself after a sign-in.
pub fn login_startup_window_action(tray_available: bool) -> (action: LoginStartupWindowAction)
    ensures
        action == login_window_action(tray_available),
{
    if tray_available {
        LoginStartupWindowAction::HideToTray
    } else {
        LoginStartupWindowAction::MinimizeToTaskbar
    }
}

/// Whether the window comes back after the bridge failed: where the bridge had started by itself,
/// or where the window is hidden.
pub fn restore_after_fatal_bridge_error(
    completed_automatic_start: bool,
    hidden_to_tray: bool,
) -> (restore: bool)
    ensures
        restore == (completed_automatic_start || hidden_to_tray),
{
    completed_automatic_start || hidden_to_tray
}

/// What is done to the window: nothing while quitting; else it comes back where that was asked for;
/// else it hides, where the user wants that, when it has just been minimized and an icon can bring
/// it back.
pub open spec fn visibility_action(
    quitting: bool,
    restore_requested: bool,
    minimize_to_tray: bool,
    tray_available: bool,
    hidden_to_tray: bool,
    minimized: bool,
    previously_minimized: bool,
) -> WindowVisibilityAction {
    if quitting {
        WindowVisibilityAction::Stay
    } else if restore_requested {
        WindowVisibilityAction::Restore
    } else if minimize_to_tray && tray_available && !hidden_to_tray && minimized
        && !previously_minimized {
        WindowVisibilityAction::HideToTray
    } else {
        WindowVisibilityAction::Stay
    }
}

/// What is done to the window.
pub fn window_visibility_action(
    quitting: bool,
    restore_requested: bool,
    minimize_to_tray: bool,
    tray_available: bool,
    hidden_to_tray: bool,
    minimized: bool,
    previously_minimized: bool,
) -> (action: WindowVisibilityAction)
    ensures
        action == visibility_action(
            quitting,
            restore_requested,
            minimize_to_tray,
            tray_available,
            hidden_to_tray,
            minimized,
            previously_minimized,
        ),
{
    if quitting {
        WindowVisibilityAction::Stay
    } else if restore_requested {
        WindowVisibilityAction::Restore
    } else if minimize_to_tray && tray_available && !hidden_to_tray && minimized
        && !previously_minimized {
        WindowVisibilityAction::HideToTray
    } else {
        WindowVisibilityAction::Stay
    }
}

/// The window never hides without an icon that can bring it back, nor without the user's wish.
pub proof fn hiding_needs_an_icon_and_a_wish(
    quitting: bool,
    restore_requested: bool,
    minimize_to_tray: bool,
    tray_available: bool,
    hidden_to_tray: bool,
    minimized: bool,
    previously_minimized: bool,
)
    requires
        visibility_action(
            quitting,
            restore_requested,
            minimize_to_tray,
            tray_available,
            hidden_to_tray,
            minimized,
            previously_minimized,
        ) == WindowVisibilityAction::HideToTray,
    ensures
        tray_available,
        minimize_to_tray,
{
}

/// The window hides exactly when it has just been minimized, the user wants that, an icon can bring
/// it back, and neither the end of the program nor its own return is under way; it comes back
/// exactly where that was asked for and the program goes on.
pub proof fn the_window_hides_and_returns_only_as_wanted(
    quitting: bool,
    restore_requested: bool,
    minimize_to_tray: bool,
    tray_available: bool,
    hidden_to_tray: bool,
    minimized: bool,
    previously_minimized: bool,
)
    ensures
        ({
            let action = visibility_action(
                quitting,
                restore_requested,
                minimize_to_tray,
                tray_available,
                hidden_to_tray,
                minimized,
                previously_minimized,
            );
            &&& action == WindowVisibilityAction::Restore <==> restore_requested && !quitting
            &&& action == WindowVisibilityAction::HideToTray <==> minimized && !previously_minimized
                && minimize_to_tray && tray_available && !hidden_to_tray && !restore_requested
                && !quitting
        }),
        login_window_action(tray_available) == LoginStartupWindowAction::HideToTray
            <==> tray_available,
{
}

} // verus!
