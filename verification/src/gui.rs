//! The control panel: its settings, its state, and everything it decides.

pub mod app;
pub mod autostart;
pub mod background;
pub mod cards;
pub mod console;
pub mod controls;
pub mod effects;
pub mod laws;
pub mod log;
pub mod login;
pub mod promises;
pub mod readiness;
pub mod settings;
pub mod window;

use vstd::prelude::*;

verus! {

/// How the control panel was opened.
#[derive(Clone, Copy, Debug, PartialEq, Eq, Structural)]
pub struct GuiLaunchOptions {
    /// Whether by the sign-in to the system.
    pub login_startup: bool,
}

impl Default for GuiLaunchOptions {
    fn default() -> (options: Self)
        ensures
            !options.login_startup,
    {
        GuiLaunchOptions { login_startup: false }
    }
}

} // verus!
