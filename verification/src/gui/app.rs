//! The state of the control panel, and how it opens, hides and comes back.

use crate::clock::{Moment, MomentView};
use crate::devices::{EndpointCatalog, EndpointCatalogView};
use crate::gui::log::{extended, DebugLog, DEBUG_LOG_LIMIT};
use crate::gui::login::{LoginAutoStartState, LoginView};
use crate::gui::settings::{PersistedSettings, SettingsView};
use crate::gui::window::{
    login_startup_window_action, login_window_action, visibility_action, window_visibility_action,
    LoginStartupWindowAction, WindowVisibilityAction,
};
use crate::gui::GuiLaunchOptions;
use crate::startup::{LoginStartupStatus, LoginStartupStatusView};
use crate::tray::TrayAction;
use crate::{RunArgs, RunArgsView};
use vstd::prelude::*;

verus! {

/// Who starts the bridge.
#[derive(Clone, Copy, Debug, PartialEq, Eq, Structural)]
pub enum StartOrigin {
    Manual,
    Login,
}

/// Who wants the icon in the notification area.
#[derive(Clone, Copy, Debug, PartialEq, Eq, Structural)]
pub enum TrayEnableOrigin {
    SavedPreference,
    User,
}

/// What is to be done outside after a turn.
#[derive(Debug)]
pub enum FollowUp {
    Nothing,
    /// Discovery of the endpoints is started in the background.
    Discover,
    /// A bridge is started in the background.
    Start { args: RunArgs, origin: StartOrigin },
}

/// What is to be done outside, with texts by characters.
pub enum FollowUpView {
    Nothing,
    Discover,
    Start { args: RunArgsView, origin: StartOrigin },
}

impl View for FollowUp {
    type V = FollowUpView;

    open spec fn view(&self) -> FollowUpView {
        match self {
            FollowUp::Nothing => FollowUpView::Nothing,
            FollowUp::Discover => FollowUpView::Discover,
            FollowUp::Start { args, origin } => FollowUpView::Start { args: args@, origin: *origin },
        }
    }
}

/// What a turn asks for: whether the active bridge is told to stop, and what follows.
#[derive(Debug)]
pub struct Outcome {
    pub stop_bridge: bool,
    pub follow_up: FollowUp,
}

/// What a turn asks for, with texts by characters.
pub struct OutcomeView {
    pub stop_bridge: bool,
    pub follow_up: FollowUpView,
}

impl View for Outcome {
    type V = OutcomeView;

    open spec fn view(&self) -> OutcomeView {
        OutcomeView { stop_bridge: self.stop_bridge, follow_up: self.follow_up@ }
    }
}

/// What is to be done with the icon in the notification area.
#[derive(Clone, Copy, Debug, PartialEq, Eq, Structural)]
pub enum TrayRequest {
    Keep,
    Create,
    Remove,
}

/// The state of the control panel.
#[derive(Debug)]
pub struct AecBridgeApp {
    pub settings: PersistedSettings,
    pub catalog: EndpointCatalog,
    /// Whether discovery of the endpoints is under way.
    pub refreshing: bool,
    /// Whether a bridge is open, starting or stopping.
    pub bridge_active: bool,
    pub status: String,
    pub error: Option<String>,
    pub metrics: Option<String>,
    pub started_streams: Vec<String>,
    pub bypass: bool,
    pub mute_output: bool,
    pub launch_options: GuiLaunchOptions,
    pub login_auto_start: LoginAutoStartState,
    /// Whether the window is to come back.
    pub restore_window: bool,
    pub window_hidden_to_tray: bool,
    pub last_window_minimized: bool,
    pub quit_requested: bool,
    /// Whether the icon is in the notification area.
    pub tray_available: bool,
    pub tray_error: Option<String>,
    /// Whether the program is opened at sign-in, where that is known.
    pub login_startup_status: Option<LoginStartupStatus>,
    pub startup_error: Option<String>,
    pub startup_notice: Option<String>,
    /// What stands in the command field.
    pub diagnostic_command: String,
    pub debug_log: DebugLog,
}

/// The state of the control panel with its texts by characters.
pub struct AppView {
    pub settings: SettingsView,
    pub catalog: EndpointCatalogView,
    pub refreshing: bool,
    pub bridge_active: bool,
    pub status: Seq<char>,
    pub error: Option<Seq<char>>,
    pub metrics: Option<Seq<char>>,
    pub started_streams: Seq<Seq<char>>,
    pub bypass: bool,
    pub mute_output: bool,
    pub launch_options: GuiLaunchOptions,
    pub login_auto_start: LoginView,
    pub restore_window: bool,
    pub window_hidden_to_tray: bool,
    pub last_window_minimized: bool,
    pub quit_requested: bool,
    pub tray_available: bool,
    pub tray_error: Option<Seq<char>>,
    pub login_startup_status: Option<LoginStartupStatusView>,
    pub startup_error: Option<Seq<char>>,
    pub startup_notice: Option<Seq<char>>,
    pub diagnostic_command: Seq<char>,
    pub log: Seq<Seq<char>>,
}

impl View for AecBridgeApp {
    type V = AppView;

    open spec fn view(&self) -> AppView {
        AppView {
            settings: self.settings@,
            catalog: self.catalog@,
            refreshing: self.refreshing,
            bridge_active: self.bridge_active,
            status: self.status@,
            error: self.error.deep_view(),
            metrics: self.metrics.deep_view(),
            started_streams: self.started_streams.deep_view(),
            bypass: self.bypass,
            mute_output: self.mute_output,
            launch_options: self.launch_options,
            login_auto_start: self.login_auto_start@,
            restore_window: self.restore_window,
            window_hidden_to_tray: self.window_hidden_to_tray,
            last_window_minimized: self.last_window_minimized,
            quit_requested: self.quit_requested,
            tray_available: self.tray_available,
            tray_error: self.tray_error.deep_view(),
            login_startup_status: self.login_startup_status.deep_view(),
            startup_error: self.startup_error.deep_view(),
            startup_notice: self.startup_notice.deep_view(),
            diagnostic_command: self.diagnostic_command@,
            log: self.debug_log@,
        }
    }
}

impl AppView {
    /// What holds of every state: the log keeps to its limit, and a hidden window has a way back,
    /// through the icon or because it is coming back already.
    pub open spec fn in_order(self) -> bool {
        &&& self.log.len() <= DEBUG_LOG_LIMIT
        &&& self.window_hidden_to_tray ==> self.tray_available || self.restore_window
    }

    /// Whether the bridge, where it starts by itself, plays into an output that the user confirmed.
    pub open spec fn unattended_start_is_approved(self) -> bool {
        self.settings.auto_start_bridge ==> self.settings.handoff_approved()
    }

    /// The state after a message was logged.
    pub open spec fn logged(self, message: Seq<char>, now: MomentView) -> AppView {
        AppView { log: extended(self.log, message, now), ..self }
    }

    /// Whether the bridge is to start by itself in this session.
    pub open spec fn should_auto_start(self) -> bool {
        self.launch_options.login_startup && self.settings.auto_start_bridge
    }

    /// The state before anything happened.
    pub open spec fn blank(
        settings: SettingsView,
        status: Option<LoginStartupStatusView>,
        error: Option<Seq<char>>,
        options: GuiLaunchOptions,
        now: MomentView,
    ) -> AppView {
        AppView {
            settings,
            catalog: EndpointCatalogView::empty(),
            refreshing: false,
            bridge_active: false,
            status: "Idle"@,
            error: None,
            metrics: None,
            started_streams: Seq::empty(),
            bypass: false,
            mute_output: false,
            launch_options: options,
            login_auto_start: if options.login_startup && settings.auto_start_bridge {
                LoginView::begun(now.nanos)
            } else {
                LoginView::Inactive
            },
            restore_window: false,
            window_hidden_to_tray: false,
            last_window_minimized: false,
            quit_requested: false,
            tray_available: false,
            tray_error: None,
            login_startup_status: status,
            startup_error: error,
            startup_notice: None,
            diagnostic_command: Seq::empty(),
            log: Seq::empty(),
        }
    }

    /// The state of a control panel that was just opened.
    pub open spec fn opened(
        settings: SettingsView,
        startup: Result<LoginStartupStatusView, Seq<char>>,
        options: GuiLaunchOptions,
        now: MomentView,
    ) -> AppView {
        let greeting = if options.login_startup {
            "AEC Bridge opened by Windows sign-in startup."@
        } else {
            "AEC Bridge opened."@
        };
        match startup {
            Ok(status) => AppView::blank(settings, Some(status), None, options, now).logged(
                greeting,
                now,
            ),
            Err(error) => {
                let message = "Could not read Windows startup registration: "@ + error;
                AppView::blank(settings, None, Some(message), options, now).logged(
                    greeting,
                    now,
                ).logged("ERROR: "@ + message, now)
            },
        }
    }

    /// The state after the start by itself was given up because of the settings.
    pub open spec fn start_refused(self, problem: Seq<char>, now: MomentView) -> AppView {
        let message = "Automatic start is unavailable: "@ + problem;
        AppView {
            status: "Automatic start unavailable"@,
            error: Some(message),
            login_auto_start: LoginView::Failed(message),
            ..self.logged("ERROR: "@ + message, now)
        }
    }

    /// The state after it was announced that the bridge starts by itself.
    pub open spec fn start_announced(self, now: MomentView) -> AppView {
        (AppView { status: "Waiting for saved audio devices"@, ..self }).logged(
            "Automatic start armed; waiting for the exact saved audio endpoints."@,
            now,
        )
    }

    /// The state once an opened control panel has its icon and its first discovery, and where the
    /// window goes: the start by itself is announced or, with settings that do not let it, given
    /// up.
    pub open spec fn launched(self, now: MomentView) -> (AppView, Option<LoginStartupWindowAction>) {
        if !self.should_auto_start() {
            (self, None)
        } else {
            match self.settings.configuration_problem() {
                Some(problem) => (self.start_refused(problem, now), None),
                None => {
                    let action = login_window_action(self.tray_available);
                    if action == LoginStartupWindowAction::HideToTray {
                        (
                            self.start_announced(now).hidden(
                                "Windows sign-in startup is continuing in the notification area."@,
                                now,
                            ),
                            Some(action),
                        )
                    } else {
                        (self.start_announced(now), Some(action))
                    }
                },
            }
        }
    }

    /// The state after the window was hidden, where it can be.
    pub open spec fn hidden(self, message: Seq<char>, now: MomentView) -> AppView {
        if !self.tray_available || self.window_hidden_to_tray {
            self
        } else {
            (AppView { window_hidden_to_tray: true, ..self }).logged(message, now)
        }
    }

    /// The state after the window came back.
    pub open spec fn restored(self) -> AppView {
        AppView { window_hidden_to_tray: false, restore_window: false, ..self }
    }

    /// The state without the icon. A hidden window comes back.
    pub open spec fn tray_given_up(self) -> AppView {
        AppView {
            restore_window: self.restore_window || self.window_hidden_to_tray,
            settings: SettingsView { minimize_to_tray: false, ..self.settings },
            tray_available: false,
            ..self
        }
    }

    /// The state after the icon was asked for: one that is there already is used.
    pub open spec fn tray_asked(self) -> AppView {
        AppView {
            tray_error: None,
            settings: SettingsView {
                minimize_to_tray: self.settings.minimize_to_tray || self.tray_available,
                ..self.settings
            },
            ..self
        }
    }

    /// The state after the icon was given up.
    pub open spec fn tray_dropped(self, now: MomentView) -> AppView {
        let without = (AppView { tray_error: None, ..self }).tray_given_up();
        if self.tray_available {
            without.logged("Notification-area mode disabled."@, now)
        } else {
            without
        }
    }

    /// The state after the icon was asked for or given up.
    pub open spec fn tray_set(self, enabled: bool, now: MomentView) -> AppView {
        if enabled {
            self.tray_asked()
        } else {
            self.tray_dropped(now)
        }
    }

    /// What is to be done about the icon once it was asked for or given up.
    pub open spec fn tray_request(self, enabled: bool) -> TrayRequest {
        if enabled && !self.tray_available {
            TrayRequest::Create
        } else if !enabled && self.tray_available {
            TrayRequest::Remove
        } else {
            TrayRequest::Keep
        }
    }

    /// Whether something is under way that the window shows as it goes on.
    pub open spec fn busy(self) -> bool {
        self.bridge_active || self.refreshing || self.login_auto_start is Waiting
    }

    /// The state after the icon was made.
    pub open spec fn tray_made(self, now: MomentView) -> AppView {
        (AppView {
            tray_available: true,
            settings: SettingsView { minimize_to_tray: true, ..self.settings },
            ..self
        }).logged("Notification-area mode enabled."@, now)
    }

    /// The state after the icon could not be made. A preference that was stored stays.
    pub open spec fn tray_refused(
        self,
        origin: TrayEnableOrigin,
        error: Seq<char>,
        now: MomentView,
    ) -> AppView {
        let preserve = origin == TrayEnableOrigin::SavedPreference;
        let fallback = if preserve {
            "This session will minimize to the taskbar; the saved preference was kept so the app can try again next launch."@
        } else {
            "The window will continue to minimize to the taskbar."@
        };
        let message = "Could not enable notification-area mode: "@ + error + ". "@ + fallback;
        (AppView {
            settings: SettingsView { minimize_to_tray: preserve, ..self.settings },
            tray_error: Some(message),
            ..self
        }).logged("ERROR: "@ + message, now)
    }

    /// The state after what the icon asked for: the window comes back, or everything ends. To quit
    /// wins over everything, and nothing is asked of a program that quits already.
    pub open spec fn asked(self, actions: Seq<TrayAction>, now: MomentView) -> AppView {
        if self.quit_requested {
            self
        } else if actions.contains(TrayAction::Quit) {
            (AppView { quit_requested: true, restore_window: false, ..self }).logged(
                "Quit requested from the notification-area menu."@,
                now,
            )
        } else {
            AppView {
                restore_window: self.restore_window || actions.contains(TrayAction::Open),
                ..self
            }
        }
    }

    /// What is done to the window in a frame.
    pub open spec fn window_action(self, quitting: bool, minimized: bool) -> WindowVisibilityAction {
        visibility_action(
            quitting,
            self.restore_window,
            self.settings.minimize_to_tray,
            self.tray_available,
            self.window_hidden_to_tray,
            minimized,
            self.last_window_minimized,
        )
    }

    /// The state after the window was seen to in a frame.
    pub open spec fn window_seen_to(
        self,
        quitting: bool,
        minimized: bool,
        now: MomentView,
    ) -> AppView {
        let acted = match self.window_action(quitting, minimized) {
            WindowVisibilityAction::Restore => self.restored(),
            WindowVisibilityAction::HideToTray => self.hidden(
                "Window minimized to the notification area; audio processing continues."@,
                now,
            ),
            WindowVisibilityAction::Stay => self,
        };
        AppView { last_window_minimized: minimized, ..acted }
    }
}

impl AecBridgeApp {
    /// Opens the control panel with the settings that were stored and what is known of the
    /// registration for sign-in.
    pub fn new(
        settings: PersistedSettings,
        startup: Result<LoginStartupStatus, String>,
        launch_options: GuiLaunchOptions,
        now: &Moment,
    ) -> (app: AecBridgeApp)
        requires
            now@.in_range(),
        ensures
            app@ == AppView::opened(
                settings@,
                match startup {
                    Ok(status) => Ok(status@),
                    Err(error) => Err(error@),
                },
                launch_options,
                now@,
            ),
            app@.in_order(),
    {
        let login_auto_start = if launch_options.login_startup && settings.auto_start_bridge {
            LoginAutoStartState::waiting(now.nanos)
        } else {
            LoginAutoStartState::Inactive
        };
        let (login_startup_status, startup_error) = match startup {
            Ok(status) => (Some(status), None),
            Err(error) => {
                let mut message = "Could not read Windows startup registration: ".to_owned();
                message.append(error.as_str());
                (None, Some(message))
            },
        };
        let mut app = AecBridgeApp {
            settings,
            catalog: EndpointCatalog::default(),
            refreshing: false,
            bridge_active: false,
            status: "Idle".to_owned(),
            error: None,
            metrics: None,
            started_streams: Vec::new(),
            bypass: false,
            mute_output: false,
            launch_options,
            login_auto_start,
            restore_window: false,
            window_hidden_to_tray: false,
            last_window_minimized: false,
            quit_requested: false,
            tray_available: false,
            tray_error: None,
            login_startup_status,
            startup_error,
            startup_notice: None,
            diagnostic_command: String::new(),
            debug_log: DebugLog::new(),
        };
        assert(app.started_streams.deep_view() =~= Seq::<Seq<char>>::empty());
        assert(app@ == AppView::blank(
            settings@,
            login_startup_status.deep_view(),
            startup_error.deep_view(),
            launch_options,
            now@,
        ));
        if launch_options.login_startup {
            app.push_log("AEC Bridge opened by Windows sign-in startup.", now);
        } else {
            app.push_log("AEC Bridge opened.", now);
        }
        let failure = match &app.startup_error {
            Some(error) => {
                let mut line = "ERROR: ".to_owned();
                line.append(error.as_str());
                Some(line)
            },
            None => None,
        };
        if let Some(line) = failure {
            app.push_log(line.as_str(), now);
        }
        app
    }

    /// Ends the opening: arms the start by itself where it is wanted, and says where the window
    /// goes meanwhile.
    pub fn finish_launch(&mut self, now: &Moment) -> (action: Option<LoginStartupWindowAction>)
        ensures
            (final(self)@, action) == old(self)@.launched(now@),
            old(self)@.in_order() ==> final(self)@.in_order(),
    {
        if !(self.launch_options.login_startup && self.settings.auto_start_bridge) {
            return None;
        }
        match self.settings.automatic_start_configuration_problem() {
            Some(problem) => {
                self.refuse_login_auto_start(problem.as_str(), now);
                None
            },
            None => {
                self.announce_login_auto_start(now);
                let action = login_startup_window_action(self.tray_available);
                if action == LoginStartupWindowAction::HideToTray {
                    let _hides = self.hide_window_to_tray(
                        "Windows sign-in startup is continuing in the notification area.",
                        now,
                    );
                }
                Some(action)
            },
        }
    }

    fn refuse_login_auto_start(&mut self, problem: &str, now: &Moment)
        ensures
            final(self)@ == old(self)@.start_refused(problem@, now@),
            old(self)@.in_order() ==> final(self)@.in_order(),
    {
        let mut message = "Automatic start is unavailable: ".to_owned();
        message.append(problem);
        let mut line = "ERROR: ".to_owned();
        line.append(message.as_str());
        self.push_log(line.as_str(), now);
        self.status = "Automatic start unavailable".to_owned();
        self.error = Some(message.clone());
        self.login_auto_start = LoginAutoStartState::Failed(message);
    }

    fn announce_login_auto_start(&mut self, now: &Moment)
        ensures
            final(self)@ == old(self)@.start_announced(now@),
            old(self)@.in_order() ==> final(self)@.in_order(),
    {
        self.status = "Waiting for saved audio devices".to_owned();
        self.push_log("Automatic start armed; waiting for the exact saved audio endpoints.", now);
    }

    /// Logs a message.
    pub fn push_log(&mut self, message: &str, now: &Moment)
        ensures
            final(self)@ == old(self)@.logged(message@, now@),
            old(self)@.in_order() ==> final(self)@.in_order(),
    {
        self.debug_log.push(message, now);
    }

    /// Asks for the icon in the notification area or gives it up, and says what is to be done
    /// about it.
    pub fn set_tray_enabled(&mut self, enabled: bool, now: &Moment) -> (request: TrayRequest)
        ensures
            final(self)@ == old(self)@.tray_set(enabled, now@),
            request == old(self)@.tray_request(enabled),
            request == if enabled && !old(self)@.tray_available {
                TrayRequest::Create
            } else if !enabled && old(self)@.tray_available {
                TrayRequest::Remove
            } else {
                TrayRequest::Keep
            },
            old(self)@.in_order() ==> final(self)@.in_order(),
    {
        let available = self.tray_available;
        if enabled {
            self.ask_for_tray();
            if available {
                TrayRequest::Keep
            } else {
                TrayRequest::Create
            }
        } else {
            self.drop_tray(now);
            if available {
                TrayRequest::Remove
            } else {
                TrayRequest::Keep
            }
        }
    }

    fn ask_for_tray(&mut self)
        ensures
            final(self)@ == old(self)@.tray_asked(),
            old(self)@.in_order() ==> final(self)@.in_order(),
    {
        self.tray_error = None;
        self.settings.minimize_to_tray = self.settings.minimize_to_tray || self.tray_available;
    }

    fn drop_tray(&mut self, now: &Moment)
        ensures
            final(self)@ == old(self)@.tray_dropped(now@),
            old(self)@.in_order() ==> final(self)@.in_order(),
    {
        let available = self.tray_available;
        self.give_tray_up();
        if available {
            self.push_log("Notification-area mode disabled.", now);
        }
    }

    fn give_tray_up(&mut self)
        ensures
            final(self)@ == (AppView { tray_error: None, ..old(self)@ }).tray_given_up(),
            old(self)@.in_order() ==> final(self)@.in_order(),
    {
        self.tray_error = None;
        self.restore_window = self.restore_window || self.window_hidden_to_tray;
        self.settings.minimize_to_tray = false;
        self.tray_available = false;
    }

    /// Takes in that the icon was made.
    pub fn tray_created(&mut self, now: &Moment)
        ensures
            final(self)@ == old(self)@.tray_made(now@),
            old(self)@.in_order() ==> final(self)@.in_order(),
    {
        self.tray_available = true;
        self.settings.minimize_to_tray = true;
        self.push_log("Notification-area mode enabled.", now);
    }

    /// Takes in that the icon could not be made.
    pub fn tray_failed(&mut self, origin: TrayEnableOrigin, error: &str, now: &Moment)
        ensures
            final(self)@ == old(self)@.tray_refused(origin, error@, now@),
            old(self)@.in_order() ==> final(self)@.in_order(),
    {
        let preserve = origin == TrayEnableOrigin::SavedPreference;
        let mut message = "Could not enable notification-area mode: ".to_owned();
        message.append(error);
        message.append(". ");
        if preserve {
            message.append(
                "This session will minimize to the taskbar; the saved preference was kept so the app can try again next launch.",
            );
        } else {
            message.append("The window will continue to minimize to the taskbar.");
        }
        let mut line = "ERROR: ".to_owned();
        line.append(message.as_str());
        self.settings.minimize_to_tray = preserve;
        self.tray_error = Some(message);
        self.push_log(line.as_str(), now);
    }

    /// Hides the window, where the icon can bring it back. Says whether it is hidden now and was
    /// not before.
    pub fn hide_window_to_tray(&mut self, log_message: &str, now: &Moment) -> (hides: bool)
        ensures
            final(self)@ == old(self)@.hidden(log_message@, now@),
            hides == (old(self)@.tray_available && !old(self)@.window_hidden_to_tray),
            old(self)@.in_order() ==> final(self)@.in_order(),
    {
        if !self.tray_available || self.window_hidden_to_tray {
            return false;
        }
        self.window_hidden_to_tray = true;
        self.push_log(log_message, now);
        true
    }

    /// Takes in that the window came back.
    pub fn restore_main_window(&mut self)
        ensures
            final(self)@ == old(self)@.restored(),
            old(self)@.in_order() ==> final(self)@.in_order(),
    {
        self.window_hidden_to_tray = false;
        self.restore_window = false;
    }

    /// Takes in what the icon asked for, and says whether the program quits, and whether it does
    /// so because of this turn: then the active bridge is told to stop and the window closes.
    pub fn poll_tray_actions(&mut self, actions: &Vec<TrayAction>, now: &Moment) -> (quits: (
        bool,
        bool,
    ))
        requires
            actions@.len() > 0 ==> old(self)@.tray_available,
        ensures
            final(self)@ == old(self)@.asked(actions@, now@),
            quits.0 == (old(self)@.quit_requested || actions@.contains(TrayAction::Quit)),
            quits.1 == (!old(self)@.quit_requested && actions@.contains(TrayAction::Quit)),
            old(self)@.in_order() ==> final(self)@.in_order(),
    {
        if self.quit_requested {
            return (true, false);
        }
        let mut quit = false;
        let mut open = false;
        let mut index: usize = 0;
        while index < actions.len()
            invariant
                index <= actions@.len(),
                quit == actions@.take(index as int).contains(TrayAction::Quit),
                open == actions@.take(index as int).contains(TrayAction::Open),
            decreases actions@.len() - index,
        {
            let ghost seen = actions@.take(index as int);
            assert(actions@.take(index + 1) =~= seen.push(actions@[index as int]));
            assert(seen.push(actions@[index as int]).last() == actions@[index as int]);
            assert forall|action: TrayAction|
                seen.push(actions@[index as int]).contains(action) <==> seen.contains(action)
                    || actions@[index as int] == action by {
                if seen.contains(action) {
                    let at = choose|at: int| 0 <= at < seen.len() && seen[at] == action;
                    assert(seen.push(actions@[index as int])[at] == action);
                }
            }
            match actions[index] {
                TrayAction::Open => {
                    open = true;
                },
                TrayAction::Quit => {
                    quit = true;
                },
            }
            index = index + 1;
        }
        assert(actions@.take(actions@.len() as int) =~= actions@);
        if quit {
            self.quit_requested = true;
            self.restore_window = false;
            self.push_log("Quit requested from the notification-area menu.", now);
        } else if open {
            self.restore_window = true;
        }
        (quit, quit)
    }

    /// Sees to the window in a frame: says what is to be done to it, and takes in that it was.
    pub fn see_to_window(&mut self, quitting: bool, minimized: bool, now: &Moment) -> (action:
        WindowVisibilityAction)
        ensures
            final(self)@ == old(self)@.window_seen_to(quitting, minimized, now@),
            action == old(self)@.window_action(quitting, minimized),
            old(self)@.in_order() ==> final(self)@.in_order(),
    {
        let action = window_visibility_action(
            quitting,
            self.restore_window,
            self.settings.minimize_to_tray,
            self.tray_available,
            self.window_hidden_to_tray,
            minimized,
            self.last_window_minimized,
        );
        match action {
            WindowVisibilityAction::Restore => {
                self.restore_main_window();
            },
            WindowVisibilityAction::HideToTray => {
                let _hides = self.hide_window_to_tray(
                    "Window minimized to the notification area; audio processing continues.",
                    now,
                );
            },
            WindowVisibilityAction::Stay => {},
        }
        self.last_window_minimized = minimized;
        action
    }

    /// Milliseconds until the next frame: few while something is under way.
    pub fn repaint_interval(&self) -> (milliseconds: u64)
        ensures
            milliseconds == if self@.bridge_active || self@.refreshing
                || self@.login_auto_start is Waiting {
                100u64
            } else {
                400u64
            },
            milliseconds == if self@.busy() {
                100u64
            } else {
                400u64
            },
    {
        if self.bridge_active || self.refreshing || self.login_auto_start.is_waiting() {
            100
        } else {
            400
        }
    }
}

} // verus!
