//! How the control panel is opened: by hand or at sign-in, and only once at a time.

use crate::gui::GuiLaunchOptions;
use crate::text::same_text;
use vstd::prelude::*;

verus! {

/// Whether the program is registered to be opened at sign-in.
#[derive(Debug)]
pub enum LoginStartupStatus {
    Disabled,
    Current,
    /// Registered, but with another command than the present one.
    Stale { registered_command: String },
}

/// A registration with its text by characters.
pub enum LoginStartupStatusView {
    Disabled,
    Current,
    Stale { registered_command: Seq<char> },
}

impl View for LoginStartupStatus {
    type V = LoginStartupStatusView;

    open spec fn view(&self) -> LoginStartupStatusView {
        match self {
            LoginStartupStatus::Disabled => LoginStartupStatusView::Disabled,
            LoginStartupStatus::Current => LoginStartupStatusView::Current,
            LoginStartupStatus::Stale { registered_command } => LoginStartupStatusView::Stale {
                registered_command: registered_command@,
            },
        }
    }
}

impl DeepView for LoginStartupStatus {
    type V = LoginStartupStatusView;

    open spec fn deep_view(&self) -> LoginStartupStatusView {
        self@
    }
}

/// What a registration for sign-in comes to.
pub open spec fn status_of(
    registered: Option<Seq<char>>,
    wanted: Seq<char>,
) -> LoginStartupStatusView {
    match registered {
        None => LoginStartupStatusView::Disabled,
        Some(command) => if command == wanted {
            LoginStartupStatusView::Current
        } else {
            LoginStartupStatusView::Stale { registered_command: command }
        },
    }
}

/// What a registration for sign-in comes to: none, the command that is wanted, or another.
pub fn registration_status(registered: Option<String>, wanted: &str) -> (status: LoginStartupStatus)
    ensures
        status@ == match registered.deep_view() {
            None => LoginStartupStatusView::Disabled,
            Some(command) => if command == wanted@ {
                LoginStartupStatusView::Current
            } else {
                LoginStartupStatusView::Stale { registered_command: command }
            },
        },
        status@ == status_of(registered.deep_view(), wanted@),
{
    match registered {
        None => LoginStartupStatus::Disabled,
        Some(command) => {
            if same_text(command.as_str(), wanted) {
                LoginStartupStatus::Current
            } else {
                LoginStartupStatus::Stale { registered_command: command }
            }
        },
    }
}

/// Whether the program was opened at sign-in: its only argument is the one that the registration
/// passes.
pub fn opened_at_login(arguments: &Vec<String>, login_argument: &str) -> (at_login: bool)
    ensures
        at_login == (arguments.deep_view() == seq![login_argument@]),
{
    if arguments.len() != 1 {
        assert(arguments.deep_view().len() != 1);
        return false;
    }
    assert(arguments.deep_view() =~= seq![arguments@[0]@]);
    assert(arguments.deep_view()[0] == arguments@[0]@);
    assert(seq![login_argument@][0] == login_argument@);
    same_text(arguments[0].as_str(), login_argument)
}

/// What opening the program comes to.
#[derive(Clone, Copy, Debug, PartialEq, Eq, Structural)]
pub enum Launch {
    /// The control panel opens.
    Open(GuiLaunchOptions),
    /// The user is told that it is open already.
    TellAlreadyRunning,
    /// Nothing: it is open already, and nobody asked for it.
    Quit,
}

/// What opening the program comes to.
pub open spec fn launch_of(only_instance: bool, login_startup: bool) -> Launch {
    if only_instance {
        Launch::Open(GuiLaunchOptions { login_startup })
    } else if login_startup {
        Launch::Quit
    } else {
        Launch::TellAlreadyRunning
    }
}

/// Decides what opening the program comes to. A second copy opened at sign-in goes quietly.
pub fn launch(only_instance: bool, login_startup: bool) -> (launch: Launch)
    ensures
        launch == if only_instance {
            Launch::Open(GuiLaunchOptions { login_startup })
        } else if login_startup {
            Launch::Quit
        } else {
            Launch::TellAlreadyRunning
        },
        launch == launch_of(only_instance, login_startup),
{
    if only_instance {
        Launch::Open(GuiLaunchOptions { login_startup })
    } else if login_startup {
        Launch::Quit
    } else {
        Launch::TellAlreadyRunning
    }
}

/// A registration counts only where it holds the very command that is wanted; another one is shown
/// as it stands.
pub proof fn only_the_wanted_command_counts(registered: Option<Seq<char>>, wanted: Seq<char>)
    ensures
        status_of(registered, wanted) is Current <==> registered == Some(wanted),
        status_of(registered, wanted) is Disabled <==> registered is None,
        status_of(registered, wanted) matches LoginStartupStatusView::Stale { registered_command }
            ==> registered == Some(registered_command) && registered_command != wanted,
{
}

/// The control panel opens only once, and knows how it was opened; a second copy speaks up only
/// where the user opened it.
pub proof fn the_panel_opens_only_once(only_instance: bool, login_startup: bool)
    ensures
        launch_of(only_instance, login_startup) is Open <==> only_instance,
        launch_of(only_instance, login_startup) matches Launch::Open(options)
            ==> options.login_startup == login_startup,
        launch_of(only_instance, login_startup) is TellAlreadyRunning <==> !only_instance
            && !login_startup,
{
}

} // verus!
