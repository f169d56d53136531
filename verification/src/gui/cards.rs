//! What the cards of the control panel show.

use crate::clock::{Moment, MomentView, SECOND};
use crate::devices::{EndpointDescriptor, EndpointDescriptorView};
use crate::gui::app::{AecBridgeApp, AppView};
use crate::gui::log::DEBUG_LOG_LIMIT;
use crate::gui::login::{LoginAutoStartState, LoginView};
use crate::gui::readiness::{endpoint_position, find_endpoint};
use crate::gui::settings::{
    name_or, saved_endpoint_name, PersistedSettings, SavedEndpoint, SavedEndpointView, SettingsView,
};
use crate::startup::{LoginStartupStatus, LoginStartupStatusView};
use crate::text::{begins_with, decimal, digits, same_text, starts_with};
use crate::ReferenceMode;
use vstd::prelude::*;

verus! {

/// What a text is coloured for.
#[derive(Clone, Copy, Debug, PartialEq, Eq, Structural)]
pub enum Tone {
    Accent,
    Success,
    Warning,
    Danger,
    Muted,
}

/// A text and what it is coloured for.
#[derive(Debug)]
pub struct Note {
    pub text: String,
    pub tone: Tone,
}

/// A note with its text by characters.
pub struct NoteView {
    pub text: Seq<char>,
    pub tone: Tone,
}

impl View for Note {
    type V = NoteView;

    open spec fn view(&self) -> NoteView {
        NoteView { text: self.text@, tone: self.tone }
    }
}

/// A title, a text and what they are coloured for.
#[derive(Debug)]
pub struct Callout {
    pub title: &'static str,
    pub detail: String,
    pub tone: Tone,
}

/// A callout with its texts by characters.
pub struct CalloutView {
    pub title: Seq<char>,
    pub detail: Seq<char>,
    pub tone: Tone,
}

impl View for Callout {
    type V = CalloutView;

    open spec fn view(&self) -> CalloutView {
        CalloutView { title: self.title@, detail: self.detail@, tone: self.tone }
    }
}

impl DeepView for Callout {
    type V = CalloutView;

    open spec fn deep_view(&self) -> CalloutView {
        self@
    }
}

/// What the user can do about the start by itself.
#[derive(Clone, Copy, Debug, PartialEq, Eq, Structural)]
pub enum StartupControl {
    Nothing,
    /// Begin it anew.
    Retry,
    /// Wait for the bridge that was told to stop.
    AwaitEnd,
    /// Call it off.
    Cancel,
}

impl AppView {
    /// The badge beside the heading: what is wrong, or else the status.
    pub open spec fn badge(self) -> NoteView {
        if self.error is Some && self.status != "Running"@ {
            NoteView { text: "Needs attention"@, tone: Tone::Danger }
        } else if self.status == "Running"@ {
            NoteView { text: "Running"@, tone: Tone::Success }
        } else if begins_with(self.status, "Starting"@) || begins_with(self.status, "Waiting"@)
            || self.status == "Stopping"@ {
            NoteView { text: self.status, tone: Tone::Warning }
        } else {
            NoteView { text: self.status, tone: Tone::Muted }
        }
    }

    /// What is said of the start by itself, if anything.
    pub open spec fn startup_callout(self, now: MomentView) -> Option<CalloutView> {
        match self.login_auto_start {
            LoginView::Waiting { deadline, last_issue, .. } => {
                let issue = match last_issue {
                    Some(issue) => issue,
                    None => "Checking the exact saved microphone, reference, and virtual output."@,
                };
                let seconds = if deadline > now.nanos {
                    (deadline - now.nanos) / (SECOND as int)
                } else {
                    0
                };
                Some(
                    CalloutView {
                        title: "Waiting for saved audio devices"@,
                        detail: issue + " Retrying for up to "@ + digits(seconds as nat)
                            + " more seconds."@,
                        tone: Tone::Accent,
                    },
                )
            },
            LoginView::Starting { .. } => Some(
                CalloutView {
                    title: "Starting automatically"@,
                    detail: "The saved devices are ready and the audio streams are opening."@,
                    tone: Tone::Warning,
                },
            ),
            LoginView::Cancelling => Some(
                CalloutView {
                    title: "Cancelling automatic start"@,
                    detail: "A stop was requested while the audio streams were opening."@,
                    tone: Tone::Warning,
                },
            ),
            LoginView::Complete => Some(
                CalloutView {
                    title: "Started automatically"@,
                    detail: "The bridge started from the saved route for this Windows sign-in."@,
                    tone: Tone::Success,
                },
            ),
            LoginView::Failed(message) => Some(
                CalloutView {
                    title: "Automatic start paused"@,
                    detail: message,
                    tone: Tone::Danger,
                },
            ),
            LoginView::Cancelled => Some(
                CalloutView {
                    title: "Automatic start cancelled"@,
                    detail: "The bridge will remain stopped for this sign-in unless you start it manually."@,
                    tone: Tone::Muted,
                },
            ),
            LoginView::Inactive => None,
        }
    }

    /// What the user can do about the start by itself.
    pub open spec fn startup_control(self) -> StartupControl {
        match self.login_auto_start {
            LoginView::Failed(message) => if self.should_auto_start() && !self.bridge_active {
                StartupControl::Retry
            } else if self.bridge_active {
                StartupControl::AwaitEnd
            } else {
                StartupControl::Nothing
            },
            LoginView::Cancelled => if self.should_auto_start() && !self.bridge_active {
                StartupControl::Retry
            } else {
                StartupControl::Nothing
            },
            LoginView::Waiting { .. } => StartupControl::Cancel,
            _ => StartupControl::Nothing,
        }
    }

    /// What stands below the switch of the start by itself, if anything: what has to be done
    /// before it can be turned on.
    pub open spec fn auto_start_hint(self) -> Option<NoteView> {
        if !self.registration_current() {
            Some(
                NoteView {
                    text: "Enable or repair Windows sign-in startup before enabling automatic bridge start."@,
                    tone: Tone::Muted,
                },
            )
        } else {
            match self.settings.configuration_problem() {
                Some(problem) => Some(NoteView { text: problem, tone: Tone::Warning }),
                None => None,
            }
        }
    }

    /// What stands below the buttons.
    pub open spec fn action_note(self) -> NoteView {
        if self.bridge_active {
            NoteView {
                text: self.status,
                tone: if self.status == "Running"@ {
                    Tone::Success
                } else {
                    Tone::Muted
                },
            }
        } else {
            match self.start_readiness().problem() {
                Some(problem) => NoteView { text: problem, tone: Tone::Muted },
                None => NoteView {
                    text: "Configuration ready. Start the bridge when you are ready."@,
                    tone: Tone::Success,
                },
            }
        }
    }
}

impl SettingsView {
    /// What is said of the two sides of the cable, where both are chosen.
    pub open spec fn pairing(self) -> Option<Seq<char>> {
        match (self.handoff_render, self.downstream_capture) {
            (Some(output), Some(input)) => Some(
                "The bridge writes to '"@ + output.last_name + "'. Select '"@ + input.last_name
                    + "' as the microphone in your downstream app."@,
            ),
            _ => None,
        }
    }

    /// The line of the confirmed output, where it is confirmed.
    pub open spec fn approved_line(self) -> Option<Seq<char>> {
        if self.handoff_approved() {
            Some("Approved automatic output: "@ + self.handoff_render->0.last_name)
        } else {
            None
        }
    }

    /// The steps of the signal: the reference, the cleaning and the output.
    pub open spec fn path(self) -> (Seq<char>, Seq<char>, Seq<char>) {
        let reference = name_or(self.reference, "Echo reference"@);
        (
            match self.reference_mode {
                ReferenceMode::Loopback => "Listen to '"@ + reference
                    + "' through Windows playback loopback."@,
                ReferenceMode::Capture => "Read '"@ + reference
                    + "' as the recording-device or virtual-mix reference."@,
            },
            "Clean '"@ + name_or(self.microphone, "Raw microphone"@)
                + "' using the reference audio."@,
            "Send the cleaned microphone to '"@ + name_or(
                self.handoff_render,
                "Virtual cable output"@,
            ) + "', paired with '"@ + name_or(self.downstream_capture, "Downstream cable input"@)
                + "'."@,
        )
    }
}

/// What a choice shows: the present name of the endpoint, or that it is missing.
pub open spec fn choice_shown(
    selected: Option<SavedEndpointView>,
    endpoints: Seq<EndpointDescriptorView>,
) -> Seq<char> {
    match selected {
        None => "Not selected"@,
        Some(saved) => match find_endpoint(endpoints, saved.id) {
            Some(endpoint) => endpoint.name,
            None => "Missing: "@ + saved.last_name,
        },
    }
}

/// What a choice shows: the present name of the endpoint, or that it is missing.
pub fn choice_text(selected: &Option<SavedEndpoint>, endpoints: &[EndpointDescriptor]) -> (text:
    String)
    ensures
        text@ == choice_shown(selected.deep_view(), endpoints.deep_view()),
{
    match selected {
        None => "Not selected".to_owned(),
        Some(saved) => match endpoint_position(endpoints, &saved.id) {
            Some(index) => endpoints[index].name.clone(),
            None => {
                let mut text = "Missing: ".to_owned();
                text.append(saved.last_name.as_str());
                text
            },
        },
    }
}

/// The entry of an endpoint among those to choose from. One that does not suit is marked, where
/// that matters.
pub open spec fn entry_shown(endpoint: EndpointDescriptorView, informational: bool) -> Seq<char> {
    let entry = endpoint.name + "  |  "@ + endpoint.format;
    if informational || endpoint.compatible {
        entry
    } else {
        entry + "  [unsupported]"@
    }
}

/// The entry of an endpoint among those to choose from.
pub fn entry_text(endpoint: &EndpointDescriptor, informational: bool) -> (text: String)
    ensures
        text@ == entry_shown(endpoint@, informational),
{
    let mut text = endpoint.name.clone();
    text.append("  |  ");
    text.append(endpoint.format.as_str());
    if !(informational || endpoint.compatible) {
        text.append("  [unsupported]");
    }
    text
}

/// Whether an endpoint is the chosen one.
pub fn is_chosen(selected: &Option<SavedEndpoint>, endpoint: &EndpointDescriptor) -> (chosen: bool)
    ensures
        chosen == match selected.deep_view() {
            Some(saved) => saved.id == endpoint@.id,
            None => false,
        },
{
    match selected {
        Some(saved) => saved.id == endpoint.id,
        None => false,
    }
}

impl PersistedSettings {
    /// What is said of the two sides of the cable, where both are chosen.
    pub fn cable_pairing(&self) -> (text: Option<String>)
        ensures
            text.deep_view() == self@.pairing(),
    {
        match (&self.handoff_render, &self.downstream_capture) {
            (Some(output), Some(input)) => {
                let mut text = "The bridge writes to '".to_owned();
                text.append(output.last_name.as_str());
                text.append("'. Select '");
                text.append(input.last_name.as_str());
                text.append("' as the microphone in your downstream app.");
                Some(text)
            },
            _ => None,
        }
    }

    /// The line of the confirmed output, where it is confirmed.
    pub fn approved_output(&self) -> (text: Option<String>)
        ensures
            text.deep_view() == self@.approved_line(),
    {
        if !self.handoff_is_approved() {
            return None;
        }
        let mut text = "Approved automatic output: ".to_owned();
        text.append(self.handoff_render.as_ref().unwrap().last_name.as_str());
        Some(text)
    }

    /// The steps of the signal: the reference, the cleaning and the output.
    pub fn signal_path(&self) -> (steps: (String, String, String))
        ensures
            (steps.0@, steps.1@, steps.2@) == self@.path(),
    {
        let name = saved_endpoint_name(&self.reference, "Echo reference");
        let reference = match self.reference_mode {
            ReferenceMode::Loopback => {
                let mut text = "Listen to '".to_owned();
                text.append(name.as_str());
                text.append("' through Windows playback loopback.");
                text
            },
            ReferenceMode::Capture => {
                let mut text = "Read '".to_owned();
                text.append(name.as_str());
                text.append("' as the recording-device or virtual-mix reference.");
                text
            },
        };
        let mut cleaning = "Clean '".to_owned();
        cleaning.append(saved_endpoint_name(&self.microphone, "Raw microphone").as_str());
        cleaning.append("' using the reference audio.");
        let mut output = "Send the cleaned microphone to '".to_owned();
        output.append(saved_endpoint_name(&self.handoff_render, "Virtual cable output").as_str());
        output.append("', paired with '");
        output.append(
            saved_endpoint_name(&self.downstream_capture, "Downstream cable input").as_str(),
        );
        output.append("'.");
        (reference, cleaning, output)
    }
}

/// What is advised for a way to read the reference.
pub fn method_help(mode: ReferenceMode) -> (text: &'static str)
    ensures
        text@ == match mode {
            ReferenceMode::Loopback =>
                "Best when your headphones appear as a normal Windows playback device."@,
            ReferenceMode::Capture =>
                "Choose a recording source containing headphone playback, such as Stereo Mix or a virtual listening mix. Do not select a microphone by itself."@,
        },
{
    match mode {
        ReferenceMode::Loopback => {
            "Best when your headphones appear as a normal Windows playback device."
        },
        ReferenceMode::Capture => {
            "Choose a recording source containing headphone playback, such as Stereo Mix or a virtual listening mix. Do not select a microphone by itself."
        },
    }
}

/// The name and the explanation of the field that the reference is chosen in.
pub fn reference_field(mode: ReferenceMode) -> (texts: (&'static str, &'static str))
    ensures
        (texts.0@, texts.1@) == match mode {
            ReferenceMode::Loopback => (
                "Headphones or speaker output"@,
                "The Windows playback endpoint whose audio can leak into the microphone."@,
            ),
            ReferenceMode::Capture => (
                "Recording device or virtual mix"@,
                "A recording source containing playback audio, but no raw or processed microphone return."@,
            ),
        },
{
    match mode {
        ReferenceMode::Loopback => (
            "Headphones or speaker output",
            "The Windows playback endpoint whose audio can leak into the microphone.",
        ),
        ReferenceMode::Capture => (
            "Recording device or virtual mix",
            "A recording source containing playback audio, but no raw or processed microphone return.",
        ),
    }
}

/// The button that turns the colours over.
pub fn theme_label(dark_mode: bool) -> (label: &'static str)
    ensures
        label@ == if dark_mode {
            "Light theme"@
        } else {
            "Dark theme"@
        },
{
    if dark_mode {
        "Light theme"
    } else {
        "Dark theme"
    }
}

fn waiting_detail(deadline: u64, last_issue: &Option<String>, now: u64) -> (detail: String)
    ensures
        detail@ == (match last_issue.deep_view() {
            Some(issue) => issue,
            None => "Checking the exact saved microphone, reference, and virtual output."@,
        }) + " Retrying for up to "@ + digits(
            (if deadline > now {
                (deadline - now) / (SECOND as int)
            } else {
                0
            }) as nat,
        ) + " more seconds."@,
{
    let mut detail = match last_issue {
        Some(issue) => issue.clone(),
        None => {
            "Checking the exact saved microphone, reference, and virtual output.".to_owned()
        },
    };
    let seconds: u64 = if deadline > now {
        (deadline - now) / SECOND
    } else {
        0
    };
    detail.append(" Retrying for up to ");
    detail.append(decimal(seconds).as_str());
    detail.append(" more seconds.");
    detail
}

impl AecBridgeApp {
    /// The badge beside the heading.
    pub fn header_badge(&self) -> (badge: Note)
        ensures
            badge@ == self@.badge(),
    {
        let running = same_text(self.status.as_str(), "Running");
        if self.error.is_some() && !running {
            Note { text: "Needs attention".to_owned(), tone: Tone::Danger }
        } else if running {
            Note { text: "Running".to_owned(), tone: Tone::Success }
        } else if starts_with(self.status.as_str(), "Starting") || starts_with(
            self.status.as_str(),
            "Waiting",
        ) || same_text(self.status.as_str(), "Stopping") {
            Note { text: self.status.clone(), tone: Tone::Warning }
        } else {
            Note { text: self.status.clone(), tone: Tone::Muted }
        }
    }

    /// Whether there is anything to show of the session.
    pub fn session_shown(&self) -> (shown: bool)
        ensures
            shown == (self@.started_streams.len() > 0 || self@.metrics is Some),
    {
        self.started_streams.len() > 0 || self.metrics.is_some()
    }

    /// The heading of the session, and whether it turns a wheel.
    pub fn session_heading(&self) -> (heading: (&'static str, bool))
        ensures
            heading.0@ == if self@.status == "Running"@ {
                "Live session"@
            } else {
                "Session activity"@
            },
            heading.1 == begins_with(self@.status, "Starting"@),
    {
        (
            if same_text(self.status.as_str(), "Running") {
                "Live session"
            } else {
                "Session activity"
            },
            starts_with(self.status.as_str(), "Starting"),
        )
    }

    /// The command that the registration for sign-in holds, where it is another than the present
    /// one.
    pub fn stale_command(&self) -> (text: Option<String>)
        ensures
            text.deep_view() == match self@.login_startup_status {
                Some(LoginStartupStatusView::Stale { registered_command }) => Some(
                    "Windows is registered to open a different copy or command: "@
                        + registered_command,
                ),
                _ => None,
            },
    {
        match &self.login_startup_status {
            Some(LoginStartupStatus::Stale { registered_command }) => {
                let mut text =
                    "Windows is registered to open a different copy or command: ".to_owned();
                text.append(registered_command.as_str());
                Some(text)
            },
            _ => None,
        }
    }

    /// Whether the icon in the notification area can be tried again: it is wanted and not there.
    pub fn tray_retry_offered(&self) -> (offered: bool)
        ensures
            offered == (self@.tray_error is Some && self@.settings.minimize_to_tray
                && !self@.tray_available),
    {
        self.tray_error.is_some() && self.settings.minimize_to_tray && !self.tray_available
    }

    /// What stands below the switch of the start by itself, if anything.
    pub fn auto_start_note(&self) -> (note: Option<Note>)
        ensures
            match note {
                Some(note) => self@.auto_start_hint() == Some(note@),
                None => self@.auto_start_hint() is None,
            },
    {
        if !self.login_startup_is_current() {
            return Some(
                Note {
                    text: "Enable or repair Windows sign-in startup before enabling automatic bridge start.".to_owned(),
                    tone: Tone::Muted,
                },
            );
        }
        match self.settings.automatic_start_configuration_problem() {
            Some(problem) => Some(Note { text: problem, tone: Tone::Warning }),
            None => None,
        }
    }

    /// What is said of the start by itself, if anything.
    pub fn runtime_status(&self, now: &Moment) -> (callout: Option<Callout>)
        ensures
            callout.deep_view() == self@.startup_callout(now@),
    {
        match &self.login_auto_start {
            LoginAutoStartState::Waiting { deadline, last_issue, .. } => Some(
                Callout {
                    title: "Waiting for saved audio devices",
                    detail: waiting_detail(*deadline, last_issue, now.nanos),
                    tone: Tone::Accent,
                },
            ),
            LoginAutoStartState::Starting { .. } => Some(
                Callout {
                    title: "Starting automatically",
                    detail: "The saved devices are ready and the audio streams are opening.".to_owned(),
                    tone: Tone::Warning,
                },
            ),
            LoginAutoStartState::Cancelling => Some(
                Callout {
                    title: "Cancelling automatic start",
                    detail: "A stop was requested while the audio streams were opening.".to_owned(),
                    tone: Tone::Warning,
                },
            ),
            LoginAutoStartState::Complete => Some(
                Callout {
                    title: "Started automatically",
                    detail: "The bridge started from the saved route for this Windows sign-in.".to_owned(),
                    tone: Tone::Success,
                },
            ),
            LoginAutoStartState::Failed(message) => Some(
                Callout {
                    title: "Automatic start paused",
                    detail: message.clone(),
                    tone: Tone::Danger,
                },
            ),
            LoginAutoStartState::Cancelled => Some(
                Callout {
                    title: "Automatic start cancelled",
                    detail: "The bridge will remain stopped for this sign-in unless you start it manually.".to_owned(),
                    tone: Tone::Muted,
                },
            ),
            LoginAutoStartState::Inactive => None,
        }
    }

    /// What the user can do about the start by itself.
    pub fn startup_control(&self) -> (control: StartupControl)
        ensures
            control == self@.startup_control(),
    {
        let retry = self.launch_options.login_startup && self.settings.auto_start_bridge
            && !self.bridge_active;
        match &self.login_auto_start {
            LoginAutoStartState::Failed(_) => {
                if retry {
                    StartupControl::Retry
                } else if self.bridge_active {
                    StartupControl::AwaitEnd
                } else {
                    StartupControl::Nothing
                }
            },
            LoginAutoStartState::Cancelled => {
                if retry {
                    StartupControl::Retry
                } else {
                    StartupControl::Nothing
                }
            },
            LoginAutoStartState::Waiting { .. } => StartupControl::Cancel,
            _ => StartupControl::Nothing,
        }
    }

    /// How full the log is.
    pub fn log_counter(&self) -> (text: String)
        ensures
            text@ == "Rolling log  \u{b7}  "@ + digits(self@.log.len()) + " / "@ + digits(
                DEBUG_LOG_LIMIT as nat,
            ) + " lines"@,
    {
        let mut text = "Rolling log  \u{b7}  ".to_owned();
        text.append(decimal(self.debug_log.len() as u64).as_str());
        text.append(" / ");
        text.append(decimal(DEBUG_LOG_LIMIT as u64).as_str());
        text.append(" lines");
        text
    }

    /// The button that stops the bridge: its label, and whether it can be pressed.
    pub fn stop_button(&self) -> (button: (&'static str, bool))
        ensures
            button.0@ == if self@.status == "Stopping"@ {
                "Stopping..."@
            } else {
                "Stop bridge"@
            },
            button.1 == (self@.status != "Stopping"@),
    {
        if same_text(self.status.as_str(), "Stopping") {
            ("Stopping...", false)
        } else {
            ("Stop bridge", true)
        }
    }

    /// Whether discovery can be asked for with the button.
    pub fn refresh_enabled(&self) -> (enabled: bool)
        ensures
            enabled == (!self@.bridge_active && !self@.refreshing),
    {
        !self.bridge_active && !self.refreshing
    }

    /// What stands below the buttons.
    pub fn action_note(&self) -> (note: Note)
        ensures
            note@ == self@.action_note(),
    {
        if self.bridge_active {
            let tone = if same_text(self.status.as_str(), "Running") {
                Tone::Success
            } else {
                Tone::Muted
            };
            return Note { text: self.status.clone(), tone };
        }
        match self.start_problem() {
            Some(problem) => Note { text: problem, tone: Tone::Muted },
            None => Note {
                text: "Configuration ready. Start the bridge when you are ready.".to_owned(),
                tone: Tone::Success,
            },
        }
    }
}

} // verus!
