//! The diagnostics console: its commands, and what they say and do.

use crate::clock::{Moment, MomentView};
use crate::devices::{EndpointDescriptor, EndpointDescriptorView};
use crate::gui::app::{AecBridgeApp, AppView, Outcome, OutcomeView, StartOrigin};
use crate::gui::autostart::{method_name, reference_method};
use crate::gui::settings::{name_or, saved_endpoint_name, PersistedSettings, SettingsView};
use crate::startup::{LoginStartupStatus, LoginStartupStatusView};
use crate::text::{
    decimal, digits, eq_ignore_ascii_case, equal_ignoring_ascii_case, trim, trimmed,
};
use vstd::prelude::*;

verus! {

/// A command of the console.
#[derive(Clone, Copy, Debug, PartialEq, Eq, Structural)]
pub enum Command {
    Clear,
    Help,
    List,
    Check,
    Status,
    Refresh,
    Start,
    Stop,
    Unknown,
}

/// The command that a word stands for, whatever its capitals.
pub open spec fn command_of(word: Seq<char>) -> Command {
    if equal_ignoring_ascii_case(word, "clear"@) {
        Command::Clear
    } else if equal_ignoring_ascii_case(word, "help"@) {
        Command::Help
    } else if equal_ignoring_ascii_case(word, "list"@) {
        Command::List
    } else if equal_ignoring_ascii_case(word, "check"@) {
        Command::Check
    } else if equal_ignoring_ascii_case(word, "status"@) {
        Command::Status
    } else if equal_ignoring_ascii_case(word, "refresh"@) {
        Command::Refresh
    } else if equal_ignoring_ascii_case(word, "start"@) {
        Command::Start
    } else if equal_ignoring_ascii_case(word, "stop"@) {
        Command::Stop
    } else {
        Command::Unknown
    }
}

/// The command that a word stands for.
pub fn parse_command(word: &str) -> (command: Command)
    ensures
        command == command_of(word@),
{
    if eq_ignore_ascii_case(word, "clear") {
        Command::Clear
    } else if eq_ignore_ascii_case(word, "help") {
        Command::Help
    } else if eq_ignore_ascii_case(word, "list") {
        Command::List
    } else if eq_ignore_ascii_case(word, "check") {
        Command::Check
    } else if eq_ignore_ascii_case(word, "status") {
        Command::Status
    } else if eq_ignore_ascii_case(word, "refresh") {
        Command::Refresh
    } else if eq_ignore_ascii_case(word, "start") {
        Command::Start
    } else if eq_ignore_ascii_case(word, "stop") {
        Command::Stop
    } else {
        Command::Unknown
    }
}

/// The line of an endpoint in the list.
pub open spec fn list_line(kind: Seq<char>, endpoint: EndpointDescriptorView) -> Seq<char> {
    "  ["@ + kind + "] "@ + endpoint.name + " | "@ + endpoint.format + " | "@ + endpoint.id
}

/// The lines of several endpoints in the list.
pub open spec fn list_lines(kind: Seq<char>, endpoints: Seq<EndpointDescriptorView>) -> Seq<
    Seq<char>,
> {
    Seq::new(endpoints.len(), |i: int| list_line(kind, endpoints[i]))
}

/// What is known of the registration for sign-in, in words.
pub open spec fn registration_words(status: Option<LoginStartupStatusView>) -> Seq<char> {
    match status {
        Some(LoginStartupStatusView::Disabled) => "not registered"@,
        Some(LoginStartupStatusView::Current) => "registered"@,
        Some(LoginStartupStatusView::Stale { .. }) => "needs repair"@,
        None => "unknown"@,
    }
}

impl SettingsView {
    /// The line that tells the route.
    pub open spec fn route_line(self) -> Seq<char> {
        "Route: '"@ + name_or(self.microphone, "<not selected>"@) + "' + '"@ + name_or(
            self.reference,
            "<not selected>"@,
        ) + "' ("@ + method_name(self.reference_mode) + ") -> '"@ + name_or(
            self.handoff_render,
            "<not selected>"@,
        ) + "' -> '"@ + name_or(self.downstream_capture, "<not selected>"@) + "'."@
    }
}

impl AppView {
    /// The state after several messages were logged.
    pub open spec fn all_logged(self, messages: Seq<Seq<char>>, now: MomentView) -> AppView
        decreases messages.len(),
    {
        if messages.len() == 0 {
            self
        } else {
            self.logged(messages[0], now).all_logged(messages.drop_first(), now)
        }
    }

    /// The state after the commands were told.
    pub open spec fn help_told(self, now: MomentView) -> AppView {
        self.logged(
            "Commands: help, list, check, status, refresh, start, stop, clear."@,
            now,
        ).logged(
            "This console runs built-in AEC Bridge actions only; it is not a system shell."@,
            now,
        )
    }

    /// The state after the endpoints were told.
    pub open spec fn list_told(self, now: MomentView) -> AppView {
        self.logged(
            "Capture endpoints ("@ + digits(self.catalog.capture.len()) + "):"@,
            now,
        ).all_logged(list_lines("capture"@, self.catalog.capture), now).logged(
            "Playback endpoints ("@ + digits(self.catalog.render.len()) + "):"@,
            now,
        ).all_logged(list_lines("playback"@, self.catalog.render), now)
    }

    /// The state after it was told whether the bridge can start.
    pub open spec fn check_told(self, now: MomentView) -> AppView {
        match self.start_readiness().problem() {
            Some(problem) => self.logged("Configuration check failed: "@ + problem, now),
            None => self.logged(
                "Configuration check passed; the bridge is ready to start."@,
                now,
            ),
        }
    }

    /// The state after the status was told.
    pub open spec fn status_told(self, now: MomentView) -> AppView {
        self.logged("Status: "@ + self.status + "."@, now).logged(
            "Windows sign-in startup: "@ + registration_words(self.login_startup_status)
                + "; automatic bridge start: "@ + (if self.settings.auto_start_bridge {
                "enabled"@
            } else {
                "disabled"@
            }) + "."@,
            now,
        ).logged(self.settings.route_line(), now)
    }

    /// The state after the bridge was told to stop by hand.
    pub open spec fn stop_asked(self, message: Seq<char>, now: MomentView) -> AppView {
        (AppView {
            status: "Stopping"@,
            ..self.start_cancelled("the bridge was stopped manually"@, now).0
        }).logged(message, now)
    }

    /// The state after a command that was recognised, and what follows.
    pub open spec fn command_run(self, command: Command, word: Seq<char>, now: MomentView) -> (
        AppView,
        OutcomeView,
    ) {
        match command {
            Command::Clear => (AppView { log: Seq::empty(), ..self }, OutcomeView::quiet()),
            Command::Help => (self.help_told(now), OutcomeView::quiet()),
            Command::List => (self.list_told(now), OutcomeView::quiet()),
            Command::Check => (self.check_told(now), OutcomeView::quiet()),
            Command::Status => (self.status_told(now), OutcomeView::quiet()),
            Command::Refresh => if self.bridge_active {
                (
                    self.logged(
                        "Refresh blocked while the bridge is active; stop it first."@,
                        now,
                    ),
                    OutcomeView::quiet(),
                )
            } else {
                let (asked, follow_up) = self.refresh_asked(now);
                (asked, OutcomeView { stop_bridge: false, follow_up })
            },
            Command::Start => if self.bridge_active {
                (
                    self.logged("Start ignored: the bridge is already active."@, now),
                    OutcomeView::quiet(),
                )
            } else {
                self.start_asked(StartOrigin::Manual, now)
            },
            Command::Stop => if self.bridge_active {
                (
                    self.stop_asked("Stop requested from the diagnostics console."@, now),
                    OutcomeView::stopping(true),
                )
            } else {
                (
                    self.logged("Stop ignored: the bridge is not running."@, now),
                    OutcomeView::quiet(),
                )
            },
            Command::Unknown => (
                self.logged(
                    "Unknown command '"@ + word
                        + "'. Type 'help' for the built-in command list."@,
                    now,
                ),
                OutcomeView::quiet(),
            ),
        }
    }

    /// The state after a line was entered, and what follows. White space around the command does
    /// not count; every command but `clear` is logged first.
    pub open spec fn line_entered(self, line: Seq<char>, now: MomentView) -> (AppView, OutcomeView) {
        let word = trimmed(line);
        if word.len() == 0 {
            (self, OutcomeView::quiet())
        } else if command_of(word) == Command::Clear {
            self.command_run(Command::Clear, word, now)
        } else {
            self.logged("> "@ + word, now).command_run(command_of(word), word, now)
        }
    }
}

fn list_text(kind: &str, endpoint: &EndpointDescriptor) -> (line: String)
    ensures
        line@ == list_line(kind@, endpoint@),
{
    let mut line = "  [".to_owned();
    line.append(kind);
    line.append("] ");
    line.append(endpoint.name.as_str());
    line.append(" | ");
    line.append(endpoint.format.as_str());
    line.append(" | ");
    line.append(endpoint.id.as_str());
    line
}

fn list_texts(kind: &str, endpoints: &Vec<EndpointDescriptor>) -> (lines: Vec<String>)
    ensures
        lines.deep_view() == list_lines(kind@, endpoints.deep_view()),
{
    let mut lines: Vec<String> = Vec::new();
    let mut index: usize = 0;
    while index < endpoints.len()
        invariant
            index <= endpoints@.len(),
            lines@.len() == index,
            forall|i: int|
                0 <= i < index ==> (#[trigger] lines@[i])@ == list_line(
                    kind@,
                    endpoints@[i]@,
                ),
        decreases endpoints@.len() - index,
    {
        lines.push(list_text(kind, &endpoints[index]));
        index = index + 1;
    }
    assert(lines.deep_view() =~= list_lines(kind@, endpoints.deep_view()));
    lines
}

fn registration_text(status: &Option<LoginStartupStatus>) -> (words: &'static str)
    ensures
        words@ == registration_words(status.deep_view()),
{
    match status {
        Some(LoginStartupStatus::Disabled) => "not registered",
        Some(LoginStartupStatus::Current) => "registered",
        Some(LoginStartupStatus::Stale { .. }) => "needs repair",
        None => "unknown",
    }
}

fn route_text(settings: &PersistedSettings) -> (line: String)
    ensures
        line@ == settings@.route_line(),
{
    let mut line = "Route: '".to_owned();
    line.append(saved_endpoint_name(&settings.microphone, "<not selected>").as_str());
    line.append("' + '");
    line.append(saved_endpoint_name(&settings.reference, "<not selected>").as_str());
    line.append("' (");
    line.append(reference_method(settings.reference_mode));
    line.append(") -> '");
    line.append(saved_endpoint_name(&settings.handoff_render, "<not selected>").as_str());
    line.append("' -> '");
    line.append(saved_endpoint_name(&settings.downstream_capture, "<not selected>").as_str());
    line.append("'.");
    line
}

impl AecBridgeApp {
    fn push_lines(&mut self, lines: &Vec<String>, now: &Moment)
        ensures
            final(self)@ == old(self)@.all_logged(lines.deep_view(), now@),
            old(self)@.in_order() ==> final(self)@.in_order(),
    {
        let ghost all = lines.deep_view();
        let mut index: usize = 0;
        assert(all.skip(0) =~= all);
        while index < lines.len()
            invariant
                index <= lines@.len(),
                all == lines.deep_view(),
                old(self)@.all_logged(all, now@) == self@.all_logged(
                    all.skip(index as int),
                    now@,
                ),
                old(self)@.in_order() ==> self@.in_order(),
            decreases lines@.len() - index,
        {
            assert(all.skip(index as int)[0] == lines@[index as int]@);
            assert(all.skip(index as int).drop_first() =~= all.skip(index + 1));
            self.push_log(lines[index].as_str(), now);
            index = index + 1;
        }
    }

    fn tell_help(&mut self, now: &Moment)
        ensures
            final(self)@ == old(self)@.help_told(now@),
            old(self)@.in_order() ==> final(self)@.in_order(),
    {
        self.push_log("Commands: help, list, check, status, refresh, start, stop, clear.", now);
        self.push_log(
            "This console runs built-in AEC Bridge actions only; it is not a system shell.",
            now,
        );
    }

    fn tell_list(&mut self, now: &Moment)
        ensures
            final(self)@ == old(self)@.list_told(now@),
            old(self)@.in_order() ==> final(self)@.in_order(),
    {
        let capture = list_texts("capture", &self.catalog.capture);
        let render = list_texts("playback", &self.catalog.render);
        let mut heading = "Capture endpoints (".to_owned();
        heading.append(decimal(self.catalog.capture.len() as u64).as_str());
        heading.append("):");
        let mut other = "Playback endpoints (".to_owned();
        other.append(decimal(self.catalog.render.len() as u64).as_str());
        other.append("):");
        self.push_log(heading.as_str(), now);
        self.push_lines(&capture, now);
        self.push_log(other.as_str(), now);
        self.push_lines(&render, now);
    }

    fn tell_check(&mut self, now: &Moment)
        ensures
            final(self)@ == old(self)@.check_told(now@),
            old(self)@.in_order() ==> final(self)@.in_order(),
    {
        match self.start_problem() {
            Some(problem) => {
                let mut line = "Configuration check failed: ".to_owned();
                line.append(problem.as_str());
                self.push_log(line.as_str(), now);
            },
            None => {
                self.push_log("Configuration check passed; the bridge is ready to start.", now);
            },
        }
    }

    fn tell_status(&mut self, now: &Moment)
        ensures
            final(self)@ == old(self)@.status_told(now@),
            old(self)@.in_order() ==> final(self)@.in_order(),
    {
        let mut status = "Status: ".to_owned();
        status.append(self.status.as_str());
        status.append(".");
        let mut startup = "Windows sign-in startup: ".to_owned();
        startup.append(registration_text(&self.login_startup_status));
        startup.append("; automatic bridge start: ");
        if self.settings.auto_start_bridge {
            startup.append("enabled");
        } else {
            startup.append("disabled");
        }
        startup.append(".");
        let route = route_text(&self.settings);
        self.push_log(status.as_str(), now);
        self.push_log(startup.as_str(), now);
        self.push_log(route.as_str(), now);
    }

    fn tell_unknown(&mut self, word: &str, now: &Moment)
        ensures
            final(self)@ == old(self)@.logged(
                "Unknown command '"@ + word@ + "'. Type 'help' for the built-in command list."@,
                now@,
            ),
            old(self)@.in_order() ==> final(self)@.in_order(),
    {
        let mut line = "Unknown command '".to_owned();
        line.append(word);
        line.append("'. Type 'help' for the built-in command list.");
        self.push_log(line.as_str(), now);
    }

    /// Takes in that the bridge was told to stop by hand.
    pub fn stop_by_hand(&mut self, message: &str, now: &Moment)
        ensures
            final(self)@ == old(self)@.stop_asked(message@, now@),
            old(self)@.in_order() ==> final(self)@.in_order(),
    {
        let _again = self.cancel_login_auto_start("the bridge was stopped manually", now);
        self.status = "Stopping".to_owned();
        self.push_log(message, now);
    }

    /// Empties the log.
    pub fn clear_log(&mut self)
        ensures
            final(self)@ == (AppView { log: Seq::empty(), ..old(self)@ }),
            old(self)@.in_order() ==> final(self)@.in_order(),
    {
        self.debug_log.clear();
    }

    fn run_refresh(&mut self, now: &Moment) -> (outcome: Outcome)
        ensures
            (final(self)@, outcome@) == old(self)@.command_run(
                Command::Refresh,
                Seq::empty(),
                now@,
            ),
            old(self)@.in_order() ==> final(self)@.in_order(),
    {
        if self.bridge_active {
            self.push_log("Refresh blocked while the bridge is active; stop it first.", now);
            return Outcome::quiet();
        }
        let follow_up = self.request_refresh(now);
        Outcome { stop_bridge: false, follow_up }
    }

    fn run_start(&mut self, now: &Moment) -> (outcome: Outcome)
        ensures
            (final(self)@, outcome@) == old(self)@.command_run(Command::Start, Seq::empty(), now@),
            old(self)@.in_order() ==> final(self)@.in_order(),
    {
        if self.bridge_active {
            self.push_log("Start ignored: the bridge is already active.", now);
            return Outcome::quiet();
        }
        self.start_bridge(StartOrigin::Manual, now)
    }

    fn run_stop(&mut self, now: &Moment) -> (outcome: Outcome)
        ensures
            (final(self)@, outcome@) == old(self)@.command_run(Command::Stop, Seq::empty(), now@),
            old(self)@.in_order() ==> final(self)@.in_order(),
    {
        if self.bridge_active {
            self.stop_by_hand("Stop requested from the diagnostics console.", now);
            return Outcome::stopping(true);
        }
        self.push_log("Stop ignored: the bridge is not running.", now);
        Outcome::quiet()
    }

    /// Runs a command, and says what follows. The word is the one that stood for the command.
    pub fn run_command(&mut self, command: Command, word: &str, now: &Moment) -> (outcome: Outcome)
        ensures
            (final(self)@, outcome@) == old(self)@.command_run(command, word@, now@),
            old(self)@.in_order() ==> final(self)@.in_order(),
    {
        match command {
            Command::Clear => {
                self.clear_log();
                Outcome::quiet()
            },
            Command::Help => {
                self.tell_help(now);
                Outcome::quiet()
            },
            Command::List => {
                self.tell_list(now);
                Outcome::quiet()
            },
            Command::Check => {
                self.tell_check(now);
                Outcome::quiet()
            },
            Command::Status => {
                self.tell_status(now);
                Outcome::quiet()
            },
            Command::Refresh => self.run_refresh(now),
            Command::Start => self.run_start(now),
            Command::Stop => self.run_stop(now),
            Command::Unknown => {
                self.tell_unknown(word, now);
                Outcome::quiet()
            },
        }
    }

    /// Runs a line of the console, and says what follows.
    pub fn execute_diagnostic_command(&mut self, line: &str, now: &Moment) -> (outcome: Outcome)
        ensures
            (final(self)@, outcome@) == old(self)@.line_entered(line@, now@),
            old(self)@.in_order() ==> final(self)@.in_order(),
    {
        let word = trim(line);
        if word.unicode_len() == 0 {
            return Outcome::quiet();
        }
        let command = parse_command(word);
        if command == Command::Clear {
            return self.run_command(command, word, now);
        }
        let mut echo = "> ".to_owned();
        echo.append(word);
        self.push_log(echo.as_str(), now);
        self.run_command(command, word, now)
    }
}

} // verus!
