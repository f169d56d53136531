//! What the user changes on the cards, and what else changes with it.

use crate::clock::{Moment, MomentView};
use crate::devices::EndpointDescriptor;
use crate::gui::app::{AecBridgeApp, AppView, Outcome};
use crate::gui::settings::{
    remembered, same_selection, PersistedSettings, SavedEndpoint, SavedEndpointView, SettingsView,
};
use crate::startup::{LoginStartupStatus, LoginStartupStatusView};
use crate::ReferenceMode;
use vstd::prelude::*;

verus! {

/// One of the four endpoints that are chosen.
#[derive(Clone, Copy, Debug, PartialEq, Eq, Structural)]
pub enum Slot {
    Microphone,
    Reference,
    Handoff,
    Downstream,
}

impl SettingsView {
    /// What is chosen in a slot.
    pub open spec fn chosen(self, slot: Slot) -> Option<SavedEndpointView> {
        match slot {
            Slot::Microphone => self.microphone,
            Slot::Reference => self.reference,
            Slot::Handoff => self.handoff_render,
            Slot::Downstream => self.downstream_capture,
        }
    }

    /// The settings with another choice in a slot. Another output is not confirmed, and the bridge
    /// does not play into it by itself.
    pub open spec fn choosing(self, slot: Slot, choice: Option<SavedEndpointView>) -> SettingsView {
        match slot {
            Slot::Microphone => SettingsView { microphone: choice, ..self },
            Slot::Reference => SettingsView { reference: choice, ..self },
            Slot::Handoff => SettingsView {
                handoff_render: choice,
                approved_handoff_id: None,
                auto_start_bridge: false,
                ..self
            },
            Slot::Downstream => SettingsView { downstream_capture: choice, ..self },
        }
    }

    /// The settings after the output was confirmed to be a virtual cable, or no longer is.
    pub open spec fn approving(self, confirmed: bool) -> SettingsView {
        if confirmed {
            SettingsView { approved_handoff_id: Some(self.handoff_render->0.id), ..self }
        } else {
            SettingsView { approved_handoff_id: None, auto_start_bridge: false, ..self }
        }
    }
}

/// Why the start by itself is called off when the choice in a slot changes, if it is.
pub open spec fn cancel_reason(slot: Slot) -> Option<Seq<char>> {
    match slot {
        Slot::Microphone => Some("the microphone selection changed"@),
        Slot::Reference => Some("the reference selection changed"@),
        Slot::Handoff => Some("the virtual cable output changed"@),
        Slot::Downstream => None,
    }
}

/// Why the start by itself is called off when the choice in a slot changes, if it is.
fn cancel_words(slot: Slot) -> (reason: Option<&'static str>)
    ensures
        match reason {
            Some(words) => cancel_reason(slot) == Some(words@),
            None => cancel_reason(slot) is None,
        },
{
    match slot {
        Slot::Microphone => Some("the microphone selection changed"),
        Slot::Reference => Some("the reference selection changed"),
        Slot::Handoff => Some("the virtual cable output changed"),
        Slot::Downstream => None,
    }
}

impl AppView {
    /// Whether the program is registered to be opened at sign-in, in whatever way.
    pub open spec fn registered(self) -> bool {
        match self.login_startup_status {
            Some(LoginStartupStatusView::Current) => true,
            Some(LoginStartupStatusView::Stale { .. }) => true,
            _ => false,
        }
    }

    /// Whether the program is registered to be opened at sign-in as it is.
    pub open spec fn registration_current(self) -> bool {
        self.login_startup_status == Some(LoginStartupStatusView::Current)
    }

    /// Whether the user can turn the start by itself on or off.
    pub open spec fn auto_start_available(self) -> bool {
        self.settings.auto_start_bridge || (self.registration_current()
            && self.settings.configuration_problem() is None)
    }

    /// The state with other settings and without an error.
    pub open spec fn resettled(self, settings: SettingsView) -> AppView {
        AppView { settings, error: None, ..self }
    }

    /// The state after a choice in a slot, and whether the bridge is told to stop.
    pub open spec fn endpoint_chosen(
        self,
        slot: Slot,
        choice: Option<SavedEndpointView>,
        now: MomentView,
    ) -> (AppView, bool) {
        if self.settings.chosen(slot) == choice {
            (self, false)
        } else {
            self.resettled(self.settings.choosing(slot, choice)).cancelled_for(slot, now)
        }
    }

    /// The state after the start by itself was called off for a change in a slot, where it is, and
    /// whether the bridge is told to stop.
    pub open spec fn cancelled_for(self, slot: Slot, now: MomentView) -> (AppView, bool) {
        match cancel_reason(slot) {
            Some(reason) => self.start_cancelled(reason, now),
            None => (self, false),
        }
    }

    /// The state after a choice of how the reference is read, and whether the bridge is told to
    /// stop. With another way, nothing is chosen for the reference any more.
    pub open spec fn method_chosen(self, mode: ReferenceMode, now: MomentView) -> (AppView, bool) {
        if self.settings.reference_mode == mode {
            (self, false)
        } else {
            self.resettled(
                SettingsView { reference_mode: mode, reference: None, ..self.settings },
            ).start_cancelled("the reference method changed"@, now)
        }
    }

    /// The state after the output was confirmed or not, and whether the bridge is told to stop.
    pub open spec fn handoff_confirmed(self, confirmed: bool, now: MomentView) -> (AppView, bool) {
        let changed = self.resettled(self.settings.approving(confirmed));
        if confirmed {
            (changed, false)
        } else {
            changed.start_cancelled("the virtual output approval was removed"@, now)
        }
    }

    /// The state after the start by itself was turned on or off, and whether the bridge is told to
    /// stop.
    pub open spec fn auto_start_set(self, enabled: bool, now: MomentView) -> (AppView, bool) {
        let changed = AppView {
            settings: SettingsView { auto_start_bridge: enabled, ..self.settings },
            ..self
        };
        if enabled {
            (
                changed.logged(
                    "Automatic bridge start enabled for future Windows sign-ins."@,
                    now,
                ),
                false,
            )
        } else {
            let (cancelled, stop_bridge) = changed.start_cancelled(
                "automatic bridge start was disabled"@,
                now,
            );
            (cancelled.logged("Automatic bridge start disabled."@, now), stop_bridge)
        }
    }

    /// The state after the program was registered for sign-in.
    pub open spec fn registered_now(self, now: MomentView) -> AppView {
        (AppView {
            startup_error: None,
            login_startup_status: Some(LoginStartupStatusView::Current),
            startup_notice: Some(
                "Startup registration added. Windows Startup Apps can still disable it."@,
            ),
            ..self
        }).logged("Windows sign-in startup enabled for the current executable."@, now)
    }

    /// The state after the registration was taken away, and whether the bridge is told to stop. The
    /// bridge does not start by itself any more either.
    pub open spec fn unregistered_now(self, now: MomentView) -> (AppView, bool) {
        let (cancelled, stop_bridge) = (AppView {
            startup_error: None,
            login_startup_status: Some(LoginStartupStatusView::Disabled),
            settings: SettingsView { auto_start_bridge: false, ..self.settings },
            ..self
        }).start_cancelled("Windows sign-in startup was disabled"@, now);
        (
            (AppView {
                startup_notice: Some("Windows sign-in startup is disabled."@),
                ..cancelled
            }).logged("Windows sign-in startup disabled."@, now),
            stop_bridge,
        )
    }

    /// The state after the registration could not be changed.
    pub open spec fn registration_refused(
        self,
        enabled: bool,
        error: Seq<char>,
        now: MomentView,
    ) -> AppView {
        let action = if enabled {
            "enable"@
        } else {
            "disable"@
        };
        let message = "Could not "@ + action + " Windows sign-in startup: "@ + error;
        (AppView { startup_notice: None, startup_error: Some(message), ..self }).logged(
            "ERROR: "@ + message,
            now,
        )
    }

    /// The state after the registration was to be made or taken away, and whether the bridge is
    /// told to stop.
    pub open spec fn registration_changed(
        self,
        enabled: bool,
        result: Result<(), Seq<char>>,
        now: MomentView,
    ) -> (AppView, bool) {
        match result {
            Err(error) => (self.registration_refused(enabled, error, now), false),
            Ok(_) => if enabled {
                (self.registered_now(now), false)
            } else {
                self.unregistered_now(now)
            },
        }
    }
}

impl PersistedSettings {
    /// Sets the choice in a slot, with what goes with it.
    fn put(&mut self, slot: Slot, choice: Option<SavedEndpoint>)
        ensures
            final(self)@ == old(self)@.choosing(slot, choice.deep_view()),
    {
        match slot {
            Slot::Microphone => {
                self.microphone = choice;
            },
            Slot::Reference => {
                self.reference = choice;
            },
            Slot::Handoff => {
                self.handoff_render = choice;
                self.approved_handoff_id = None;
                self.auto_start_bridge = false;
            },
            Slot::Downstream => {
                self.downstream_capture = choice;
            },
        }
    }

    /// What is chosen in a slot.
    pub fn choice(&self, slot: Slot) -> (choice: &Option<SavedEndpoint>)
        ensures
            choice.deep_view() == self@.chosen(slot),
    {
        match slot {
            Slot::Microphone => &self.microphone,
            Slot::Reference => &self.reference,
            Slot::Handoff => &self.handoff_render,
            Slot::Downstream => &self.downstream_capture,
        }
    }

    fn approve(&mut self, confirmed: bool)
        requires
            confirmed ==> old(self)@.handoff_render is Some,
        ensures
            final(self)@ == old(self)@.approving(confirmed),
    {
        if confirmed {
            let id = self.handoff_render.as_ref().unwrap().id.clone();
            self.approved_handoff_id = Some(id);
        } else {
            self.approved_handoff_id = None;
            self.auto_start_bridge = false;
        }
    }
}

impl AecBridgeApp {
    /// Whether the program is registered to be opened at sign-in, in whatever way.
    pub fn login_startup_registered(&self) -> (registered: bool)
        ensures
            registered == self@.registered(),
    {
        match &self.login_startup_status {
            Some(LoginStartupStatus::Current) => true,
            Some(LoginStartupStatus::Stale { .. }) => true,
            _ => false,
        }
    }

    /// Whether the program is registered to be opened at sign-in as it is.
    pub fn login_startup_is_current(&self) -> (current: bool)
        ensures
            current == self@.registration_current(),
    {
        match &self.login_startup_status {
            Some(LoginStartupStatus::Current) => true,
            _ => false,
        }
    }

    /// Whether the user can turn the start by itself on or off.
    pub fn auto_start_available(&self) -> (available: bool)
        ensures
            available == self@.auto_start_available(),
    {
        self.settings.auto_start_bridge || (self.login_startup_is_current()
            && self.settings.automatic_start_configuration_problem().is_none())
    }

    fn take_choice(&mut self, slot: Slot, choice: Option<SavedEndpoint>)
        ensures
            final(self)@ == old(self)@.resettled(
                old(self)@.settings.choosing(slot, choice.deep_view()),
            ),
            old(self)@.in_order() ==> final(self)@.in_order(),
            old(self)@.unattended_start_is_approved()
                ==> final(self)@.unattended_start_is_approved(),
    {
        self.settings.put(slot, choice);
        self.error = None;
    }

    /// Chooses an endpoint, or none, in a slot. Says whether the active bridge is told to stop.
    pub fn choose_endpoint(
        &mut self,
        slot: Slot,
        endpoint: Option<&EndpointDescriptor>,
        now: &Moment,
    ) -> (stop_bridge: bool)
        ensures
            (final(self)@, stop_bridge) == old(self)@.endpoint_chosen(
                slot,
                match endpoint {
                    Some(endpoint) => Some(remembered(endpoint@)),
                    None => None,
                },
                now@,
            ),
            old(self)@.in_order() ==> final(self)@.in_order(),
            old(self)@.unattended_start_is_approved()
                ==> final(self)@.unattended_start_is_approved(),
    {
        let choice = match endpoint {
            Some(endpoint) => Some(SavedEndpoint::from_descriptor(endpoint)),
            None => None,
        };
        if same_selection(self.settings.choice(slot), &choice) {
            return false;
        }
        self.take_choice(slot, choice);
        self.cancel_for(slot, now)
    }

    fn cancel_for(&mut self, slot: Slot, now: &Moment) -> (stop_bridge: bool)
        ensures
            (final(self)@, stop_bridge) == old(self)@.cancelled_for(slot, now@),
            final(self)@.settings == old(self)@.settings,
            old(self)@.in_order() ==> final(self)@.in_order(),
    {
        match cancel_words(slot) {
            Some(reason) => self.cancel_login_auto_start(reason, now),
            None => false,
        }
    }

    fn take_method(&mut self, mode: ReferenceMode)
        ensures
            final(self)@ == old(self)@.resettled(
                (SettingsView { reference_mode: mode, reference: None, ..old(self)@.settings }),
            ),
    {
        self.settings.reference_mode = mode;
        self.settings.reference = None;
        self.error = None;
    }

    /// Chooses how the reference is read. Says whether the active bridge is told to stop.
    pub fn choose_reference_mode(&mut self, mode: ReferenceMode, now: &Moment) -> (stop_bridge:
        bool)
        ensures
            (final(self)@, stop_bridge) == old(self)@.method_chosen(mode, now@),
            old(self)@.in_order() ==> final(self)@.in_order(),
            old(self)@.unattended_start_is_approved()
                ==> final(self)@.unattended_start_is_approved(),
    {
        if self.settings.reference_mode == mode {
            return false;
        }
        self.take_method(mode);
        self.cancel_login_auto_start("the reference method changed", now)
    }

    fn take_approval(&mut self, confirmed: bool)
        requires
            confirmed ==> old(self)@.settings.handoff_render is Some,
        ensures
            final(self)@ == old(self)@.resettled(old(self)@.settings.approving(confirmed)),
    {
        self.settings.approve(confirmed);
        self.error = None;
    }

    /// Confirms that the chosen output is a virtual cable, or takes that back. Says whether the
    /// active bridge is told to stop.
    pub fn confirm_handoff(&mut self, confirmed: bool, now: &Moment) -> (stop_bridge: bool)
        requires
            confirmed ==> old(self)@.settings.handoff_render is Some,
        ensures
            (final(self)@, stop_bridge) == old(self)@.handoff_confirmed(confirmed, now@),
            old(self)@.in_order() ==> final(self)@.in_order(),
            final(self)@.unattended_start_is_approved(),
    {
        self.take_approval(confirmed);
        if confirmed {
            false
        } else {
            self.cancel_login_auto_start("the virtual output approval was removed", now)
        }
    }

    /// Turns the start by itself on or off. Says whether the active bridge is told to stop.
    pub fn set_auto_start(&mut self, enabled: bool, now: &Moment) -> (stop_bridge: bool)
        requires
            enabled ==> old(self)@.auto_start_available(),
        ensures
            (final(self)@, stop_bridge) == old(self)@.auto_start_set(enabled, now@),
            old(self)@.in_order() ==> final(self)@.in_order(),
            old(self)@.unattended_start_is_approved()
                ==> final(self)@.unattended_start_is_approved(),
    {
        self.put_auto_start(enabled);
        if enabled {
            self.push_log("Automatic bridge start enabled for future Windows sign-ins.", now);
            false
        } else {
            self.end_auto_start(now)
        }
    }

    fn put_auto_start(&mut self, enabled: bool)
        ensures
            final(self)@ == (AppView {
                settings: SettingsView { auto_start_bridge: enabled, ..old(self)@.settings },
                ..old(self)@
            }),
    {
        self.settings.auto_start_bridge = enabled;
    }

    fn end_auto_start(&mut self, now: &Moment) -> (stop_bridge: bool)
        ensures
            ({
                let (cancelled, stop) = old(self)@.start_cancelled(
                    "automatic bridge start was disabled"@,
                    now@,
                );
                &&& final(self)@ == cancelled.logged("Automatic bridge start disabled."@, now@)
                &&& stop_bridge == stop
            }),
            old(self)@.in_order() ==> final(self)@.in_order(),
    {
        let stop_bridge = self.cancel_login_auto_start("automatic bridge start was disabled", now);
        self.push_log("Automatic bridge start disabled.", now);
        stop_bridge
    }

    fn take_registration(&mut self, now: &Moment)
        ensures
            final(self)@ == old(self)@.registered_now(now@),
            old(self)@.in_order() ==> final(self)@.in_order(),
    {
        self.startup_error = None;
        self.login_startup_status = Some(LoginStartupStatus::Current);
        self.startup_notice = Some(
            "Startup registration added. Windows Startup Apps can still disable it.".to_owned(),
        );
        self.push_log("Windows sign-in startup enabled for the current executable.", now);
    }

    fn drop_registration(&mut self)
        ensures
            final(self)@ == (AppView {
                startup_error: None,
                login_startup_status: Some(LoginStartupStatusView::Disabled),
                settings: SettingsView { auto_start_bridge: false, ..old(self)@.settings },
                ..old(self)@
            }),
    {
        self.startup_error = None;
        self.login_startup_status = Some(LoginStartupStatus::Disabled);
        self.settings.auto_start_bridge = false;
    }

    fn take_unregistration(&mut self, now: &Moment) -> (stop_bridge: bool)
        ensures
            (final(self)@, stop_bridge) == old(self)@.unregistered_now(now@),
            old(self)@.in_order() ==> final(self)@.in_order(),
    {
        self.drop_registration();
        let stop_bridge = self.cancel_login_auto_start("Windows sign-in startup was disabled", now);
        self.startup_notice = Some("Windows sign-in startup is disabled.".to_owned());
        self.push_log("Windows sign-in startup disabled.", now);
        stop_bridge
    }

    fn take_registration_failure(&mut self, enabled: bool, error: &str, now: &Moment)
        ensures
            final(self)@ == old(self)@.registration_refused(enabled, error@, now@),
            old(self)@.in_order() ==> final(self)@.in_order(),
    {
        let mut message = "Could not ".to_owned();
        if enabled {
            message.append("enable");
        } else {
            message.append("disable");
        }
        message.append(" Windows sign-in startup: ");
        message.append(error);
        let mut line = "ERROR: ".to_owned();
        line.append(message.as_str());
        self.startup_notice = None;
        self.startup_error = Some(message);
        self.push_log(line.as_str(), now);
    }

    /// Takes in what came of making the registration for sign-in, or of taking it away. Says
    /// whether the active bridge is told to stop.
    pub fn login_startup_changed(&mut self, enabled: bool, result: Result<(), String>, now: &Moment)
        -> (stop_bridge: bool)
        ensures
            (final(self)@, stop_bridge) == old(self)@.registration_changed(
                enabled,
                match result {
                    Ok(_) => Ok(()),
                    Err(error) => Err(error@),
                },
                now@,
            ),
            old(self)@.in_order() ==> final(self)@.in_order(),
            old(self)@.unattended_start_is_approved()
                ==> final(self)@.unattended_start_is_approved(),
    {
        match result {
            Err(error) => {
                self.take_registration_failure(enabled, error.as_str(), now);
                false
            },
            Ok(_) => {
                if enabled {
                    self.take_registration(now);
                    return false;
                }
                self.take_unregistration(now)
            },
        }
    }

    /// Turns the colours over, and says whether they are the dark ones now.
    pub fn toggle_theme(&mut self) -> (dark_mode: bool)
        ensures
            final(self)@ == (AppView {
                settings: SettingsView {
                    dark_mode: !old(self)@.settings.dark_mode,
                    ..old(self)@.settings
                },
                ..old(self)@
            }),
            dark_mode == final(self)@.settings.dark_mode,
            old(self)@.in_order() ==> final(self)@.in_order(),
    {
        self.settings.dark_mode = !self.settings.dark_mode;
        self.settings.dark_mode
    }

    /// Runs what stands in the command field, which is empty then.
    pub fn run_entered_command(&mut self, now: &Moment) -> (outcome: Outcome)
        ensures
            (final(self)@, outcome@) == (AppView {
                diagnostic_command: Seq::empty(),
                ..old(self)@
            }).line_entered(old(self)@.diagnostic_command, now@),
            old(self)@.in_order() ==> final(self)@.in_order(),
    {
        let line = self.diagnostic_command.clone();
        self.diagnostic_command = String::new();
        self.execute_diagnostic_command(line.as_str(), now)
    }
}

} // verus!
