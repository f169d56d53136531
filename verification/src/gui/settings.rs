//! What the control panel remembers from one session to the next.

use crate::devices::{EndpointDescriptor, EndpointDescriptorView};
use crate::text::same_optional_text;
use crate::ReferenceMode;
use vstd::prelude::*;

verus! {

/// An endpoint that was chosen: its identifier, and the name that it had.
#[derive(Debug, PartialEq, Eq)]
pub struct SavedEndpoint {
    pub id: String,
    pub last_name: String,
}

/// A chosen endpoint with its texts by characters.
pub struct SavedEndpointView {
    pub id: Seq<char>,
    pub last_name: Seq<char>,
}

impl View for SavedEndpoint {
    type V = SavedEndpointView;

    open spec fn view(&self) -> SavedEndpointView {
        SavedEndpointView { id: self.id@, last_name: self.last_name@ }
    }
}

impl DeepView for SavedEndpoint {
    type V = SavedEndpointView;

    open spec fn deep_view(&self) -> SavedEndpointView {
        self@
    }
}

impl Clone for SavedEndpoint {
    fn clone(&self) -> (copy: Self)
        ensures
            copy@ == self@,
    {
        SavedEndpoint { id: self.id.clone(), last_name: self.last_name.clone() }
    }
}

/// What is remembered of an endpoint.
pub open spec fn remembered(endpoint: EndpointDescriptorView) -> SavedEndpointView {
    SavedEndpointView { id: endpoint.id, last_name: endpoint.name }
}

impl SavedEndpoint {
    /// What is remembered of an endpoint.
    pub fn from_descriptor(endpoint: &EndpointDescriptor) -> (saved: SavedEndpoint)
        ensures
            saved@ == remembered(endpoint@),
    {
        SavedEndpoint { id: endpoint.id.clone(), last_name: endpoint.name.clone() }
    }
}

/// Whether two choices are equal.
pub fn same_selection(left: &Option<SavedEndpoint>, right: &Option<SavedEndpoint>) -> (same: bool)
    ensures
        same == (left.deep_view() == right.deep_view()),
{
    match (left, right) {
        (None, None) => true,
        (Some(one), Some(other)) => one.id == other.id && one.last_name == other.last_name,
        _ => false,
    }
}

fn copy_selection(selection: &Option<SavedEndpoint>) -> (copy: Option<SavedEndpoint>)
    ensures
        copy.deep_view() == selection.deep_view(),
{
    match selection {
        Some(saved) => Some(saved.clone()),
        None => None,
    }
}

/// The settings that the control panel keeps.
#[derive(Debug, PartialEq)]
pub struct PersistedSettings {
    pub microphone: Option<SavedEndpoint>,
    pub reference: Option<SavedEndpoint>,
    pub reference_mode: ReferenceMode,
    /// The rendering side of the virtual cable.
    pub handoff_render: Option<SavedEndpoint>,
    /// The capturing side of the virtual cable, for the user's information.
    pub downstream_capture: Option<SavedEndpoint>,
    pub capture_delay_ms: u32,
    pub stream_delay_ms: i32,
    pub dark_mode: bool,
    /// The output that the user has confirmed to be a virtual cable.
    pub approved_handoff_id: Option<String>,
    /// Whether the bridge starts by itself after a sign-in.
    pub auto_start_bridge: bool,
    pub minimize_to_tray: bool,
}

/// The settings with their texts by characters.
pub struct SettingsView {
    pub microphone: Option<SavedEndpointView>,
    pub reference: Option<SavedEndpointView>,
    pub reference_mode: ReferenceMode,
    pub handoff_render: Option<SavedEndpointView>,
    pub downstream_capture: Option<SavedEndpointView>,
    pub capture_delay_ms: u32,
    pub stream_delay_ms: i32,
    pub dark_mode: bool,
    pub approved_handoff_id: Option<Seq<char>>,
    pub auto_start_bridge: bool,
    pub minimize_to_tray: bool,
}

impl View for PersistedSettings {
    type V = SettingsView;

    open spec fn view(&self) -> SettingsView {
        SettingsView {
            microphone: self.microphone.deep_view(),
            reference: self.reference.deep_view(),
            reference_mode: self.reference_mode,
            handoff_render: self.handoff_render.deep_view(),
            downstream_capture: self.downstream_capture.deep_view(),
            capture_delay_ms: self.capture_delay_ms,
            stream_delay_ms: self.stream_delay_ms,
            dark_mode: self.dark_mode,
            approved_handoff_id: self.approved_handoff_id.deep_view(),
            auto_start_bridge: self.auto_start_bridge,
            minimize_to_tray: self.minimize_to_tray,
        }
    }
}

impl SettingsView {
    /// The settings of a first session: nothing is chosen, nothing happens by itself.
    pub open spec fn initial() -> SettingsView {
        SettingsView {
            microphone: None,
            reference: None,
            reference_mode: ReferenceMode::Loopback,
            handoff_render: None,
            downstream_capture: None,
            capture_delay_ms: 20,
            stream_delay_ms: 0,
            dark_mode: true,
            approved_handoff_id: None,
            auto_start_bridge: false,
            minimize_to_tray: false,
        }
    }

    /// Whether the user has confirmed that the chosen output is a virtual cable.
    pub open spec fn handoff_approved(self) -> bool {
        match (self.handoff_render, self.approved_handoff_id) {
            (Some(handoff), Some(approved)) => handoff.id == approved,
            _ => false,
        }
    }

    /// What keeps the bridge from starting by itself, if anything: a missing choice, a choice that
    /// would feed the bridge its own audio, or an output that is not confirmed.
    pub open spec fn configuration_problem(self) -> Option<Seq<char>> {
        if self.microphone is None {
            Some("Select a raw microphone first."@)
        } else if self.reference is None {
            Some("Select an echo reference first."@)
        } else if self.handoff_render is None {
            Some("Select a virtual cable output first."@)
        } else if self.microphone->0.id == self.reference->0.id {
            Some("The microphone and echo reference must be different devices."@)
        } else if self.reference_mode == ReferenceMode::Loopback && self.reference->0.id
            == self.handoff_render->0.id {
            Some("The playback reference and virtual cable output must be different devices."@)
        } else if !self.handoff_approved() {
            Some(
                "Confirm that the selected handoff is a virtual cable before enabling automatic start."@,
            )
        } else {
            None
        }
    }
}

impl Default for PersistedSettings {
    fn default() -> (settings: Self)
        ensures
            settings@ == SettingsView::initial(),
    {
        PersistedSettings {
            microphone: None,
            reference: None,
            reference_mode: ReferenceMode::Loopback,
            handoff_render: None,
            downstream_capture: None,
            capture_delay_ms: 20,
            stream_delay_ms: 0,
            dark_mode: true,
            approved_handoff_id: None,
            auto_start_bridge: false,
            minimize_to_tray: false,
        }
    }
}

impl Clone for PersistedSettings {
    fn clone(&self) -> (copy: Self)
        ensures
            copy@ == self@,
    {
        PersistedSettings {
            microphone: copy_selection(&self.microphone),
            reference: copy_selection(&self.reference),
            reference_mode: self.reference_mode,
            handoff_render: copy_selection(&self.handoff_render),
            downstream_capture: copy_selection(&self.downstream_capture),
            capture_delay_ms: self.capture_delay_ms,
            stream_delay_ms: self.stream_delay_ms,
            dark_mode: self.dark_mode,
            approved_handoff_id: match &self.approved_handoff_id {
                Some(id) => Some(id.clone()),
                None => None,
            },
            auto_start_bridge: self.auto_start_bridge,
            minimize_to_tray: self.minimize_to_tray,
        }
    }
}

impl PersistedSettings {
    /// Whether the user has confirmed that the chosen output is a virtual cable. Another output
    /// needs a confirmation of its own.
    pub fn handoff_is_approved(&self) -> (approved: bool)
        ensures
            approved == self@.handoff_approved(),
    {
        match (&self.handoff_render, &self.approved_handoff_id) {
            (Some(handoff), Some(approved_id)) => handoff.id == *approved_id,
            _ => false,
        }
    }

    /// What keeps the bridge from starting by itself, if anything.
    pub fn automatic_start_configuration_problem(&self) -> (problem: Option<String>)
        ensures
            problem.deep_view() == self@.configuration_problem(),
    {
        let microphone = match &self.microphone {
            Some(saved) => saved,
            None => return Some("Select a raw microphone first.".to_owned()),
        };
        let reference = match &self.reference {
            Some(saved) => saved,
            None => return Some("Select an echo reference first.".to_owned()),
        };
        let handoff = match &self.handoff_render {
            Some(saved) => saved,
            None => return Some("Select a virtual cable output first.".to_owned()),
        };
        if microphone.id == reference.id {
            return Some(
                "The microphone and echo reference must be different devices.".to_owned(),
            );
        }
        if self.reference_mode == ReferenceMode::Loopback && reference.id == handoff.id {
            return Some(
                "The playback reference and virtual cable output must be different devices.".to_owned(),
            );
        }
        if !self.handoff_is_approved() {
            return Some(
                "Confirm that the selected handoff is a virtual cable before enabling automatic start.".to_owned(),
            );
        }
        None
    }
}

/// The name of a choice, or a stand-in where nothing is chosen.
pub open spec fn name_or(selected: Option<SavedEndpointView>, fallback: Seq<char>) -> Seq<char> {
    match selected {
        Some(saved) => saved.last_name,
        None => fallback,
    }
}

/// The name of a choice, or `fallback` where nothing is chosen.
pub fn saved_endpoint_name(selected: &Option<SavedEndpoint>, fallback: &str) -> (name: String)
    ensures
        name@ == name_or(selected.deep_view(), fallback@),
{
    match selected {
        Some(saved) => saved.last_name.clone(),
        None => fallback.to_owned(),
    }
}

/// Whether a change of the settings has to be safe on disk at once: it has where the bridge starts
/// or started unattended, where the window's hiding changed, or where the output or its
/// confirmation did.
pub open spec fn flush_required(previous: SettingsView, current: SettingsView) -> bool {
    ||| previous.auto_start_bridge
    ||| current.auto_start_bridge
    ||| previous.minimize_to_tray != current.minimize_to_tray
    ||| previous.approved_handoff_id != current.approved_handoff_id
    ||| previous.handoff_render != current.handoff_render
}

/// Whether a change of the settings has to be safe on disk at once.
pub fn settings_change_requires_flush(
    previous: &PersistedSettings,
    current: &PersistedSettings,
) -> (required: bool)
    ensures
        required == flush_required(previous@, current@),
{
    previous.auto_start_bridge || current.auto_start_bridge || previous.minimize_to_tray
        != current.minimize_to_tray || !same_optional_text(
        &previous.approved_handoff_id,
        &current.approved_handoff_id,
    ) || !same_selection(&previous.handoff_render, &current.handoff_render)
}

/// What is done with the settings after the user had a turn.
#[derive(Clone, Copy, Debug, PartialEq, Eq, Structural)]
pub enum Keeping {
    /// Nothing changed.
    Nothing,
    /// They are stored, and written out with the next regular save.
    Store,
    /// They are stored and written out at once.
    StoreAndFlush,
}

/// What is done with the settings after a turn.
pub open spec fn kept(previous: SettingsView, current: SettingsView) -> Keeping {
    if previous == current {
        Keeping::Nothing
    } else if flush_required(previous, current) {
        Keeping::StoreAndFlush
    } else {
        Keeping::Store
    }
}

/// Decides what is done with the settings after the user had a turn.
pub fn keeping(previous: &PersistedSettings, current: &PersistedSettings) -> (keeping: Keeping)
    ensures
        keeping == if previous@ == current@ {
            Keeping::Nothing
        } else if flush_required(previous@, current@) {
            Keeping::StoreAndFlush
        } else {
            Keeping::Store
        },
        keeping == kept(previous@, current@),
{
    let unchanged = same_selection(&previous.microphone, &current.microphone) && same_selection(
        &previous.reference,
        &current.reference,
    ) && previous.reference_mode == current.reference_mode && same_selection(
        &previous.handoff_render,
        &current.handoff_render,
    ) && same_selection(&previous.downstream_capture, &current.downstream_capture)
        && previous.capture_delay_ms == current.capture_delay_ms && previous.stream_delay_ms
        == current.stream_delay_ms && previous.dark_mode == current.dark_mode
        && same_optional_text(&previous.approved_handoff_id, &current.approved_handoff_id)
        && previous.auto_start_bridge == current.auto_start_bridge && previous.minimize_to_tray
        == current.minimize_to_tray;
    if unchanged {
        Keeping::Nothing
    } else if settings_change_requires_flush(previous, current) {
        Keeping::StoreAndFlush
    } else {
        Keeping::Store
    }
}

/// Settings that let the bridge start by themselves name three endpoints; the microphone is not
/// the reference, a loopback reference is not the output, and the output is the one that the user
/// confirmed.
pub proof fn startable_settings_are_safe(settings: SettingsView)
    requires
        settings.configuration_problem() is None,
    ensures
        settings.microphone is Some,
        settings.reference is Some,
        settings.handoff_render is Some,
        settings.microphone->0.id != settings.reference->0.id,
        settings.reference_mode == ReferenceMode::Loopback ==> settings.reference->0.id
            != settings.handoff_render->0.id,
        settings.approved_handoff_id == Some(settings.handoff_render->0.id),
{
}

/// A confirmation counts for the output that it was given for and for no other.
pub proof fn approval_is_for_one_output(settings: SettingsView, other: SavedEndpointView)
    requires
        settings.handoff_approved(),
        other.id != settings.handoff_render->0.id,
    ensures
        !(SettingsView { handoff_render: Some(other), ..settings }).handoff_approved(),
{
}

/// The settings let the bridge start by themselves exactly where all three endpoints are chosen, the
/// bridge would not hear itself, and the confirmed output is the chosen one.
pub proof fn settings_let_start_exactly_where_safe(settings: SettingsView)
    ensures
        settings.configuration_problem() is None <==> {
            &&& settings.microphone is Some
            &&& settings.reference is Some
            &&& settings.handoff_render is Some
            &&& settings.microphone->0.id != settings.reference->0.id
            &&& settings.reference_mode == ReferenceMode::Capture || settings.reference->0.id
                != settings.handoff_render->0.id
            &&& settings.approved_handoff_id == Some(settings.handoff_render->0.id)
        },
        settings.handoff_approved() <==> settings.handoff_render is Some
            && settings.approved_handoff_id == Some(settings.handoff_render->0.id),
{
}

/// In a first session nothing is chosen, confirmed or done unasked; the microphone is held back for
/// 20 milliseconds, and the reference is a loopback.
pub proof fn a_first_session_does_nothing_unasked()
    ensures
        ({
            let settings = SettingsView::initial();
            &&& settings.microphone is None && settings.reference is None
            &&& settings.handoff_render is None && settings.downstream_capture is None
            &&& settings.approved_handoff_id is None
            &&& !settings.auto_start_bridge
            &&& !settings.minimize_to_tray
            &&& settings.capture_delay_ms == 20
            &&& settings.stream_delay_ms == 0
            &&& settings.reference_mode == ReferenceMode::Loopback
            &&& settings.dark_mode
            &&& settings.configuration_problem() is Some
        }),
{
}

/// A change is written out at once, in whichever direction it goes, where the bridge starts by
/// itself before or after it, or where it touches the output, its confirmation, or the hiding of the
/// window. Any other change can wait.
pub proof fn what_matters_unattended_is_written_at_once(one: SettingsView, other: SettingsView)
    ensures
        flush_required(one, other) == flush_required(other, one),
        one.auto_start_bridge ==> flush_required(one, other),
        one.handoff_render != other.handoff_render ==> flush_required(one, other),
        one.approved_handoff_id != other.approved_handoff_id ==> flush_required(one, other),
        one.minimize_to_tray != other.minimize_to_tray ==> flush_required(one, other),
        !one.auto_start_bridge && other == (SettingsView {
            microphone: other.microphone,
            reference: other.reference,
            reference_mode: other.reference_mode,
            downstream_capture: other.downstream_capture,
            capture_delay_ms: other.capture_delay_ms,
            stream_delay_ms: other.stream_delay_ms,
            dark_mode: other.dark_mode,
            ..one
        }) ==> !flush_required(one, other),
{
}

/// What is remembered of an endpoint is its identifier and its name.
pub proof fn an_endpoint_is_remembered_by_its_identifier(endpoint: EndpointDescriptorView)
    ensures
        remembered(endpoint).id == endpoint.id,
        remembered(endpoint).last_name == endpoint.name,
        name_or(Some(remembered(endpoint)), endpoint.format) == endpoint.name,
        name_or(None, endpoint.format) == endpoint.format,
{
}

/// No change is lost: the settings are left alone exactly where nothing changed, and a change of the
/// output or its confirmation, or any change while the bridge starts by itself, is written at once.
pub proof fn no_change_is_lost(previous: SettingsView, current: SettingsView)
    ensures
        kept(previous, current) == Keeping::Nothing <==> previous == current,
        previous != current && current.auto_start_bridge ==> kept(previous, current)
            == Keeping::StoreAndFlush,
        previous.handoff_render != current.handoff_render || previous.approved_handoff_id
            != current.approved_handoff_id ==> kept(previous, current) == Keeping::StoreAndFlush,
        previous.dark_mode != current.dark_mode || previous.capture_delay_ms
            != current.capture_delay_ms || previous.stream_delay_ms != current.stream_delay_ms
            ==> kept(previous, current) != Keeping::Nothing,
{
}

/// The problem that is told is the first there is: the microphone, the reference, the output, then a
/// bridge that would hear itself, then an output that is not confirmed.
pub proof fn the_first_problem_is_told(settings: SettingsView)
    ensures
        ({
            let problem = settings.configuration_problem();
            let chosen = settings.microphone is Some && settings.reference is Some
                && settings.handoff_render is Some;
            let same = settings.microphone->0.id == settings.reference->0.id;
            let looped = settings.reference_mode == ReferenceMode::Loopback
                && settings.reference->0.id == settings.handoff_render->0.id;
            &&& settings.microphone is None ==> problem == Some("Select a raw microphone first."@)
            &&& settings.microphone is Some && settings.reference is None ==> problem == Some(
                "Select an echo reference first."@,
            )
            &&& settings.microphone is Some && settings.reference is Some
                && settings.handoff_render is None ==> problem == Some(
                "Select a virtual cable output first."@,
            )
            &&& chosen && same ==> problem == Some(
                "The microphone and echo reference must be different devices."@,
            )
            &&& chosen && !same && looped ==> problem == Some(
                "The playback reference and virtual cable output must be different devices."@,
            )
        }),
{
}

} // verus!
