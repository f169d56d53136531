//! Echo-cancelling microphone bridge: the decisions behind the command line, the control panel
//! and the audio threads.

pub mod bridge;
pub mod clock;
pub mod devices;
pub mod engine;
pub mod gui;
pub mod processor;
pub mod ring;
pub mod samples;
pub mod startup;
pub mod supervisor;
pub mod text;
pub mod tray;
pub mod wasapi_io;

use vstd::prelude::*;

verus! {

/// Where the far-end reference is read from.
#[derive(Clone, Copy, Debug, PartialEq, Eq, Structural)]
pub enum ReferenceMode {
    /// The headphones or speakers themselves, through playback loopback.
    Loopback,
    /// An existing recording device or virtual listening mix.
    Capture,
}

impl Default for ReferenceMode {
    fn default() -> (mode: Self)
        ensures
            mode == ReferenceMode::Loopback,
    {
        ReferenceMode::Loopback
    }
}

/// The three endpoints of a bridge, each by name, part of a name, or stable identifier.
#[derive(Debug)]
pub struct EndpointArgs {
    /// The physical microphone.
    pub mic: String,
    /// The far-end reference.
    pub reference: String,
    pub reference_mode: ReferenceMode,
    /// The rendering side of the virtual cable that receives the cleaned microphone.
    pub output: String,
}

/// The endpoints of a bridge with their texts by characters.
pub struct EndpointArgsView {
    pub mic: Seq<char>,
    pub reference: Seq<char>,
    pub reference_mode: ReferenceMode,
    pub output: Seq<char>,
}

impl View for EndpointArgs {
    type V = EndpointArgsView;

    open spec fn view(&self) -> EndpointArgsView {
        EndpointArgsView {
            mic: self.mic@,
            reference: self.reference@,
            reference_mode: self.reference_mode,
            output: self.output@,
        }
    }
}

/// What a bridge is started with.
#[derive(Debug)]
pub struct RunArgs {
    pub endpoints: EndpointArgs,
    /// How long microphone audio is held so that the reference reaches the canceller first.
    pub capture_delay_ms: u32,
    /// The delay estimate that the canceller is given.
    pub stream_delay_ms: i32,
    /// Seconds until the bridge stops by itself; zero for never.
    pub duration_seconds: u64,
    /// Whether the raw microphone passes through without echo cancellation.
    pub bypass: bool,
    /// Whether the virtual cable receives silence.
    pub mute_output: bool,
}

/// What a bridge is started with, with texts by characters.
pub struct RunArgsView {
    pub endpoints: EndpointArgsView,
    pub capture_delay_ms: u32,
    pub stream_delay_ms: i32,
    pub duration_seconds: u64,
    pub bypass: bool,
    pub mute_output: bool,
}

impl View for RunArgs {
    type V = RunArgsView;

    open spec fn view(&self) -> RunArgsView {
        RunArgsView {
            endpoints: self.endpoints@,
            capture_delay_ms: self.capture_delay_ms,
            stream_delay_ms: self.stream_delay_ms,
            duration_seconds: self.duration_seconds,
            bypass: self.bypass,
            mute_output: self.mute_output,
        }
    }
}

} // verus!
