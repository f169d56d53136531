//! The bridge: its reports, its counters, its plan and its rings.

use crate::devices::{
    failure_of, first_failure, reference_flow, reference_flow_of, validate_format, validated,
    validation_in_numbers, AudioDeviceView, Flow, ResolvedEndpoints,
};
use crate::ring::{
    inflow, new_ring, outflow, reads_in_order, received, room, sent, waiting, writes_in_order,
    SampleConsumer, SampleProducer,
};
use crate::text::{decimal, digits, signed_decimal, signed_digits};
use crate::wasapi_io::{CaptureMode, Endpoint};
use crate::{ReferenceMode, RunArgs, RunArgsView};
use vstd::prelude::*;

verus! {

/// The sample rate of every stream.
pub const SAMPLE_RATE: u32 = 48_000;

/// The samples of one channel that are processed at a time.
pub const FRAME_SAMPLES: usize = 480;

/// The seconds of audio that each ring has room for.
pub const RING_SECONDS: usize = 2;

/// What the audio threads count, each on its own.
#[derive(Debug, Default)]
pub struct Counters {
    pub mic_dropped: core::sync::atomic::AtomicU64,
    pub reference_dropped: core::sync::atomic::AtomicU64,
    pub output_dropped: core::sync::atomic::AtomicU64,
    pub output_underruns: core::sync::atomic::AtomicU64,
    pub mic_discontinuities: core::sync::atomic::AtomicU64,
    pub reference_discontinuities: core::sync::atomic::AtomicU64,
}

/// What the counters read at one moment.
#[derive(Clone, Copy, Debug, PartialEq, Eq, Structural)]
pub struct CounterReadings {
    pub mic_dropped: u64,
    pub reference_dropped: u64,
    pub output_dropped: u64,
    pub output_underruns: u64,
    pub mic_discontinuities: u64,
    pub reference_discontinuities: u64,
}

impl CounterReadings {
    /// The three counts of dropped samples.
    pub open spec fn drops(self) -> Seq<char> {
        digits(self.mic_dropped as nat) + "/"@ + digits(self.reference_dropped as nat) + "/"@
            + digits(self.output_dropped as nat)
    }

    /// The two counts of gaps.
    pub open spec fn gaps(self) -> Seq<char> {
        digits(self.mic_discontinuities as nat) + "/"@ + digits(
            self.reference_discontinuities as nat,
        )
    }

    /// What a bridge says of itself when it stops.
    pub open spec fn stop_summary(self) -> Seq<char> {
        "Dropped samples mic/ref/out="@ + self.drops() + "; output underruns="@ + digits(
            self.output_underruns as nat,
        ) + "; capture discontinuities mic/ref="@ + self.gaps()
    }

    /// What a bridge says of itself while it runs: the two figures of the canceller as they are
    /// shown, its delay, and the counters.
    pub open spec fn metrics(
        self,
        return_loss: Seq<char>,
        enhancement: Seq<char>,
        delay_ms: Option<i32>,
    ) -> Seq<char> {
        "ERL="@ + return_loss + " dB, ERLE="@ + enhancement + " dB, delay="@ + delay_text(delay_ms)
            + " ms | drops mic/ref/out="@ + self.drops() + " underruns="@ + digits(
            self.output_underruns as nat,
        ) + " discontinuities="@ + self.gaps()
    }
}

/// A delay as it is shown: a dash where none is known.
pub open spec fn delay_text(delay_ms: Option<i32>) -> Seq<char> {
    match delay_ms {
        Some(delay) => signed_digits(delay as int),
        None => "-"@,
    }
}

fn drops_text(readings: &CounterReadings) -> (text: String)
    ensures
        text@ == readings.drops(),
{
    let mut text = decimal(readings.mic_dropped);
    text.append("/");
    text.append(decimal(readings.reference_dropped).as_str());
    text.append("/");
    text.append(decimal(readings.output_dropped).as_str());
    text
}

fn gaps_text(readings: &CounterReadings) -> (text: String)
    ensures
        text@ == readings.gaps(),
{
    let mut text = decimal(readings.mic_discontinuities);
    text.append("/");
    text.append(decimal(readings.reference_discontinuities).as_str());
    text
}

/// What the bridge says of itself when it stops.
pub fn stop_summary(readings: &CounterReadings) -> (text: String)
    ensures
        text@ == readings.stop_summary(),
{
    let mut text = "Dropped samples mic/ref/out=".to_owned();
    text.append(drops_text(readings).as_str());
    text.append("; output underruns=");
    text.append(decimal(readings.output_underruns).as_str());
    text.append("; capture discontinuities mic/ref=");
    text.append(gaps_text(readings).as_str());
    text
}

/// What the bridge says of itself while it runs.
pub fn metrics_summary(
    return_loss: &str,
    enhancement: &str,
    delay_ms: Option<i32>,
    readings: &CounterReadings,
) -> (text: String)
    ensures
        text@ == readings.metrics(return_loss@, enhancement@, delay_ms),
{
    let mut text = "ERL=".to_owned();
    text.append(return_loss);
    text.append(" dB, ERLE=");
    text.append(enhancement);
    text.append(" dB, delay=");
    match delay_ms {
        Some(delay) => text.append(signed_decimal(delay).as_str()),
        None => text.append("-"),
    }
    text.append(" ms | drops mic/ref/out=");
    text.append(drops_text(readings).as_str());
    text.append(" underruns=");
    text.append(decimal(readings.output_underruns).as_str());
    text.append(" discontinuities=");
    text.append(gaps_text(readings).as_str());
    text
}

/// What a running bridge reports.
#[derive(Debug)]
pub enum BridgeEvent {
    Starting,
    StreamStarted { label: &'static str, buffer_frames: u32 },
    Running,
    Metrics(String),
    Stopped(String),
    Failed(String),
}

/// A report of the bridge with its texts by characters.
pub enum BridgeEventView {
    Starting,
    StreamStarted { label: Seq<char>, buffer_frames: u32 },
    Running,
    Metrics(Seq<char>),
    Stopped(Seq<char>),
    Failed(Seq<char>),
}

impl View for BridgeEvent {
    type V = BridgeEventView;

    open spec fn view(&self) -> BridgeEventView {
        match self {
            BridgeEvent::Starting => BridgeEventView::Starting,
            BridgeEvent::StreamStarted { label, buffer_frames } => BridgeEventView::StreamStarted {
                label: label@,
                buffer_frames: *buffer_frames,
            },
            BridgeEvent::Running => BridgeEventView::Running,
            BridgeEvent::Metrics(summary) => BridgeEventView::Metrics(summary@),
            BridgeEvent::Stopped(summary) => BridgeEventView::Stopped(summary@),
            BridgeEvent::Failed(message) => BridgeEventView::Failed(message@),
        }
    }
}

impl Clone for BridgeEvent {
    fn clone(&self) -> (copy: Self)
        ensures
            copy@ == self@,
    {
        match self {
            BridgeEvent::Starting => BridgeEvent::Starting,
            BridgeEvent::StreamStarted { label, buffer_frames } => BridgeEvent::StreamStarted {
                label: *label,
                buffer_frames: *buffer_frames,
            },
            BridgeEvent::Running => BridgeEvent::Running,
            BridgeEvent::Metrics(summary) => BridgeEvent::Metrics(summary.clone()),
            BridgeEvent::Stopped(summary) => BridgeEvent::Stopped(summary.clone()),
            BridgeEvent::Failed(message) => BridgeEvent::Failed(message.clone()),
        }
    }
}

impl DeepView for BridgeEvent {
    type V = BridgeEventView;

    open spec fn deep_view(&self) -> BridgeEventView {
        self@
    }
}

/// The last report of a bridge: its summary, or what went wrong.
pub fn closing_event(outcome: Result<String, String>) -> (event: BridgeEvent)
    ensures
        event@ == match outcome {
            Ok(summary) => BridgeEventView::Stopped(summary@),
            Err(message) => BridgeEventView::Failed(message@),
        },
        event@ is Failed <==> outcome is Err,
        event@ is Stopped <==> outcome is Ok,
{
    match outcome {
        Ok(summary) => BridgeEvent::Stopped(summary),
        Err(message) => BridgeEvent::Failed(message),
    }
}

/// Where the thread of a bridge stands.
#[derive(Clone, Copy, Debug, PartialEq, Eq, Structural)]
pub enum WorkerState {
    Running,
    /// It has ended, now or earlier.
    Ended,
    Panicked,
}

/// Whether the thread of a bridge has ended, where it did not fall over.
pub fn reap(worker: WorkerState) -> (ended: Result<bool, String>)
    ensures
        match worker {
            WorkerState::Running => ended == Ok::<bool, String>(false),
            WorkerState::Ended => ended == Ok::<bool, String>(true),
            WorkerState::Panicked => ended matches Err(message) && message@
                == "AEC bridge supervisor panicked"@,
        },
        ended == Ok::<bool, String>(true) <==> worker == WorkerState::Ended,
        ended is Err <==> worker == WorkerState::Panicked,
{
    match worker {
        WorkerState::Running => Ok(false),
        WorkerState::Ended => Ok(true),
        WorkerState::Panicked => Err("AEC bridge supervisor panicked".to_owned()),
    }
}

/// The three endpoints that a bridge opens, each with its channels.
#[derive(Debug)]
pub struct BridgePlan {
    pub mic: Endpoint,
    pub reference: Endpoint,
    pub output: Endpoint,
}

/// What keeps an endpoint from being opened, if anything: its identifier is asked for first, then
/// its name.
pub open spec fn endpoint_failure(device: AudioDeviceView) -> Option<Seq<char>> {
    if device.id is Err {
        failure_of(device.id)
    } else {
        failure_of(device.name)
    }
}

/// Whether an endpoint is that of a device, with the channels of its format in a direction.
pub open spec fn endpoint_matches(
    endpoint: Endpoint,
    label: Seq<char>,
    device: AudioDeviceView,
    flow: Flow,
) -> bool {
    &&& device.id == Ok::<Seq<char>, Seq<char>>(endpoint.id@)
    &&& device.name == Ok::<Seq<char>, Seq<char>>(endpoint.name@)
    &&& validated(label, device, flow) matches Ok(format) && endpoint.channels == format.channels
}

impl BridgePlan {
    /// What always holds of a plan: capture has one or two channels, the output two.
    pub open spec fn well_formed(self) -> bool {
        &&& 1 <= self.mic.channels <= 2
        &&& 1 <= self.reference.channels <= 2
        &&& self.output.channels == 2
    }
}

/// What keeps a bridge from being planned, if anything: the three formats are looked at first, then
/// the three endpoints.
pub open spec fn plan_failure(
    mode: ReferenceMode,
    mic: AudioDeviceView,
    reference: AudioDeviceView,
    output: AudioDeviceView,
) -> Option<Seq<char>> {
    first_failure(
        seq![
            failure_of(validated("microphone"@, mic, Flow::Capture)),
            failure_of(validated("reference"@, reference, reference_flow_of(mode))),
            failure_of(validated("output"@, output, Flow::Render)),
            endpoint_failure(mic),
            endpoint_failure(reference),
            endpoint_failure(output),
        ],
    )
}

/// Plans a bridge over resolved devices: all three formats must suit, and all three devices must
/// have an identifier and a name. The first thing that is wrong is complained of.
pub fn plan_bridge(mode: ReferenceMode, endpoints: &ResolvedEndpoints) -> (outcome: Result<
    BridgePlan,
    String,
>)
    ensures
        ({
            let flow = reference_flow_of(mode);
            let failure = plan_failure(mode, endpoints.mic@, endpoints.reference@, endpoints.output@);
            match outcome {
                Ok(plan) => {
                    &&& failure is None
                    &&& plan.well_formed()
                    &&& endpoint_matches(plan.mic, "microphone"@, endpoints.mic@, Flow::Capture)
                    &&& endpoint_matches(plan.reference, "reference"@, endpoints.reference@, flow)
                    &&& endpoint_matches(plan.output, "output"@, endpoints.output@, Flow::Render)
                },
                Err(message) => failure == Some(message@),
            }
        }),
        outcome is Ok <==> plannable(mode, endpoints.mic@, endpoints.reference@, endpoints.output@),
        outcome matches Ok(plan) ==> {
            &&& endpoints.mic@.id == Ok::<Seq<char>, Seq<char>>(plan.mic.id@)
            &&& endpoints.mic@.input matches Ok(format) && plan.mic.channels == format.channels
            &&& endpoints.reference@.id == Ok::<Seq<char>, Seq<char>>(plan.reference.id@)
            &&& mode == ReferenceMode::Loopback ==> (endpoints.reference@.output matches Ok(format)
                && plan.reference.channels == format.channels)
            &&& mode == ReferenceMode::Capture ==> (endpoints.reference@.input matches Ok(format)
                && plan.reference.channels == format.channels)
            &&& endpoints.output@.id == Ok::<Seq<char>, Seq<char>>(plan.output.id@)
            &&& endpoints.output@.output matches Ok(format) && format.channels == 2
        },
{
    proof {
        reveal_with_fuel(first_failure, 7);
        suitable_devices_make_a_plan(
            mode,
            endpoints.mic@,
            endpoints.reference@,
            endpoints.output@,
        );
    }
    let flow = reference_flow(mode);
    let mic_format = validate_format("microphone", &endpoints.mic, Flow::Capture)?;
    let reference_format = validate_format("reference", &endpoints.reference, flow)?;
    let output_format = validate_format("output", &endpoints.output, Flow::Render)?;
    let mic = Endpoint::from_cpal(&endpoints.mic, mic_format.channels as usize)?;
    let reference = Endpoint::from_cpal(
        &endpoints.reference,
        reference_format.channels as usize,
    )?;
    let output = Endpoint::from_cpal(&endpoints.output, output_format.channels as usize)?;
    Ok(BridgePlan { mic, reference, output })
}

/// How the reference of a bridge is captured.
pub fn reference_capture_mode(mode: ReferenceMode) -> (capture: CaptureMode)
    ensures
        capture == match mode {
            ReferenceMode::Loopback => CaptureMode::RenderLoopback,
            ReferenceMode::Capture => CaptureMode::Endpoint,
        },
{
    match mode {
        ReferenceMode::Loopback => CaptureMode::RenderLoopback,
        ReferenceMode::Capture => CaptureMode::Endpoint,
    }
}

/// The ends of the three rings of a bridge.
pub struct Rings {
    pub mic_producer: SampleProducer,
    pub mic_consumer: SampleConsumer,
    pub reference_producer: SampleProducer,
    pub reference_consumer: SampleConsumer,
    pub output_producer: SampleProducer,
    pub output_consumer: SampleConsumer,
}

/// Whether two ends belong to one ring that holds nothing yet and has so many places.
pub open spec fn fresh_ring(
    producer: SampleProducer,
    consumer: SampleConsumer,
    places: nat,
) -> bool {
    &&& inflow(producer) == outflow(consumer)
    &&& writes_in_order(producer)
    &&& reads_in_order(consumer)
    &&& room(producer) == places
    &&& sent(producer) == Seq::<u32>::empty()
    &&& waiting(consumer) == Seq::<u32>::empty()
    &&& received(consumer) == Seq::<u32>::empty()
}

/// The places of a ring for a stream of so many channels: two seconds of audio.
pub open spec fn ring_samples(channels: usize) -> nat {
    48_000 * channels as nat * 2
}

fn ring_for(channels: usize) -> (ends: (SampleProducer, SampleConsumer))
    requires
        1 <= channels <= 2,
    ensures
        fresh_ring(ends.0, ends.1, ring_samples(channels)),
{
    new_ring(SAMPLE_RATE as usize * channels * RING_SECONDS)
}

/// Makes the three rings of a bridge, all of them empty.
pub fn open_rings(plan: &BridgePlan) -> (rings: Rings)
    requires
        plan.well_formed(),
    ensures
        fresh_ring(rings.mic_producer, rings.mic_consumer, ring_samples(plan.mic.channels)),
        fresh_ring(
            rings.reference_producer,
            rings.reference_consumer,
            ring_samples(plan.reference.channels),
        ),
        fresh_ring(rings.output_producer, rings.output_consumer, ring_samples(plan.output.channels)),
{
    let (mic_producer, mic_consumer) = ring_for(plan.mic.channels);
    let (reference_producer, reference_consumer) = ring_for(plan.reference.channels);
    let (output_producer, output_consumer) = ring_for(plan.output.channels);
    Rings {
        mic_producer,
        mic_consumer,
        reference_producer,
        reference_consumer,
        output_producer,
        output_consumer,
    }
}

/// What a bridge shows on the console before it starts.
pub open spec fn startup_text(
    version: Seq<char>,
    args: RunArgsView,
    mic: (Seq<char>, nat),
    reference: (Seq<char>, nat),
    output: (Seq<char>, nat),
) -> Seq<char> {
    "AEC Bridge "@ + version + "\n\nMicrophone: "@ + mic.0 + "\nReference:  "@ + reference.0
        + match args.endpoints.reference_mode {
        ReferenceMode::Loopback => " (render loopback)"@,
        ReferenceMode::Capture => " (capture endpoint)"@,
    } + "\nHandoff:    "@ + output.0 + "\nFormat:     "@ + digits(48_000)
        + " Hz; mic/reference/output channels="@ + digits(mic.1) + "/"@ + digits(reference.1) + "/"@
        + digits(output.1) + "\nProcessing: "@ + if args.bypass {
        "BYPASS"@
    } else {
        "WebRTC M145 AEC3"@
    } + "; capture delay="@ + digits(args.capture_delay_ms as nat) + " ms; stream delay="@
        + signed_digits(args.stream_delay_ms as int) + " ms\n"@ + if args.mute_output {
        "Output:     MUTED safety probe (handoff receives silence)\n"@
    } else {
        ""@
    }
        + "Routing: select the handoff endpoint's paired capture device in your downstream app.\n"@
        + "Safety: never route the raw mic, handoff return, or processed mic into the AEC reference."@
}

/// Describes a bridge before it starts.
pub fn startup_summary(version: &str, args: &RunArgs, plan: &BridgePlan) -> (text: String)
    ensures
        text@ == startup_text(
            version@,
            args@,
            (plan.mic.name@, plan.mic.channels as nat),
            (plan.reference.name@, plan.reference.channels as nat),
            (plan.output.name@, plan.output.channels as nat),
        ),
{
    let mut text = "AEC Bridge ".to_owned();
    text.append(version);
    text.append("\n\nMicrophone: ");
    text.append(plan.mic.name.as_str());
    text.append("\nReference:  ");
    text.append(plan.reference.name.as_str());
    match args.endpoints.reference_mode {
        ReferenceMode::Loopback => text.append(" (render loopback)"),
        ReferenceMode::Capture => text.append(" (capture endpoint)"),
    }
    text.append("\nHandoff:    ");
    text.append(plan.output.name.as_str());
    text.append("\nFormat:     ");
    text.append(decimal(SAMPLE_RATE as u64).as_str());
    text.append(" Hz; mic/reference/output channels=");
    text.append(decimal(plan.mic.channels as u64).as_str());
    text.append("/");
    text.append(decimal(plan.reference.channels as u64).as_str());
    text.append("/");
    text.append(decimal(plan.output.channels as u64).as_str());
    text.append("\nProcessing: ");
    if args.bypass {
        text.append("BYPASS");
    } else {
        text.append("WebRTC M145 AEC3");
    }
    text.append("; capture delay=");
    text.append(decimal(args.capture_delay_ms as u64).as_str());
    text.append(" ms; stream delay=");
    text.append(signed_decimal(args.stream_delay_ms).as_str());
    text.append(" ms\n");
    if args.mute_output {
        text.append("Output:     MUTED safety probe (handoff receives silence)\n");
    } else {
        text.append("");
    }
    text.append(
        "Routing: select the handoff endpoint's paired capture device in your downstream app.\n",
    );
    text.append(
        "Safety: never route the raw mic, handoff return, or processed mic into the AEC reference.",
    );
    text
}

/// Whether three devices suit a bridge: each has an identifier and a name, and a format of 48000
/// samples per second in 32-bit floating point; what captures has one channel or two, what renders
/// has two.
pub open spec fn plannable(
    mode: ReferenceMode,
    mic: AudioDeviceView,
    reference: AudioDeviceView,
    output: AudioDeviceView,
) -> bool {
    let heard = if mode == ReferenceMode::Loopback {
        reference.output
    } else {
        reference.input
    };
    let fewest: int = if mode == ReferenceMode::Loopback {
        2
    } else {
        1
    };
    &&& mic.id is Ok && mic.name is Ok
    &&& reference.id is Ok && reference.name is Ok
    &&& output.id is Ok && output.name is Ok
    &&& mic.input matches Ok(format) && format.sample_rate == 48_000 && format.encoding is Float32
        && 1 <= format.channels && format.channels <= 2
    &&& heard matches Ok(format) && format.sample_rate == 48_000 && format.encoding is Float32
        && fewest <= format.channels && format.channels <= 2
    &&& output.output matches Ok(format) && format.sample_rate == 48_000
        && format.encoding is Float32 && format.channels == 2
}

/// Nothing keeps a bridge from being planned exactly where its devices suit.
pub proof fn suitable_devices_make_a_plan(
    mode: ReferenceMode,
    mic: AudioDeviceView,
    reference: AudioDeviceView,
    output: AudioDeviceView,
)
    ensures
        plan_failure(mode, mic, reference, output) is None <==> plannable(
            mode,
            mic,
            reference,
            output,
        ),
{
    reveal_with_fuel(first_failure, 7);
    validation_in_numbers("microphone"@, mic, Flow::Capture);
    validation_in_numbers("reference"@, reference, reference_flow_of(mode));
    validation_in_numbers("output"@, output, Flow::Render);
}

/// A ring holds two seconds of audio, 48000 frames for each, however many channels it has.
pub proof fn a_ring_holds_two_seconds(channels: usize)
    requires
        channels >= 1,
    ensures
        ring_samples(channels) == 2 * 48_000 * channels,
        ring_samples(channels) / channels as nat == 2 * 48_000,
        ring_samples(channels) % channels as nat == 0,
{
    assert(48_000 * channels as nat * 2 == 96_000 * channels as nat) by (nonlinear_arith);
    vstd::arithmetic::div_mod::lemma_mod_multiples_basic(96_000, channels as int);
    vstd::arithmetic::div_mod::lemma_div_by_multiple(96_000, channels as int);
}

/// Each count of the summary stands behind its own name, and each in its own place.
pub proof fn the_summary_gives_each_count_its_place(readings: CounterReadings)
    ensures
        readings.stop_summary() == "Dropped samples mic/ref/out="@ + digits(
            readings.mic_dropped as nat,
        ) + "/"@ + digits(readings.reference_dropped as nat) + "/"@ + digits(
            readings.output_dropped as nat,
        ) + "; output underruns="@ + digits(readings.output_underruns as nat)
            + "; capture discontinuities mic/ref="@ + digits(readings.mic_discontinuities as nat)
            + "/"@ + digits(readings.reference_discontinuities as nat),
{
    assert(readings.stop_summary() =~= "Dropped samples mic/ref/out="@ + digits(
        readings.mic_dropped as nat,
    ) + "/"@ + digits(readings.reference_dropped as nat) + "/"@ + digits(
        readings.output_dropped as nat,
    ) + "; output underruns="@ + digits(readings.output_underruns as nat)
        + "; capture discontinuities mic/ref="@ + digits(readings.mic_discontinuities as nat) + "/"@
        + digits(readings.reference_discontinuities as nat));
}

/// The figures of a running bridge stand each behind its own name, and an unknown delay is a dash.
pub proof fn the_figures_stand_in_their_places(
    readings: CounterReadings,
    return_loss: Seq<char>,
    enhancement: Seq<char>,
    delay_ms: Option<i32>,
)
    ensures
        readings.metrics(return_loss, enhancement, delay_ms) == "ERL="@ + return_loss
            + " dB, ERLE="@ + enhancement + " dB, delay="@ + (if delay_ms is Some {
            signed_digits(delay_ms->0 as int)
        } else {
            "-"@
        }) + " ms | drops mic/ref/out="@ + (digits(readings.mic_dropped as nat) + "/"@ + digits(
            readings.reference_dropped as nat,
        ) + "/"@ + digits(readings.output_dropped as nat)) + " underruns="@ + digits(
            readings.output_underruns as nat,
        ) + " discontinuities="@ + (digits(readings.mic_discontinuities as nat) + "/"@ + digits(
            readings.reference_discontinuities as nat,
        )),
{
}

/// What is shown before a bridge starts says that the output is muted exactly where it is, and names
/// the canceller exactly where it is not bypassed; what stands before that depends on neither.
pub proof fn the_startup_text_tells_muting_and_bypass(
    version: Seq<char>,
    args: RunArgsView,
    mic: (Seq<char>, nat),
    reference: (Seq<char>, nat),
    output: (Seq<char>, nat),
) -> (head: Seq<char>)
    ensures
        forall|bypass: bool, mute_output: bool|
            #[trigger] startup_text(
                version,
                RunArgsView { bypass, mute_output, ..args },
                mic,
                reference,
                output,
            ) == head + (if bypass {
                "BYPASS"@
            } else {
                "WebRTC M145 AEC3"@
            }) + "; capture delay="@ + digits(args.capture_delay_ms as nat)
                + " ms; stream delay="@ + signed_digits(args.stream_delay_ms as int) + " ms\n"@ + (
            if mute_output {
                "Output:     MUTED safety probe (handoff receives silence)\n"@
            } else {
                ""@
            })
                + "Routing: select the handoff endpoint's paired capture device in your downstream app.\n"@
                + "Safety: never route the raw mic, handoff return, or processed mic into the AEC reference."@,
{
    "AEC Bridge "@ + version + "\n\nMicrophone: "@ + mic.0 + "\nReference:  "@ + reference.0
        + match args.endpoints.reference_mode {
        ReferenceMode::Loopback => " (render loopback)"@,
        ReferenceMode::Capture => " (capture endpoint)"@,
    } + "\nHandoff:    "@ + output.0 + "\nFormat:     "@ + digits(48_000)
        + " Hz; mic/reference/output channels="@ + digits(mic.1) + "/"@ + digits(reference.1) + "/"@
        + digits(output.1) + "\nProcessing: "@
}

} // verus!
