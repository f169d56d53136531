//! The audio streams: what a stream must look like, what a capture packet brings, and what a
//! rendering buffer receives.

use crate::bridge::Counters;
use crate::devices::{AudioDevice, Flow};
use crate::ring::{
    inflow, outflow, pop_slice, push_slice, reads_in_order, received, room, sent, waiting,
    writes_in_order, SampleConsumer, SampleProducer,
};
use crate::samples::{
    bytes_of, decode_f32_le, decode_undoes_encode, decoded, encode_f32_le, encoded, SAMPLE_BYTES,
};
use crate::text::{begins_with, decimal, digits, strip_prefix};
use vstd::prelude::*;

verus! {

/// An endpoint that a stream opens.
#[derive(Debug)]
pub struct Endpoint {
    pub id: String,
    pub name: String,
    pub channels: usize,
}

impl Endpoint {
    /// The endpoint of a device. The identifier is asked for first, then the name.
    pub fn from_cpal(device: &AudioDevice, channels: usize) -> (outcome: Result<Endpoint, String>)
        ensures
            match outcome {
                Ok(endpoint) => {
                    &&& device@.id == Ok::<Seq<char>, Seq<char>>(endpoint.id@)
                    &&& device@.name == Ok::<Seq<char>, Seq<char>>(endpoint.name@)
                    &&& endpoint.channels == channels
                },
                Err(message) => if device@.id is Err {
                    device@.id->Err_0 == message@
                } else {
                    device@.name == Err::<Seq<char>, Seq<char>>(message@)
                },
            },
    {
        match (&device.id, &device.name) {
            (Err(error), _) => Err(error.clone()),
            (Ok(_), Err(error)) => Err(error.clone()),
            (Ok(id), Ok(name)) => Ok(Endpoint { id: id.clone(), name: name.clone(), channels }),
        }
    }
}

/// The part that a stream plays in the bridge.
#[derive(Clone, Copy, Debug, PartialEq, Eq, Structural)]
pub enum StreamKind {
    Microphone,
    Reference,
    Output,
}

/// How a capturing stream reads its endpoint.
#[derive(Clone, Copy, Debug, PartialEq, Eq, Structural)]
pub enum CaptureMode {
    /// As a recording device.
    Endpoint,
    /// As what a playback device is playing.
    RenderLoopback,
}

impl StreamKind {
    /// What a stream is called.
    pub open spec fn spec_label(self) -> Seq<char> {
        match self {
            StreamKind::Microphone => "microphone"@,
            StreamKind::Reference => "reference"@,
            StreamKind::Output => "handoff"@,
        }
    }

    /// What the stream is called.
    pub fn label(self) -> (label: &'static str)
        ensures
            label@ == self.spec_label(),
    {
        match self {
            StreamKind::Microphone => "microphone",
            StreamKind::Reference => "reference",
            StreamKind::Output => "handoff",
        }
    }
}

/// What a stream reports of itself.
#[derive(Debug)]
pub enum StreamEvent {
    Started { kind: StreamKind, buffer_frames: u32 },
    Failed { kind: StreamKind, message: String },
}

/// A report with its text by characters.
pub enum StreamEventView {
    Started { kind: StreamKind, buffer_frames: u32 },
    Failed { kind: StreamKind, message: Seq<char> },
}

impl View for StreamEvent {
    type V = StreamEventView;

    open spec fn view(&self) -> StreamEventView {
        match self {
            StreamEvent::Started { kind, buffer_frames } => StreamEventView::Started {
                kind: *kind,
                buffer_frames: *buffer_frames,
            },
            StreamEvent::Failed { kind, message } => StreamEventView::Failed {
                kind: *kind,
                message: message@,
            },
        }
    }
}

impl DeepView for StreamEvent {
    type V = StreamEventView;

    open spec fn deep_view(&self) -> StreamEventView {
        self@
    }
}

/// The direction that an endpoint must have to be captured in a mode.
pub open spec fn direction_for(mode: CaptureMode) -> Flow {
    match mode {
        CaptureMode::Endpoint => Flow::Capture,
        CaptureMode::RenderLoopback => Flow::Render,
    }
}

/// Checks that an endpoint has the direction that capturing it in the mode needs.
pub fn check_capture_direction(endpoint: &Endpoint, mode: CaptureMode, direction: Flow) -> (outcome:
    Result<(), String>)
    ensures
        outcome is Ok <==> direction == direction_for(mode),
        outcome matches Err(message) ==> message@ == "'"@ + endpoint.name@ + "' is not a "@
            + direction_for(mode).spec_name() + " endpoint"@,
{
    let required = match mode {
        CaptureMode::Endpoint => Flow::Capture,
        CaptureMode::RenderLoopback => Flow::Render,
    };
    if direction == required {
        return Ok(());
    }
    let mut message = "'".to_owned();
    message.append(endpoint.name.as_str());
    message.append("' is not a ");
    message.append(required.name());
    message.append(" endpoint");
    Err(message)
}

/// Checks that the endpoint of the virtual cable renders.
pub fn check_render_direction(endpoint: &Endpoint, direction: Flow) -> (outcome: Result<(), String>)
    ensures
        outcome is Ok <==> direction == Flow::Render,
        outcome matches Err(message) ==> message@ == "'"@ + endpoint.name@
            + "' is not a render endpoint"@,
{
    if direction == Flow::Render {
        return Ok(());
    }
    let mut message = "'".to_owned();
    message.append(endpoint.name.as_str());
    message.append("' is not a render endpoint");
    Err(message)
}

/// The kind of number that a sample is.
#[derive(Clone, Copy, Debug, PartialEq, Eq, Structural)]
pub enum SampleType {
    Float,
    Int,
}

/// The format that a shared stream mixes in.
#[derive(Debug)]
pub struct MixFormat {
    pub samples_per_second: u32,
    pub channels: u16,
    pub bits_per_sample: u16,
    /// The kind of number, or why it is unknown.
    pub sample_type: Result<SampleType, String>,
}

/// Why a stream cannot run in a mix format, if it cannot. The rate is looked at first, then the
/// channels, then the width of a sample, then its kind.
pub open spec fn mix_format_complaint(
    format: MixFormat,
    name: Seq<char>,
    channels: usize,
) -> Option<Seq<char>> {
    if format.samples_per_second != 48_000 {
        Some(
            "'"@ + name + "' uses "@ + digits(format.samples_per_second as nat)
                + " Hz instead of 48000 Hz"@,
        )
    } else if format.channels != channels {
        Some(
            "'"@ + name + "' changed from "@ + digits(channels as nat) + " to "@ + digits(
                format.channels as nat,
            ) + " channels"@,
        )
    } else if format.bits_per_sample != 32 {
        Some("'"@ + name + "' is not 32-bit floating-point audio"@)
    } else {
        match format.sample_type {
            Err(error) => Some(error@),
            Ok(SampleType::Int) => Some("'"@ + name + "' is not 32-bit floating-point audio"@),
            Ok(SampleType::Float) => None,
        }
    }
}

fn not_float_message(name: &str) -> (message: String)
    ensures
        message@ == "'"@ + name@ + "' is not 32-bit floating-point audio"@,
{
    let mut message = "'".to_owned();
    message.append(name);
    message.append("' is not 32-bit floating-point audio");
    message
}

/// Checks that a stream on the endpoint runs at 48 kHz in 32-bit floating point, on as many
/// channels as were found when the endpoint was chosen.
pub fn validate_mix_format(format: &MixFormat, endpoint: &Endpoint) -> (outcome: Result<(), String>)
    ensures
        match outcome {
            Ok(()) => mix_format_complaint(*format, endpoint.name@, endpoint.channels) is None,
            Err(message) => mix_format_complaint(*format, endpoint.name@, endpoint.channels)
                == Some(message@),
        },
{
    if format.samples_per_second != 48_000 {
        let mut message = "'".to_owned();
        message.append(endpoint.name.as_str());
        message.append("' uses ");
        message.append(decimal(format.samples_per_second as u64).as_str());
        message.append(" Hz instead of 48000 Hz");
        return Err(message);
    }
    if format.channels as usize != endpoint.channels {
        let mut message = "'".to_owned();
        message.append(endpoint.name.as_str());
        message.append("' changed from ");
        message.append(decimal(endpoint.channels as u64).as_str());
        message.append(" to ");
        message.append(decimal(format.channels as u64).as_str());
        message.append(" channels");
        return Err(message);
    }
    if format.bits_per_sample != 32 {
        return Err(not_float_message(endpoint.name.as_str()));
    }
    match &format.sample_type {
        Err(error) => Err(error.clone()),
        Ok(SampleType::Int) => Err(not_float_message(endpoint.name.as_str())),
        Ok(SampleType::Float) => Ok(()),
    }
}

/// What stands behind the prefix of an identifier.
pub open spec fn raw_identifier(id: Seq<char>) -> Seq<char> {
    id.skip("wasapi:"@.len() as int)
}

/// The identifier that the audio system itself uses: what stands behind the prefix.
pub fn raw_wasapi_id(id: &str) -> (outcome: Result<&str, String>)
    ensures
        outcome is Ok <==> begins_with(id@, "wasapi:"@),
        outcome matches Ok(raw) ==> id@ == "wasapi:"@ + raw@,
        outcome matches Ok(raw) ==> raw@ == raw_identifier(id@),
        outcome matches Err(message) ==> message@ == "'"@ + id@
            + "' is not a WASAPI endpoint ID"@,
{
    match strip_prefix(id, "wasapi:") {
        Some(raw) => {
            assert(raw@ =~= raw_identifier(id@));
            Ok(raw)
        },
        None => {
            let mut message = "'".to_owned();
            message.append(id);
            message.append("' is not a WASAPI endpoint ID");
            Err(message)
        },
    }
}

/// The counter of samples that a capturing stream could not hand on.
pub open spec fn dropped_by(
    counters: Counters,
    kind: StreamKind,
) -> core::sync::atomic::AtomicU64 {
    match kind {
        StreamKind::Microphone => counters.mic_dropped,
        _ => counters.reference_dropped,
    }
}

/// The counter of gaps in what a capturing stream read.
pub open spec fn gaps_of(counters: Counters, kind: StreamKind) -> core::sync::atomic::AtomicU64 {
    match kind {
        StreamKind::Microphone => counters.mic_discontinuities,
        _ => counters.reference_discontinuities,
    }
}

/// The counter of samples that a capturing stream could not hand on.
pub fn capture_drop_counter(counters: &Counters, kind: StreamKind) -> (counter:
    &core::sync::atomic::AtomicU64)
    requires
        kind != StreamKind::Output,
    ensures
        *counter == match kind {
            StreamKind::Microphone => counters.mic_dropped,
            _ => counters.reference_dropped,
        },
        *counter == dropped_by(*counters, kind),
{
    match kind {
        StreamKind::Microphone => &counters.mic_dropped,
        _ => &counters.reference_dropped,
    }
}

/// The counter of gaps in what a capturing stream read.
pub fn capture_discontinuity_counter(counters: &Counters, kind: StreamKind) -> (counter:
    &core::sync::atomic::AtomicU64)
    requires
        kind != StreamKind::Output,
    ensures
        *counter == match kind {
            StreamKind::Microphone => counters.mic_discontinuities,
            _ => counters.reference_discontinuities,
        },
        *counter == gaps_of(*counters, kind),
{
    match kind {
        StreamKind::Microphone => &counters.mic_discontinuities,
        _ => &counters.reference_discontinuities,
    }
}

/// Silence, `count` samples of it.
pub open spec fn silence(count: nat) -> Seq<u32> {
    Seq::new(count, |i: int| 0u32)
}

fn zeros(count: usize) -> (list: Vec<u32>)
    ensures
        list@ == silence(count as nat),
{
    let mut list: Vec<u32> = Vec::new();
    list.resize(count, 0u32);
    assert(list@ =~= silence(count as nat));
    list
}

/// What a captured packet did to the counters of its stream.
#[derive(Clone, Copy, Debug, PartialEq, Eq, Structural)]
pub struct PacketOutcome {
    pub dropped: u64,
    pub discontinuities: u64,
}

/// The samples that a captured packet holds: silence where the packet is marked silent, else what
/// its bytes spell.
pub open spec fn packet_samples(bytes: Seq<u8>, count: nat, silent: bool) -> Seq<u32> {
    if silent {
        silence(count)
    } else {
        decoded(bytes.take(4 * count as int))
    }
}

/// Hands a captured packet on: the samples of `frames_read` frames go into the ring, as many as it
/// has room for; the rest is dropped and counted.
pub fn accept_packet(
    producer: &mut SampleProducer,
    channels: usize,
    frames_read: usize,
    silent: bool,
    discontinuity: bool,
    bytes: &Vec<u8>,
) -> (outcome: PacketOutcome)
    requires
        4 * (frames_read * channels) <= usize::MAX,
        !silent ==> 4 * (frames_read * channels) <= bytes@.len(),
    ensures
        ({
            let count = (frames_read * channels) as nat;
            let whole = packet_samples(bytes@, count, silent);
            &&& outcome.dropped <= count
            &&& sent(*final(producer)) == sent(*old(producer)) + whole.take(
                count - outcome.dropped,
            )
            &&& room(*old(producer)) <= count - outcome.dropped + room(*final(producer))
            &&& outcome.dropped == 0 || room(*final(producer)) == 0
            &&& inflow(*final(producer)) == inflow(*old(producer))
            &&& writes_in_order(*final(producer))
            &&& outcome.discontinuities == if discontinuity {
                1int
            } else {
                0int
            }
        }),
        outcome.discontinuities == 1 <==> discontinuity,
        room(*final(producer)) > 0 ==> outcome.dropped == 0,
{
    assert(0 <= frames_read * channels) by (nonlinear_arith)
        requires
            frames_read >= 0,
            channels >= 0,
    ;
    let count: usize = frames_read * channels;
    let mut samples = zeros(count);
    if !silent {
        let used = vstd::slice::slice_subrange(bytes.as_slice(), 0, SAMPLE_BYTES * count);
        decode_f32_le(used, samples.as_mut_slice());
        assert(used@ =~= bytes@.take(4 * count));
        assert(samples@ =~= decoded(bytes@.take(4 * count)));
    }
    let written: usize = push_slice(producer, samples.as_slice());
    PacketOutcome {
        dropped: (count - written) as u64,
        discontinuities: if discontinuity {
            1
        } else {
            0
        },
    }
}

/// Whether a rendering buffer was filled rightly: with what was taken from the ring, the oldest
/// first, and silence behind it, or with silence alone where the output is muted. The ring gives
/// all it has before silence comes in.
pub open spec fn render_filled(
    before: Seq<u32>,
    after: Seq<u32>,
    taken: Seq<u32>,
    count: nat,
    mute: bool,
    samples: Seq<u32>,
) -> bool {
    &&& taken.len() <= count
    &&& before.is_prefix_of(taken + after)
    &&& taken.len() == count || after.len() == 0
    &&& samples == if mute {
        silence(count)
    } else {
        taken + silence((count - taken.len()) as nat)
    }
}

/// The underruns that filling a buffer counts.
pub open spec fn underruns_counted(count_underrun: bool, taken: nat, wanted: nat) -> nat {
    if count_underrun && taken < wanted {
        1
    } else {
        0
    }
}

/// Fills the buffer for `frames` frames. With no frames to fill it leaves everything as it is and
/// gives nothing; else it gives the number of underruns to count, and `bytes` holds exactly the
/// audio for the device.
pub fn fill_render_frames(
    frames: usize,
    channels: usize,
    consumer: &mut SampleConsumer,
    mute_output: bool,
    count_underrun: bool,
    samples: &mut Vec<u32>,
    bytes: &mut Vec<u8>,
) -> (underruns: Option<u64>)
    requires
        4 * (frames * channels) <= usize::MAX,
    ensures
        underruns is None <==> frames == 0,
        frames == 0 ==> {
            &&& *final(consumer) == *old(consumer)
            &&& *final(samples) == *old(samples)
            &&& *final(bytes) == *old(bytes)
        },
        underruns matches Some(number) ==> {
            let count = (frames * channels) as nat;
            &&& exists|taken: Seq<u32>|
                {
                    &&& #[trigger] render_filled(
                        waiting(*old(consumer)),
                        waiting(*final(consumer)),
                        taken,
                        count,
                        mute_output,
                        final(samples)@,
                    )
                    &&& received(*final(consumer)) == received(*old(consumer)) + taken
                    &&& number == if count_underrun && taken.len() < count {
                        1int
                    } else {
                        0int
                    }
                    &&& number == underruns_counted(count_underrun, taken.len(), count)
                }
            &&& final(bytes)@ == encoded(final(samples)@)
            &&& outflow(*final(consumer)) == outflow(*old(consumer))
            &&& reads_in_order(*final(consumer))
        },
{
    if frames == 0 {
        return None;
    }
    assert(0 <= frames * channels) by (nonlinear_arith)
        requires
            frames >= 0,
            channels >= 0,
    ;
    let count: usize = frames * channels;
    let ghost before = waiting(*consumer);
    samples.resize(count, 0u32);
    let read: usize = pop_slice(consumer, samples);
    let ghost taken = samples@.take(read as int);
    let mut underruns: u64 = 0;
    if read < count {
        let mut index: usize = read;
        while index < count
            invariant
                read <= index <= count,
                samples@.len() == count,
                taken == samples@.take(read as int),
                forall|i: int| read <= i < index ==> samples@[i] == 0u32,
            decreases count - index,
        {
            samples.set(index, 0u32);
            assert(samples@.take(read as int) =~= taken);
            index = index + 1;
        }
        if count_underrun {
            underruns = 1;
        }
    }
    assert(samples@ =~= taken + silence((count - read) as nat));
    if mute_output {
        let mut index: usize = 0;
        while index < count
            invariant
                index <= count,
                samples@.len() == count,
                forall|i: int| 0 <= i < index ==> samples@[i] == 0u32,
            decreases count - index,
        {
            samples.set(index, 0u32);
            index = index + 1;
        }
        assert(samples@ =~= silence(count as nat));
    }
    assert(render_filled(before, waiting(*consumer), taken, count as nat, mute_output, samples@));
    encode_f32_le(samples.as_slice(), bytes);
    Some(underruns)
}

/// A packet that is marked silent is silence, whatever its bytes are; any other holds just the
/// samples that were spelled in it, in order.
pub proof fn a_packet_holds_what_was_put_in(samples: Seq<u32>, rest: Seq<u8>, count: nat)
    ensures
        packet_samples(rest, count, true).len() == count,
        forall|i: int| 0 <= i < count ==> #[trigger] packet_samples(rest, count, true)[i] == 0,
        packet_samples(encoded(samples) + rest, samples.len(), false) == samples,
{
    let bytes = encoded(samples);
    assert((bytes + rest).take(4 * samples.len() as int) =~= bytes);
    decode_undoes_encode(samples);
}

/// A muted device hears silence, every byte of it zero, and takes as much from the ring as it would
/// unmuted. An unmuted one hears the oldest samples that waited, in order; as long as enough of them
/// wait it hears nothing else, and where they run out it hears silence behind them.
pub proof fn a_device_hears_the_ring_or_silence(
    before: Seq<u32>,
    after: Seq<u32>,
    taken: Seq<u32>,
    count: nat,
    mute: bool,
    samples: Seq<u32>,
)
    requires
        render_filled(before, after, taken, count, mute, samples),
    ensures
        samples.len() == count,
        mute ==> forall|i: int| 0 <= i < count ==> #[trigger] samples[i] == 0,
        mute ==> forall|i: int| 0 <= i < 4 * count ==> #[trigger] encoded(samples)[i] == 0,
        !mute && before.len() >= count ==> samples == before.take(count as int),
        !mute ==> forall|i: int|
            0 <= i < before.len() && i < count ==> #[trigger] samples[i] == before[i],
        !mute ==> forall|i: int| taken.len() <= i < count ==> #[trigger] samples[i] == 0,
        before.len() >= count ==> taken == before.take(count as int),
        before.len() < count ==> before.is_prefix_of(taken),
{
    let flow = taken + after;
    assert forall|i: int| 0 <= i < before.len() implies flow[i] == before[i] by {}
    if before.len() >= count {
        assert(taken =~= before.take(count as int));
        assert(!mute ==> samples =~= before.take(count as int));
    } else {
        assert(before.len() <= taken.len());
        assert(before =~= taken.take(before.len() as int));
    }
    if mute {
        assert forall|i: int| 0 <= i < 4 * count implies #[trigger] encoded(samples)[i] == 0 by {
            assert(samples[i / 4] == 0);
            assert(bytes_of(0u32)[i % 4] == 0);
        }
    }
}

/// What a stream must look like, in numbers: 48000 samples per second, 32 bits of floating point,
/// and the channels that were found before.
pub proof fn a_stream_runs_as_it_was_found(format: MixFormat, name: Seq<char>, channels: usize)
    ensures
        mix_format_complaint(format, name, channels) is None <==> {
            &&& format.samples_per_second == 48_000
            &&& format.channels == channels
            &&& format.bits_per_sample == 32
            &&& format.sample_type matches Ok(SampleType::Float)
        },
{
}

/// A recording device is captured as it is; only a playback device is captured by loopback.
pub proof fn loopback_is_for_playback(mode: CaptureMode)
    ensures
        direction_for(mode) == Flow::Render <==> mode == CaptureMode::RenderLoopback,
{
}

/// The three streams have three different names.
pub proof fn streams_are_told_apart(one: StreamKind, other: StreamKind)
    requires
        one != other,
    ensures
        one.spec_label() != other.spec_label(),
{
    reveal_strlit("microphone");
    reveal_strlit("reference");
    reveal_strlit("handoff");
    assert("microphone"@.len() == 10 && "reference"@.len() == 9 && "handoff"@.len() == 7);
}

/// What stands behind the prefix is the identifier without it, and comes back whole.
pub proof fn the_prefix_alone_is_taken_away(raw: Seq<char>)
    ensures
        raw_identifier("wasapi:"@ + raw) == raw,
        begins_with("wasapi:"@ + raw, "wasapi:"@),
{
    let id = "wasapi:"@ + raw;
    assert(raw_identifier(id) =~= raw);
    assert(id.subrange(0, "wasapi:"@.len() as int) =~= "wasapi:"@);
}

/// An underrun is counted once for a buffer that was not filled from the ring, and never for one
/// that was, nor where none is to be counted.
pub proof fn a_short_buffer_is_one_underrun(taken: nat, wanted: nat)
    requires
        taken <= wanted,
    ensures
        underruns_counted(true, taken, wanted) == 0 <==> taken == wanted,
        underruns_counted(true, taken, wanted) <= 1,
        underruns_counted(false, taken, wanted) == 0,
{
}

/// Each capturing stream counts on its own: the microphone never on the counters of the reference,
/// and the reference never on those of the microphone.
pub proof fn each_stream_counts_on_its_own(counters: Counters)
    ensures
        dropped_by(counters, StreamKind::Microphone) == counters.mic_dropped,
        dropped_by(counters, StreamKind::Reference) == counters.reference_dropped,
        gaps_of(counters, StreamKind::Microphone) == counters.mic_discontinuities,
        gaps_of(counters, StreamKind::Reference) == counters.reference_discontinuities,
{
}

/// A format that a stream cannot run in is refused for its rate where that is wrong, else for its
/// channels, else for what a sample is, and the refusal names the endpoint or says what is unknown.
pub proof fn a_stream_says_what_is_wrong(format: MixFormat, name: Seq<char>, channels: usize)
    ensures
        ({
            let complaint = mix_format_complaint(format, name, channels);
            &&& format.samples_per_second != 48_000 ==> complaint == Some(
                "'"@ + name + "' uses "@ + digits(format.samples_per_second as nat)
                    + " Hz instead of 48000 Hz"@,
            )
            &&& format.samples_per_second == 48_000 && format.channels != channels ==> complaint
                == Some(
                "'"@ + name + "' changed from "@ + digits(channels as nat) + " to "@ + digits(
                    format.channels as nat,
                ) + " channels"@,
            )
            &&& format.samples_per_second == 48_000 && format.channels == channels
                && format.bits_per_sample != 32 ==> complaint == Some(
                "'"@ + name + "' is not 32-bit floating-point audio"@,
            )
        }),
{
}

} // verus!
