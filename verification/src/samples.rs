//! Audio samples as the 32-bit patterns of their floating-point values: channel layouts and the
//! byte order on the wire. Nothing here computes with a sample; a sample only moves.

use vstd::prelude::*;

verus! {

/// The bytes that one sample takes on the wire.
pub const SAMPLE_BYTES: usize = 4;

/// One channel of interleaved audio: the sample at `offset` of every whole frame.
pub open spec fn channel_of(interleaved: Seq<u32>, channels: nat, offset: nat) -> Seq<u32> {
    Seq::new(interleaved.len() / channels, |frame: int| interleaved[frame * channels + offset])
}

/// A sequence with its beginning replaced.
pub open spec fn overlaid<T>(under: Seq<T>, over: Seq<T>) -> Seq<T> {
    over + under.skip(over.len() as int)
}

/// The offset of the channel that the right side is read from: one-channel audio has no second.
pub open spec fn right_offset(channels: nat) -> nat {
    if channels == 1 {
        0
    } else {
        1
    }
}

/// Splits interleaved audio into a left and a right side. One-channel audio goes to both sides;
/// of audio with more than two channels the first two are taken. The two outputs keep what they
/// held behind the frames of the input.
pub fn deinterleave_reference(
    input: &[u32],
    channels: usize,
    left: &mut [u32],
    right: &mut [u32],
)
    requires
        channels >= 1,
        input@.len() / channels as nat <= old(left)@.len(),
        input@.len() / channels as nat <= old(right)@.len(),
    ensures
        final(left)@ == overlaid(old(left)@, channel_of(input@, channels as nat, 0)),
        final(right)@ == overlaid(
            old(right)@,
            channel_of(input@, channels as nat, right_offset(channels as nat)),
        ),
{
    let frames: usize = input.len() / channels;
    let mut frame: usize = 0;
    let ghost one = channel_of(input@, channels as nat, 0);
    let ghost two = channel_of(input@, channels as nat, right_offset(channels as nat));
    assert(overlaid(left@, one.take(0)) =~= left@);
    assert(overlaid(right@, two.take(0)) =~= right@);
    while frame < frames
        invariant
            channels >= 1,
            frame <= frames,
            frames == input@.len() / channels as nat,
            input@.len() <= usize::MAX,
            frames <= old(left)@.len(),
            frames <= old(right)@.len(),
            one == channel_of(input@, channels as nat, 0),
            two == channel_of(input@, channels as nat, right_offset(channels as nat)),
            left@ == overlaid(old(left)@, one.take(frame as int)),
            right@ == overlaid(old(right)@, two.take(frame as int)),
        decreases frames - frame,
    {
        assert(0 <= frame * channels && frame * channels + channels <= input@.len())
            by (nonlinear_arith)
            requires
                frame < frames,
                frames == input@.len() / channels as nat,
                channels >= 1,
        ;
        let start: usize = frame * channels;
        left[frame] = input[start];
        right[frame] = if channels == 1 {
            input[start]
        } else {
            input[start + 1]
        };
        assert(left@ =~= overlaid(old(left)@, one.take(frame + 1)));
        assert(right@ =~= overlaid(old(right)@, two.take(frame + 1)));
        frame = frame + 1;
    }
    assert(one.take(frames as int) =~= one);
    assert(two.take(frames as int) =~= two);
}

/// Two-channel audio with the same signal on both channels.
pub open spec fn doubled(mono: Seq<u32>) -> Seq<u32> {
    Seq::new(2 * mono.len(), |i: int| mono[i / 2])
}

/// Writes a one-channel signal to both channels of two-channel audio, for as many samples as there
/// are whole output frames. The output keeps what it held behind them.
pub fn duplicate_mono_to_stereo(input: &[u32], output: &mut [u32])
    ensures
        final(output)@ == overlaid(
            old(output)@,
            doubled(
                input@.take(
                    vstd::math::min(input@.len() as int, old(output)@.len() as int / 2),
                ),
            ),
        ),
{
    let places: usize = output.len() / 2;
    let count: usize = if input.len() < places {
        input.len()
    } else {
        places
    };
    let mut index: usize = 0;
    assert(overlaid(output@, doubled(input@.take(0))) =~= output@);
    while index < count
        invariant
            index <= count,
            count <= input@.len(),
            2 * count <= old(output)@.len(),
            2 * count <= usize::MAX,
            output@ == overlaid(old(output)@, doubled(input@.take(index as int))),
        decreases count - index,
    {
        output[2 * index] = input[index];
        output[2 * index + 1] = input[index];
        assert(output@ =~= overlaid(old(output)@, doubled(input@.take(index + 1))));
        index = index + 1;
    }
}

/// The sample that four bytes spell, lowest byte first.
pub open spec fn sample_of(bytes: Seq<u8>) -> u32 {
    (bytes[0] + 256 * bytes[1] + 65536 * bytes[2] + 16777216 * bytes[3]) as u32
}

/// The four bytes of a sample, lowest byte first.
pub open spec fn bytes_of(sample: u32) -> Seq<u8> {
    seq![
        (sample % 256) as u8,
        (sample / 256 % 256) as u8,
        (sample / 65536 % 256) as u8,
        (sample / 16777216) as u8,
    ]
}

/// The samples that a run of bytes spells; a rest of fewer than four bytes spells none.
pub open spec fn decoded(bytes: Seq<u8>) -> Seq<u32> {
    Seq::new(bytes.len() / 4, |i: int| sample_of(bytes.subrange(4 * i, 4 * i + 4)))
}

/// Samples as bytes, one after another.
pub open spec fn encoded(samples: Seq<u32>) -> Seq<u8> {
    Seq::new(4 * samples.len(), |i: int| bytes_of(samples[i / 4])[i % 4])
}

/// Reads little-endian samples, as many as both sides have room for. The output keeps what it held
/// behind them.
pub fn decode_f32_le(bytes: &[u8], samples: &mut [u32])
    ensures
        final(samples)@ == overlaid(
            old(samples)@,
            decoded(bytes@).take(
                vstd::math::min(bytes@.len() as int / 4, old(samples)@.len() as int),
            ),
        ),
{
    let spelled: usize = bytes.len() / 4;
    let count: usize = if spelled < samples.len() {
        spelled
    } else {
        samples.len()
    };
    let mut index: usize = 0;
    assert(overlaid(samples@, decoded(bytes@).take(0)) =~= samples@);
    while index < count
        invariant
            index <= count,
            4 * count <= bytes@.len(),
            4 * count <= usize::MAX,
            count <= old(samples)@.len(),
            samples@ == overlaid(old(samples)@, decoded(bytes@).take(index as int)),
        decreases count - index,
    {
        let at: usize = 4 * index;
        let value: u32 = bytes[at] as u32 + 256 * (bytes[at + 1] as u32) + 65536 * (
        bytes[at + 2] as u32) + 16777216 * (bytes[at + 3] as u32);
        assert(value == sample_of(bytes@.subrange(4 * index, 4 * index + 4)));
        samples[index] = value;
        assert(samples@ =~= overlaid(old(samples)@, decoded(bytes@).take(index + 1)));
        index = index + 1;
    }
}

/// Writes samples in little-endian order; the output holds nothing else afterwards.
pub fn encode_f32_le(samples: &[u32], bytes: &mut Vec<u8>)
    ensures
        final(bytes)@ == encoded(samples@),
{
    bytes.clear();
    let mut index: usize = 0;
    assert(bytes@ =~= encoded(samples@.take(0)));
    while index < samples.len()
        invariant
            index <= samples@.len(),
            bytes@ == encoded(samples@.take(index as int)),
        decreases samples@.len() - index,
    {
        let sample: u32 = samples[index];
        bytes.push((sample % 256) as u8);
        bytes.push((sample / 256 % 256) as u8);
        bytes.push((sample / 65536 % 256) as u8);
        bytes.push((sample / 16777216) as u8);
        assert(bytes@ =~= encoded(samples@.take(index + 1)));
        index = index + 1;
    }
    assert(samples@.take(samples@.len() as int) =~= samples@);
}

proof fn sample_round_trip(sample: u32)
    ensures
        sample_of(bytes_of(sample)) == sample,
{
}

/// Reading back what was written gives the same samples.
pub proof fn decode_undoes_encode(samples: Seq<u32>)
    ensures
        decoded(encoded(samples)) == samples,
{
    let bytes = encoded(samples);
    assert forall|i: int| 0 <= i < samples.len() implies decoded(bytes)[i] == samples[i] by {
        assert(bytes.subrange(4 * i, 4 * i + 4) =~= bytes_of(samples[i]));
        sample_round_trip(samples[i]);
    }
    assert(decoded(bytes) =~= samples);
}

proof fn word_round_trip(word: Seq<u8>)
    requires
        word.len() == 4,
    ensures
        bytes_of(sample_of(word)) == word,
{
    let value: int = word[0] + 256 * word[1] + 65536 * word[2] + 16777216 * word[3];
    assert(sample_of(word) == value);
    assert(value % 256 == word[0]);
    assert(value / 256 == word[1] + 256 * word[2] + 65536 * word[3]);
    assert(value / 65536 == word[2] + 256 * word[3]);
    assert(value / 16777216 == word[3]);
    assert(bytes_of(sample_of(word)) =~= word);
}

/// Writing back what was read gives the same bytes, where they make whole samples.
pub proof fn encode_undoes_decode(bytes: Seq<u8>)
    requires
        bytes.len() % 4 == 0,
    ensures
        encoded(decoded(bytes)) == bytes,
{
    let samples = decoded(bytes);
    assert forall|i: int| 0 <= i < bytes.len() implies encoded(samples)[i] == bytes[i] by {
        let word = bytes.subrange(4 * (i / 4), 4 * (i / 4) + 4);
        assert(word[i % 4] == bytes[i]);
        word_round_trip(word);
    }
    assert(encoded(samples) =~= bytes);
}

proof fn doubled_channel(mono: Seq<u32>, offset: nat)
    requires
        offset < 2,
    ensures
        channel_of(doubled(mono), 2, offset) == mono,
{
    let channel = channel_of(doubled(mono), 2, offset);
    assert forall|i: int| 0 <= i < mono.len() implies channel[i] == mono[i] by {
        assert((i * 2 + offset) / 2 == i);
    }
    assert(channel =~= mono);
}

/// Both sides of a doubled signal are the signal.
pub proof fn doubled_channels_are_the_signal(mono: Seq<u32>)
    ensures
        channel_of(doubled(mono), 2, 0) == mono,
        channel_of(doubled(mono), 2, 1) == mono,
{
    doubled_channel(mono, 0);
    doubled_channel(mono, 1);
}

/// One-channel audio is its own only channel.
pub proof fn mono_is_its_own_channel(mono: Seq<u32>)
    ensures
        channel_of(mono, 1, 0) == mono,
{
    assert(channel_of(mono, 1, 0) =~= mono);
}

/// A sample is spelled lowest byte first: byte `k` of it has the weight of the `k`-th power of 256.
pub proof fn samples_are_spelled_lowest_byte_first(samples: Seq<u32>, bytes: Seq<u8>)
    ensures
        encoded(samples).len() == 4 * samples.len(),
        forall|i: int|
            0 <= i < samples.len() ==> {
                &&& encoded(samples)[4 * i] == #[trigger] samples[i] % 256
                &&& encoded(samples)[4 * i + 1] == samples[i] / 0x100 % 256
                &&& encoded(samples)[4 * i + 2] == samples[i] / 0x1_0000 % 256
                &&& encoded(samples)[4 * i + 3] == samples[i] / 0x100_0000 % 256
            },
        decoded(bytes).len() == bytes.len() / 4,
        forall|i: int|
            0 <= i < bytes.len() / 4 ==> #[trigger] decoded(bytes)[i] == bytes[4 * i] + 0x100
                * bytes[4 * i + 1] + 0x1_0000 * bytes[4 * i + 2] + 0x100_0000 * bytes[4 * i + 3],
{
    assert forall|i: int| 0 <= i < samples.len() implies {
        &&& encoded(samples)[4 * i] == #[trigger] samples[i] % 256
        &&& encoded(samples)[4 * i + 1] == samples[i] / 0x100 % 256
        &&& encoded(samples)[4 * i + 2] == samples[i] / 0x1_0000 % 256
        &&& encoded(samples)[4 * i + 3] == samples[i] / 0x100_0000 % 256
    } by {
        assert((4 * i) / 4 == i && (4 * i) % 4 == 0);
        assert((4 * i + 1) / 4 == i && (4 * i + 1) % 4 == 1);
        assert((4 * i + 2) / 4 == i && (4 * i + 2) % 4 == 2);
        assert((4 * i + 3) / 4 == i && (4 * i + 3) % 4 == 3);
        assert(samples[i] / 0x100_0000 < 256);
    }
    assert forall|i: int| 0 <= i < bytes.len() / 4 implies #[trigger] decoded(bytes)[i] == bytes[4
        * i] + 0x100 * bytes[4 * i + 1] + 0x1_0000 * bytes[4 * i + 2] + 0x100_0000 * bytes[4 * i
        + 3] by {
        let word = bytes.subrange(4 * i, 4 * i + 4);
        assert(word[0] == bytes[4 * i] && word[1] == bytes[4 * i + 1] && word[2] == bytes[4 * i
            + 2] && word[3] == bytes[4 * i + 3]);
    }
}

/// A doubled signal has each sample twice, one behind the other.
pub proof fn a_doubled_signal_has_each_sample_twice(mono: Seq<u32>)
    ensures
        doubled(mono).len() == 2 * mono.len(),
        forall|i: int|
            0 <= i < mono.len() ==> doubled(mono)[2 * i] == #[trigger] mono[i] && doubled(mono)[2
                * i + 1] == mono[i],
{
    assert forall|i: int| 0 <= i < mono.len() implies doubled(mono)[2 * i] == #[trigger] mono[i]
        && doubled(mono)[2 * i + 1] == mono[i] by {
        assert((2 * i) / 2 == i && (2 * i + 1) / 2 == i);
    }
}

/// The sides of interleaved audio: of two-channel audio the left is every first sample and the right
/// every second, of one-channel audio both are the audio, and more channels than two change nothing
/// in which two are taken.
pub proof fn sides_of_interleaved_audio(interleaved: Seq<u32>, channels: nat)
    requires
        channels >= 1,
    ensures
        ({
            let left = channel_of(interleaved, channels, 0);
            let right = channel_of(interleaved, channels, right_offset(channels));
            &&& left.len() == interleaved.len() / channels
            &&& right.len() == interleaved.len() / channels
            &&& channels == 1 ==> left == interleaved && right == interleaved
            &&& channels >= 2 ==> forall|i: int|
                0 <= i < left.len() ==> #[trigger] left[i] == interleaved[i * channels]
                    && right[i] == interleaved[i * channels + 1]
        }),
{
    if channels == 1 {
        mono_is_its_own_channel(interleaved);
    }
}

/// What is written over the beginning of a sequence leaves the rest of it, and its length.
pub proof fn writing_over_the_beginning_keeps_the_rest<T>(under: Seq<T>, over: Seq<T>)
    requires
        over.len() <= under.len(),
    ensures
        overlaid(under, over).len() == under.len(),
        forall|i: int| 0 <= i < over.len() ==> #[trigger] overlaid(under, over)[i] == over[i],
        forall|i: int|
            over.len() <= i < under.len() ==> #[trigger] overlaid(under, over)[i] == under[i],
{
}

} // verus!
