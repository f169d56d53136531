//! The processing thread: which audio it takes next, and where its result goes.

use crate::bridge::{FRAME_SAMPLES, SAMPLE_RATE};
use crate::ring::{
    inflow, occupied_len, outflow, pop_slice, push_slice, reads_in_order, received, room, sent,
    waiting, writes_in_order, SampleConsumer, SampleProducer,
};
use crate::samples::{
    channel_of, deinterleave_reference, doubled, duplicate_mono_to_stereo, right_offset,
};
use vstd::prelude::*;

verus! {

/// Where the processing thread stands in a round: it takes the reference first, then the
/// microphone.
#[derive(Clone, Copy, Debug, PartialEq, Eq, Structural)]
pub enum Phase {
    Reference,
    Microphone,
}

/// What the processing thread goes by: the channels of its streams, the microphone samples that are
/// held back, and whether the canceller is bypassed.
pub struct Setup {
    reference_channels: usize,
    mic_channels: usize,
    delay_samples: u64,
    bypass: bool,
}

/// What the processing thread goes by, for all to see.
pub struct SetupView {
    pub reference_channels: nat,
    pub mic_channels: nat,
    pub delay_samples: nat,
    pub bypass: bool,
}

impl View for Setup {
    type V = SetupView;

    closed spec fn view(&self) -> SetupView {
        SetupView {
            reference_channels: self.reference_channels as nat,
            mic_channels: self.mic_channels as nat,
            delay_samples: self.delay_samples as nat,
            bypass: self.bypass,
        }
    }
}

impl SetupView {
    /// What always holds of a setup: both streams have one or two channels.
    pub open spec fn well_formed(self) -> bool {
        &&& 1 <= self.reference_channels <= 2
        &&& 1 <= self.mic_channels <= 2
        &&& self.delay_samples <= 0x7fff_ffff_ffff_ffff
    }

    /// The setup for streams of so many channels, with a delay in milliseconds.
    pub open spec fn made(
        reference_channels: nat,
        mic_channels: nat,
        delay_ms: u32,
        bypass: bool,
    ) -> SetupView {
        SetupView {
            reference_channels,
            mic_channels,
            delay_samples: delay_in_samples(delay_ms, mic_channels),
            bypass,
        }
    }

    /// The interleaved samples of a frame of the reference.
    pub open spec fn reference_frame_len(self) -> nat {
        480 * self.reference_channels
    }

    /// The interleaved samples of a frame of the microphone.
    pub open spec fn mic_frame_len(self) -> nat {
        480 * self.mic_channels
    }
}

impl Setup {
    #[verifier::type_invariant]
    spec fn holds(self) -> bool {
        self.view().well_formed()
    }

    /// The setup for streams of so many channels, with a delay in milliseconds.
    pub fn new(
        reference_channels: usize,
        mic_channels: usize,
        capture_delay_ms: u32,
        bypass: bool,
    ) -> (setup: Setup)
        requires
            1 <= reference_channels <= 2,
            1 <= mic_channels <= 2,
        ensures
            setup@ == SetupView::made(
                reference_channels as nat,
                mic_channels as nat,
                capture_delay_ms,
                bypass,
            ),
            setup@.delay_samples == 48 * capture_delay_ms * mic_channels,
            setup@.well_formed(),
    {
        assert(0 <= SAMPLE_RATE * capture_delay_ms <= 48_000 * 0xffff_ffff) by (nonlinear_arith)
            requires
                SAMPLE_RATE == 48_000,
                0 <= capture_delay_ms <= 0xffff_ffff,
        ;
        let frames: u64 = SAMPLE_RATE as u64 * capture_delay_ms as u64 / 1_000;
        assert(0 <= frames * mic_channels <= 2 * frames) by (nonlinear_arith)
            requires
                frames >= 0,
                0 <= mic_channels <= 2,
        ;
        let delay_samples: u64 = frames * mic_channels as u64;
        proof {
            delay_lasts_as_long_as_asked(capture_delay_ms, mic_channels as nat);
        }
        Setup { reference_channels, mic_channels, delay_samples, bypass }
    }
}

/// The processing thread's ends of the three rings, and what it goes by.
pub struct Processor {
    pub reference: SampleConsumer,
    pub microphone: SampleConsumer,
    pub output: SampleProducer,
    pub setup: Setup,
    pub phase: Phase,
    /// Whether this round has taken anything yet.
    pub did_work: bool,
}

/// What the processing thread does next.
#[derive(Debug)]
pub enum Work {
    /// Give this frame of the reference to the canceller.
    Reference { left: Vec<u32>, right: Vec<u32> },
    /// Nothing: a frame of the reference was passed over, as the canceller is bypassed.
    ReferenceSkipped,
    /// Give this interleaved frame of the microphone to the canceller, and deliver the result.
    Microphone { frame: Vec<u32> },
    /// Deliver this interleaved frame of the microphone as it is: the canceller is bypassed.
    RawMicrophone { frame: Vec<u32> },
    /// Nothing: the round is over. A round that took nothing leaves time to rest.
    RoundOver { worked: bool },
}

/// The microphone samples that a delay holds back.
pub open spec fn delay_in_samples(delay_ms: u32, channels: nat) -> nat {
    (48_000 * delay_ms as nat / 1_000) * channels
}

/// Whether a frame, and nothing else, was taken from the front of a ring, whatever the writer added
/// meanwhile.
pub open spec fn frame_taken(before: SampleConsumer, frame: Seq<u32>, after: SampleConsumer) -> bool {
    &&& waiting(before).is_prefix_of(frame + waiting(after))
    &&& received(after) == received(before) + frame
    &&& outflow(after) == outflow(before)
    &&& reads_in_order(after)
}

/// Whether nothing was taken from a ring, whatever the writer added meanwhile.
pub open spec fn nothing_taken(before: SampleConsumer, after: SampleConsumer) -> bool {
    &&& waiting(before).is_prefix_of(waiting(after))
    &&& received(after) == received(before)
    &&& outflow(after) == outflow(before)
    &&& reads_in_order(after)
}

impl Processor {
    /// Whether a frame of the reference was taken, `frame` being its interleaved samples.
    pub open spec fn took_reference(self, after: Processor, frame: Seq<u32>) -> bool {
        &&& self.phase == Phase::Reference
        &&& after.phase == Phase::Reference
        &&& after.did_work
        &&& after.microphone == self.microphone
        &&& frame.len() == self.setup@.reference_frame_len()
        &&& frame_taken(self.reference, frame, after.reference)
    }

    /// Whether a frame of the microphone was taken, `frame` being its interleaved samples: the
    /// reference has had its turn, and the delay's worth of samples stays behind.
    pub open spec fn took_microphone(self, after: Processor, frame: Seq<u32>) -> bool {
        &&& self.reference_exhausted(after)
        &&& after.phase == Phase::Microphone
        &&& after.did_work
        &&& frame.len() == self.setup@.mic_frame_len()
        &&& frame_taken(self.microphone, frame, after.microphone)
        &&& waiting(after.microphone).len() >= self.setup@.delay_samples
    }

    /// Whether the reference was left alone for want of a whole frame, or because its turn in this
    /// round is over.
    pub open spec fn reference_exhausted(self, after: Processor) -> bool {
        match self.phase {
            Phase::Reference => {
                &&& nothing_taken(self.reference, after.reference)
                &&& waiting(after.reference).len() < self.setup@.reference_frame_len()
            },
            Phase::Microphone => after.reference == self.reference,
        }
    }

    /// What one step of the processing thread comes to: which work follows, and what is left in the
    /// rings.
    pub open spec fn stepped(self, after: Processor, work: Work) -> bool {
        &&& after.setup == self.setup
        &&& after.output == self.output
        &&& match work {
            Work::Reference { left, right } => {
                &&& !self.setup@.bypass
                &&& exists|frame: Seq<u32>|
                    {
                        &&& #[trigger] self.took_reference(after, frame)
                        &&& left@ == channel_of(frame, self.setup@.reference_channels, 0)
                        &&& right@ == channel_of(
                            frame,
                            self.setup@.reference_channels,
                            right_offset(self.setup@.reference_channels),
                        )
                    }
            },
            Work::ReferenceSkipped => {
                &&& self.setup@.bypass
                &&& exists|frame: Seq<u32>| #[trigger] self.took_reference(after, frame)
            },
            Work::Microphone { frame } => {
                &&& !self.setup@.bypass
                &&& self.took_microphone(after, frame@)
            },
            Work::RawMicrophone { frame } => {
                &&& self.setup@.bypass
                &&& self.took_microphone(after, frame@)
            },
            Work::RoundOver { worked } => {
                &&& self.reference_exhausted(after)
                &&& after.phase == Phase::Reference
                &&& !after.did_work
                &&& worked == self.did_work
                &&& nothing_taken(self.microphone, after.microphone)
                &&& waiting(after.microphone).len() < self.setup@.mic_frame_len()
                    + self.setup@.delay_samples
            },
        }
    }

    /// A processor at the beginning of a round.
    pub fn new(
        reference: SampleConsumer,
        microphone: SampleConsumer,
        output: SampleProducer,
        reference_channels: usize,
        mic_channels: usize,
        capture_delay_ms: u32,
        bypass: bool,
    ) -> (processor: Processor)
        requires
            1 <= reference_channels <= 2,
            1 <= mic_channels <= 2,
        ensures
            processor.reference == reference,
            processor.microphone == microphone,
            processor.output == output,
            processor.setup@ == SetupView::made(
                reference_channels as nat,
                mic_channels as nat,
                capture_delay_ms,
                bypass,
            ),
            processor.setup@.delay_samples == 48 * capture_delay_ms * mic_channels,
            processor.setup@.well_formed(),
            processor.phase == Phase::Reference,
            !processor.did_work,
    {
        Processor {
            reference,
            microphone,
            output,
            setup: Setup::new(reference_channels, mic_channels, capture_delay_ms, bypass),
            phase: Phase::Reference,
            did_work: false,
        }
    }

    /// Takes the next step of the round: every whole frame of the reference comes before any of the
    /// microphone, and the microphone gives a frame only while the delay's worth of samples stays
    /// behind. With the canceller bypassed, nothing is handed out for it.
    pub fn next_work(&mut self) -> (work: Work)
        ensures
            old(self).stepped(*final(self), work),
    {
        let ghost before = *self;
        proof {
            use_type_invariant(&self.setup);
        }
        let reference_channels: usize = self.setup.reference_channels;
        let bypass = self.setup.bypass;
        if let Phase::Reference = self.phase {
            let length: usize = FRAME_SAMPLES * reference_channels;
            let occupied: usize = occupied_len(&mut self.reference);
            if occupied >= length {
                let ghost seen = waiting(self.reference);
                let mut frame: Vec<u32> = Vec::new();
                frame.resize(length, 0u32);
                let count: usize = pop_slice(&mut self.reference, &mut frame);
                self.did_work = true;
                proof {
                    assert(frame@.take(count as int) + waiting(self.reference) =~= if count
                        == length {
                        frame@ + waiting(self.reference)
                    } else {
                        frame@.take(count as int)
                    });
                    assert(count == length);
                    assert(frame@.take(count as int) =~= frame@);
                    assert(before.took_reference(*self, frame@));
                }
                if bypass {
                    return Work::ReferenceSkipped;
                }
                let mut left: Vec<u32> = Vec::new();
                left.resize(FRAME_SAMPLES, 0u32);
                let mut right: Vec<u32> = Vec::new();
                right.resize(FRAME_SAMPLES, 0u32);
                assert(frame@.len() / reference_channels as nat == 480) by {
                    if reference_channels == 1 {
                        assert(frame@.len() / 1 == 480);
                    } else {
                        assert(frame@.len() / 2 == 480);
                    }
                }
                deinterleave_reference(
                    frame.as_slice(),
                    reference_channels,
                    left.as_mut_slice(),
                    right.as_mut_slice(),
                );
                assert(left@ =~= channel_of(frame@, reference_channels as nat, 0));
                assert(right@ =~= channel_of(
                    frame@,
                    reference_channels as nat,
                    right_offset(reference_channels as nat),
                ));
                return Work::Reference { left, right };
            }
            self.phase = Phase::Microphone;
        }
        let length: usize = FRAME_SAMPLES * self.setup.mic_channels;
        let occupied: usize = occupied_len(&mut self.microphone);
        if occupied as u64 >= length as u64 + self.setup.delay_samples {
            let mut frame: Vec<u32> = Vec::new();
            frame.resize(length, 0u32);
            let count: usize = pop_slice(&mut self.microphone, &mut frame);
            self.did_work = true;
            proof {
                assert(frame@.take(count as int) + waiting(self.microphone) =~= if count == length {
                    frame@ + waiting(self.microphone)
                } else {
                    frame@.take(count as int)
                });
                assert(count == length);
                assert(frame@.take(count as int) =~= frame@);
            }
            assert(before.took_microphone(*self, frame@));
            return if bypass {
                Work::RawMicrophone { frame }
            } else {
                Work::Microphone { frame }
            };
        }
        let worked = self.did_work;
        self.phase = Phase::Reference;
        self.did_work = false;
        Work::RoundOver { worked }
    }

    /// Sends a cleaned or raw frame to both channels of the output, as much of it as the ring has room
    /// for, and gives the number of samples that were dropped.
    pub fn deliver(&mut self, mono: &Vec<u32>) -> (dropped: u64)
        requires
            mono@.len() == 480,
        ensures
            dropped <= 960,
            sent(final(self).output) == sent(old(self).output) + doubled(mono@).take(960 - dropped),
            room(old(self).output) <= 960 - dropped + room(final(self).output),
            dropped == 0 || room(final(self).output) == 0,
            inflow(final(self).output) == inflow(old(self).output),
            writes_in_order(final(self).output),
            *final(self) == (Processor { output: final(self).output, ..*old(self) }),
    {
        let mut stereo: Vec<u32> = Vec::new();
        stereo.resize(2 * FRAME_SAMPLES, 0u32);
        duplicate_mono_to_stereo(mono.as_slice(), stereo.as_mut_slice());
        assert(mono@.take(480) =~= mono@);
        assert(stereo@ =~= doubled(mono@));
        let written: usize = push_slice(&mut self.output, stereo.as_slice());
        (stereo.len() - written) as u64
    }
}

/// Whether the figures of the canceller are due after so many nanoseconds.
pub open spec fn figures_due(bypass: bool, nanos_since_last: u64) -> bool {
    !bypass && nanos_since_last >= 5_000_000_000
}

/// Whether the figures of the canceller are due: every five seconds, and never while it is
/// bypassed.
pub fn metrics_due(bypass: bool, nanos_since_last: u64) -> (due: bool)
    ensures
        due == (!bypass && nanos_since_last >= 5_000_000_000),
        due == figures_due(bypass, nanos_since_last),
{
    !bypass && nanos_since_last >= 5_000_000_000
}

/// A whole frame of the reference that waits at the beginning of a step is what the step takes: no
/// microphone frame goes before it.
pub proof fn reference_goes_first(before: Processor, after: Processor, work: Work)
    requires
        before.setup@.well_formed(),
        before.stepped(after, work),
        before.phase == Phase::Reference,
        waiting(before.reference).len() >= before.setup@.reference_frame_len(),
    ensures
        if before.setup@.bypass {
            work is ReferenceSkipped
        } else {
            work is Reference
        },
{
}

/// Once the reference has had its turn, a microphone frame is taken whenever one waits together
/// with the delay's worth of samples.
pub proof fn waiting_microphone_is_taken(before: Processor, after: Processor, work: Work)
    requires
        before.setup@.well_formed(),
        before.stepped(after, work),
        before.phase == Phase::Microphone,
        waiting(before.microphone).len() >= before.setup@.mic_frame_len()
            + before.setup@.delay_samples,
    ensures
        if before.setup@.bypass {
            work is RawMicrophone
        } else {
            work is Microphone
        },
{
}

/// With the canceller bypassed, no step hands it anything, neither of the reference nor of the
/// microphone: a microphone frame that is taken is raw, and is the front of what waited, whatever
/// the reference holds.
pub proof fn bypass_hands_out_raw_microphone_only(before: Processor, after: Processor, work: Work)
    requires
        before.setup@.bypass,
        before.stepped(after, work),
    ensures
        work !is Reference,
        work !is Microphone,
        work matches Work::RawMicrophone { frame } ==> frame_taken(
            before.microphone,
            frame@,
            after.microphone,
        ),
        after.setup@.bypass,
{
}

/// The samples that a delay holds back last exactly as long as was asked for, whatever the number of
/// channels: 48 frames for each millisecond, each of them whole.
pub proof fn delay_lasts_as_long_as_asked(delay_ms: u32, channels: nat)
    requires
        channels >= 1,
    ensures
        delay_in_samples(delay_ms, channels) == 48 * delay_ms * channels,
        delay_in_samples(delay_ms, channels) == channels * delay_in_samples(delay_ms, 1),
        delay_in_samples(delay_ms, channels) % channels == 0,
        delay_in_samples(delay_ms, channels) / channels / 48 == delay_ms,
{
    let frames: nat = 48 * delay_ms as nat;
    assert(48_000 * delay_ms as nat / 1_000 == frames);
    assert(frames * 1 == frames);
    assert(frames * channels == channels * frames) by (nonlinear_arith);
    vstd::arithmetic::div_mod::lemma_mod_multiples_basic(frames as int, channels as int);
    vstd::arithmetic::div_mod::lemma_div_by_multiple(frames as int, channels as int);
}

/// The microphone runs behind by the delay that was asked for: a frame of ten milliseconds is handed
/// out only where that many milliseconds of audio stay behind, and a round is over only once there
/// are fewer than ten milliseconds more than that. Frames of the reference are as long, and what was
/// asked to be bypassed is.
pub proof fn microphone_is_held_back_for_the_delay(
    before: Processor,
    after: Processor,
    work: Work,
    reference_channels: nat,
    mic_channels: nat,
    delay_ms: u32,
    bypass: bool,
)
    requires
        1 <= mic_channels,
        before.setup@ == SetupView::made(reference_channels, mic_channels, delay_ms, bypass),
        before.stepped(after, work),
    ensures
        match work {
            Work::Microphone { frame } => {
                &&& frame@.len() == 10 * 48 * mic_channels
                &&& waiting(after.microphone).len() >= delay_ms * 48 * mic_channels
            },
            Work::RawMicrophone { frame } => {
                &&& frame@.len() == 10 * 48 * mic_channels
                &&& waiting(after.microphone).len() >= delay_ms * 48 * mic_channels
            },
            Work::RoundOver { .. } => waiting(after.microphone).len() < (delay_ms + 10) * 48
                * mic_channels,
            _ => after.microphone == before.microphone,
        },
        work is Reference || work is Microphone ==> !bypass,
        work is ReferenceSkipped || work is RawMicrophone ==> bypass,
        work matches Work::Reference { left, right } ==> received(after.reference).len()
            == received(before.reference).len() + 10 * 48 * reference_channels,
        work is ReferenceSkipped ==> received(after.reference).len() == received(
            before.reference,
        ).len() + 10 * 48 * reference_channels,
{
    assert(10 * 48 * reference_channels == 480 * reference_channels) by (nonlinear_arith);
    delay_lasts_as_long_as_asked(delay_ms, mic_channels);
    assert((delay_ms + 10) * 48 * mic_channels == delay_ms * 48 * mic_channels + 10 * 48
        * mic_channels) by (nonlinear_arith);
    assert(delay_ms * 48 * mic_channels == 48 * delay_ms * mic_channels) by (nonlinear_arith);
    assert(10 * 48 * mic_channels == 480 * mic_channels) by (nonlinear_arith);
}

/// The canceller gets both sides of the reference, ten milliseconds of each: of a two-channel
/// reference every first and every second sample that was read, in order, and of a one-channel
/// reference the same samples for both.
pub proof fn reference_sides_are_its_channels(
    before: Processor,
    after: Processor,
    left: Vec<u32>,
    right: Vec<u32>,
)
    requires
        before.setup@.well_formed(),
        before.stepped(after, Work::Reference { left, right }),
    ensures
        !before.setup@.bypass,
        left@.len() == 480,
        right@.len() == 480,
        forall|i: int|
            0 <= i < 480 ==> {
                &&& #[trigger] left@[i] == received(after.reference)[received(before.reference).len()
                    + before.setup@.reference_channels * i]
                &&& right@[i] == if before.setup@.reference_channels == 2 {
                    received(after.reference)[received(before.reference).len() + 2 * i + 1]
                } else {
                    left@[i]
                }
            },
        received(after.reference).len() == received(before.reference).len() + 480
            * before.setup@.reference_channels,
{
    let channels = before.setup@.reference_channels;
    let frame = choose|frame: Seq<u32>|
        {
            &&& #[trigger] before.took_reference(after, frame)
            &&& left@ == channel_of(frame, channels, 0)
            &&& right@ == channel_of(frame, channels, right_offset(channels))
        };
    let start = received(before.reference).len() as int;
    assert(received(after.reference) == received(before.reference) + frame);
    if channels == 1 {
        assert(frame.len() == 480);
        assert(frame.len() / 1 == 480);
    } else {
        assert(channels == 2);
        assert(frame.len() == 960);
        assert(frame.len() / 2 == 480);
    }
    assert forall|i: int| 0 <= i < 480 implies {
        &&& #[trigger] left@[i] == received(after.reference)[start + channels * i]
        &&& right@[i] == if channels == 2 {
            received(after.reference)[start + 2 * i + 1]
        } else {
            left@[i]
        }
    } by {
        if channels == 1 {
            assert(i * channels == i && channels * i == i);
        } else {
            assert(i * channels == 2 * i && channels * i == 2 * i);
        }
    }
}

/// Figures come every five seconds, neither sooner nor later, and a bypassed canceller has none.
pub proof fn figures_come_every_five_seconds(nanos: u64)
    ensures
        !figures_due(true, nanos),
        figures_due(false, nanos) <==> nanos as int >= 5 * 1_000_000_000,
{
}

/// A round tells whether it took anything: every frame that is taken is remembered until the round
/// is over, and a round begins with nothing taken.
pub proof fn a_round_tells_whether_it_took_anything(
    before: Processor,
    after: Processor,
    work: Work,
)
    requires
        before.stepped(after, work),
    ensures
        match work {
            Work::RoundOver { worked } => worked == before.did_work && !after.did_work
                && after.phase == Phase::Reference,
            _ => after.did_work,
        },
        work is Reference || work is ReferenceSkipped ==> before.phase == Phase::Reference
            && after.phase == Phase::Reference,
        work is Microphone || work is RawMicrophone ==> after.phase == Phase::Microphone,
        after.setup@ == before.setup@,
        after.output == before.output,
{
}

/// A frame of the microphone is the front of what waited, and is read once: it joins what was
/// received, and the rest stays in its order.
pub proof fn a_microphone_frame_is_the_front_of_what_waited(
    before: Processor,
    after: Processor,
    work: Work,
)
    requires
        before.stepped(after, work),
    ensures
        work matches Work::Microphone { frame } ==> taken_from_the_front(
            before.microphone,
            frame@,
            after.microphone,
        ),
        work matches Work::RawMicrophone { frame } ==> taken_from_the_front(
            before.microphone,
            frame@,
            after.microphone,
        ),
{
    let frame = match work {
        Work::Microphone { frame } => frame@,
        Work::RawMicrophone { frame } => frame@,
        _ => Seq::empty(),
    };
    if work is Microphone || work is RawMicrophone {
        let old = waiting(before.microphone);
        let all = frame + waiting(after.microphone);
        assert forall|i: int| 0 <= i < old.len() implies all[i] == old[i] by {}
        if old.len() >= frame.len() {
            assert(frame =~= old.take(frame.len() as int));
            assert(old.skip(frame.len() as int) =~= waiting(after.microphone).take(
                old.len() - frame.len(),
            ));
        }
    }
}

/// Whether samples are the oldest that waited in a ring, were received once, and left the others
/// waiting in their order.
pub open spec fn taken_from_the_front(
    before: SampleConsumer,
    frame: Seq<u32>,
    after: SampleConsumer,
) -> bool {
    let old = waiting(before);
    &&& received(after) == received(before) + frame
    &&& old.len() >= frame.len() ==> {
        &&& frame == old.take(frame.len() as int)
        &&& waiting(after).len() >= old.len() - frame.len()
        &&& old.skip(frame.len() as int) == waiting(after).take(old.len() - frame.len())
    }
}

} // verus!
