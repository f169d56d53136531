use aec_bridge::bridge::{open_rings, BridgePlan};
use aec_bridge::engine::prepare_engine;
use aec_bridge::processor::{metrics_due, Processor, Work};
use aec_bridge::samples::{
    decode_f32_le, deinterleave_reference, duplicate_mono_to_stereo, encode_f32_le,
};
use aec_bridge::wasapi_io::{accept_packet, fill_render_frames, Endpoint};

fn bits(values: &[f32]) -> Vec<u32> {
    values.iter().map(|value| value.to_bits()).collect()
}

fn plan(mic: usize, reference: usize) -> BridgePlan {
    let endpoint = |channels: usize| Endpoint {
        id: "wasapi:x".to_owned(),
        name: "X".to_owned(),
        channels,
    };
    BridgePlan {
        mic: endpoint(mic),
        reference: endpoint(reference),
        output: endpoint(2),
    }
}

fn packet(samples: &[u32]) -> Vec<u8> {
    let mut bytes = Vec::new();
    encode_f32_le(samples, &mut bytes);
    bytes
}

#[test]
fn deinterleaves_stereo() {
    let mut left = bits(&[0.0; 2]);
    let mut right = bits(&[0.0; 2]);
    deinterleave_reference(&bits(&[1.0, 2.0, 3.0, 4.0]), 2, &mut left, &mut right);
    assert_eq!(left, bits(&[1.0, 3.0]));
    assert_eq!(right, bits(&[2.0, 4.0]));
}

#[test]
fn duplicates_mono() {
    let mut output = bits(&[0.0; 4]);
    duplicate_mono_to_stereo(&bits(&[0.25, -0.5]), &mut output);
    assert_eq!(output, bits(&[0.25, 0.25, -0.5, -0.5]));
}

#[test]
fn f32_byte_round_trip() {
    let expected = bits(&[0.0, 0.25, -0.5, 1.0]);
    let mut bytes = Vec::new();
    encode_f32_le(&expected, &mut bytes);
    let mut actual = bits(&[0.0; 4]);
    decode_f32_le(&bytes, &mut actual);
    assert_eq!(actual, expected);
}

#[test]
fn samples_are_little_endian() {
    let mut bytes = vec![9u8; 3];
    encode_f32_le(&[1.0f32.to_bits(), 0x0403_0201], &mut bytes);
    assert_eq!(bytes, vec![0x00, 0x00, 0x80, 0x3f, 1, 2, 3, 4]);
    assert_eq!(bytes[..4], 1.0f32.to_le_bytes());
    let mut samples = vec![7u32; 3];
    decode_f32_le(&[1, 2, 3, 4, 5], &mut samples);
    assert_eq!(samples, vec![0x0403_0201, 7, 7]);
}

#[test]
fn one_channel_goes_to_both_sides() {
    let mut left = vec![0u32; 3];
    let mut right = vec![0u32; 3];
    deinterleave_reference(&[5, 6], 1, &mut left, &mut right);
    assert_eq!(left, vec![5, 6, 0]);
    assert_eq!(right, vec![5, 6, 0]);
    deinterleave_reference(&[1, 2, 3, 4, 5, 6, 7], 3, &mut left, &mut right);
    assert_eq!(left, vec![1, 4, 0]);
    assert_eq!(right, vec![2, 5, 0]);
}

#[test]
fn doubling_stops_at_whole_frames() {
    let mut output = vec![9u32; 5];
    duplicate_mono_to_stereo(&[1, 2, 3], &mut output);
    assert_eq!(output, vec![1, 1, 2, 2, 9]);
}

#[test]
fn captured_audio_comes_out_as_it_went_in() {
    let mut rings = open_rings(&plan(1, 2));
    let samples: Vec<u32> = (0..960).map(|i| 1000 + i).collect();
    let outcome =
        accept_packet(&mut rings.reference_producer, 2, 480, false, true, &packet(&samples));
    assert_eq!((outcome.dropped, outcome.discontinuities), (0, 1));
    let voice: Vec<u32> = (0..480).map(|i| 7000 + i).collect();
    let outcome = accept_packet(&mut rings.mic_producer, 1, 480, false, false, &packet(&voice));
    assert_eq!((outcome.dropped, outcome.discontinuities), (0, 0));

    let mut processor = Processor::new(
        rings.reference_consumer,
        rings.mic_consumer,
        rings.output_producer,
        2,
        1,
        0,
        false,
    );
    match processor.next_work() {
        Work::Reference { left, right } => {
            assert_eq!(left, (0..480).map(|i| 1000 + 2 * i).collect::<Vec<u32>>());
            assert_eq!(right, (0..480).map(|i| 1001 + 2 * i).collect::<Vec<u32>>());
        }
        other => panic!("unexpected work: {:?}", other),
    }
    match processor.next_work() {
        Work::Microphone { frame } => assert_eq!(frame, voice),
        other => panic!("unexpected work: {:?}", other),
    }
    assert_eq!(processor.deliver(&voice), 0);
    assert!(matches!(processor.next_work(), Work::RoundOver { worked: true }));
    assert!(matches!(processor.next_work(), Work::RoundOver { worked: false }));

    let mut output = rings.output_consumer;
    let mut buffer = Vec::new();
    let mut bytes = Vec::new();
    let underruns = fill_render_frames(481, 2, &mut output, false, true, &mut buffer, &mut bytes);
    assert_eq!(underruns, Some(1));
    let mut expected: Vec<u32> = voice.iter().flat_map(|sample| [*sample, *sample]).collect();
    expected.extend([0, 0]);
    assert_eq!(buffer, expected);
    assert_eq!(bytes, packet(&expected));
}

#[test]
fn a_delay_holds_the_microphone_back() {
    let mut rings = open_rings(&plan(1, 1));
    let first: Vec<u32> = (0..480).collect();
    accept_packet(&mut rings.mic_producer, 1, 480, false, false, &packet(&first));
    let mut processor = Processor::new(
        rings.reference_consumer,
        rings.mic_consumer,
        rings.output_producer,
        1,
        1,
        10,
        true,
    );
    assert!(matches!(processor.next_work(), Work::RoundOver { worked: false }));
    let second: Vec<u32> = (480..960).collect();
    accept_packet(&mut rings.mic_producer, 1, 480, false, false, &packet(&second));
    match processor.next_work() {
        Work::RawMicrophone { frame } => assert_eq!(frame, first),
        other => panic!("unexpected work: {:?}", other),
    }
    assert!(matches!(processor.next_work(), Work::RoundOver { worked: true }));
}

#[test]
fn a_bypassed_canceller_skips_the_reference() {
    let mut rings = open_rings(&plan(1, 1));
    accept_packet(&mut rings.reference_producer, 1, 960, true, false, &Vec::new());
    let mut processor = Processor::new(
        rings.reference_consumer,
        rings.mic_consumer,
        rings.output_producer,
        1,
        1,
        0,
        true,
    );
    assert!(matches!(processor.next_work(), Work::ReferenceSkipped));
    assert!(matches!(processor.next_work(), Work::ReferenceSkipped));
    assert!(matches!(processor.next_work(), Work::RoundOver { worked: true }));

    let voice: Vec<u32> = (0..480).map(|i| 7000 + i).collect();
    accept_packet(&mut rings.mic_producer, 1, 480, false, false, &packet(&voice));
    match processor.next_work() {
        Work::RawMicrophone { frame } => assert_eq!(frame, voice),
        other => panic!("unexpected work: {:?}", other),
    }
    assert_eq!(processor.deliver(&voice), 0);
    let mut buffer = Vec::new();
    let mut bytes = Vec::new();
    let output = &mut rings.output_consumer;
    assert_eq!(fill_render_frames(480, 2, output, false, true, &mut buffer, &mut bytes), Some(0));
    assert_eq!(
        buffer,
        voice.iter().flat_map(|sample| [*sample, *sample]).collect::<Vec<u32>>()
    );
}

#[test]
fn a_full_ring_drops_and_counts() {
    let mut rings = open_rings(&plan(1, 1));
    let outcome = accept_packet(&mut rings.mic_producer, 1, 96_003, true, true, &Vec::new());
    assert_eq!((outcome.dropped, outcome.discontinuities), (3, 1));
    let outcome = accept_packet(&mut rings.mic_producer, 1, 5, true, false, &Vec::new());
    assert_eq!((outcome.dropped, outcome.discontinuities), (5, 0));
}

#[test]
fn a_muted_output_is_silent_but_drains() {
    let mut rings = open_rings(&plan(1, 1));
    accept_packet(&mut rings.output_producer, 2, 3, false, false, &packet(&[1, 2, 3, 4, 5, 6]));
    let mut buffer = vec![8u32; 1];
    let mut bytes = vec![8u8; 1];
    let consumer = &mut rings.output_consumer;
    assert_eq!(fill_render_frames(0, 2, consumer, true, true, &mut buffer, &mut bytes), None);
    assert_eq!((buffer.len(), bytes.len()), (1, 1));
    assert_eq!(fill_render_frames(2, 2, consumer, true, true, &mut buffer, &mut bytes), Some(0));
    assert_eq!(buffer, vec![0; 4]);
    assert_eq!(fill_render_frames(2, 2, consumer, false, false, &mut buffer, &mut bytes), Some(0));
    assert_eq!(buffer, vec![5, 6, 0, 0]);
}

#[test]
fn the_engine_takes_the_delay_it_is_given() {
    let engine = prepare_engine(2, false, 120).ok().expect("a delay within range");
    assert_eq!(engine.stream_delay_ms(), 120);
    let canceller = engine.config().echo_canceller.clone().expect("an echo canceller");
    assert_eq!(canceller, sonora::config::EchoCanceller::default());
    let bypassed = prepare_engine(1, true, 500).ok().expect("a delay within range");
    assert!(bypassed.config().echo_canceller.is_none());
    assert_eq!(bypassed.stream_delay_ms(), 500);
    let expected = "invalid stream delay: stream parameter was clamped";
    assert_eq!(prepare_engine(1, false, 501).err(), Some(expected.to_owned()));
    assert_eq!(prepare_engine(1, false, -1).err(), Some(expected.to_owned()));
}

#[test]
fn figures_are_due_every_five_seconds() {
    assert!(!metrics_due(false, 4_999_999_999));
    assert!(metrics_due(false, 5_000_000_000));
    assert!(!metrics_due(true, 9_000_000_000));
}
