//! The echo canceller: setting up a `sonora` processing engine.

use crate::bridge::SAMPLE_RATE;
use vstd::prelude::*;

verus! {

/// `sonora::AudioProcessing`, carried without a look inside.
#[verifier::external_type_specification]
#[verifier::external_body]
pub struct ExAudioProcessing(sonora::AudioProcessing);

/// How an engine finds out that no echo is there (`sonora::config::TransparentModeType`).
#[derive(Clone, Copy, Debug, PartialEq, Eq, Structural)]
pub enum TransparentMode {
    Legacy,
    Hmm,
}

/// The settings of an echo canceller (`sonora::config::EchoCanceller`).
#[derive(Clone, Copy, Debug, PartialEq, Eq, Structural)]
pub struct CancellerSettings {
    pub enforce_high_pass_filtering: bool,
    pub transparent_mode: TransparentMode,
}

/// The echo canceller in the configuration of an engine, as `AudioProcessing::config` gives it.
pub uninterp spec fn canceller_of(engine: sonora::AudioProcessing) -> Option<CancellerSettings>;

/// The rate and the channels of the microphone stream that an engine was made for.
pub uninterp spec fn capture_stream(engine: sonora::AudioProcessing) -> (u32, u16);

/// The rate and the channels of the reference stream that an engine was made for.
pub uninterp spec fn render_stream(engine: sonora::AudioProcessing) -> (u32, u16);

/// The delay that an engine works with, as `AudioProcessing::stream_delay_ms` gives it.
pub uninterp spec fn delay_of(engine: sonora::AudioProcessing) -> i32;

/// Calls `EchoCanceller::default`: the high-pass filter is enforced, and the transparent mode is the
/// legacy one.
#[verifier::external_body]
fn default_canceller() -> (settings: CancellerSettings)
    ensures
        settings == (CancellerSettings {
            enforce_high_pass_filtering: true,
            transparent_mode: TransparentMode::Legacy,
        }),
{
    let canceller = sonora::config::EchoCanceller::default();
    CancellerSettings {
        enforce_high_pass_filtering: canceller.enforce_high_pass_filtering,
        transparent_mode: match canceller.transparent_mode {
            sonora::config::TransparentModeType::Legacy => TransparentMode::Legacy,
            sonora::config::TransparentModeType::Hmm => TransparentMode::Hmm,
        },
    }
}

/// Calls `AudioProcessing::builder` and its setters: an engine for the two streams, with this echo
/// canceller and everything else as by default, and with no delay. What the builder does at other
/// rates, or with more channels, is left out.
#[verifier::external_body]
fn build_engine(
    canceller: Option<CancellerSettings>,
    capture_rate: u32,
    capture_channels: u16,
    render_rate: u32,
    render_channels: u16,
) -> (engine: sonora::AudioProcessing)
    requires
        capture_rate == 48_000,
        1 <= capture_channels <= 2,
        render_rate == 48_000,
        1 <= render_channels <= 2,
    ensures
        canceller_of(engine) == canceller,
        capture_stream(engine) == (capture_rate, capture_channels),
        render_stream(engine) == (render_rate, render_channels),
        delay_of(engine) == 0,
{
    let echo_canceller = canceller.map(|settings| sonora::config::EchoCanceller {
        enforce_high_pass_filtering: settings.enforce_high_pass_filtering,
        transparent_mode: match settings.transparent_mode {
            TransparentMode::Legacy => sonora::config::TransparentModeType::Legacy,
            TransparentMode::Hmm => sonora::config::TransparentModeType::Hmm,
        },
    });
    sonora::AudioProcessing::builder()
        .config(sonora::Config { echo_canceller, ..Default::default() })
        .capture_config(sonora::StreamConfig::new(capture_rate, capture_channels))
        .render_config(sonora::StreamConfig::new(render_rate, render_channels))
        .build()
}

/// Calls `AudioProcessing::set_stream_delay_ms`: the delay is moved into its range, 0 to 500, and
/// the answer says whether it stood there already. The text is that of the one error it gives.
#[verifier::external_body]
fn set_stream_delay(engine: &mut sonora::AudioProcessing, delay: i32) -> (answer: Result<(), String>)
    ensures
        answer is Ok <==> 0 <= delay <= 500,
        answer matches Err(message) ==> message@ == "stream parameter was clamped"@,
        delay_of(*final(engine)) == if delay < 0 {
            0
        } else if delay > 500 {
            500
        } else {
            delay as int
        },
        canceller_of(*final(engine)) == canceller_of(*old(engine)),
        capture_stream(*final(engine)) == capture_stream(*old(engine)),
        render_stream(*final(engine)) == render_stream(*old(engine)),
{
    engine.set_stream_delay_ms(delay).map_err(|error| error.to_string())
}

/// The echo canceller that an engine gets.
pub open spec fn canceller_for(bypass: bool) -> Option<CancellerSettings> {
    if bypass {
        None
    } else {
        Some(
            CancellerSettings {
                enforce_high_pass_filtering: true,
                transparent_mode: TransparentMode::Legacy,
            },
        )
    }
}

/// Whether an engine takes a delay in milliseconds.
pub open spec fn delay_is_accepted(stream_delay_ms: i32) -> bool {
    0 <= stream_delay_ms <= 500
}

/// Sets up the engine for a one-channel microphone and a reference of one or two channels. Without
/// bypass it cancels echo, with the default settings. A delay outside 0 to 500 milliseconds is
/// refused.
pub fn prepare_engine(
    reference_channels: u16,
    bypass: bool,
    stream_delay_ms: i32,
) -> (prepared: Result<sonora::AudioProcessing, String>)
    requires
        1 <= reference_channels <= 2,
    ensures
        prepared is Ok <==> 0 <= stream_delay_ms <= 500,
        prepared is Ok <==> delay_is_accepted(stream_delay_ms),
        prepared matches Ok(engine) ==> canceller_of(engine) == canceller_for(bypass),
        prepared matches Err(message) ==> message@ == "invalid stream delay: "@
            + "stream parameter was clamped"@,
        prepared matches Ok(engine) ==> {
            &&& canceller_of(engine) == if bypass {
                None
            } else {
                Some(
                    CancellerSettings {
                        enforce_high_pass_filtering: true,
                        transparent_mode: TransparentMode::Legacy,
                    },
                )
            }
            &&& capture_stream(engine) == (SAMPLE_RATE, 1u16)
            &&& render_stream(engine) == (SAMPLE_RATE, reference_channels)
            &&& delay_of(engine) == stream_delay_ms
        },
{
    let canceller = if bypass {
        None
    } else {
        Some(default_canceller())
    };
    let mut engine = build_engine(canceller, SAMPLE_RATE, 1, SAMPLE_RATE, reference_channels);
    match set_stream_delay(&mut engine, stream_delay_ms) {
        Ok(()) => Ok(engine),
        Err(error) => {
            let mut message = "invalid stream delay: ".to_owned();
            message.append(error.as_str());
            Err(message)
        },
    }
}

/// An engine cancels echo exactly where it is not bypassed, and a delay is taken exactly where it is
/// not negative and at most half a second.
pub proof fn an_engine_cancels_unless_bypassed(bypass: bool, stream_delay_ms: i32)
    ensures
        canceller_for(bypass) is None <==> bypass,
        canceller_for(bypass) matches Some(settings) ==> settings.enforce_high_pass_filtering,
        delay_is_accepted(stream_delay_ms) <==> !(stream_delay_ms < 0) && 2 * stream_delay_ms
            <= 1_000,
{
}

} // verus!
