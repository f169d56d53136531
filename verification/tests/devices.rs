use aec_bridge::bridge::{
    closing_event, metrics_summary, plan_bridge, reap, startup_summary, stop_summary, BridgeEvent,
    CounterReadings, Counters, WorkerState,
};
use aec_bridge::devices::{
    check_endpoints, device_list, device_list_entry, device_list_heading, endpoint_catalog, format_config,
    is_compatible_format, reference_flow, resolve_device, resolve_endpoints, validate_format,
    AudioDevice, EndpointLookups, Flow, IdLookup, ResolvedEndpoints, SampleEncoding, StreamFormat,
};
use aec_bridge::wasapi_io::{
    capture_discontinuity_counter, capture_drop_counter, check_capture_direction,
    check_render_direction, raw_wasapi_id, validate_mix_format, CaptureMode, Endpoint, MixFormat,
    SampleType, StreamKind,
};
use aec_bridge::{EndpointArgs, ReferenceMode, RunArgs};
use std::sync::atomic::Ordering;

fn format(rate: u32, channels: u16) -> StreamFormat {
    StreamFormat {
        sample_rate: rate,
        channels,
        encoding: SampleEncoding::Float32,
        buffer: "Unknown".to_owned(),
    }
}

fn device(name: &str, input: Option<StreamFormat>, output: Option<StreamFormat>) -> AudioDevice {
    let none = || "none".to_owned();
    AudioDevice {
        id: Ok(format!("wasapi:{name}")),
        name: Ok(name.to_owned()),
        description: Ok(format!("{name} (described)")),
        supports_input: input.is_some(),
        supports_output: output.is_some(),
        input: input.ok_or_else(none),
        output: output.ok_or_else(none),
    }
}

fn capture(name: &str) -> AudioDevice {
    device(name, Some(format(48_000, 1)), None)
}

fn render(name: &str) -> AudioDevice {
    device(name, None, Some(format(48_000, 2)))
}

fn found(devices: Vec<AudioDevice>, selector: &str, flow: Flow) -> Result<String, String> {
    resolve_device(&IdLookup::NotAnId, &Ok(devices), selector, flow).map(|device| device.name.unwrap())
}

#[test]
fn formats_read_and_validate() {
    assert_eq!(
        format_config(&format(48_000, 2)),
        "48000 Hz, 2 channel(s), f32, buffer Unknown"
    );
    assert!(is_compatible_format(&format(48_000, 1), Flow::Capture));
    assert!(!is_compatible_format(&format(48_000, 1), Flow::Render));
    assert!(!is_compatible_format(&format(48_000, 3), Flow::Capture));
    assert!(!is_compatible_format(&format(44_100, 2), Flow::Render));
    let complaint = |device: &AudioDevice, flow: Flow| validate_format("output", device, flow).err();
    assert_eq!(
        complaint(&device("x", Some(format(44_100, 2)), None), Flow::Capture),
        Some("output must use 48 kHz shared-mode audio, but its default is 44100 Hz".to_owned())
    );
    let mut other = format(48_000, 2);
    other.encoding = SampleEncoding::Other("i16".to_owned());
    assert_eq!(
        complaint(&device("x", Some(other), None), Flow::Capture),
        Some("output must use f32 shared-mode audio, but its default is i16".to_owned())
    );
    assert_eq!(
        complaint(&device("x", Some(format(48_000, 6)), None), Flow::Capture),
        Some("output must expose one or two channels, but it exposes 6".to_owned())
    );
    assert_eq!(
        complaint(&device("x", None, Some(format(48_000, 1))), Flow::Render),
        Some("output must expose two channels, but it exposes 1".to_owned())
    );
    assert_eq!(
        complaint(&capture("x"), Flow::Render),
        Some("endpoint has no default render format: none".to_owned())
    );
    assert_eq!(
        complaint(&render("x"), Flow::Capture),
        Some("endpoint has no default capture format: none".to_owned())
    );
    assert_eq!(complaint(&render("x"), Flow::Render), None);
}

#[test]
fn a_loopback_reference_is_a_rendering_endpoint() {
    assert_eq!(reference_flow(ReferenceMode::Loopback), Flow::Render);
    assert_eq!(reference_flow(ReferenceMode::Capture), Flow::Capture);
}

#[test]
fn the_catalog_is_ordered_by_lower_case_names() {
    let mut nameless = capture("nameless");
    nameless.name = Err("gone".to_owned());
    let mut unknown = capture("unknown");
    unknown.input = Err("busy".to_owned());
    let mut twin = capture("b");
    twin.id = Ok("wasapi:second".to_owned());
    let listing = Ok(vec![
        capture("Zeta"),
        capture("B"),
        nameless,
        render("Speakers"),
        twin,
        unknown,
        capture("\u{c4}rger"),
        capture("alpha"),
    ]);
    let catalog = endpoint_catalog(&listing).unwrap();
    let names: Vec<&str> = catalog.capture.iter().map(|entry| entry.name.as_str()).collect();
    assert_eq!(names, vec!["alpha", "B", "b", "unknown", "Zeta", "\u{c4}rger"]);
    assert_eq!(catalog.capture[1].id, "wasapi:B");
    assert_eq!(catalog.capture[2].id, "wasapi:second");
    assert_eq!(
        catalog.capture[3].format,
        "unavailable: endpoint has no default capture format: busy"
    );
    assert!(!catalog.capture[3].compatible);
    assert!(catalog.capture[0].compatible);
    assert_eq!(catalog.render.len(), 1);
    assert_eq!(
        endpoint_catalog(&Err("no host".to_owned())).err(),
        Some("failed to enumerate WASAPI endpoints: no host".to_owned())
    );
}

#[test]
fn compatible_entries_validate() {
    for rate in [44_100u32, 48_000] {
        for channels in [1u16, 2, 3] {
            let both = device("x", Some(format(rate, channels)), Some(format(rate, channels)));
            let catalog = endpoint_catalog(&Ok(vec![both.clone()])).unwrap();
            assert_eq!(
                catalog.capture[0].compatible,
                validate_format("x", &both, Flow::Capture).is_ok()
            );
            assert_eq!(
                catalog.render[0].compatible,
                validate_format("x", &both, Flow::Render).is_ok()
            );
        }
    }
}

#[test]
fn exact_names_win_over_parts() {
    let devices = || vec![capture("Mic"), capture("Mic Array"), render("Mic"), capture("Other")];
    assert_eq!(found(devices(), "mic", Flow::Capture), Ok("Mic".to_owned()));
    assert_eq!(found(devices(), "ARRAY", Flow::Capture), Ok("Mic Array".to_owned()));
    assert_eq!(
        found(devices(), "mi", Flow::Capture),
        Err("selector 'mi' is ambiguous; it matches: Mic, Mic Array".to_owned())
    );
    assert_eq!(
        found(devices(), "none", Flow::Render),
        Err("no active Render endpoint matches 'none'".to_owned())
    );
    assert_eq!(found(vec![capture("\u{c4}ther")], "\u{e4}TH", Flow::Capture), Ok("\u{c4}ther".to_owned()));
}

#[test]
fn identifiers_resolve_to_their_device_or_not_at_all() {
    let listing = Ok(vec![capture("Mic")]);
    let resolve = |lookup: IdLookup, flow: Flow| {
        resolve_device(&lookup, &listing, "wasapi:Mic", flow).map(|device| device.id.unwrap())
    };
    assert_eq!(
        resolve(IdLookup::Found(capture("Mic")), Flow::Capture),
        Ok("wasapi:Mic".to_owned())
    );
    assert_eq!(
        resolve(IdLookup::Found(capture("Mic")), Flow::Render),
        Err("endpoint exists but does not support Render audio".to_owned())
    );
    assert_eq!(
        resolve(IdLookup::Missing, Flow::Capture),
        Err("no active endpoint has ID 'wasapi:Mic'".to_owned())
    );
    assert_eq!(
        resolve_device(&IdLookup::NotAnId, &Err("down".to_owned()), "x", Flow::Capture).err(),
        Some("failed to enumerate WASAPI endpoints: down".to_owned())
    );
}

fn args(mode: ReferenceMode) -> EndpointArgs {
    EndpointArgs {
        mic: "mic".to_owned(),
        reference: "phones".to_owned(),
        reference_mode: mode,
        output: "cable".to_owned(),
    }
}

fn lookups() -> EndpointLookups {
    EndpointLookups {
        mic: IdLookup::NotAnId,
        reference: IdLookup::NotAnId,
        output: IdLookup::NotAnId,
    }
}

fn endpoints() -> ResolvedEndpoints {
    let listing = Ok(vec![capture("Mic"), render("Phones"), render("Cable")]);
    resolve_endpoints(&args(ReferenceMode::Loopback), &lookups(), &listing).unwrap()
}

#[test]
fn endpoints_resolve_in_order() {
    let resolve = |devices: Vec<AudioDevice>, mode: ReferenceMode| {
        resolve_endpoints(&args(mode), &lookups(), &Ok(devices)).map(|_| ())
    };
    assert_eq!(
        resolve(vec![], ReferenceMode::Loopback),
        Err("could not resolve microphone 'mic': no active Capture endpoint matches 'mic'".to_owned())
    );
    assert_eq!(
        resolve(vec![capture("Mic"), render("Phones"), render("Cable")], ReferenceMode::Capture),
        Err("could not resolve reference 'phones': no active Capture endpoint matches 'phones'".to_owned())
    );
    assert_eq!(
        resolve(vec![capture("Mic"), render("Phones")], ReferenceMode::Loopback),
        Err("could not resolve output 'cable': no active Render endpoint matches 'cable'".to_owned())
    );
    assert_eq!(endpoints().reference.name, Ok("Phones".to_owned()));
}

#[test]
fn the_check_describes_and_validates() {
    let report = check_endpoints(ReferenceMode::Loopback, &endpoints());
    assert_eq!(report.failure, None);
    assert_eq!(
        report.lines,
        vec![
            "Endpoint validation succeeded. No audio streams were opened.\n".to_owned(),
            "Microphone: Mic\n  ID:     wasapi:Mic\n  Format: 48000 Hz, 1 channel(s), f32, buffer Unknown\n".to_owned(),
            "Reference loopback: Phones\n  ID:     wasapi:Phones\n  Format: 48000 Hz, 2 channel(s), f32, buffer Unknown\n".to_owned(),
            "Handoff render: Cable\n  ID:     wasapi:Cable\n  Format: 48000 Hz, 2 channel(s), f32, buffer Unknown\n".to_owned(),
            "\nAll bridge endpoints use compatible 48 kHz f32 shared-mode audio.".to_owned(),
        ]
    );
    let mut bad = endpoints();
    bad.output = device("Cable", None, Some(format(96_000, 2)));
    let report = check_endpoints(ReferenceMode::Loopback, &bad);
    assert_eq!(report.lines.len(), 4);
    assert_eq!(
        report.failure,
        Some("output must use 48 kHz shared-mode audio, but its default is 96000 Hz".to_owned())
    );
    bad.reference.id = Err("no id".to_owned());
    let report = check_endpoints(ReferenceMode::Loopback, &bad);
    assert_eq!(report.lines.len(), 2);
    assert_eq!(report.failure, Some("no id".to_owned()));
}

#[test]
fn the_list_shows_what_is_known() {
    assert_eq!(
        device_list_heading(&None, &Some("wasapi:o".to_owned())),
        "WASAPI audio endpoints\n\nDefault capture: <none>\nDefault render:  wasapi:o\n"
    );
    let mut entry = render("Cable");
    entry.id = Err("lost".to_owned());
    assert_eq!(
        device_list_entry(&entry),
        "Cable (described)\n  ID:      <unavailable: lost>\n  Capture: -\n  Render:  48000 Hz, 2 channel(s), f32, buffer Unknown\n"
    );
}

#[test]
fn the_list_has_every_device_in_order() {
    let devices = vec![render("Z"), capture("A"), render("Z")];
    let entries: Vec<String> = devices.iter().map(device_list_entry).collect();
    assert_eq!(device_list(&Ok(devices)), Ok(entries));
    assert_eq!(device_list(&Ok(vec![])), Ok(vec![]));
    assert_eq!(
        device_list(&Err("no host".to_owned())),
        Err("failed to enumerate WASAPI endpoints: no host".to_owned())
    );
}

#[test]
fn a_plan_needs_three_usable_endpoints() {
    let plan = plan_bridge(ReferenceMode::Loopback, &endpoints()).unwrap();
    assert_eq!(
        (plan.mic.channels, plan.reference.channels, plan.output.channels),
        (1, 2, 2)
    );
    assert_eq!(plan.output.id, "wasapi:Cable");
    let mut nameless = endpoints();
    nameless.mic.name = Err("gone".to_owned());
    assert_eq!(
        plan_bridge(ReferenceMode::Loopback, &nameless).err(),
        Some("gone".to_owned())
    );
    assert_eq!(
        plan_bridge(ReferenceMode::Capture, &endpoints()).err(),
        Some("endpoint has no default capture format: none".to_owned())
    );
}

#[test]
fn the_startup_summary_is_complete() {
    let plan = plan_bridge(ReferenceMode::Loopback, &endpoints()).unwrap();
    let mut run = RunArgs {
        endpoints: args(ReferenceMode::Loopback),
        capture_delay_ms: 20,
        stream_delay_ms: 5,
        duration_seconds: 0,
        bypass: false,
        mute_output: true,
    };
    assert_eq!(
        startup_summary("1.2.3", &run, &plan),
        "AEC Bridge 1.2.3\n\nMicrophone: Mic\nReference:  Phones (render loopback)\nHandoff:    Cable\nFormat:     48000 Hz; mic/reference/output channels=1/2/2\nProcessing: WebRTC M145 AEC3; capture delay=20 ms; stream delay=5 ms\nOutput:     MUTED safety probe (handoff receives silence)\nRouting: select the handoff endpoint's paired capture device in your downstream app.\nSafety: never route the raw mic, handoff return, or processed mic into the AEC reference."
    );
    run.bypass = true;
    run.mute_output = false;
    run.endpoints.reference_mode = ReferenceMode::Capture;
    let text = startup_summary("1", &run, &plan);
    assert!(text.contains("(capture endpoint)"));
    assert!(text.contains("Processing: BYPASS;"));
    assert!(!text.contains("MUTED"));
}

#[test]
fn summaries_show_every_counter() {
    let readings = CounterReadings {
        mic_dropped: 1,
        reference_dropped: 20,
        output_dropped: 300,
        output_underruns: 4,
        mic_discontinuities: 5,
        reference_discontinuities: 18_446_744_073_709_551_615,
    };
    assert_eq!(
        stop_summary(&readings),
        "Dropped samples mic/ref/out=1/20/300; output underruns=4; capture discontinuities mic/ref=5/18446744073709551615"
    );
    assert_eq!(
        metrics_summary("1.5", "-", Some(-3), &readings),
        "ERL=1.5 dB, ERLE=- dB, delay=-3 ms | drops mic/ref/out=1/20/300 underruns=4 discontinuities=5/18446744073709551615"
    );
    assert!(metrics_summary("-", "-", None, &readings).contains("delay=- ms"));
}

#[test]
fn the_last_report_tells_the_outcome() {
    assert!(matches!(closing_event(Ok("sum".to_owned())), BridgeEvent::Stopped(text) if text == "sum"));
    assert!(matches!(closing_event(Err("bad".to_owned())), BridgeEvent::Failed(text) if text == "bad"));
    assert_eq!(reap(WorkerState::Running), Ok(false));
    assert_eq!(reap(WorkerState::Ended), Ok(true));
    assert_eq!(
        reap(WorkerState::Panicked),
        Err("AEC bridge supervisor panicked".to_owned())
    );
}

fn endpoint() -> Endpoint {
    Endpoint {
        id: "wasapi:{0.0.1}".to_owned(),
        name: "Mic".to_owned(),
        channels: 2,
    }
}

fn mix(rate: u32, channels: u16, bits: u16, kind: Result<SampleType, String>) -> MixFormat {
    MixFormat {
        samples_per_second: rate,
        channels,
        bits_per_sample: bits,
        sample_type: kind,
    }
}

#[test]
fn a_stream_keeps_the_format_it_was_chosen_with() {
    let check = |format: MixFormat| validate_mix_format(&format, &endpoint());
    assert_eq!(check(mix(48_000, 2, 32, Ok(SampleType::Float))), Ok(()));
    assert_eq!(
        check(mix(44_100, 1, 16, Ok(SampleType::Int))),
        Err("'Mic' uses 44100 Hz instead of 48000 Hz".to_owned())
    );
    assert_eq!(
        check(mix(48_000, 1, 16, Ok(SampleType::Int))),
        Err("'Mic' changed from 2 to 1 channels".to_owned())
    );
    let not_float = Err("'Mic' is not 32-bit floating-point audio".to_owned());
    assert_eq!(check(mix(48_000, 2, 16, Err("odd".to_owned()))), not_float);
    assert_eq!(check(mix(48_000, 2, 32, Ok(SampleType::Int))), not_float);
    assert_eq!(
        check(mix(48_000, 2, 32, Err("odd".to_owned()))),
        Err("odd".to_owned())
    );
}

#[test]
fn directions_are_checked() {
    let mode = CaptureMode::RenderLoopback;
    assert_eq!(check_capture_direction(&endpoint(), mode, Flow::Render), Ok(()));
    assert_eq!(
        check_capture_direction(&endpoint(), mode, Flow::Capture),
        Err("'Mic' is not a Render endpoint".to_owned())
    );
    assert_eq!(
        check_capture_direction(&endpoint(), CaptureMode::Endpoint, Flow::Render),
        Err("'Mic' is not a Capture endpoint".to_owned())
    );
    assert_eq!(check_render_direction(&endpoint(), Flow::Render), Ok(()));
    assert_eq!(
        check_render_direction(&endpoint(), Flow::Capture),
        Err("'Mic' is not a render endpoint".to_owned())
    );
}

#[test]
fn identifiers_lose_their_prefix() {
    assert_eq!(raw_wasapi_id("wasapi:{0.0.1}"), Ok("{0.0.1}"));
    assert_eq!(raw_wasapi_id("wasapi:"), Ok(""));
    assert_eq!(
        raw_wasapi_id("alsa:x"),
        Err("'alsa:x' is not a WASAPI endpoint ID".to_owned())
    );
}

#[test]
fn every_stream_counts_for_itself() {
    let counters = Counters::default();
    capture_drop_counter(&counters, StreamKind::Microphone).fetch_add(3, Ordering::Relaxed);
    capture_drop_counter(&counters, StreamKind::Reference).fetch_add(4, Ordering::Relaxed);
    capture_discontinuity_counter(&counters, StreamKind::Microphone).fetch_add(5, Ordering::Relaxed);
    capture_discontinuity_counter(&counters, StreamKind::Reference).fetch_add(6, Ordering::Relaxed);
    assert_eq!(counters.mic_dropped.load(Ordering::Relaxed), 3);
    assert_eq!(counters.reference_dropped.load(Ordering::Relaxed), 4);
    assert_eq!(counters.mic_discontinuities.load(Ordering::Relaxed), 5);
    assert_eq!(counters.reference_discontinuities.load(Ordering::Relaxed), 6);
}
