use aec_bridge::bridge::{BridgeEvent, CounterReadings};
use aec_bridge::supervisor::{Report, Step, Supervisor, ThreadOutcome};
use aec_bridge::wasapi_io::{CaptureMode, StreamEvent, StreamKind};
use aec_bridge::ReferenceMode;

const SECOND: u64 = 1_000_000_000;

fn started(kind: StreamKind) -> Report {
    Report::Event(StreamEvent::Started { kind, buffer_frames: 480 })
}

fn readings() -> CounterReadings {
    CounterReadings {
        mic_dropped: 0,
        reference_dropped: 0,
        output_dropped: 0,
        output_underruns: 0,
        mic_discontinuities: 0,
        reference_discontinuities: 0,
    }
}

fn open(supervisor: &mut Supervisor, kind: StreamKind) {
    supervisor.stream_spawned(None, 0);
    assert_eq!(supervisor.next_step(), Step::AwaitReport);
    let notice = supervisor.report_received(started(kind), true, 1).expect("a notice");
    assert!(
        matches!(notice.event, BridgeEvent::StreamStarted { label, buffer_frames: 480 } if label == kind.label())
    );
}

fn running(duration_seconds: u64) -> Supervisor {
    let mut supervisor = Supervisor::new(ReferenceMode::Loopback, duration_seconds);
    assert_eq!(
        supervisor.next_step(),
        Step::OpenCapture { kind: StreamKind::Reference, mode: CaptureMode::RenderLoopback }
    );
    open(&mut supervisor, StreamKind::Reference);
    assert_eq!(
        supervisor.next_step(),
        Step::OpenCapture { kind: StreamKind::Microphone, mode: CaptureMode::Endpoint }
    );
    open(&mut supervisor, StreamKind::Microphone);
    assert_eq!(supervisor.next_step(), Step::OpenRender);
    open(&mut supervisor, StreamKind::Output);
    assert_eq!(supervisor.next_step(), Step::Announce);
    supervisor.announced(SECOND);
    assert_eq!(supervisor.next_step(), Step::Watch);
    supervisor
}

#[test]
fn streams_open_one_after_another() {
    let mut supervisor = running(0);
    supervisor.watch(true, &vec![], 900 * SECOND);
    assert_eq!(supervisor.next_step(), Step::Watch);
    supervisor.watch(false, &vec![], 901 * SECOND);
    assert_eq!(supervisor.next_step(), Step::Stop);
    let done = Some(ThreadOutcome::Done);
    supervisor.threads_ended(&done, &done, &done, &ThreadOutcome::Done);
    assert_eq!(
        supervisor.conclusion(&readings()),
        Ok("Dropped samples mic/ref/out=0/0/0; output underruns=0; capture discontinuities mic/ref=0/0".to_owned())
    );
}

#[test]
fn a_notice_is_aligned() {
    let mut supervisor = Supervisor::new(ReferenceMode::Capture, 0);
    assert_eq!(
        supervisor.next_step(),
        Step::OpenCapture { kind: StreamKind::Reference, mode: CaptureMode::Endpoint }
    );
    supervisor.stream_spawned(None, 0);
    let notice = supervisor.report_received(started(StreamKind::Output), true, 1).unwrap();
    assert_eq!(notice.line, "WASAPI: handoff    started with a 480-frame shared buffer");
    assert_eq!(supervisor.next_step(), Step::AwaitReport);
}

#[test]
fn a_stream_has_ten_seconds_to_open() {
    let mut supervisor = Supervisor::new(ReferenceMode::Loopback, 0);
    supervisor.stream_spawned(None, 5);
    assert!(supervisor.report_received(Report::Timeout, true, 10 * SECOND + 4).is_none());
    assert_eq!(supervisor.next_step(), Step::AwaitReport);
    assert!(supervisor.report_received(Report::Timeout, true, 10 * SECOND + 5).is_none());
    assert_eq!(supervisor.next_step(), Step::Stop);
    assert_eq!(
        supervisor.conclusion(&readings()),
        Err("timed out while opening the reference WASAPI stream".to_owned())
    );
}

#[test]
fn a_stop_request_is_no_error() {
    let mut supervisor = Supervisor::new(ReferenceMode::Loopback, 0);
    supervisor.stream_spawned(None, 0);
    assert!(supervisor.report_received(Report::Timeout, false, 99 * SECOND).is_none());
    assert_eq!(supervisor.next_step(), Step::Stop);
    assert!(supervisor.conclusion(&readings()).is_ok());
}

#[test]
fn failures_end_the_start() {
    let mut supervisor = Supervisor::new(ReferenceMode::Loopback, 0);
    supervisor.stream_spawned(Some("no thread".to_owned()), 0);
    assert_eq!(supervisor.next_step(), Step::Stop);
    assert_eq!(supervisor.conclusion(&readings()), Err("no thread".to_owned()));

    let mut supervisor = Supervisor::new(ReferenceMode::Loopback, 0);
    supervisor.stream_spawned(None, 0);
    let failed = StreamEvent::Failed { kind: StreamKind::Reference, message: "busy".to_owned() };
    assert!(supervisor.report_received(Report::Event(failed), true, 1).is_none());
    assert_eq!(
        supervisor.conclusion(&readings()),
        Err("reference WASAPI stream failed: busy".to_owned())
    );

    let mut supervisor = Supervisor::new(ReferenceMode::Loopback, 0);
    supervisor.stream_spawned(None, 0);
    assert!(supervisor.report_received(Report::Disconnected, true, 1).is_none());
    assert_eq!(
        supervisor.conclusion(&readings()),
        Err("audio stream workers stopped before startup completed".to_owned())
    );
}

#[test]
fn a_failing_stream_ends_the_bridge() {
    let mut supervisor = running(0);
    let events = vec![
        StreamEvent::Started { kind: StreamKind::Output, buffer_frames: 1 },
        StreamEvent::Failed { kind: StreamKind::Output, message: "gone".to_owned() },
        StreamEvent::Failed { kind: StreamKind::Microphone, message: "later".to_owned() },
    ];
    supervisor.watch(true, &events, 2 * SECOND);
    assert_eq!(supervisor.next_step(), Step::Stop);
    let failed = Some(ThreadOutcome::Failed("own".to_owned()));
    supervisor.threads_ended(&failed, &None, &failed, &ThreadOutcome::Panicked);
    assert_eq!(
        supervisor.conclusion(&readings()),
        Err("handoff WASAPI stream failed: gone".to_owned())
    );
}

#[test]
fn a_bridge_stops_after_its_time() {
    let mut supervisor = running(3);
    supervisor.watch(true, &vec![], 4 * SECOND - 1);
    assert_eq!(supervisor.next_step(), Step::Watch);
    supervisor.watch(true, &vec![], 4 * SECOND);
    assert_eq!(supervisor.next_step(), Step::Stop);
    assert!(supervisor.conclusion(&readings()).is_ok());
}

#[test]
fn the_first_thread_to_blame_is_blamed() {
    let conclude = |mic: Option<ThreadOutcome>, reference: Option<ThreadOutcome>, processor: ThreadOutcome| {
        let mut supervisor = running(0);
        supervisor.watch(false, &vec![], 2 * SECOND);
        supervisor.threads_ended(&mic, &reference, &None, &processor);
        supervisor.conclusion(&readings()).err()
    };
    assert_eq!(
        conclude(
            Some(ThreadOutcome::Panicked),
            Some(ThreadOutcome::Failed("x".to_owned())),
            ThreadOutcome::Panicked
        ),
        Some("microphone WASAPI worker panicked".to_owned())
    );
    assert_eq!(
        conclude(None, Some(ThreadOutcome::Failed("x".to_owned())), ThreadOutcome::Done),
        Some("reference WASAPI worker failed: x".to_owned())
    );
    assert_eq!(
        conclude(None, None, ThreadOutcome::Failed("y".to_owned())),
        Some("y".to_owned())
    );
    assert_eq!(
        conclude(None, None, ThreadOutcome::Panicked),
        Some("AEC processing thread panicked".to_owned())
    );
}
