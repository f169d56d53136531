//! The supervision of a bridge: it opens the streams one after another, watches them while they
//! run, and says at the end what came of it all.

use crate::bridge::{
    reference_capture_mode, stop_summary, BridgeEvent, BridgeEventView, CounterReadings,
};
use crate::clock::LAST_MOMENT;
use crate::devices::{reference_flow_of, text_result, Flow};
use crate::text::{align_left, decimal, digits, left_aligned};
use crate::wasapi_io::{
    direction_for, CaptureMode, StreamEvent, StreamEventView, StreamKind,
};
use crate::ReferenceMode;
use vstd::prelude::*;

verus! {

/// How long a stream may take to open, in nanoseconds.
pub const START_TIMEOUT: u64 = 10_000_000_000;

/// Where the supervision stands.
#[derive(Clone, Copy, Debug, PartialEq, Eq, Structural)]
pub enum Stage {
    /// A stream is to be opened.
    Spawning(StreamKind),
    /// A stream is opening, and has until the deadline.
    Awaiting { kind: StreamKind, deadline: u64 },
    /// All streams have opened; nobody has been told yet.
    Ready,
    /// All streams run, since this moment.
    Watching { since: u64 },
    /// Everything is to be stopped.
    Stopping,
}

/// The supervision of one bridge.
#[derive(Debug)]
pub struct Supervisor {
    reference_mode: ReferenceMode,
    duration_seconds: u64,
    stage: Stage,
    /// The first thing that went wrong.
    run_error: Option<String>,
    /// Which streams have been opened.
    mic_opened: bool,
    reference_opened: bool,
    output_opened: bool,
}

/// The supervision with its text by characters.
pub struct SupervisorView {
    pub reference_mode: ReferenceMode,
    pub duration_seconds: u64,
    pub stage: Stage,
    pub run_error: Option<Seq<char>>,
    pub mic_opened: bool,
    pub reference_opened: bool,
    pub output_opened: bool,
}

impl View for Supervisor {
    type V = SupervisorView;

    closed spec fn view(&self) -> SupervisorView {
        SupervisorView {
            reference_mode: self.reference_mode,
            duration_seconds: self.duration_seconds,
            stage: self.stage,
            run_error: self.run_error.deep_view(),
            mic_opened: self.mic_opened,
            reference_opened: self.reference_opened,
            output_opened: self.output_opened,
        }
    }
}

/// What the supervising thread does next.
#[derive(Clone, Copy, Debug, PartialEq, Eq, Structural)]
pub enum Step {
    /// Open a capturing stream.
    OpenCapture { kind: StreamKind, mode: CaptureMode },
    /// Open the stream to the virtual cable.
    OpenRender,
    /// Wait a moment for a report of the streams.
    AwaitReport,
    /// Say that the bridge runs.
    Announce,
    /// Look at the reports that have come, and rest a moment.
    Watch,
    /// Stop and collect all threads.
    Stop,
}

/// What waiting for a report came to.
#[derive(Debug)]
pub enum Report {
    Event(StreamEvent),
    Timeout,
    /// No stream is left that could report.
    Disconnected,
}

/// A report with its text by characters.
pub enum ReportView {
    Event(StreamEventView),
    Timeout,
    Disconnected,
}

impl View for Report {
    type V = ReportView;

    open spec fn view(&self) -> ReportView {
        match self {
            Report::Event(event) => ReportView::Event(event@),
            Report::Timeout => ReportView::Timeout,
            Report::Disconnected => ReportView::Disconnected,
        }
    }
}

/// How a thread ended.
#[derive(Debug)]
pub enum ThreadOutcome {
    Done,
    Failed(String),
    Panicked,
}

/// The end of a thread with its text by characters.
pub enum ThreadOutcomeView {
    Done,
    Failed(Seq<char>),
    Panicked,
}

impl View for ThreadOutcome {
    type V = ThreadOutcomeView;

    open spec fn view(&self) -> ThreadOutcomeView {
        match self {
            ThreadOutcome::Done => ThreadOutcomeView::Done,
            ThreadOutcome::Failed(error) => ThreadOutcomeView::Failed(error@),
            ThreadOutcome::Panicked => ThreadOutcomeView::Panicked,
        }
    }
}

impl DeepView for ThreadOutcome {
    type V = ThreadOutcomeView;

    open spec fn deep_view(&self) -> ThreadOutcomeView {
        self@
    }
}

/// The complaint that a stream failed.
pub open spec fn stream_failure(kind: StreamKind, message: Seq<char>) -> Seq<char> {
    kind.spec_label() + " WASAPI stream failed: "@ + message
}

fn stream_failure_message(kind: StreamKind, message: &str) -> (text: String)
    ensures
        text@ == stream_failure(kind, message@),
{
    let mut text = kind.label().to_owned();
    text.append(" WASAPI stream failed: ");
    text.append(message);
    text
}

/// The first failure among reports.
pub open spec fn first_stream_failure(events: Seq<StreamEventView>) -> Option<Seq<char>>
    decreases events.len(),
{
    if events.len() == 0 {
        None
    } else {
        match events[0] {
            StreamEventView::Failed { kind, message } => Some(stream_failure(kind, message)),
            StreamEventView::Started { .. } => first_stream_failure(events.drop_first()),
        }
    }
}

/// What a stream worker is blamed for, if anything.
pub open spec fn worker_complaint(kind: StreamKind, outcome: Option<ThreadOutcomeView>) -> Option<
    Seq<char>,
> {
    match outcome {
        None => None,
        Some(ThreadOutcomeView::Done) => None,
        Some(ThreadOutcomeView::Failed(error)) => Some(
            kind.spec_label() + " WASAPI worker failed: "@ + error,
        ),
        Some(ThreadOutcomeView::Panicked) => Some(kind.spec_label() + " WASAPI worker panicked"@),
    }
}

/// What the processing thread is blamed for, if anything.
pub open spec fn processor_complaint(outcome: ThreadOutcomeView) -> Option<Seq<char>> {
    match outcome {
        ThreadOutcomeView::Done => None,
        ThreadOutcomeView::Failed(error) => Some(error),
        ThreadOutcomeView::Panicked => Some("AEC processing thread panicked"@),
    }
}

/// A complaint, or another where there is none.
pub open spec fn earlier(first: Option<Seq<char>>, second: Option<Seq<char>>) -> Option<Seq<char>> {
    if first is Some {
        first
    } else {
        second
    }
}

impl SupervisorView {
    /// What always holds of the supervision: a stream waits only once it is open, the bridge counts
    /// as running only once all three are, they open in the order reference, microphone, output,
    /// and after the first error everything stops.
    pub open spec fn well_formed(self) -> bool {
        &&& self.run_error is Some ==> self.stage is Stopping
        &&& match self.stage {
            Stage::Spawning(StreamKind::Reference) => !self.reference_opened && !self.mic_opened
                && !self.output_opened,
            Stage::Spawning(StreamKind::Microphone) => self.reference_opened && !self.mic_opened
                && !self.output_opened,
            Stage::Spawning(StreamKind::Output) => self.reference_opened && self.mic_opened
                && !self.output_opened,
            Stage::Awaiting { kind: StreamKind::Reference, .. } => self.reference_opened
                && !self.mic_opened && !self.output_opened,
            Stage::Awaiting { kind: StreamKind::Microphone, .. } => self.reference_opened
                && self.mic_opened && !self.output_opened,
            Stage::Awaiting { kind: StreamKind::Output, .. } => self.reference_opened
                && self.mic_opened && self.output_opened,
            Stage::Ready => self.reference_opened && self.mic_opened && self.output_opened,
            Stage::Watching { .. } => self.reference_opened && self.mic_opened
                && self.output_opened,
            Stage::Stopping => true,
        }
    }

    /// The supervision of a bridge that has not opened anything yet.
    pub open spec fn begun(reference_mode: ReferenceMode, duration_seconds: u64) -> SupervisorView {
        SupervisorView {
            reference_mode,
            duration_seconds,
            stage: Stage::Spawning(StreamKind::Reference),
            run_error: None,
            mic_opened: false,
            reference_opened: false,
            output_opened: false,
        }
    }

    /// The supervision after the bridge was said to run.
    pub open spec fn after_announcement(self, now: u64) -> SupervisorView {
        SupervisorView { stage: Stage::Watching { since: now }, ..self }
    }

    /// The step that a stage asks for.
    pub open spec fn step(self) -> Step {
        match self.stage {
            Stage::Spawning(StreamKind::Reference) => Step::OpenCapture {
                kind: StreamKind::Reference,
                mode: match self.reference_mode {
                    ReferenceMode::Loopback => CaptureMode::RenderLoopback,
                    ReferenceMode::Capture => CaptureMode::Endpoint,
                },
            },
            Stage::Spawning(StreamKind::Microphone) => Step::OpenCapture {
                kind: StreamKind::Microphone,
                mode: CaptureMode::Endpoint,
            },
            Stage::Spawning(StreamKind::Output) => Step::OpenRender,
            Stage::Awaiting { .. } => Step::AwaitReport,
            Stage::Ready => Step::Announce,
            Stage::Watching { .. } => Step::Watch,
            Stage::Stopping => Step::Stop,
        }
    }

    /// The supervision with an error, at its end.
    pub open spec fn failed(self, message: Seq<char>) -> SupervisorView {
        SupervisorView { stage: Stage::Stopping, run_error: Some(message), ..self }
    }

    /// The supervision with a stream marked as open.
    pub open spec fn with_opened(self, kind: StreamKind) -> SupervisorView {
        match kind {
            StreamKind::Microphone => SupervisorView { mic_opened: true, ..self },
            StreamKind::Reference => SupervisorView { reference_opened: true, ..self },
            StreamKind::Output => SupervisorView { output_opened: true, ..self },
        }
    }

    /// The supervision after an attempt to open a stream.
    pub open spec fn after_spawn(
        self,
        kind: StreamKind,
        failure: Option<Seq<char>>,
        now: u64,
    ) -> SupervisorView {
        match failure {
            Some(message) => self.failed(message),
            None => SupervisorView {
                stage: Stage::Awaiting { kind, deadline: (now + START_TIMEOUT) as u64 },
                ..self.with_opened(kind)
            },
        }
    }

    /// The stage after a stream has opened.
    pub open spec fn stage_after(kind: StreamKind) -> Stage {
        match kind {
            StreamKind::Reference => Stage::Spawning(StreamKind::Microphone),
            StreamKind::Microphone => Stage::Spawning(StreamKind::Output),
            StreamKind::Output => Stage::Ready,
        }
    }

    /// The supervision after waiting for a report of the stream `kind`.
    pub open spec fn after_report(
        self,
        kind: StreamKind,
        deadline: u64,
        report: ReportView,
        running: bool,
        now: u64,
    ) -> SupervisorView {
        match report {
            ReportView::Event(StreamEventView::Started { kind: started, .. }) => if started
                == kind {
                SupervisorView { stage: Self::stage_after(kind), ..self }
            } else {
                self
            },
            ReportView::Event(StreamEventView::Failed { kind: failed, message }) => self.failed(
                stream_failure(failed, message),
            ),
            ReportView::Timeout => if !running {
                SupervisorView { stage: Stage::Stopping, ..self }
            } else if now >= deadline {
                self.failed(
                    "timed out while opening the "@ + kind.spec_label() + " WASAPI stream"@,
                )
            } else {
                self
            },
            ReportView::Disconnected => self.failed(
                "audio stream workers stopped before startup completed"@,
            ),
        }
    }

    /// The supervision after a look at the reports that came while all streams run.
    pub open spec fn after_watch(
        self,
        since: u64,
        running: bool,
        events: Seq<StreamEventView>,
        now: u64,
    ) -> SupervisorView {
        if !running {
            SupervisorView { stage: Stage::Stopping, ..self }
        } else {
            match first_stream_failure(events) {
                Some(message) => self.failed(message),
                None => if self.duration_seconds != 0 && now - since >= self.duration_seconds
                    * 1_000_000_000 {
                    SupervisorView { stage: Stage::Stopping, ..self }
                } else {
                    self
                },
            }
        }
    }

    /// The supervision after all threads have ended: the first error stands.
    pub open spec fn after_join(
        self,
        mic: Option<ThreadOutcomeView>,
        reference: Option<ThreadOutcomeView>,
        output: Option<ThreadOutcomeView>,
        processor: ThreadOutcomeView,
    ) -> SupervisorView {
        SupervisorView {
            run_error: earlier(
                self.run_error,
                earlier(
                    worker_complaint(StreamKind::Microphone, mic),
                    earlier(
                        worker_complaint(StreamKind::Reference, reference),
                        earlier(
                            worker_complaint(StreamKind::Output, output),
                            processor_complaint(processor),
                        ),
                    ),
                ),
            ),
            ..self
        }
    }

    /// What the bridge came to: its summary, or the first error.
    pub open spec fn concluded(self, readings: CounterReadings) -> Result<Seq<char>, Seq<char>> {
        match self.run_error {
            Some(message) => Err(message),
            None => Ok(readings.stop_summary()),
        }
    }
}

/// Whether a thread was not there, or ended without a complaint.
pub open spec fn worker_ended_well(outcome: Option<ThreadOutcome>) -> bool {
    match outcome {
        None => true,
        Some(outcome) => outcome is Done,
    }
}

fn worker_message(kind: StreamKind, outcome: &Option<ThreadOutcome>) -> (message: Option<String>)
    ensures
        message.deep_view() == worker_complaint(kind, outcome.deep_view()),
        message is None <==> worker_ended_well(*outcome),
{
    match outcome {
        None => None,
        Some(ThreadOutcome::Done) => None,
        Some(ThreadOutcome::Failed(error)) => {
            let mut message = kind.label().to_owned();
            message.append(" WASAPI worker failed: ");
            message.append(error.as_str());
            Some(message)
        },
        Some(ThreadOutcome::Panicked) => {
            let mut message = kind.label().to_owned();
            message.append(" WASAPI worker panicked");
            Some(message)
        },
    }
}

fn processor_message(outcome: &ThreadOutcome) -> (message: Option<String>)
    ensures
        message.deep_view() == processor_complaint(outcome@),
        message is None <==> outcome is Done,
{
    match outcome {
        ThreadOutcome::Done => None,
        ThreadOutcome::Failed(error) => Some(error.clone()),
        ThreadOutcome::Panicked => Some("AEC processing thread panicked".to_owned()),
    }
}

/// What is told of a stream that has opened: a report for the control panel and a line for the
/// console.
#[derive(Debug)]
pub struct StreamNotice {
    pub event: BridgeEvent,
    pub line: String,
}

/// The line that the console shows of a stream that has opened.
pub open spec fn started_line(kind: StreamKind, buffer_frames: u32) -> Seq<char> {
    "WASAPI: "@ + left_aligned(kind.spec_label(), 10) + " started with a "@ + digits(
        buffer_frames as nat,
    ) + "-frame shared buffer"@
}

impl Supervisor {
    #[verifier::type_invariant]
    spec fn holds(self) -> bool {
        self.view().well_formed()
    }

    /// The supervision of a bridge that has not opened anything yet.
    pub fn new(reference_mode: ReferenceMode, duration_seconds: u64) -> (supervisor: Supervisor)
        ensures
            supervisor@.well_formed(),
            supervisor@ == (SupervisorView {
                reference_mode,
                duration_seconds,
                stage: Stage::Spawning(StreamKind::Reference),
                run_error: None,
                mic_opened: false,
                reference_opened: false,
                output_opened: false,
            }),
            supervisor@ == SupervisorView::begun(reference_mode, duration_seconds),
    {
        Supervisor {
            reference_mode,
            duration_seconds,
            stage: Stage::Spawning(StreamKind::Reference),
            run_error: None,
            mic_opened: false,
            reference_opened: false,
            output_opened: false,
        }
    }

    /// What is to be done now.
    pub fn next_step(&self) -> (step: Step)
        ensures
            step == self@.step(),
    {
        match self.stage {
            Stage::Spawning(StreamKind::Reference) => Step::OpenCapture {
                kind: StreamKind::Reference,
                mode: reference_capture_mode(self.reference_mode),
            },
            Stage::Spawning(StreamKind::Microphone) => Step::OpenCapture {
                kind: StreamKind::Microphone,
                mode: CaptureMode::Endpoint,
            },
            Stage::Spawning(StreamKind::Output) => Step::OpenRender,
            Stage::Awaiting { .. } => Step::AwaitReport,
            Stage::Ready => Step::Announce,
            Stage::Watching { .. } => Step::Watch,
            Stage::Stopping => Step::Stop,
        }
    }

    fn fail(&mut self, message: String)
        ensures
            final(self)@ == old(self)@.failed(message@),
    {
        self.stage = Stage::Stopping;
        self.run_error = Some(message);
    }

    /// Takes note of an attempt to open the stream that was due.
    pub fn stream_spawned(&mut self, failure: Option<String>, now: u64)
        requires
            old(self)@.stage is Spawning,
            now <= LAST_MOMENT,
        ensures
            final(self)@.well_formed(),
            final(self)@ == old(self)@.after_spawn(
                old(self)@.stage->Spawning_0,
                failure.deep_view(),
                now,
            ),
    {
        proof {
            use_type_invariant(&*self);
        }
        let kind = match self.stage {
            Stage::Spawning(kind) => kind,
            _ => StreamKind::Reference,
        };
        match failure {
            Some(message) => self.fail(message),
            None => {
                self.stage = Stage::Stopping;
                match kind {
                    StreamKind::Microphone => {
                        self.mic_opened = true;
                    },
                    StreamKind::Reference => {
                        self.reference_opened = true;
                    },
                    StreamKind::Output => {
                        self.output_opened = true;
                    },
                }
                self.stage = Stage::Awaiting { kind, deadline: now + START_TIMEOUT };
            },
        }
    }

    /// Takes note of what waiting for a report came to. A stream that has opened is told of, whether
    /// it is the one that was waited for or not.
    pub fn report_received(&mut self, report: Report, running: bool, now: u64) -> (notice: Option<
        StreamNotice,
    >)
        requires
            old(self)@.stage is Awaiting,
        ensures
            final(self)@.well_formed(),
            final(self)@ == old(self)@.after_report(
                old(self)@.stage->kind,
                old(self)@.stage->deadline,
                report@,
                running,
                now,
            ),
            match report@ {
                ReportView::Event(StreamEventView::Started { kind, buffer_frames }) => {
                    &&& notice matches Some(told) && told.event@
                        == (BridgeEventView::StreamStarted {
                        label: kind.spec_label(),
                        buffer_frames,
                    }) && told.line@ == started_line(kind, buffer_frames)
                },
                _ => notice is None,
            },
    {
        proof {
            use_type_invariant(&*self);
        }
        let (expected, deadline) = match self.stage {
            Stage::Awaiting { kind, deadline } => (kind, deadline),
            _ => (StreamKind::Reference, 0),
        };
        match report {
            Report::Event(StreamEvent::Started { kind, buffer_frames }) => {
                if kind == expected {
                    self.stage = match expected {
                        StreamKind::Reference => Stage::Spawning(StreamKind::Microphone),
                        StreamKind::Microphone => Stage::Spawning(StreamKind::Output),
                        StreamKind::Output => Stage::Ready,
                    };
                }
                let mut line = "WASAPI: ".to_owned();
                line.append(align_left(kind.label(), 10).as_str());
                line.append(" started with a ");
                line.append(decimal(buffer_frames as u64).as_str());
                line.append("-frame shared buffer");
                Some(
                    StreamNotice {
                        event: BridgeEvent::StreamStarted { label: kind.label(), buffer_frames },
                        line,
                    },
                )
            },
            Report::Event(StreamEvent::Failed { kind, message }) => {
                self.fail(stream_failure_message(kind, message.as_str()));
                None
            },
            Report::Timeout => {
                if !running {
                    self.stage = Stage::Stopping;
                } else if now >= deadline {
                    let mut message = "timed out while opening the ".to_owned();
                    message.append(expected.label());
                    message.append(" WASAPI stream");
                    self.fail(message);
                }
                None
            },
            Report::Disconnected => {
                self.fail("audio stream workers stopped before startup completed".to_owned());
                None
            },
        }
    }

    /// Takes note that the bridge was said to run.
    pub fn announced(&mut self, now: u64)
        requires
            old(self)@.stage is Ready,
        ensures
            final(self)@.well_formed(),
            final(self)@ == (SupervisorView {
                stage: Stage::Watching { since: now },
                ..old(self)@
            }),
            final(self)@ == old(self)@.after_announcement(now),
    {
        proof {
            use_type_invariant(&*self);
        }
        self.stage = Stage::Watching { since: now };
    }

    /// Looks at the reports that came. A failed stream, the end of the time that was asked for, or
    /// a request to stop ends the bridge.
    pub fn watch(&mut self, running: bool, events: &Vec<StreamEvent>, now: u64)
        requires
            old(self)@.stage is Watching,
            old(self)@.stage->since <= now,
        ensures
            final(self)@.well_formed(),
            final(self)@ == old(self)@.after_watch(
                old(self)@.stage->since,
                running,
                events.deep_view(),
                now,
            ),
    {
        proof {
            use_type_invariant(&*self);
        }
        let since: u64 = match self.stage {
            Stage::Watching { since } => since,
            _ => 0,
        };
        if !running {
            self.stage = Stage::Stopping;
            return;
        }
        let ghost all = events.deep_view();
        let mut index: usize = 0;
        assert(all.skip(0) =~= all);
        while index < events.len()
            invariant
                index <= events@.len(),
                all == events.deep_view(),
                first_stream_failure(all) == first_stream_failure(all.skip(index as int)),
                running,
                self@ == old(self)@,
                old(self)@.well_formed(),
                old(self)@.stage is Watching,
                since == old(self)@.stage->since,
            decreases events@.len() - index,
        {
            assert(all.skip(index as int)[0] == events@[index as int]@);
            assert(all.skip(index as int).drop_first() =~= all.skip(index + 1));
            if let StreamEvent::Failed { kind, message } = &events[index] {
                self.fail(stream_failure_message(*kind, message.as_str()));
                return;
            }
            index = index + 1;
        }
        if self.duration_seconds != 0 && (now - since) as u128 >= self.duration_seconds as u128
            * 1_000_000_000u128 {
            self.stage = Stage::Stopping;
        }
    }

    /// Takes note of how all threads ended; a stream that never opened has no thread. Only the first
    /// error is kept.
    pub fn threads_ended(
        &mut self,
        mic: &Option<ThreadOutcome>,
        reference: &Option<ThreadOutcome>,
        output: &Option<ThreadOutcome>,
        processor: &ThreadOutcome,
    )
        requires
            old(self)@.stage is Stopping,
        ensures
            final(self)@.well_formed(),
            final(self)@ == old(self)@.after_join(
                mic.deep_view(),
                reference.deep_view(),
                output.deep_view(),
                processor@,
            ),
            final(self)@.run_error is None <==> {
                &&& old(self)@.run_error is None
                &&& worker_ended_well(*mic)
                &&& worker_ended_well(*reference)
                &&& worker_ended_well(*output)
                &&& processor is Done
            },
    {
        proof {
            use_type_invariant(&*self);
        }
        if self.run_error.is_none() {
            self.run_error = worker_message(StreamKind::Microphone, mic);
        }
        if self.run_error.is_none() {
            self.run_error = worker_message(StreamKind::Reference, reference);
        }
        if self.run_error.is_none() {
            self.run_error = worker_message(StreamKind::Output, output);
        }
        if self.run_error.is_none() {
            self.run_error = processor_message(processor);
        }
    }

    /// What the bridge came to: its summary, or the first error.
    pub fn conclusion(&self, readings: &CounterReadings) -> (outcome: Result<String, String>)
        ensures
            match outcome {
                Ok(summary) => self@.run_error is None && summary@ == readings.stop_summary(),
                Err(message) => self@.run_error == Some(message@),
            },
            text_result(outcome) == self@.concluded(*readings),
    {
        match &self.run_error {
            Some(message) => Err(message.clone()),
            None => Ok(stop_summary(readings)),
        }
    }
}

/// A bridge is said to run, or is watched, only when all three streams have been opened and nothing
/// has gone wrong.
pub proof fn running_means_all_streams_opened(supervisor: SupervisorView)
    requires
        supervisor.well_formed(),
        supervisor.step() == Step::Announce || supervisor.step() == Step::Watch,
    ensures
        supervisor.reference_opened && supervisor.mic_opened && supervisor.output_opened,
        supervisor.run_error is None,
{
}

/// The output is opened only after the reference and the microphone.
pub proof fn output_opens_last(supervisor: SupervisorView)
    requires
        supervisor.well_formed(),
        supervisor.step() == Step::OpenRender,
    ensures
        supervisor.reference_opened && supervisor.mic_opened,
{
}

/// However the threads end, an error that was there before stands.
pub proof fn first_error_stands(
    supervisor: SupervisorView,
    mic: Option<ThreadOutcomeView>,
    reference: Option<ThreadOutcomeView>,
    output: Option<ThreadOutcomeView>,
    processor: ThreadOutcomeView,
)
    requires
        supervisor.run_error is Some,
    ensures
        supervisor.after_join(mic, reference, output, processor).run_error == supervisor.run_error,
{
}

/// A wait that is asked to stop ends without an error, whatever the time.
pub proof fn stop_request_is_no_error(
    supervisor: SupervisorView,
    kind: StreamKind,
    deadline: u64,
    now: u64,
)
    requires
        supervisor.well_formed(),
        supervisor.stage == (Stage::Awaiting { kind, deadline }),
    ensures
        ({
            let after = supervisor.after_report(kind, deadline, ReportView::Timeout, false, now);
            after.stage is Stopping && after.run_error is None
        }),
{
}

/// A bridge concludes without an error exactly where nothing went wrong before and each of its
/// threads that was there ended well.
pub proof fn a_clean_conclusion_means_that_every_thread_ended_well(
    supervisor: SupervisorView,
    mic: Option<ThreadOutcomeView>,
    reference: Option<ThreadOutcomeView>,
    output: Option<ThreadOutcomeView>,
    processor: ThreadOutcomeView,
    readings: CounterReadings,
)
    ensures
        supervisor.after_join(mic, reference, output, processor).concluded(readings) is Ok <==> {
            &&& supervisor.run_error is None
            &&& mic is None || mic == Some(ThreadOutcomeView::Done)
            &&& reference is None || reference == Some(ThreadOutcomeView::Done)
            &&& output is None || output == Some(ThreadOutcomeView::Done)
            &&& processor == ThreadOutcomeView::Done
        },
{
}

/// Whether a thread ended well, or never was.
pub open spec fn ended_well(outcome: Option<ThreadOutcomeView>) -> bool {
    outcome is None || outcome == Some(ThreadOutcomeView::Done)
}

/// The first thread that did not end well is blamed by name, with its own words where it left any:
/// the microphone before the reference, the reference before the output, and the processing thread
/// last.
pub proof fn the_first_failed_thread_is_blamed(
    supervisor: SupervisorView,
    mic: Option<ThreadOutcomeView>,
    reference: Option<ThreadOutcomeView>,
    output: Option<ThreadOutcomeView>,
    processor: ThreadOutcomeView,
    readings: CounterReadings,
    error: Seq<char>,
)
    requires
        supervisor.run_error is None,
    ensures
        ({
            let came_to = supervisor.after_join(mic, reference, output, processor).concluded(
                readings,
            );
            let failed = Some(ThreadOutcomeView::Failed(error));
            let fell = Some(ThreadOutcomeView::Panicked);
            &&& mic == failed ==> came_to == Err::<Seq<char>, Seq<char>>(
                "microphone"@ + " WASAPI worker failed: "@ + error,
            )
            &&& mic == fell ==> came_to == Err::<Seq<char>, Seq<char>>(
                "microphone"@ + " WASAPI worker panicked"@,
            )
            &&& ended_well(mic) && reference == failed ==> came_to == Err::<Seq<char>, Seq<char>>(
                "reference"@ + " WASAPI worker failed: "@ + error,
            )
            &&& ended_well(mic) && reference == fell ==> came_to == Err::<Seq<char>, Seq<char>>(
                "reference"@ + " WASAPI worker panicked"@,
            )
            &&& ended_well(mic) && ended_well(reference) && output == failed ==> came_to == Err::<
                Seq<char>,
                Seq<char>,
            >("handoff"@ + " WASAPI worker failed: "@ + error)
            &&& ended_well(mic) && ended_well(reference) && output == fell ==> came_to == Err::<
                Seq<char>,
                Seq<char>,
            >("handoff"@ + " WASAPI worker panicked"@)
            &&& ended_well(mic) && ended_well(reference) && ended_well(output) && Some(processor)
                == failed ==> came_to == Err::<Seq<char>, Seq<char>>(error)
            &&& ended_well(mic) && ended_well(reference) && ended_well(output) && Some(processor)
                == fell ==> came_to == Err::<Seq<char>, Seq<char>>(
                "AEC processing thread panicked"@,
            )
        }),
{
}

/// Streams open one at a time, the reference first, then the microphone, then the output, each with
/// ten seconds for it; an attempt that fails ends everything with its own words.
pub proof fn streams_open_in_turn(
    supervisor: SupervisorView,
    failure: Option<Seq<char>>,
    now: u64,
    kind: StreamKind,
    buffer_frames: u32,
    running: bool,
    later: u64,
)
    requires
        supervisor.well_formed(),
        supervisor.stage == Stage::Spawning(kind),
        now <= LAST_MOMENT,
    ensures
        ({
            let spawned = supervisor.after_spawn(kind, failure, now);
            let deadline = (now + 10_000_000_000) as u64;
            let opened = spawned.after_report(
                kind,
                deadline,
                ReportView::Event(StreamEventView::Started { kind, buffer_frames }),
                running,
                later,
            );
            &&& failure is Some ==> spawned.step() == Step::Stop && spawned.run_error == failure
            &&& failure is None ==> {
                &&& spawned.step() == Step::AwaitReport
                &&& spawned.stage == (Stage::Awaiting { kind, deadline })
                &&& deadline - now == 10 * 1_000_000_000
                &&& spawned.run_error is None
                &&& kind == StreamKind::Reference <==> opened.step() == (Step::OpenCapture {
                    kind: StreamKind::Microphone,
                    mode: CaptureMode::Endpoint,
                })
                &&& kind == StreamKind::Microphone <==> opened.step() == Step::OpenRender
                &&& kind == StreamKind::Output <==> opened.step() == Step::Announce
                &&& opened.run_error is None
            }
        }),
{
}

/// The first stream to be opened is the reference, read as what a playback device plays exactly
/// where a loopback was asked for; the microphone is always read as a recording device.
pub proof fn the_reference_is_read_as_asked(reference_mode: ReferenceMode, supervisor: SupervisorView)
    requires
        supervisor.reference_mode == reference_mode,
        supervisor.well_formed(),
    ensures
        supervisor.stage == Stage::Spawning(StreamKind::Reference) <==> (supervisor.step() matches Step::OpenCapture {
            kind,
            ..
        } && kind == StreamKind::Reference),
        supervisor.step() matches Step::OpenCapture { kind, mode } ==> {
            &&& kind != StreamKind::Output
            &&& mode == CaptureMode::RenderLoopback <==> kind == StreamKind::Reference
                && reference_mode == ReferenceMode::Loopback
            &&& direction_for(mode) == if kind == StreamKind::Reference {
                reference_flow_of(reference_mode)
            } else {
                Flow::Capture
            }
        },
{
}

/// While a stream opens, a failure of any stream ends everything and is told in full; a stream that
/// was not waited for changes nothing; and the time for opening ends exactly at the deadline.
pub proof fn opening_ends_only_for_a_reason(
    supervisor: SupervisorView,
    kind: StreamKind,
    deadline: u64,
    report: ReportView,
    running: bool,
    now: u64,
)
    requires
        supervisor.well_formed(),
        supervisor.stage == (Stage::Awaiting { kind, deadline }),
    ensures
        ({
            let after = supervisor.after_report(kind, deadline, report, running, now);
            &&& match report {
                ReportView::Event(StreamEventView::Started { kind: started, .. }) => {
                    &&& after.run_error is None
                    &&& after.step() != Step::Stop
                    &&& after.stage == supervisor.stage <==> started != kind
                },
                ReportView::Event(StreamEventView::Failed { kind: failed, message }) => {
                    &&& after.step() == Step::Stop
                    &&& after.run_error == Some(
                        failed.spec_label() + " WASAPI stream failed: "@ + message,
                    )
                },
                ReportView::Timeout => {
                    &&& after.step() == Step::Stop <==> !running || now >= deadline
                    &&& after.run_error is Some <==> running && now >= deadline
                    &&& after.step() != Step::Stop ==> after == supervisor
                },
                ReportView::Disconnected => after.step() == Step::Stop && after.run_error is Some,
            }
            &&& after.mic_opened == supervisor.mic_opened
            &&& after.reference_opened == supervisor.reference_opened
            &&& after.output_opened == supervisor.output_opened
            &&& after.duration_seconds == supervisor.duration_seconds
        }),
{
}

/// Whether the first report of a failure stands at a position.
pub open spec fn first_failed_at(events: Seq<StreamEventView>, at: int) -> bool {
    &&& 0 <= at < events.len()
    &&& events[at] is Failed
    &&& forall|i: int| 0 <= i < at ==> (#[trigger] events[i]) is Started
}

/// The failure that is told of is the first that was reported, and none is told of where none was.
pub proof fn the_first_failure_is_told(events: Seq<StreamEventView>)
    ensures
        first_stream_failure(events) is None <==> forall|i: int|
            0 <= i < events.len() ==> (#[trigger] events[i]) is Started,
        first_stream_failure(events) is Some ==> exists|at: int|
            #[trigger] first_failed_at(events, at) && first_stream_failure(events) == Some(
                events[at]->Failed_kind.spec_label() + " WASAPI stream failed: "@
                    + events[at]->message,
            ),
    decreases events.len(),
{
    if events.len() > 0 {
        if events[0] is Failed {
            assert(first_failed_at(events, 0));
        } else {
            let rest = events.drop_first();
            the_first_failure_is_told(rest);
            assert forall|i: int| 0 <= i < rest.len() implies rest[i] == events[i + 1] by {}
            if first_stream_failure(rest) is Some {
                let at = choose|at: int|
                    #[trigger] first_failed_at(rest, at) && first_stream_failure(rest) == Some(
                        rest[at]->Failed_kind.spec_label() + " WASAPI stream failed: "@
                            + rest[at]->message,
                    );
                assert forall|i: int| 0 <= i < at + 1 implies (#[trigger] events[i]) is Started by {
                    if i > 0 {
                        assert(rest[i - 1] is Started);
                    }
                }
                assert(first_failed_at(events, at + 1));
            } else {
                assert forall|i: int| 0 <= i < events.len() implies (#[trigger] events[i]) is Started by {
                    if i > 0 {
                        assert(rest[i - 1] is Started);
                    }
                }
            }
        }
    }
}

/// A running bridge ends where it is asked to, where a stream fails, or where the seconds that it
/// was given are over, and else goes on as it is; without a number of seconds it has no end of its
/// own. Only a failed stream makes that end an error.
pub proof fn watching_ends_only_for_a_reason(
    supervisor: SupervisorView,
    since: u64,
    running: bool,
    events: Seq<StreamEventView>,
    now: u64,
)
    requires
        supervisor.well_formed(),
        supervisor.stage == (Stage::Watching { since }),
        since <= now,
    ensures
        ({
            let after = supervisor.after_watch(since, running, events, now);
            let fails = exists|i: int| 0 <= i < events.len() && (#[trigger] events[i]) is Failed;
            let time_is_over = supervisor.duration_seconds > 0 && now >= since
                + supervisor.duration_seconds * 1_000_000_000;
            &&& after.step() == Step::Stop <==> !running || fails || time_is_over
            &&& after.step() != Step::Stop ==> after == supervisor
            &&& after.run_error is Some <==> running && fails
            &&& after.run_error is Some ==> after.run_error == first_stream_failure(events)
        }),
{
    the_first_failure_is_told(events);
    if running && first_stream_failure(events) is Some {
        let at = choose|at: int|
            #[trigger] first_failed_at(events, at) && first_stream_failure(events) == Some(
                events[at]->Failed_kind.spec_label() + " WASAPI stream failed: "@
                    + events[at]->message,
            );
        assert(events[at] is Failed);
    }
}

/// A bridge begins with the reference, read as was asked for, with nothing open and nothing wrong.
pub proof fn a_bridge_begins_with_the_reference(reference_mode: ReferenceMode, duration_seconds: u64)
    ensures
        ({
            let begun = SupervisorView::begun(reference_mode, duration_seconds);
            &&& begun.well_formed()
            &&& begun.step() == (Step::OpenCapture {
                kind: StreamKind::Reference,
                mode: if reference_mode == ReferenceMode::Loopback {
                    CaptureMode::RenderLoopback
                } else {
                    CaptureMode::Endpoint
                },
            })
            &&& begun.run_error is None
            &&& begun.duration_seconds == duration_seconds
        }),
{
}

/// A bridge with a number of seconds runs for just that long from the moment that it was said to
/// run, as long as nothing fails and nobody stops it; one without goes on.
pub proof fn a_bridge_runs_for_its_seconds(
    supervisor: SupervisorView,
    announced: u64,
    now: u64,
)
    requires
        supervisor.well_formed(),
        supervisor.step() == Step::Announce,
        announced <= now,
    ensures
        ({
            let running = supervisor.after_announcement(announced);
            let after = running.after_watch(announced, true, Seq::empty(), now);
            &&& running.step() == Step::Watch
            &&& running.well_formed()
            &&& after.run_error is None
            &&& after.step() == Step::Stop <==> supervisor.duration_seconds > 0 && now - announced
                >= supervisor.duration_seconds * 1_000_000_000
        }),
{
}

/// A stream that has opened is told of by its name, in a field of ten characters, and by its buffer.
pub proof fn a_started_stream_is_told_of_by_name(kind: StreamKind, buffer_frames: u32)
    ensures
        started_line(kind, buffer_frames) == "WASAPI: "@ + left_aligned(
            match kind {
                StreamKind::Microphone => "microphone"@,
                StreamKind::Reference => "reference"@,
                StreamKind::Output => "handoff"@,
            },
            10,
        ) + " started with a "@ + digits(buffer_frames as nat) + "-frame shared buffer"@,
{
}

} // verus!
