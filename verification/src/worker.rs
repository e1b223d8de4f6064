//! The worker of one source, as a state machine.
//!
//! A worker alternates between outside work (loading the engine, opening and reading
//! the capture feed, measuring and recognizing a window, sending a message) and
//! decisions. The decisions are [`SourceWorker::step`]: it takes the outcome of the
//! last piece of outside work and answers with the next piece to do. Whoever drives
//! the worker performs each action and reports what came of it.

use crate::data::{AudioMessage, InterlocutorProfile, MessageModel, SourceType};
use crate::text::{decimal, push_decimal};
use crate::transcript::{assemble_text, assembled};
use crate::window::{overlap_len, target_samples, window_len, WindowAccumulator};
use vstd::prelude::*;
use vstd::string::StringExecFns;

verus! {

/// Longest wait for one batch of the capture feed, in milliseconds. The cancellation
/// flag is looked at before every such wait.
pub const READ_TIMEOUT_MS: u64 = 100;

/// The outside work whose outcome a worker awaits.
#[derive(Clone, Copy, Debug, PartialEq, Eq, Structural)]
pub enum Pending {
    /// Nothing yet: the worker was made and not started.
    Begin,
    /// The recognition engine is loading.
    Engine,
    /// The capture feed is being opened.
    Feed,
    /// The message that announces the source is being sent.
    Announcement,
    /// The next batch of the feed.
    Batch,
    /// A window is being measured.
    Analysis,
    /// A window is being recognized.
    Recognition,
    /// A transcription is being sent.
    Delivery,
    /// Nothing more: the worker has stopped.
    Done,
}

/// The four states of a worker.
#[derive(Clone, Copy, Debug, PartialEq, Eq, Structural)]
pub enum WorkerPhase {
    Starting,
    Capturing,
    Processing,
    Stopped,
}

/// The state that awaits `pending`.
pub open spec fn phase_of(pending: Pending) -> WorkerPhase {
    match pending {
        Pending::Begin | Pending::Engine | Pending::Feed | Pending::Announcement => {
            WorkerPhase::Starting
        },
        Pending::Batch => WorkerPhase::Capturing,
        Pending::Analysis | Pending::Recognition | Pending::Delivery => WorkerPhase::Processing,
        Pending::Done => WorkerPhase::Stopped,
    }
}

/// What came of a piece of outside work.
#[derive(Debug, PartialEq)]
pub enum WorkerEvent<T: Copy> {
    /// The worker was started.
    Spawned,
    EngineReady,
    /// The engine could not be loaded; the text says why.
    EngineLoadFailed(String),
    /// The feed is open and delivers `channels` channels at `native_rate`.
    FeedOpened { device_name: String, native_rate: u32, channels: u16 },
    /// The device could not be opened; the text says why.
    FeedUnavailable(String),
    /// The cancellation flag was set when the worker looked.
    Cancelled,
    /// No batch came within the wait.
    Timeout,
    EndOfStream,
    /// The feed failed while it was read; the text says why.
    ReadFailed(String),
    /// A batch of the feed, mixed down to one channel.
    Batch(Vec<T>),
    /// A window was brought to the target rate and normalized, and its energy
    /// compared with the silence threshold.
    Analyzed { window: Vec<T>, silent: bool },
    /// The engine's segments for a window.
    Recognized(Vec<String>),
    /// The engine failed on a window; the text says why.
    EngineFailed(String),
    /// The message was handed to the consumer.
    Sent,
    /// The consumer is gone.
    Disconnected,
}

/// A [`WorkerEvent`] as mathematical values.
pub enum EventModel<T> {
    Spawned,
    EngineReady,
    EngineLoadFailed(Seq<char>),
    FeedOpened { device_name: Seq<char>, native_rate: u32, channels: u16 },
    FeedUnavailable(Seq<char>),
    Cancelled,
    Timeout,
    EndOfStream,
    ReadFailed(Seq<char>),
    Batch(Seq<T>),
    Analyzed { window: Seq<T>, silent: bool },
    Recognized(Seq<Seq<char>>),
    EngineFailed(Seq<char>),
    Sent,
    Disconnected,
}

impl<T: Copy> View for WorkerEvent<T> {
    type V = EventModel<T>;

    open spec fn view(&self) -> EventModel<T> {
        match self {
            WorkerEvent::Spawned => EventModel::Spawned,
            WorkerEvent::EngineReady => EventModel::EngineReady,
            WorkerEvent::EngineLoadFailed(d) => EventModel::EngineLoadFailed(d@),
            WorkerEvent::FeedOpened { device_name, native_rate, channels } => {
                EventModel::FeedOpened {
                    device_name: device_name@,
                    native_rate: *native_rate,
                    channels: *channels,
                }
            },
            WorkerEvent::FeedUnavailable(d) => EventModel::FeedUnavailable(d@),
            WorkerEvent::Cancelled => EventModel::Cancelled,
            WorkerEvent::Timeout => EventModel::Timeout,
            WorkerEvent::EndOfStream => EventModel::EndOfStream,
            WorkerEvent::ReadFailed(d) => EventModel::ReadFailed(d@),
            WorkerEvent::Batch(samples) => EventModel::Batch(samples@),
            WorkerEvent::Analyzed { window, silent } => EventModel::Analyzed {
                window: window@,
                silent: *silent,
            },
            WorkerEvent::Recognized(segments) => EventModel::Recognized(segments.deep_view()),
            WorkerEvent::EngineFailed(d) => EventModel::EngineFailed(d@),
            WorkerEvent::Sent => EventModel::Sent,
            WorkerEvent::Disconnected => EventModel::Disconnected,
        }
    }
}

/// The next piece of outside work.
#[derive(Debug, PartialEq)]
pub enum WorkerAction<T: Copy> {
    /// Load the recognition engine; answer `EngineReady` or `EngineLoadFailed`.
    LoadEngine,
    /// Open the capture feed; answer `FeedOpened` or `FeedUnavailable`.
    OpenFeed,
    /// Look at the cancellation flag, then wait for a batch for at most
    /// [`READ_TIMEOUT_MS`]; answer `Cancelled`, `Timeout`, `EndOfStream`, `ReadFailed`
    /// or `Batch`.
    ReadBatch,
    /// Bring the window from `from_rate` to `to_rate`, normalize it and measure its
    /// energy; answer `Analyzed`.
    Analyze { window: Vec<T>, from_rate: u32, to_rate: u32 },
    /// Run the recognition engine on the window; answer `Recognized` or
    /// `EngineFailed`.
    Recognize { window: Vec<T> },
    /// Send the message; answer `Sent` or `Disconnected`.
    Emit(AudioMessage),
    /// Send the message if anyone listens, release everything and end.
    Fail(AudioMessage),
    /// Release the feed and end.
    Stop,
}

/// A [`WorkerAction`] as mathematical values.
pub enum ActionModel<T> {
    LoadEngine,
    OpenFeed,
    ReadBatch,
    Analyze { window: Seq<T>, from_rate: u32, to_rate: u32 },
    Recognize { window: Seq<T> },
    Emit(MessageModel),
    Fail(MessageModel),
    Stop,
}

impl<T: Copy> View for WorkerAction<T> {
    type V = ActionModel<T>;

    open spec fn view(&self) -> ActionModel<T> {
        match self {
            WorkerAction::LoadEngine => ActionModel::LoadEngine,
            WorkerAction::OpenFeed => ActionModel::OpenFeed,
            WorkerAction::ReadBatch => ActionModel::ReadBatch,
            WorkerAction::Analyze { window, from_rate, to_rate } => ActionModel::Analyze {
                window: window@,
                from_rate: *from_rate,
                to_rate: *to_rate,
            },
            WorkerAction::Recognize { window } => ActionModel::Recognize { window: window@ },
            WorkerAction::Emit(m) => ActionModel::Emit(m@),
            WorkerAction::Fail(m) => ActionModel::Fail(m@),
            WorkerAction::Stop => ActionModel::Stop,
        }
    }
}

/// A worker as mathematical values.
pub struct WorkerModel<T> {
    pub pending: Pending,
    pub name: Seq<char>,
    pub source_type: SourceType,
    pub target_rate: u32,
    pub chunk_secs: u32,
    pub native_rate: u32,
    pub channels: u16,
    /// Length of a window, in samples at the native rate.
    pub target: nat,
    /// The mono samples that wait for a window to fill.
    pub buffered: Seq<T>,
}

/// The length of a window of `seconds` seconds at `rate`; a window that no buffer can
/// hold is as long as the longest buffer, and so never fills.
pub open spec fn window_target(rate: u32, seconds: u32) -> nat {
    if window_len(rate, seconds) > usize::MAX {
        usize::MAX as nat
    } else {
        window_len(rate, seconds)
    }
}

/// The sign that stands for a kind of source.
pub open spec fn source_icon(kind: SourceType) -> Seq<char> {
    match kind {
        SourceType::Input => "🎤"@,
        SourceType::Output => "🔊"@,
    }
}

/// The line that announces an opened source: its sign, its name, the device, and the
/// rate and channel count of the feed.
pub open spec fn announcement(
    kind: SourceType,
    name: Seq<char>,
    device: Seq<char>,
    rate: u32,
    channels: u16,
) -> Seq<char> {
    source_icon(kind) + " "@ + name + " - "@ + device + " ("@ + decimal(rate as nat) + "Hz, "@
        + decimal(channels as nat) + " ch)"@
}

/// The report of a worker that ends on a failure.
pub open spec fn failure_report(name: Seq<char>, detail: Seq<char>) -> Seq<char> {
    "Error en "@ + name + ": "@ + detail
}

/// What is reported when the feed fails while it is read.
pub open spec fn read_failure_detail(detail: Seq<char>) -> Seq<char> {
    "Error leyendo audio: "@ + detail
}

/// What is reported when the engine cannot be loaded.
pub open spec fn engine_load_detail(detail: Seq<char>) -> Seq<char> {
    "Error cargando modelo: "@ + detail
}

/// The worker once it has stopped.
pub open spec fn stopped<T>(w: WorkerModel<T>) -> WorkerModel<T> {
    WorkerModel { pending: Pending::Done, ..w }
}

/// The worker waiting for `pending`, all else unchanged.
pub open spec fn awaiting<T>(w: WorkerModel<T>, pending: Pending) -> WorkerModel<T> {
    WorkerModel { pending, ..w }
}

/// What a batch does to a capturing worker.
pub open spec fn on_batch<T>(w: WorkerModel<T>, samples: Seq<T>) -> (WorkerModel<T>, ActionModel<T>) {
    let all = w.buffered + samples;
    if samples.len() == 0 {
        (stopped(w), ActionModel::Stop)
    } else if all.len() >= w.target {
        (
            WorkerModel {
                pending: Pending::Analysis,
                buffered: all.subrange(all.len() - overlap_len(w.target), all.len() as int),
                ..w
            },
            ActionModel::Analyze {
                window: all.subrange(0, w.target as int),
                from_rate: w.native_rate,
                to_rate: w.target_rate,
            },
        )
    } else {
        (WorkerModel { buffered: all, ..w }, ActionModel::ReadBatch)
    }
}

/// The transitions of a worker: the state and the action that follow when `event`
/// reaches the worker `w`, or nothing where `w` does not await such an event.
pub open spec fn transition<T>(w: WorkerModel<T>, event: EventModel<T>) -> Option<
    (WorkerModel<T>, ActionModel<T>),
> {
    match (w.pending, event) {
        (Pending::Begin, EventModel::Spawned) => Some(
            (awaiting(w, Pending::Engine), ActionModel::LoadEngine),
        ),
        (Pending::Engine, EventModel::EngineReady) => Some(
            (awaiting(w, Pending::Feed), ActionModel::OpenFeed),
        ),
        (Pending::Engine, EventModel::EngineLoadFailed(detail)) => Some(
            (
                stopped(w),
                ActionModel::Fail(
                    MessageModel::Error(failure_report(w.name, engine_load_detail(detail))),
                ),
            ),
        ),
        (Pending::Feed, EventModel::FeedOpened { device_name, native_rate, channels }) => Some(
            (
                WorkerModel {
                    pending: Pending::Announcement,
                    native_rate,
                    channels,
                    target: window_target(native_rate, w.chunk_secs),
                    buffered: Seq::<T>::empty(),
                    ..w
                },
                ActionModel::Emit(
                    MessageModel::Status(
                        announcement(w.source_type, w.name, device_name, native_rate, channels),
                    ),
                ),
            ),
        ),
        (Pending::Feed, EventModel::FeedUnavailable(detail)) => Some(
            (stopped(w), ActionModel::Fail(MessageModel::Error(failure_report(w.name, detail)))),
        ),
        (Pending::Announcement, EventModel::Sent) => Some(
            (awaiting(w, Pending::Batch), ActionModel::ReadBatch),
        ),
        (Pending::Announcement, EventModel::Disconnected) => Some((stopped(w), ActionModel::Stop)),
        (Pending::Batch, EventModel::Cancelled) => Some((stopped(w), ActionModel::Stop)),
        (Pending::Batch, EventModel::EndOfStream) => Some((stopped(w), ActionModel::Stop)),
        (Pending::Batch, EventModel::ReadFailed(detail)) => Some(
            (
                stopped(w),
                ActionModel::Fail(
                    MessageModel::Error(failure_report(w.name, read_failure_detail(detail))),
                ),
            ),
        ),
        (Pending::Batch, EventModel::Timeout) => Some((w, ActionModel::ReadBatch)),
        (Pending::Batch, EventModel::Batch(samples)) => Some(on_batch(w, samples)),
        (Pending::Analysis, EventModel::Analyzed { window, silent }) => Some(
            if silent {
                (awaiting(w, Pending::Batch), ActionModel::ReadBatch)
            } else {
                (awaiting(w, Pending::Recognition), ActionModel::Recognize { window })
            },
        ),
        (Pending::Recognition, EventModel::Recognized(segments)) => Some(
            if assembled(segments).len() > 0 {
                (
                    awaiting(w, Pending::Delivery),
                    ActionModel::Emit(
                        MessageModel::Transcription { text: assembled(segments), name: w.name },
                    ),
                )
            } else {
                (awaiting(w, Pending::Batch), ActionModel::ReadBatch)
            },
        ),
        (Pending::Recognition, EventModel::EngineFailed(_)) => Some(
            (awaiting(w, Pending::Batch), ActionModel::ReadBatch),
        ),
        (Pending::Delivery, EventModel::Sent) => Some(
            (awaiting(w, Pending::Batch), ActionModel::ReadBatch),
        ),
        (Pending::Delivery, EventModel::Disconnected) => Some((stopped(w), ActionModel::Stop)),
        _ => None,
    }
}

/// The worker of one source.
pub struct SourceWorker<T: Copy> {
    name: String,
    source_type: SourceType,
    target_rate: u32,
    chunk_secs: u32,
    pending: Pending,
    native_rate: u32,
    channels: u16,
    accumulator: WindowAccumulator<T>,
}

impl<T: Copy> View for SourceWorker<T> {
    type V = WorkerModel<T>;

    closed spec fn view(&self) -> WorkerModel<T> {
        WorkerModel {
            pending: self.pending,
            name: self.name@,
            source_type: self.source_type,
            target_rate: self.target_rate,
            chunk_secs: self.chunk_secs,
            native_rate: self.native_rate,
            channels: self.channels,
            target: self.accumulator.target(),
            buffered: self.accumulator.buffered(),
        }
    }
}

/// Builds [`announcement`].
fn announce(kind: SourceType, name: &str, device: &str, rate: u32, channels: u16) -> (line: String)
    ensures
        line@ == announcement(kind, name@, device@, rate, channels),
{
    let mut line = match kind {
        SourceType::Input => String::from_str("🎤"),
        SourceType::Output => String::from_str("🔊"),
    };
    line.append(" ");
    line.append(name);
    line.append(" - ");
    line.append(device);
    line.append(" (");
    push_decimal(&mut line, rate as u64);
    line.append("Hz, ");
    push_decimal(&mut line, channels as u64);
    line.append(" ch)");
    line
}

/// Builds [`failure_report`].
pub fn report_failure(name: &str, detail: &str) -> (line: String)
    ensures
        line@ == failure_report(name@, detail@),
{
    let mut line = String::from_str("Error en ");
    line.append(name);
    line.append(": ");
    line.append(detail);
    line
}

impl<T: Copy> SourceWorker<T> {
    /// A worker for `profile` that was not started yet.
    pub fn new(profile: &InterlocutorProfile) -> (worker: Self)
        ensures
            worker@ == (WorkerModel::<T> {
                pending: Pending::Begin,
                name: profile.name@,
                source_type: profile.source_type,
                target_rate: profile.target_sample_rate,
                chunk_secs: profile.chunk_duration_secs,
                native_rate: 0,
                channels: 0,
                target: 0,
                buffered: Seq::<T>::empty(),
            }),
    {
        SourceWorker {
            name: profile.name.clone(),
            source_type: profile.source_type,
            target_rate: profile.target_sample_rate,
            chunk_secs: profile.chunk_duration_secs,
            pending: Pending::Begin,
            native_rate: 0,
            channels: 0,
            accumulator: WindowAccumulator::new(0),
        }
    }

    /// The state of the worker.
    pub fn phase(&self) -> (phase: WorkerPhase)
        ensures
            phase == phase_of(self@.pending),
    {
        match self.pending {
            Pending::Begin | Pending::Engine | Pending::Feed | Pending::Announcement => {
                WorkerPhase::Starting
            },
            Pending::Batch => WorkerPhase::Capturing,
            Pending::Analysis | Pending::Recognition | Pending::Delivery => {
                WorkerPhase::Processing
            },
            Pending::Done => WorkerPhase::Stopped,
        }
    }

    /// The outside work whose outcome the worker awaits.
    pub fn pending(&self) -> (pending: Pending)
        ensures
            pending == self@.pending,
    {
        self.pending
    }

    /// The number of samples that wait for a window to fill.
    pub fn buffered_len(&self) -> (n: usize)
        ensures
            n == self@.buffered.len(),
    {
        self.accumulator.len()
    }

    /// The length of a window, in samples at the native rate.
    pub fn window_samples(&self) -> (n: usize)
        ensures
            n == self@.target,
    {
        self.accumulator.target_samples()
    }

    /// Takes the outcome of the last action and answers with the next one.
    ///
    /// An event that the worker does not await is refused: nothing is returned and
    /// the worker stays as it was.
    pub fn step(&mut self, event: WorkerEvent<T>) -> (action: Option<WorkerAction<T>>)
        ensures
            match transition(old(self)@, event@) {
                Some((next, act)) => action is Some && action->0@ == act && final(self)@ == next,
                None => action is None && final(self)@ == old(self)@,
            },
    {
        match (self.pending, event) {
            (Pending::Begin, WorkerEvent::Spawned) => {
                self.pending = Pending::Engine;
                Some(WorkerAction::LoadEngine)
            },
            (Pending::Engine, WorkerEvent::EngineReady) => {
                self.pending = Pending::Feed;
                Some(WorkerAction::OpenFeed)
            },
            (Pending::Engine, WorkerEvent::EngineLoadFailed(detail)) => {
                self.pending = Pending::Done;
                let mut cause = String::from_str("Error cargando modelo: ");
                cause.append(detail.as_str());
                let line = report_failure(self.name.as_str(), cause.as_str());
                Some(WorkerAction::Fail(AudioMessage::Error(line)))
            },
            (Pending::Feed, WorkerEvent::FeedOpened { device_name, native_rate, channels }) => {
                let wide: u64 = target_samples(native_rate, self.chunk_secs);
                let target: usize = if wide > usize::MAX as u64 {
                    usize::MAX
                } else {
                    wide as usize
                };
                self.pending = Pending::Announcement;
                self.native_rate = native_rate;
                self.channels = channels;
                self.accumulator = WindowAccumulator::new(target);
                let line = announce(
                    self.source_type,
                    self.name.as_str(),
                    device_name.as_str(),
                    native_rate,
                    channels,
                );
                Some(WorkerAction::Emit(AudioMessage::Status(line)))
            },
            (Pending::Feed, WorkerEvent::FeedUnavailable(detail)) => {
                self.pending = Pending::Done;
                let line = report_failure(self.name.as_str(), detail.as_str());
                Some(WorkerAction::Fail(AudioMessage::Error(line)))
            },
            (Pending::Announcement, WorkerEvent::Sent) => {
                self.pending = Pending::Batch;
                Some(WorkerAction::ReadBatch)
            },
            (Pending::Announcement, WorkerEvent::Disconnected) => {
                self.pending = Pending::Done;
                Some(WorkerAction::Stop)
            },
            (Pending::Batch, WorkerEvent::Cancelled) => {
                self.pending = Pending::Done;
                Some(WorkerAction::Stop)
            },
            (Pending::Batch, WorkerEvent::EndOfStream) => {
                self.pending = Pending::Done;
                Some(WorkerAction::Stop)
            },
            (Pending::Batch, WorkerEvent::ReadFailed(detail)) => {
                self.pending = Pending::Done;
                let mut cause = String::from_str("Error leyendo audio: ");
                cause.append(detail.as_str());
                let line = report_failure(self.name.as_str(), cause.as_str());
                Some(WorkerAction::Fail(AudioMessage::Error(line)))
            },
            (Pending::Batch, WorkerEvent::Timeout) => Some(WorkerAction::ReadBatch),
            (Pending::Batch, WorkerEvent::Batch(samples)) => {
                if samples.len() == 0 {
                    self.pending = Pending::Done;
                    Some(WorkerAction::Stop)
                } else {
                    self.accumulator.push(samples);
                    match self.accumulator.try_take_window() {
                        Some(window) => {
                            self.pending = Pending::Analysis;
                            Some(
                                WorkerAction::Analyze {
                                    window,
                                    from_rate: self.native_rate,
                                    to_rate: self.target_rate,
                                },
                            )
                        },
                        None => Some(WorkerAction::ReadBatch),
                    }
                }
            },
            (Pending::Analysis, WorkerEvent::Analyzed { window, silent }) => {
                if silent {
                    self.pending = Pending::Batch;
                    Some(WorkerAction::ReadBatch)
                } else {
                    self.pending = Pending::Recognition;
                    Some(WorkerAction::Recognize { window })
                }
            },
            (Pending::Recognition, WorkerEvent::Recognized(segments)) => {
                match assemble_text(&segments) {
                    Some(text) => {
                        self.pending = Pending::Delivery;
                        Some(
                            WorkerAction::Emit(
                                AudioMessage::Transcription { text, name: self.name.clone() },
                            ),
                        )
                    },
                    None => {
                        self.pending = Pending::Batch;
                        Some(WorkerAction::ReadBatch)
                    },
                }
            },
            (Pending::Recognition, WorkerEvent::EngineFailed(_)) => {
                self.pending = Pending::Batch;
                Some(WorkerAction::ReadBatch)
            },
            (Pending::Delivery, WorkerEvent::Sent) => {
                self.pending = Pending::Batch;
                Some(WorkerAction::ReadBatch)
            },
            (Pending::Delivery, WorkerEvent::Disconnected) => {
                self.pending = Pending::Done;
                Some(WorkerAction::Stop)
            },
            _ => None,
        }
    }
}

/// The engine runs only on a window that was measured and found not silent, and on
/// that very window.
pub proof fn lemma_recognition_needs_audible_window<T>(w: WorkerModel<T>, event: EventModel<T>)
    requires
        transition(w, event) is Some,
        (transition(w, event)->0).1 is Recognize,
    ensures
        w.pending == Pending::Analysis,
        event is Analyzed,
        !event->Analyzed_silent,
        (transition(w, event)->0).1->Recognize_window == event->Analyzed_window,
{
}

/// A window is handed out only by a batch that fills the buffer, and it is exactly
/// one window long; what stays buffered is the overlap.
pub proof fn lemma_window_needs_full_buffer<T>(w: WorkerModel<T>, event: EventModel<T>)
    requires
        transition(w, event) is Some,
        (transition(w, event)->0).1 is Analyze,
    ensures
        event is Batch,
        w.buffered.len() + event->Batch_0.len() >= w.target,
        (transition(w, event)->0).1->Analyze_window.len() == w.target,
        (transition(w, event)->0).0.buffered.len() == overlap_len(w.target),
{
    crate::window::lemma_overlap_is_three_tenths(w.target);
}

/// A capturing worker that finds the cancellation flag set stops at once, and a
/// stopped worker takes no further event: no window is recognized after the flag was
/// seen.
pub proof fn lemma_cancellation_is_final<T>(w: WorkerModel<T>, later: EventModel<T>)
    requires
        w.pending == Pending::Batch,
    ensures
        transition(w, EventModel::Cancelled) == Some((stopped(w), ActionModel::<T>::Stop)),
        phase_of(stopped(w).pending) == WorkerPhase::Stopped,
        transition(stopped(w), later) is None,
{
}

/// A failure of the engine on one window, or a silent window, costs that window only:
/// the worker goes on capturing with its buffer untouched.
pub proof fn lemma_failed_window_is_skipped<T>(w: WorkerModel<T>, detail: Seq<char>, window: Seq<T>)
    ensures
        w.pending == Pending::Recognition ==> transition(w, EventModel::EngineFailed(detail))
            == Some((awaiting(w, Pending::Batch), ActionModel::<T>::ReadBatch)),
        w.pending == Pending::Analysis ==> transition(
            w,
            EventModel::Analyzed { window, silent: true },
        ) == Some((awaiting(w, Pending::Batch), ActionModel::<T>::ReadBatch)),
{
}

} // verus!
