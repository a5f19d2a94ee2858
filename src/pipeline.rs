use vstd::prelude::*;

verus! {

/// Consecutive faults after which the worker gives up rather than restart again.
pub const MAX_CONSECUTIVE_FAULTS: u32 = 3;

/// Where the decode worker stands.
#[derive(Clone, Copy, Debug, PartialEq, Eq, Structural)]
pub enum Phase {
    /// Reading packets of the video stream, decoding and publishing frames.
    Streaming,
    /// Packets are exhausted; draining the frames the decoder still holds.
    Flushing,
    /// Seeking back to the start and rebuilding the decoder.
    Restarting,
    /// Finished: the display is gone, or faults kept recurring.
    Stopped,
}

/// What the worker's last action came to.
#[derive(Clone, Copy, Debug, PartialEq, Eq, Structural)]
pub enum Event {
    /// The demuxer yielded a packet of stream `stream`.
    Packet { stream: usize },
    /// The demuxer has no packets left.
    PacketsExhausted,
    /// The decoder accepted a packet or the end-of-stream signal.
    Submitted,
    /// The decoder yielded a frame, now rescaled and mapped to glyphs.
    FrameReady,
    /// The decoder has no frame to give for now.
    DecoderEmpty,
    /// The frame went into the queue.
    Published,
    /// The queue's receiving side is gone.
    PublishFailed,
    /// The container is back at its start with a fresh decoder.
    Rewound,
    /// Demuxing, decoding, rescaling or rewinding failed.
    Fault,
}

/// What the worker does next.
#[derive(Clone, Copy, Debug, PartialEq, Eq, Structural)]
pub enum Action {
    ReadPacket,
    SubmitPacket,
    ReceiveFrame,
    Publish,
    SubmitEndOfStream,
    Rewind,
    Exit,
}

/// The decode worker's state: the video stream it follows, its phase and
/// the faults it has met since it last published a frame.
#[derive(Clone, Copy, Debug, PartialEq, Eq, Structural)]
pub struct Worker {
    pub video_stream: usize,
    pub phase: Phase,
    pub faults: u32,
}

/// `w` in phase `p`.
pub open spec fn with_phase(w: Worker, p: Phase) -> Worker {
    Worker { phase: p, ..w }
}

/// The worker's next state and action after event `e`. An event that the
/// worker's phase cannot give rise to stops it.
pub open spec fn transition(w: Worker, e: Event) -> (Worker, Action) {
    match (w.phase, e) {
        (Phase::Stopped, _) => (w, Action::Exit),
        (_, Event::PublishFailed) => (with_phase(w, Phase::Stopped), Action::Exit),
        (_, Event::Fault) => {
            let faults = if w.faults < MAX_CONSECUTIVE_FAULTS { w.faults + 1 } else { w.faults as int };
            if faults >= MAX_CONSECUTIVE_FAULTS {
                (Worker { phase: Phase::Stopped, faults: faults as u32, ..w }, Action::Exit)
            } else {
                (Worker { phase: Phase::Restarting, faults: faults as u32, ..w }, Action::Rewind)
            }
        },
        (Phase::Streaming, Event::Packet { stream }) => if stream == w.video_stream {
            (w, Action::SubmitPacket)
        } else {
            (w, Action::ReadPacket)
        },
        (Phase::Streaming, Event::PacketsExhausted) => (
            with_phase(w, Phase::Flushing),
            Action::SubmitEndOfStream,
        ),
        (Phase::Streaming, Event::DecoderEmpty) => (w, Action::ReadPacket),
        (Phase::Flushing, Event::DecoderEmpty) => (with_phase(w, Phase::Restarting), Action::Rewind),
        (Phase::Streaming, Event::Submitted) | (Phase::Flushing, Event::Submitted) => (
            w,
            Action::ReceiveFrame,
        ),
        (Phase::Streaming, Event::FrameReady) | (Phase::Flushing, Event::FrameReady) => (
            w,
            Action::Publish,
        ),
        (Phase::Streaming, Event::Published) | (Phase::Flushing, Event::Published) => (
            Worker { faults: 0, ..w },
            Action::ReceiveFrame,
        ),
        (Phase::Restarting, Event::Rewound) => (with_phase(w, Phase::Streaming), Action::ReadPacket),
        _ => (with_phase(w, Phase::Stopped), Action::Exit),
    }
}

impl Worker {
    /// A worker that follows stream `video_stream` of a freshly opened
    /// container, and its first action.
    pub fn start(video_stream: usize) -> (r: (Worker, Action))
        ensures
            r.0 == (Worker { video_stream, phase: Phase::Streaming, faults: 0 }),
            r.1 == Action::ReadPacket,
    {
        (Worker { video_stream, phase: Phase::Streaming, faults: 0 }, Action::ReadPacket)
    }

    /// Next state and action after event `e`.
    pub fn step(&self, e: Event) -> (r: (Worker, Action))
        ensures
            r == transition(*self, e),
    {
        let w = *self;
        match (w.phase, e) {
            (Phase::Stopped, _) => (w, Action::Exit),
            (_, Event::PublishFailed) => (Worker { phase: Phase::Stopped, ..w }, Action::Exit),
            (_, Event::Fault) => {
                let faults: u32 = if w.faults < MAX_CONSECUTIVE_FAULTS {
                    w.faults + 1
                } else {
                    w.faults
                };
                if faults >= MAX_CONSECUTIVE_FAULTS {
                    (Worker { phase: Phase::Stopped, faults, ..w }, Action::Exit)
                } else {
                    (Worker { phase: Phase::Restarting, faults, ..w }, Action::Rewind)
                }
            },
            (Phase::Streaming, Event::Packet { stream }) => {
                if stream == w.video_stream {
                    (w, Action::SubmitPacket)
                } else {
                    (w, Action::ReadPacket)
                }
            },
            (Phase::Streaming, Event::PacketsExhausted) => (
                Worker { phase: Phase::Flushing, ..w },
                Action::SubmitEndOfStream,
            ),
            (Phase::Streaming, Event::DecoderEmpty) => (w, Action::ReadPacket),
            (Phase::Flushing, Event::DecoderEmpty) => (
                Worker { phase: Phase::Restarting, ..w },
                Action::Rewind,
            ),
            (Phase::Streaming, Event::Submitted) | (Phase::Flushing, Event::Submitted) => (
                w,
                Action::ReceiveFrame,
            ),
            (Phase::Streaming, Event::FrameReady) | (Phase::Flushing, Event::FrameReady) => (
                w,
                Action::Publish,
            ),
            (Phase::Streaming, Event::Published) | (Phase::Flushing, Event::Published) => (
                Worker { faults: 0, ..w },
                Action::ReceiveFrame,
            ),
            (Phase::Restarting, Event::Rewound) => (
                Worker { phase: Phase::Streaming, ..w },
                Action::ReadPacket,
            ),
            _ => (Worker { phase: Phase::Stopped, ..w }, Action::Exit),
        }
    }

    /// Whether the worker has finished.
    pub fn is_stopped(&self) -> (b: bool)
        ensures
            b <==> self.phase == Phase::Stopped,
    {
        match self.phase {
            Phase::Stopped => true,
            _ => false,
        }
    }
}

/// A stopped worker stays stopped and does nothing but exit.
pub proof fn lemma_stopped_is_final(w: Worker, e: Event)
    requires
        w.phase == Phase::Stopped,
    ensures
        transition(w, e) == (w, Action::Exit),
{
}

/// Once the display side is gone, the worker stops at its next publish.
pub proof fn lemma_consumer_gone_stops(w: Worker)
    ensures
        transition(w, Event::PublishFailed).0.phase == Phase::Stopped,
        transition(w, Event::PublishFailed).1 == Action::Exit,
{
}

/// Exhausting the packets flushes the decoder, draining it rewinds the
/// container, and rewinding resumes streaming from the start: the video loops.
pub proof fn lemma_end_of_stream_loops(w: Worker)
    requires
        w.phase == Phase::Streaming,
    ensures
        transition(w, Event::PacketsExhausted) == (with_phase(w, Phase::Flushing), Action::SubmitEndOfStream),
        transition(with_phase(w, Phase::Flushing), Event::DecoderEmpty) == (
            with_phase(w, Phase::Restarting),
            Action::Rewind,
        ),
        transition(with_phase(w, Phase::Restarting), Event::Rewound) == (w, Action::ReadPacket),
{
}

/// A fault restarts the stream, unless it is the last of
/// `MAX_CONSECUTIVE_FAULTS` in a row: then the worker stops. Publishing a
/// frame clears the count.
pub proof fn lemma_faults_are_bounded(w: Worker)
    requires
        w.phase != Phase::Stopped,
        w.faults < MAX_CONSECUTIVE_FAULTS,
    ensures
        transition(w, Event::Fault).0.faults == w.faults + 1,
        transition(w, Event::Fault).1 == (if w.faults + 1 >= MAX_CONSECUTIVE_FAULTS {
            Action::Exit
        } else {
            Action::Rewind
        }),
        (w.phase == Phase::Streaming || w.phase == Phase::Flushing) ==> transition(w, Event::Published).0.faults == 0,
{
}

/// Packets of streams other than the video stream are passed over.
pub proof fn lemma_other_streams_skipped(w: Worker, stream: usize)
    requires
        w.phase == Phase::Streaming,
        stream != w.video_stream,
    ensures
        transition(w, Event::Packet { stream }) == (w, Action::ReadPacket),
{
}

} // verus!
