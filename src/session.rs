use vstd::prelude::*;
use crate::format::{
    ConfigError, NativeFormat, StreamConfig, check_formats, check_formats_spec,
};
use crate::wav::{WavSpec, wav_spec_from_config, wav_spec_of};

verus! {

/// The phases of a recording session.
#[derive(Clone, Copy, Debug, PartialEq, Eq, Structural)]
pub enum Phase {
    Idle,
    Configuring,
    Running,
    ShuttingDown,
    Stopped,
}

/// Where the WAV file stands.
#[derive(Clone, Copy, Debug, PartialEq, Eq, Structural)]
pub enum SinkPhase {
    Absent,
    Open,
    Finalized,
}

/// What the outside world reports to the controller.
#[derive(Clone, Copy, Debug, PartialEq, Eq, Structural)]
pub enum Event {
    /// Start the session.
    Begin,
    /// The WAV file was created.
    SinkCreated,
    /// The WAV file could not be created.
    SinkFailed,
    /// The capture stream was built and started.
    CaptureStarted,
    /// The playback stream was built and started.
    PlaybackStarted,
    /// A stream could not be built or started.
    StreamFailed,
    /// The operator asked to stop.
    StopRequested,
    /// Both streams were stopped and dropped: no callback runs any more.
    StreamsStopped,
}

/// Why a session ended before it ran.
#[derive(Clone, Copy, Debug, PartialEq, Eq, Structural)]
pub enum SessionError {
    Config(ConfigError),
    SinkCreate,
}

/// What the controller asks the outside world to do next.
#[derive(Clone, Copy, Debug, PartialEq, Eq, Structural)]
pub enum Action {
    /// Create the WAV file with this header.
    CreateSink(WavSpec),
    /// Build and start the capture stream, whose samples have this format.
    StartCapture(NativeFormat),
    /// Build and start the playback stream, whose slots have this format.
    StartPlayback(NativeFormat),
    /// Both streams run: wait for the signal to stop.
    AwaitStop,
    /// Stop and drop both streams.
    StopStreams,
    /// Finalize the WAV file.
    FinalizeSink,
    /// Give up: nothing was started, and no file is left open.
    Abort(SessionError),
    /// Nothing to do for this event.
    Nothing,
}

/// The controller's state as plain values.
pub struct SessionView {
    pub capture: StreamConfig,
    pub playback: StreamConfig,
    pub phase: Phase,
    pub sink: SinkPhase,
    pub capture_running: bool,
    pub playback_running: bool,
    /// The native formats of the capture and the playback stream, once
    /// they were checked.
    pub formats: Option<(NativeFormat, NativeFormat)>,
    /// Whether a stream failed after the file was created.
    pub stream_failed: bool,
}

/// The controller's next state and action for an event. An event that does
/// not fit the current phase changes nothing.
pub open spec fn next(s: SessionView, ev: Event) -> (SessionView, Action) {
    if s.phase == Phase::Idle && ev == Event::Begin {
        match check_formats_spec(s.capture, s.playback) {
            Err(e) => (
                SessionView { phase: Phase::Stopped, ..s },
                Action::Abort(SessionError::Config(e)),
            ),
            Ok(f) => (
                SessionView { phase: Phase::Configuring, formats: Some(f), ..s },
                Action::CreateSink(wav_spec_of(s.capture)),
            ),
        }
    } else if s.phase == Phase::Configuring && ev == Event::SinkCreated && s.sink
        == SinkPhase::Absent {
        (
            SessionView { sink: SinkPhase::Open, ..s },
            match s.formats {
                Some(f) => Action::StartCapture(f.0),
                None => Action::Nothing,
            },
        )
    } else if s.phase == Phase::Configuring && ev == Event::SinkFailed && s.sink
        == SinkPhase::Absent {
        (SessionView { phase: Phase::Stopped, ..s }, Action::Abort(SessionError::SinkCreate))
    } else if s.phase == Phase::Configuring && ev == Event::CaptureStarted && s.sink
        == SinkPhase::Open && !s.capture_running {
        (
            SessionView { capture_running: true, ..s },
            match s.formats {
                Some(f) => Action::StartPlayback(f.1),
                None => Action::Nothing,
            },
        )
    } else if s.phase == Phase::Configuring && ev == Event::PlaybackStarted && s.capture_running
        && !s.playback_running {
        (SessionView { playback_running: true, phase: Phase::Running, ..s }, Action::AwaitStop)
    } else if ev == Event::StreamFailed && (s.phase == Phase::Running || (s.phase
        == Phase::Configuring && s.sink == SinkPhase::Open)) {
        (
            SessionView { phase: Phase::ShuttingDown, stream_failed: true, ..s },
            Action::StopStreams,
        )
    } else if s.phase == Phase::Running && ev == Event::StopRequested {
        (SessionView { phase: Phase::ShuttingDown, ..s }, Action::StopStreams)
    } else if s.phase == Phase::ShuttingDown && ev == Event::StreamsStopped && s.sink
        == SinkPhase::Open {
        (
            SessionView {
                phase: Phase::Stopped,
                sink: SinkPhase::Finalized,
                capture_running: false,
                playback_running: false,
                ..s
            },
            Action::FinalizeSink,
        )
    } else {
        (s, Action::Nothing)
    }
}

/// The states that the controller can reach from a new session.
pub open spec fn valid(s: SessionView) -> bool {
    match s.phase {
        Phase::Idle => s.sink == SinkPhase::Absent && !s.capture_running && !s.playback_running
            && s.formats is None,
        Phase::Configuring => {
            &&& s.formats is Some
            &&& s.sink != SinkPhase::Finalized
            &&& s.capture_running ==> s.sink == SinkPhase::Open
            &&& !s.playback_running
        },
        Phase::Running => s.sink == SinkPhase::Open && s.capture_running && s.playback_running,
        Phase::ShuttingDown => s.sink == SinkPhase::Open,
        Phase::Stopped => s.sink != SinkPhase::Open && !s.capture_running && !s.playback_running,
    }
}

/// The states and actions of a run of events, one after the other.
pub open spec fn run(s: SessionView, evs: Seq<Event>) -> (SessionView, Seq<Action>)
    decreases evs.len(),
{
    if evs.len() == 0 {
        (s, Seq::empty())
    } else {
        let (t, a) = next(s, evs[0]);
        let (u, rest) = run(t, evs.drop_first());
        (u, seq![a] + rest)
    }
}

/// How many of the actions ask to finalize the WAV file.
pub open spec fn finalize_count(acts: Seq<Action>) -> nat
    decreases acts.len(),
{
    if acts.len() == 0 {
        0
    } else {
        (if acts[0] == Action::FinalizeSink {
            1nat
        } else {
            0nat
        }) + finalize_count(acts.drop_first())
    }
}

/// The session controller: it orders startup (file, then capture, then
/// playback) and shutdown (both streams stopped, then the file finalized).
pub struct Session {
    capture: StreamConfig,
    playback: StreamConfig,
    phase: Phase,
    sink: SinkPhase,
    capture_running: bool,
    playback_running: bool,
    formats: Option<(NativeFormat, NativeFormat)>,
    stream_failed: bool,
}

impl View for Session {
    type V = SessionView;

    closed spec fn view(&self) -> SessionView {
        SessionView {
            capture: self.capture,
            playback: self.playback,
            phase: self.phase,
            sink: self.sink,
            capture_running: self.capture_running,
            playback_running: self.playback_running,
            formats: self.formats,
            stream_failed: self.stream_failed,
        }
    }
}

impl Session {
    /// An idle session for the given capture and playback configurations.
    pub fn new(capture: StreamConfig, playback: StreamConfig) -> (r: Session)
        ensures
            valid(r@),
            r@ == (SessionView {
                capture,
                playback,
                phase: Phase::Idle,
                sink: SinkPhase::Absent,
                capture_running: false,
                playback_running: false,
                formats: None,
                stream_failed: false,
            }),
    {
        Session {
            capture,
            playback,
            phase: Phase::Idle,
            sink: SinkPhase::Absent,
            capture_running: false,
            playback_running: false,
            formats: None,
            stream_failed: false,
        }
    }

    pub fn phase(&self) -> (r: Phase)
        ensures
            r == self@.phase,
    {
        self.phase
    }

    pub fn sink_phase(&self) -> (r: SinkPhase)
        ensures
            r == self@.sink,
    {
        self.sink
    }

    pub fn stream_failed(&self) -> (r: bool)
        ensures
            r == self@.stream_failed,
    {
        self.stream_failed
    }

    /// Takes one event and says what to do next.
    pub fn step(&mut self, ev: Event) -> (r: Action)
        ensures
            (final(self)@, r) == next(old(self)@, ev),
    {
        let capture = self.capture;
        let playback = self.playback;
        if self.phase == Phase::Idle && ev == Event::Begin {
            match check_formats(&capture, &playback) {
                Err(e) => {
                    self.phase = Phase::Stopped;
                    Action::Abort(SessionError::Config(e))
                },
                Ok(f) => {
                    self.phase = Phase::Configuring;
                    self.formats = Some(f);
                    Action::CreateSink(wav_spec_from_config(&capture))
                },
            }
        } else if self.phase == Phase::Configuring && ev == Event::SinkCreated && self.sink
            == SinkPhase::Absent {
            self.sink = SinkPhase::Open;
            match self.formats {
                Some(f) => Action::StartCapture(f.0),
                None => Action::Nothing,
            }
        } else if self.phase == Phase::Configuring && ev == Event::SinkFailed && self.sink
            == SinkPhase::Absent {
            self.phase = Phase::Stopped;
            Action::Abort(SessionError::SinkCreate)
        } else if self.phase == Phase::Configuring && ev == Event::CaptureStarted && self.sink
            == SinkPhase::Open && !self.capture_running {
            self.capture_running = true;
            match self.formats {
                Some(f) => Action::StartPlayback(f.1),
                None => Action::Nothing,
            }
        } else if self.phase == Phase::Configuring && ev == Event::PlaybackStarted
            && self.capture_running && !self.playback_running {
            self.playback_running = true;
            self.phase = Phase::Running;
            Action::AwaitStop
        } else if ev == Event::StreamFailed && (self.phase == Phase::Running || (self.phase
            == Phase::Configuring && self.sink == SinkPhase::Open)) {
            self.phase = Phase::ShuttingDown;
            self.stream_failed = true;
            Action::StopStreams
        } else if self.phase == Phase::Running && ev == Event::StopRequested {
            self.phase = Phase::ShuttingDown;
            Action::StopStreams
        } else if self.phase == Phase::ShuttingDown && ev == Event::StreamsStopped && self.sink
            == SinkPhase::Open {
            self.phase = Phase::Stopped;
            self.sink = SinkPhase::Finalized;
            self.capture_running = false;
            self.playback_running = false;
            Action::FinalizeSink
        } else {
            Action::Nothing
        }
    }
}

/// The file is finalized only on the report that both streams stopped,
/// from an open file, and the streams are then marked stopped: no callback
/// can write to the file while or after it is finalized.
pub proof fn lemma_finalize_after_streams_stopped(s: SessionView, ev: Event)
    ensures
        next(s, ev).1 == Action::FinalizeSink ==> {
            &&& ev == Event::StreamsStopped
            &&& s.phase == Phase::ShuttingDown
            &&& s.sink == SinkPhase::Open
            &&& next(s, ev).0.sink == SinkPhase::Finalized
            &&& !next(s, ev).0.capture_running
            &&& !next(s, ev).0.playback_running
        },
{
}

/// Every step keeps the controller among its reachable states.
pub proof fn lemma_valid_preserved(s: SessionView, ev: Event)
    requires
        valid(s),
    ensures
        valid(next(s, ev).0),
{
}

/// Startup order: the file is open before capture starts, and capture runs
/// before playback starts; a session that gives up leaves no file open and
/// no stream running.
pub proof fn lemma_startup_order(s: SessionView, ev: Event)
    requires
        valid(s),
    ensures
        next(s, ev).1 is StartCapture ==> s.sink == SinkPhase::Absent && next(s, ev).0.sink
            == SinkPhase::Open,
        next(s, ev).1 is StartPlayback ==> s.sink == SinkPhase::Open
            && next(s, ev).0.capture_running,
        next(s, ev).1 is Abort ==> {
            &&& next(s, ev).0.sink == SinkPhase::Absent
            &&& next(s, ev).0.phase == Phase::Stopped
            &&& !next(s, ev).0.capture_running
            &&& !next(s, ev).0.playback_running
        },
{
}

/// A finalized file stays finalized, whatever comes next.
pub proof fn lemma_finalized_stays(s: SessionView, ev: Event)
    ensures
        s.sink == SinkPhase::Finalized ==> next(s, ev).0.sink == SinkPhase::Finalized
            && next(s, ev).1 != Action::FinalizeSink,
{
}

/// No double finalize: along any run of events the controller asks at most
/// once to finalize the file, and never once it was finalized.
pub proof fn lemma_finalize_at_most_once(s: SessionView, evs: Seq<Event>)
    ensures
        finalize_count(run(s, evs).1) <= (if s.sink == SinkPhase::Finalized {
            0nat
        } else {
            1nat
        }),
    decreases evs.len(),
{
    if evs.len() > 0 {
        let (t, a) = next(s, evs[0]);
        lemma_finalize_at_most_once(t, evs.drop_first());
        lemma_finalized_stays(s, evs[0]);
        let acts = run(s, evs).1;
        assert(acts[0] == a);
        assert(acts.drop_first() =~= run(t, evs.drop_first()).1);
    }
}

} // verus!
