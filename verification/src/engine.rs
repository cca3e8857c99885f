use crate::config::Config;
use crate::error::CaptureError;
use crate::format::Format;
use crate::frame::Frame;
use vstd::prelude::*;

verus! {

/// A function that receives each delivered frame together with the current
/// frame rate.
pub trait FrameHandler: Fn(Frame, u32) + Send + Sync + 'static {}

impl<T> FrameHandler for T where T: Fn(Frame, u32) + Send + Sync + 'static {}

/// `handler` accepts every frame and every rate.
pub open spec fn accepts_all<H: FrameHandler>(handler: H) -> bool {
    forall|frame: Frame, fps: u32| call_requires(handler, (frame, fps))
}

/// What the driver asks of the capture backend when a session begins.
#[derive(Clone, Copy, Debug, PartialEq, Eq, Structural)]
pub struct SessionRequest {
    /// The layout in which the engine will hand frames on. A backend that
    /// cannot capture in it says so by the layout of the frames it hands over.
    pub format: Format,
    /// Whether the mouse cursor is drawn into the frames.
    pub show_cursor: bool,
    /// Whether sound is captured along with the screen.
    pub capture_audio: bool,
}

/// The session that an engine with `config` asks for: the primary display in
/// the configured layout, without cursor and without sound.
pub open spec fn request_for(config: Config) -> SessionRequest {
    SessionRequest { format: config.format, show_cursor: false, capture_audio: false }
}

/// How the wait for the one frame of a grab ended.
pub enum GrabOutcome {
    /// The frame that the interceptor caught.
    Arrived(Frame),
    /// The deadline passed first.
    TimedOut,
    /// The interceptor was gone before it caught a frame.
    Disconnected,
}

/// What a grab answers for each end of its wait.
pub open spec fn grab_result(outcome: GrabOutcome) -> Result<Frame, CaptureError> {
    match outcome {
        GrabOutcome::Arrived(frame) => Ok(frame),
        GrabOutcome::TimedOut => Err(CaptureError::Timeout),
        GrabOutcome::Disconnected => Err(CaptureError::BackendError),
    }
}

/// Something that happens to an engine.
pub enum Event<H> {
    /// A start is asked for: it claims an idle engine and is refused by a
    /// running one.
    Start,
    /// A stop is asked for.
    Stop,
    /// The backend fails the session.
    Fail(CaptureError),
    /// A frame arrives that makes this rate known, if any.
    Frame(Option<u32>),
    /// Another handler is installed.
    Swap(H),
}

impl<H> Event<H> {
    /// The event ends a session, if one is active.
    pub open spec fn ends_session(self) -> bool {
        self is Stop || self is Fail
    }
}

/// The state of an engine as contracts see it.
pub struct EngineState<H> {
    pub config: Config,
    /// The handler that the next delivered frame goes to.
    pub handler: H,
    /// The frame count of the last second that was published.
    pub fps: u32,
    /// Whether a capture session is active.
    pub running: bool,
    /// Why the last session ended, if the backend failed it and no session
    /// has begun since.
    pub last_error: Option<CaptureError>,
}

impl<H> EngineState<H> {
    /// The state of an engine that has just been made.
    pub open spec fn idle(config: Config, handler: H) -> EngineState<H> {
        EngineState { config, handler, fps: 0, running: false, last_error: None }
    }

    /// The state once the engine is claimed for a session.
    pub open spec fn started(self) -> EngineState<H> {
        EngineState { running: true, last_error: None, ..self }
    }

    /// The state once the backend has failed the session with `error`.
    pub open spec fn failed(self, error: CaptureError) -> EngineState<H> {
        EngineState { running: false, last_error: Some(error), ..self }
    }

    /// The state once the session is asked to end, or has ended.
    pub open spec fn stopped(self) -> EngineState<H> {
        EngineState { running: false, ..self }
    }

    /// The state with `handler` installed.
    pub open spec fn with_handler(self, handler: H) -> EngineState<H> {
        EngineState { handler, ..self }
    }

    /// The state after a frame that made `rate` known, if any, was delivered.
    pub open spec fn published(self, rate: Option<u32>) -> EngineState<H> {
        match rate {
            Some(fps) => EngineState { fps, ..self },
            None => self,
        }
    }

    /// The state in which a grab puts an idle engine when it begins: running,
    /// with `interceptor` installed.
    pub open spec fn grab_begun(self, interceptor: H) -> EngineState<H> {
        self.with_handler(interceptor).started()
    }

    /// The state in which a grab leaves the engine when it ends: idle, with
    /// `original` installed again.
    pub open spec fn grab_finished(self, original: H) -> EngineState<H> {
        self.stopped().with_handler(original)
    }

    /// What a start answers in this state: the session to begin, or the
    /// refusal of an engine that is running already.
    pub open spec fn start_answer(self) -> Result<SessionRequest, CaptureError> {
        if self.running {
            Err(CaptureError::AlreadyRunning)
        } else {
            Ok(request_for(self.config))
        }
    }

    /// The state after one event. A frame that arrives while no session is
    /// active is dropped and changes nothing.
    pub open spec fn after(self, event: Event<H>) -> EngineState<H> {
        match event {
            Event::Start => if self.running {
                self
            } else {
                self.started()
            },
            Event::Stop => self.stopped(),
            Event::Fail(error) => self.failed(error),
            Event::Frame(rate) => if self.running {
                self.published(rate)
            } else {
                self
            },
            Event::Swap(handler) => self.with_handler(handler),
        }
    }

    /// The state after a run of events, in turn.
    pub open spec fn after_all(self, events: Seq<Event<H>>) -> EngineState<H>
        decreases events.len(),
    {
        if events.len() == 0 {
            self
        } else {
            self.after_all(events.drop_last()).after(events.last())
        }
    }
}

/// The lifecycle of one capture engine: whether a session is active, which
/// handler receives the frames, and the frame rate last published.
///
/// The engine decides; a driver performs. The driver begins the backend
/// session that `start` asks for, feeds the frames to the engine, and ends the
/// session when the engine is no longer running.
pub struct Engine<H: FrameHandler> {
    config: Config,
    on_frame_arrived: H,
    fps: u32,
    is_running: bool,
    last_error: Option<CaptureError>,
}

impl<H: FrameHandler> View for Engine<H> {
    type V = EngineState<H>;

    closed spec fn view(&self) -> EngineState<H> {
        EngineState {
            config: self.config,
            handler: self.on_frame_arrived,
            fps: self.fps,
            running: self.is_running,
            last_error: self.last_error,
        }
    }
}

/// The handler to put back when a grab ends, whichever way it ends.
pub struct RestoreHandler<H> {
    original: H,
}

impl<H> RestoreHandler<H> {
    /// The handler that was installed when the grab began.
    pub closed spec fn original(&self) -> H {
        self.original
    }
}

impl<H: FrameHandler> RestoreHandler<H> {
    /// The handler to put back can be called with whatever frame arrives.
    pub open spec fn wf(&self) -> bool {
        accepts_all(self.original())
    }
}

impl<H: FrameHandler> Engine<H> {
    /// The installed handler can be called with whatever frame arrives.
    pub open spec fn wf(&self) -> bool {
        accepts_all(self@.handler)
    }

    /// An idle engine that will hand its frames to `on_frame_arrived`.
    pub fn new(config: Config, on_frame_arrived: H) -> (engine: Engine<H>)
        requires
            accepts_all(on_frame_arrived),
        ensures
            engine.wf(),
            engine@ == EngineState::idle(config, on_frame_arrived),
    {
        Engine { config, on_frame_arrived, fps: 0, is_running: false, last_error: None }
    }

    /// Claims the engine for a session. On success the engine is running, and
    /// the driver is to begin the session that is returned.
    pub fn start(&mut self) -> (request: Result<SessionRequest, CaptureError>)
        requires
            old(self).wf(),
        ensures
            final(self).wf(),
            request == old(self)@.start_answer(),
            final(self)@ == old(self)@.after(Event::Start),
    {
        if self.is_running {
            return Err(CaptureError::AlreadyRunning);
        }
        Ok(self.claim())
    }

    /// Marks an idle engine as running and says which session to begin.
    pub(crate) fn claim(&mut self) -> (request: SessionRequest)
        requires
            old(self).wf(),
            !old(self)@.running,
        ensures
            final(self).wf(),
            final(self)@ == old(self)@.started(),
            request == request_for(old(self)@.config),
    {
        self.is_running = true;
        self.last_error = None;
        SessionRequest { format: self.config.format, show_cursor: false, capture_audio: false }
    }

    /// Asks the session to end. Stopping an engine that is not running changes
    /// nothing.
    pub fn stop(&mut self)
        requires
            old(self).wf(),
        ensures
            final(self).wf(),
            final(self)@ == old(self)@.after(Event::Stop),
    {
        self.is_running = false;
    }

    /// Records that the backend could not begin the session, or failed it
    /// later: the engine is idle again and keeps the error for whoever asks.
    pub fn fail(&mut self, error: CaptureError)
        requires
            old(self).wf(),
        ensures
            final(self).wf(),
            final(self)@ == old(self)@.after(Event::Fail(error)),
    {
        self.is_running = false;
        self.last_error = Some(error);
    }

    /// Why the last session ended, if the backend failed it and no session
    /// has begun since.
    pub fn last_error(&self) -> (error: Option<CaptureError>)
        ensures
            error == self@.last_error,
    {
        self.last_error
    }

    /// Whether a capture session is active.
    pub fn is_running(&self) -> (running: bool)
        ensures
            running == self@.running,
    {
        self.is_running
    }

    /// The frame count of the last second that was published.
    pub fn fps(&self) -> (fps: u32)
        ensures
            fps == self@.fps,
    {
        self.fps
    }

    /// What the engine was configured with.
    pub fn config(&self) -> (config: Config)
        ensures
            config == self@.config,
    {
        self.config
    }

    /// Installs `handler` in one step and hands back the one it replaces.
    /// Every frame delivered from now on goes to `handler`.
    pub fn swap_handler(&mut self, handler: H) -> (previous: H)
        requires
            old(self).wf(),
            accepts_all(handler),
        ensures
            final(self).wf(),
            final(self)@ == old(self)@.after(Event::Swap(handler)),
            previous == old(self)@.handler,
    {
        let mut incoming = handler;
        std::mem::swap(&mut self.on_frame_arrived, &mut incoming);
        incoming
    }

    /// Publishes `rate`, if there is one, and then hands `frame` to the
    /// installed handler together with the published rate.
    pub fn deliver(&mut self, frame: Frame, rate: Option<u32>)
        requires
            old(self).wf(),
        ensures
            final(self).wf(),
            final(self)@ == old(self)@.published(rate),
            call_ensures(old(self)@.handler, (frame, final(self)@.fps), ()),
    {
        match rate {
            Some(fps) => {
                self.fps = fps;
            },
            None => {},
        }
        let handler = &self.on_frame_arrived;
        handler(frame, self.fps);
    }

    /// Begins a grab: installs `interceptor` in place of the handler and
    /// claims the engine for a session. The driver begins the session, waits
    /// for the interceptor to catch a frame, and hands the guard back to
    /// `finish_grab` however the wait ends.
    pub fn grab(&mut self, interceptor: H) -> (begun: Result<
        (RestoreHandler<H>, SessionRequest),
        CaptureError,
    >)
        requires
            old(self).wf(),
            accepts_all(interceptor),
        ensures
            final(self).wf(),
            old(self)@.running ==> begun is Err && begun->Err_0 == CaptureError::AlreadyRunning
                && final(self)@ == old(self)@,
            !old(self)@.running ==> begun is Ok && begun->Ok_0.0.wf()
                && begun->Ok_0.0.original() == old(self)@.handler
                && begun->Ok_0.1 == request_for(old(self)@.config)
                && final(self)@ == old(self)@.grab_begun(interceptor),
    {
        if self.is_running {
            return Err(CaptureError::AlreadyRunning);
        }
        let original = self.swap_handler(interceptor);
        let request = self.claim();
        Ok((RestoreHandler { original }, request))
    }

    /// Ends a grab: puts the handler back that the guard holds and stops the
    /// session, whatever `outcome` is, and answers with the frame or with the
    /// reason why there is none.
    pub fn finish_grab(&mut self, guard: RestoreHandler<H>, outcome: GrabOutcome) -> (result:
        Result<Frame, CaptureError>)
        requires
            old(self).wf(),
            guard.wf(),
        ensures
            final(self).wf(),
            final(self)@ == old(self)@.grab_finished(guard.original()),
            result == grab_result(outcome),
    {
        let _ = self.swap_handler(guard.original);
        self.stop();
        match outcome {
            GrabOutcome::Arrived(frame) => Ok(frame),
            GrabOutcome::TimedOut => Err(CaptureError::Timeout),
            GrabOutcome::Disconnected => Err(CaptureError::BackendError),
        }
    }
}

/// Some start in `events` has no stop and no failure after it.
pub open spec fn started_and_not_ended<H>(events: Seq<Event<H>>) -> bool {
    exists|i: int|
        0 <= i < events.len() && events[i] is Start && forall|j: int|
            i < j < events.len() ==> !events[j].ends_session()
}

/// An engine that was idle runs exactly between a start and the next stop or
/// failure.
///
/// Whatever happens to an idle engine, in whatever order, afterwards it is
/// running if and only if a start was asked for and neither a stop nor a
/// failure came after that start. A new engine is idle, so this holds of every
/// engine from the moment it is made.
pub proof fn lemma_running_between_start_and_stop<H>(state: EngineState<H>, events: Seq<Event<H>>)
    requires
        !state.running,
    ensures
        state.after_all(events).running <==> started_and_not_ended(events),
    decreases events.len(),
{
    if events.len() > 0 {
        let earlier = events.drop_last();
        let last = events.last();
        lemma_running_between_start_and_stop(state, earlier);
        if !last.ends_session() && !(last is Start) {
            // The last event leaves the engine running or idle as it was, and
            // a start that is not ended in one run of events is not ended in
            // the other.
            if started_and_not_ended(earlier) {
                let i = choose|i: int|
                    0 <= i < earlier.len() && earlier[i] is Start && forall|j: int|
                        i < j < earlier.len() ==> !earlier[j].ends_session();
                assert forall|j: int| i < j < events.len() implies !events[j].ends_session() by {
                    if j < earlier.len() {
                        assert(events[j] == earlier[j]);
                    }
                }
            }
            if started_and_not_ended(events) {
                let i = choose|i: int|
                    0 <= i < events.len() && events[i] is Start && forall|j: int|
                        i < j < events.len() ==> !events[j].ends_session();
                assert(earlier[i] is Start);
                assert forall|j: int| i < j < earlier.len() implies !earlier[j].ends_session() by {
                    assert(events[j] == earlier[j]);
                }
            }
        }
    }
}

/// No event changes what an engine was configured with.
pub proof fn lemma_config_is_kept<H>(state: EngineState<H>, events: Seq<Event<H>>)
    ensures
        state.after_all(events).config == state.config,
    decreases events.len(),
{
    if events.len() > 0 {
        lemma_config_is_kept(state, events.drop_last());
    }
}

/// A grab leaves the engine idle, with the handler it found.
///
/// An idle engine begins a grab with `interceptor`. Then anything may happen:
/// frames arrive or none does, the session is stopped or fails, even another
/// handler is installed. When the grab is finished with the guard that it
/// began with, whether it caught a frame, ran out of time or lost its
/// interceptor, the engine is not running, the interceptor is gone, and the
/// handler installed before the grab is installed again. The configuration is
/// untouched.
pub proof fn lemma_grab_restores<H>(
    before: EngineState<H>,
    interceptor: H,
    events: Seq<Event<H>>,
)
    requires
        !before.running,
    ensures
        ({
            let begun = before.grab_begun(interceptor);
            let finished = begun.after_all(events).grab_finished(before.handler);
            &&& !finished.running
            &&& finished.handler == before.handler
            &&& finished.config == before.config
        }),
{
    lemma_config_is_kept(before.grab_begun(interceptor), events);
}

} // verus!
