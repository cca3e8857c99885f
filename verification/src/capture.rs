use crate::engine::{Engine, EngineState, Event, FrameHandler};
use crate::fps::{count_at, rate_of_previous, recorded, FpsEstimator, RETAINED_BUCKETS};
use crate::frame::{Frame, FrameView};
use vstd::prelude::*;

verus! {

/// What the driver does with the backend session after a frame.
#[derive(Clone, Copy, Debug, PartialEq, Eq, Structural)]
pub enum Control {
    /// Go on capturing.
    Continue,
    /// End the session: the engine is no longer running.
    Stop,
}

/// The delivery side of one capture session. It is made when the session
/// begins and counts the frames of that session only.
pub struct Capture {
    estimator: FpsEstimator,
}

impl View for Capture {
    type V = Map<u64, u32>;

    /// The frame counts by second that the session retains.
    closed spec fn view(&self) -> Map<u64, u32> {
        self.estimator@
    }
}

/// The frame that reaches the handler of an engine in `state` when the
/// backend hands over `raw`: the same image in the configured layout.
pub open spec fn delivered_frame<H>(state: EngineState<H>, raw: FrameView) -> FrameView {
    raw.in_format(state.config.format)
}

impl Capture {
    /// The session holds finitely many buckets, and no more than an estimator
    /// retains.
    pub open spec fn wf(&self) -> bool {
        &&& self@.dom().finite()
        &&& self@.len() <= RETAINED_BUCKETS
    }

    /// The delivery state of a session that has not seen a frame yet.
    pub fn new() -> (capture: Capture)
        ensures
            capture.wf(),
            capture@ == Map::<u64, u32>::empty(),
    {
        Capture { estimator: FpsEstimator::new() }
    }

    /// Whether one more frame can be counted in second `elapsed_secs`.
    pub open spec fn can_count(&self, elapsed_secs: u64) -> bool {
        count_at(self@, elapsed_secs) < u32::MAX
    }

    /// How many frames of second `elapsed_secs` the session has counted, as
    /// far as it still retains that second.
    pub fn frames_counted(&self, elapsed_secs: u64) -> (frames: u32)
        ensures
            frames == count_at(self@, elapsed_secs),
    {
        match self.estimator.count(elapsed_secs) {
            Some(frames) => frames,
            None => 0,
        }
    }

    /// Handles the frame `raw` that the backend produced `elapsed_secs` whole
    /// seconds after the session began.
    ///
    /// If the engine is no longer running the frame is dropped, nothing
    /// changes, and the driver is told to end the session. Otherwise the frame
    /// is counted, the rate that it makes known is published, and the handler
    /// installed at that moment receives the frame, in the configured layout,
    /// with the published rate.
    pub fn on_frame_arrived<H: FrameHandler>(
        &mut self,
        engine: &mut Engine<H>,
        raw: Frame,
        elapsed_secs: u64,
    ) -> (control: Control)
        requires
            old(self).wf(),
            old(engine).wf(),
            old(engine)@.running ==> old(self).can_count(elapsed_secs),
        ensures
            final(self).wf(),
            final(engine).wf(),
            final(engine)@ == old(engine)@.after(
                Event::Frame(rate_of_previous(old(self)@, elapsed_secs)),
            ),
            !old(engine)@.running ==> control == Control::Stop && final(self)@ == old(self)@,
            old(engine)@.running ==> control == Control::Continue && final(self)@ == recorded(
                old(self)@,
                elapsed_secs,
            ) && exists|frame: Frame|
                frame@ == delivered_frame(old(engine)@, raw@) && call_ensures(
                    old(engine)@.handler,
                    (frame, final(engine)@.fps),
                    (),
                ),
    {
        if !engine.is_running() {
            return Control::Stop;
        }
        let rate = self.estimator.record(elapsed_secs);
        let frame = raw.into_format(engine.config().format);
        let ghost sent = frame;
        engine.deliver(frame, rate);
        assert(sent@ == delivered_frame(old(engine)@, raw@) && call_ensures(
            old(engine)@.handler,
            (sent, engine@.fps),
            (),
        ));
        Control::Continue
    }
}

} // verus!
