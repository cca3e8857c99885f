use crate::config::Config;
use crate::engine::{accepts_all, request_for, Engine, EngineState, FrameHandler, SessionRequest};
use crate::error::CaptureError;
use crate::format::Format;
use crate::frame::{converted, Frame, FrameView};
use crate::resize::resize_pixels;
use vstd::prelude::*;

verus! {

/// What the caller of `Controller::start` does next.
pub enum Launch<W> {
    /// A session was active and has been asked to stop. Wait for this worker
    /// to finish, then ask to start again.
    Join(W),
    /// The engine is claimed for a new session. Run the session that is asked
    /// for on a new worker, and attach the worker to the controller.
    Spawn(SessionRequest),
}

/// The state of a controller as contracts see it.
pub struct ControllerState<H, W> {
    pub engine: EngineState<H>,
    /// The worker that drives, or last drove, the engine.
    pub worker: Option<W>,
}

/// Runs an engine on a worker of its own, so that the caller deals with
/// neither the session nor the worker. `W` is the handle by which the caller's
/// runtime waits for a worker to finish.
pub struct Controller<H: FrameHandler, W> {
    engine: Engine<H>,
    handle: Option<W>,
}

impl<H: FrameHandler, W> View for Controller<H, W> {
    type V = ControllerState<H, W>;

    closed spec fn view(&self) -> ControllerState<H, W> {
        ControllerState { engine: self.engine@, worker: self.handle }
    }
}

/// Whether the buffer of `shot` holds every pixel of the size it claims.
pub open spec fn holds_all_pixels(shot: FrameView) -> bool {
    shot.width * shot.height * 4 <= shot.buffer.len()
}

/// The bytes of a buffer that may be missing.
pub open spec fn bytes_of(buffer: Option<Vec<u8>>) -> Option<Seq<u8>> {
    match buffer {
        Some(pixels) => Some(pixels@),
        None => None,
    }
}

/// What a still image laid out as `format` becomes once the resizer has
/// answered with `resized` for a target of `width` by `height`: a frame of
/// that size in the layout of `config`, or a backend error if the resizer
/// gave nothing.
pub open spec fn scaled_still(
    config: Config,
    format: Format,
    width: u32,
    height: u32,
    resized: Option<Seq<u8>>,
) -> Result<FrameView, CaptureError> {
    match resized {
        Some(pixels) => Ok(
            FrameView {
                width,
                height,
                buffer: converted(pixels, format, config.format),
                format: config.format,
            },
        ),
        None => Err(CaptureError::BackendError),
    }
}

/// What is known of the resizer's answer when `shot` is scaled down by
/// `scale`: if it gives pixels, there are four bytes for each pixel of the
/// smaller size, and for a scale of one they are the pixels of `shot`.
pub open spec fn resizer_may_answer(shot: FrameView, scale: u32, resized: Option<Seq<u8>>) -> bool {
    resized matches Some(pixels) ==> {
        &&& pixels.len() == (shot.width / scale) * (shot.height / scale) * 4
        &&& scale == 1 ==> pixels == shot.buffer.take(shot.width * shot.height * 4)
    }
}

/// `result` is the frame or the error that `expected` describes.
pub open spec fn matches_still(
    result: Result<Frame, CaptureError>,
    expected: Result<FrameView, CaptureError>,
) -> bool {
    match result {
        Ok(frame) => expected == Ok::<FrameView, CaptureError>(frame@),
        Err(error) => expected == Err::<FrameView, CaptureError>(error),
    }
}

impl<H: FrameHandler, W> Controller<H, W> {
    /// The engine's handler can be called with whatever frame arrives.
    pub open spec fn wf(&self) -> bool {
        accepts_all(self@.engine.handler)
    }

    /// A controller of an idle engine, without a worker.
    pub fn new(config: Config, on_frame_arrived: H) -> (controller: Controller<H, W>)
        requires
            accepts_all(on_frame_arrived),
        ensures
            controller.wf(),
            controller@ == (ControllerState::<H, W> {
                engine: EngineState::idle(config, on_frame_arrived),
                worker: None,
            }),
    {
        Controller { engine: Engine::new(config, on_frame_arrived), handle: None }
    }

    /// Decides how a session is started.
    ///
    /// If a session is active it is asked to stop, and if a worker is attached
    /// the caller gets it to wait for, and asks again afterwards. In every
    /// other case the engine is claimed for a new session, which the caller
    /// runs on a new worker.
    pub fn start(&mut self) -> (launch: Launch<W>)
        requires
            old(self).wf(),
        ensures
            final(self).wf(),
            old(self)@.engine.running && old(self)@.worker is Some ==> launch == Launch::Join(
                old(self)@.worker->0,
            ) && final(self)@ == (ControllerState::<H, W> {
                engine: old(self)@.engine.stopped(),
                worker: None,
            }),
            !(old(self)@.engine.running && old(self)@.worker is Some) ==> launch
                == Launch::<W>::Spawn(request_for(old(self)@.engine.config)) && final(self)@ == (
            ControllerState::<H, W> {
                engine: old(self)@.engine.started(),
                worker: old(self)@.worker,
            }),
    {
        if self.engine.is_running() {
            self.engine.stop();
            match self.handle.take() {
                Some(worker) => {
                    return Launch::Join(worker);
                },
                None => {},
            }
        }
        Launch::Spawn(self.engine.claim())
    }

    /// Records the worker that runs the session, and hands back the worker
    /// that was recorded before, if any.
    pub fn attach(&mut self, worker: W) -> (previous: Option<W>)
        requires
            old(self).wf(),
        ensures
            final(self).wf(),
            final(self)@ == (ControllerState::<H, W> {
                engine: old(self)@.engine,
                worker: Some(worker),
            }),
            previous == old(self)@.worker,
    {
        let previous = self.handle.take();
        self.handle = Some(worker);
        previous
    }

    /// Asks the session to end and hands the worker over, if there is one: the
    /// caller waits for it to finish before it goes on. Without a session and
    /// without a worker this changes nothing.
    pub fn stop(&mut self) -> (worker: Option<W>)
        requires
            old(self).wf(),
        ensures
            final(self).wf(),
            final(self)@ == (ControllerState::<H, W> {
                engine: old(self)@.engine.stopped(),
                worker: None,
            }),
            worker == old(self)@.worker,
    {
        self.engine.stop();
        self.handle.take()
    }

    /// The engine, for the worker that feeds it the frames of the session.
    pub fn engine(&mut self) -> (engine: &mut Engine<H>)
        ensures
            engine@ == old(self)@.engine,
            final(self)@ == (ControllerState::<H, W> {
                engine: final(engine)@,
                worker: old(self)@.worker,
            }),
    {
        &mut self.engine
    }

    /// Whether the engine's session is active.
    pub fn is_running(&self) -> (running: bool)
        ensures
            running == self@.engine.running,
    {
        self.engine.is_running()
    }

    /// Makes the frame of a one-shot capture from the still image `shot` that
    /// the backend took of the primary display.
    ///
    /// Without a scale factor the frame is the still image in the layout of
    /// `config`. With a scale factor the image is first brought down from
    /// physical to logical pixels: each side is divided by the factor, and the
    /// resizer fills the smaller image. A factor of zero, a buffer that does
    /// not hold every pixel it claims, and a resizer that gives nothing are
    /// backend errors.
    pub fn grab(config: Config, shot: Frame, scale_factor: Option<u32>) -> (result: Result<
        Frame,
        CaptureError,
    >)
        ensures
            scale_factor is Some && result is Ok ==> result->Ok_0.well_formed(),
            match scale_factor {
                None => result is Ok && result->Ok_0@ == shot@.in_format(config.format),
                Some(scale) => if scale == 0 || !holds_all_pixels(shot@) {
                    result == Err::<Frame, CaptureError>(CaptureError::BackendError)
                } else {
                    exists|resized: Option<Seq<u8>>|
                        resizer_may_answer(shot@, scale, resized) && matches_still(
                            result,
                            scaled_still(
                                config,
                                shot.format,
                                shot.width / scale,
                                shot.height / scale,
                                resized,
                            ),
                        )
                },
            },
    {
        let scale = match scale_factor {
            Some(scale) => scale,
            None => {
                return Ok(shot.into_format(config.format));
            },
        };
        if scale == 0 {
            return Err(CaptureError::BackendError);
        }
        assert(shot.width * shot.height <= u64::MAX) by (nonlinear_arith)
            requires
                0 <= shot.width <= u32::MAX,
                0 <= shot.height <= u32::MAX,
        ;
        let pixels = shot.width as u64 * shot.height as u64;
        if pixels > shot.buffer.len() as u64 / 4 {
            return Err(CaptureError::BackendError);
        }
        let width = shot.width / scale;
        let height = shot.height / scale;
        assert(width * height * 4 <= shot.width * shot.height * 4) by (nonlinear_arith)
            requires
                0 <= width <= shot.width,
                0 <= height <= shot.height,
        ;
        let ghost still = shot@;
        let format = shot.format;
        let resized = resize_pixels(shot.width, shot.height, shot.buffer, width, height);
        let ghost answer = bytes_of(resized);
        let result = Self::scaled(config, format, width, height, resized);
        assert(resizer_may_answer(still, scale, answer) && matches_still(
            result,
            scaled_still(config, format, width, height, answer),
        ));
        result
    }

    /// Makes the frame of a still image that was laid out as `format`, once
    /// the resizer has answered with `resized` for a target of `width` by
    /// `height`.
    pub fn scaled(
        config: Config,
        format: Format,
        width: u32,
        height: u32,
        resized: Option<Vec<u8>>,
    ) -> (result: Result<Frame, CaptureError>)
        ensures
            matches_still(
                result,
                scaled_still(config, format, width, height, bytes_of(resized)),
            ),
    {
        match resized {
            Some(pixels) => Ok(Frame::new(width, height, pixels, format).into_format(config.format)),
            None => Err(CaptureError::BackendError),
        }
    }
}

} // verus!
