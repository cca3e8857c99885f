//! Core of a screen-capture engine: frames and pixel layouts, the frame-rate
//! estimator, and the lifecycle state machine that a capture driver follows.
//!
//! The library decides and computes; it never touches a screen, a clock or a
//! thread. A driver owns those: it begins the backend session that the engine
//! asks for, hands every raw frame to [`Capture::on_frame_arrived`] together
//! with the seconds elapsed, and ends the session when it is told to.

pub mod capture;
pub mod config;
pub mod controller;
pub mod engine;
pub mod error;
pub mod format;
pub mod fps;
pub mod frame;
pub mod resize;
pub mod rgba_image;
pub mod utils;

pub use crate::capture::{Capture, Control};
pub use crate::config::Config;
pub use crate::controller::{Controller, Launch};
pub use crate::engine::{Engine, FrameHandler, GrabOutcome, RestoreHandler, SessionRequest};
pub use crate::error::CaptureError;
pub use crate::format::Format;
pub use crate::fps::FpsEstimator;
pub use crate::frame::Frame;
pub use crate::rgba_image::RgbaImage;
