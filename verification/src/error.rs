use vstd::prelude::*;

verus! {

/// Why an operation of the capture engine did not succeed.
#[derive(Clone, Copy, Debug, PartialEq, Eq, Structural)]
pub enum CaptureError {
    /// A start or a grab was asked for while a session was active.
    AlreadyRunning,
    /// The capture backend could not find the display, begin the session or
    /// hand over a usable image.
    BackendError,
    /// No frame arrived before the deadline of a grab.
    Timeout,
    /// The frame could not be turned into an image for the encoder.
    EncodeError,
}

} // verus!
