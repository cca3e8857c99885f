use crate::error::CaptureError;
use crate::format::Format;
use crate::rgba_image::{
    image_bytes, image_dimensions, image_fits, image_from_vec, RgbaImage,
};
use crate::utils::{bgra_to_rgba, rgba_to_bgra, swapped_channels};
use vstd::prelude::*;

verus! {

/// A frame as contracts see it: its size, its layout and its bytes.
pub struct FrameView {
    pub width: u32,
    pub height: u32,
    pub buffer: Seq<u8>,
    pub format: Format,
}

/// One captured image: `width * height` pixels of four bytes each, row by row.
#[derive(Clone)]
pub struct Frame {
    pub width: u32,
    pub height: u32,
    pub buffer: Vec<u8>,
    pub format: Format,
}

impl View for Frame {
    type V = FrameView;

    open spec fn view(&self) -> FrameView {
        FrameView {
            width: self.width,
            height: self.height,
            buffer: self.buffer@,
            format: self.format,
        }
    }
}

/// The bytes of `buffer`, laid out as `from`, laid out as `to`.
pub open spec fn converted(buffer: Seq<u8>, from: Format, to: Format) -> Seq<u8> {
    if from == to {
        buffer
    } else {
        swapped_channels(buffer)
    }
}

impl FrameView {
    /// The buffer holds exactly four bytes for each pixel.
    pub open spec fn well_formed(self) -> bool {
        self.buffer.len() == self.width * self.height * 4
    }

    /// The same image with its pixels laid out as `format`.
    pub open spec fn in_format(self, format: Format) -> FrameView {
        FrameView {
            width: self.width,
            height: self.height,
            buffer: converted(self.buffer, self.format, format),
            format,
        }
    }
}

/// Laying the pixels out in another way keeps the frame well formed, and
/// going there and back gives the frame itself.
pub proof fn lemma_in_format_keeps_the_image(frame: FrameView, format: Format)
    ensures
        frame.in_format(format).well_formed() == frame.well_formed(),
        frame.in_format(format).in_format(frame.format) == frame,
{
    crate::utils::lemma_swapped_channels_involutive(frame.buffer);
}

impl Frame {
    /// The buffer holds exactly four bytes for each pixel.
    pub open spec fn well_formed(&self) -> bool {
        self@.well_formed()
    }

    /// A frame of the given size that owns `buffer`. The buffer is taken as
    /// it is: whether it fits the size is for `well_formed` to say.
    pub fn new(width: u32, height: u32, buffer: Vec<u8>, format: Format) -> (frame: Frame)
        ensures
            frame.width == width,
            frame.height == height,
            frame.buffer == buffer,
            frame.format == format,
    {
        Frame { width, height, buffer, format }
    }

    /// The image that the encoder takes: the pixels of this frame as RGBA.
    ///
    /// Fails with `EncodeError` exactly when the buffer is too short for the
    /// size that the frame claims.
    pub fn into_image(self) -> (image: Result<RgbaImage, CaptureError>)
        ensures
            image is Ok <==> image_fits(self.width, self.height, self.buffer@.len()),
            image matches Ok(made) ==> image_bytes(made) == self@.in_format(Format::RGBA).buffer
                && image_dimensions(made) == (self.width, self.height),
            image matches Err(error) ==> error == CaptureError::EncodeError,
    {
        let width = self.width;
        let height = self.height;
        let rgba = self.into_format(Format::RGBA);
        match image_from_vec(width, height, rgba.buffer) {
            Some(made) => Ok(made),
            None => Err(CaptureError::EncodeError),
        }
    }

    /// The same image with its pixels laid out as `format`.
    pub fn into_format(self, format: Format) -> (frame: Frame)
        ensures
            frame@ == self@.in_format(format),
    {
        let mut frame = self;
        match (frame.format, format) {
            (Format::RGBA, Format::BGRA) => {
                rgba_to_bgra(frame.buffer.as_mut_slice());
            },
            (Format::BGRA, Format::RGBA) => {
                bgra_to_rgba(frame.buffer.as_mut_slice());
            },
            _ => {},
        }
        frame.format = format;
        frame
    }
}

} // verus!
