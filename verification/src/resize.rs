use fast_image_resize::images::Image;
use fast_image_resize::{PixelType, Resizer};
use vstd::prelude::*;

verus! {

/// `fast_image_resize::Resizer::resize` with its default options, from an
/// image of four-byte pixels to a new image of another size.
///
/// The body wraps the buffer in the crate's `Image`, makes the target `Image`
/// of the new size, resizes, and copies the target's buffer out. The `requires`
/// keeps the crate's size arithmetic within `usize` and the target within
/// what a buffer can hold.
///
/// The resized pixels come from filter weights computed in floating point, so
/// the contract says of them only what holds whatever they are: there are
/// four bytes for each pixel of the new size. The one exception is a target
/// of the size of the source, which the crate fills by copying the source's
/// rows. Nothing is promised about success.
#[verifier::external_body]
pub(crate) fn resize_pixels(
    width: u32,
    height: u32,
    buffer: Vec<u8>,
    new_width: u32,
    new_height: u32,
) -> (resized: Option<Vec<u8>>)
    requires
        width * height * 4 <= buffer@.len(),
        new_width * new_height * 4 <= buffer@.len(),
    ensures
        resized matches Some(pixels) ==> pixels@.len() == new_width * new_height * 4 && (new_width
            == width && new_height == height ==> pixels@ == buffer@.take(width * height * 4)),
{
    let source = Image::from_vec_u8(width, height, buffer, PixelType::U8x4).ok()?;
    let mut target = Image::new(new_width, new_height, PixelType::U8x4);
    match Resizer::new().resize(&source, &mut target, None) {
        Ok(()) => Some(target.buffer().to_vec()),
        Err(_) => None,
    }
}

} // verus!
