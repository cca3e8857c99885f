use vstd::prelude::*;

verus! {

/// An image of the `image` crate with RGBA pixels of one byte per channel,
/// ready for its encoders. Proofs see nothing of its inside: what it holds is
/// known to them by `image_bytes` and `image_dimensions` alone.
#[verifier::external_body]
pub struct RgbaImage {
    pub image: image::ImageBuffer<image::Rgba<u8>, Vec<u8>>,
}

/// The bytes that an image holds, as `ImageBuffer::as_raw` shows them.
pub uninterp spec fn image_bytes(image: RgbaImage) -> Seq<u8>;

/// The width and the height of an image, as `ImageBuffer::dimensions` shows
/// them.
pub uninterp spec fn image_dimensions(image: RgbaImage) -> (u32, u32);

/// Whether a buffer of `len` bytes holds an RGBA image of the given size.
pub open spec fn image_fits(width: u32, height: u32, len: nat) -> bool {
    &&& 4 * width <= usize::MAX
    &&& 4 * width * height <= len
}

/// `image::ImageBuffer::from_vec` for RGBA pixels of one byte per channel.
///
/// The call multiplies four by the width and then by the height, in `usize`
/// and checked, and makes the image exactly when neither product overflows
/// and the buffer is at least that long. The image keeps the size it was
/// given and the whole buffer, unchanged.
#[verifier::external_body]
pub(crate) fn image_from_vec(width: u32, height: u32, buffer: Vec<u8>) -> (made: Option<RgbaImage>)
    ensures
        made is Some <==> image_fits(width, height, buffer@.len()),
        made matches Some(image) ==> image_bytes(image) == buffer@ && image_dimensions(image) == (
            width,
            height,
        ),
{
    match image::ImageBuffer::from_vec(width, height, buffer) {
        Some(image) => Some(RgbaImage { image }),
        None => None,
    }
}

} // verus!
