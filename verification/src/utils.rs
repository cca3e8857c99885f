use vstd::prelude::*;

verus! {

/// The position whose byte ends up at position `i` when the red and blue
/// channels of a buffer of `len` bytes are exchanged.
///
/// Pixels start at every multiple of four. The byte at offset 0 of a pixel
/// trades places with the byte at offset 2, provided the buffer reaches that
/// far; every other byte stays where it is.
pub open spec fn channel_partner(i: int, len: int) -> int {
    if i % 4 == 0 && i + 2 < len {
        i + 2
    } else if i % 4 == 2 {
        i - 2
    } else {
        i
    }
}

/// `pixels` with byte offsets 0 and 2 of every pixel exchanged.
pub open spec fn swapped_channels(pixels: Seq<u8>) -> Seq<u8> {
    Seq::new(pixels.len(), |i: int| pixels[channel_partner(i, pixels.len() as int)])
}

/// Exchanging the channels twice gives the buffer back, whatever its length.
pub proof fn lemma_swapped_channels_involutive(pixels: Seq<u8>)
    ensures
        swapped_channels(swapped_channels(pixels)) == pixels,
{
    let len = pixels.len() as int;
    assert forall|i: int| 0 <= i < len implies swapped_channels(swapped_channels(pixels))[i]
        == pixels[i] by {
        // the partner of the partner of a position is the position itself
        assert(channel_partner(channel_partner(i, len), len) == i);
    }
}

/// Converting RGBA to BGRA and back, or the other way round, changes nothing.
pub proof fn lemma_conversion_round_trips(pixels: Seq<u8>)
    ensures
        spec_bgra_to_rgba(spec_rgba_to_bgra(pixels)) == pixels,
        spec_rgba_to_bgra(spec_bgra_to_rgba(pixels)) == pixels,
{
    lemma_swapped_channels_involutive(pixels);
}

/// What `rgba_to_bgra` leaves in a buffer that held `pixels`.
pub open spec fn spec_rgba_to_bgra(pixels: Seq<u8>) -> Seq<u8> {
    swapped_channels(pixels)
}

/// What `bgra_to_rgba` leaves in a buffer that held `pixels`.
pub open spec fn spec_bgra_to_rgba(pixels: Seq<u8>) -> Seq<u8> {
    swapped_channels(pixels)
}

/// Exchanges, in place, byte offsets 0 and 2 of every pixel.
fn swap_channels(pixels: &mut [u8])
    ensures
        final(pixels)@ == swapped_channels(old(pixels)@),
{
    let len = pixels.len();
    let ghost before = pixels@;
    let mut i: usize = 0;
    while len - i > 2
        invariant_except_break
            i % 4 == 0,
            forall|j: int| 0 <= j < i ==> pixels@[j] == swapped_channels(before)[j],
            forall|j: int| i <= j < len ==> pixels@[j] == before[j],
        invariant
            len == before.len(),
            pixels@.len() == len,
            i <= len,
        ensures
            pixels@ =~= swapped_channels(before),
        decreases len - i,
    {
        let first = pixels[i];
        let third = pixels[i + 2];
        pixels[i] = third;
        pixels[i + 2] = first;
        if len - i < 4 {
            break;
        }
        i = i + 4;
    }
}

/// Turns a buffer of RGBA pixels into BGRA pixels, in place.
pub fn rgba_to_bgra(pixels: &mut [u8])
    ensures
        final(pixels)@ == spec_rgba_to_bgra(old(pixels)@),
{
    swap_channels(pixels);
}

/// Turns a buffer of BGRA pixels into RGBA pixels, in place.
pub fn bgra_to_rgba(pixels: &mut [u8])
    ensures
        final(pixels)@ == spec_bgra_to_rgba(old(pixels)@),
{
    swap_channels(pixels);
}

} // verus!
