use vstd::prelude::*;

verus! {

/// Byte order of the four channels of a pixel. Every pixel takes four bytes.
#[derive(Clone, Copy, Debug, PartialEq, Eq, Structural)]
pub enum Format {
    RGBA,
    BGRA,
}

} // verus!
