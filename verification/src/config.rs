use crate::format::Format;
use vstd::prelude::*;

verus! {

/// What a capture engine is asked to deliver.
#[derive(Clone, Copy)]
pub struct Config {
    /// The layout in which frames reach the handler.
    pub format: Format,
}

impl Config {
    /// A configuration that asks for frames laid out as `format`.
    pub fn new(format: Format) -> (config: Config)
        ensures
            config.format == format,
    {
        Config { format }
    }
}

} // verus!
