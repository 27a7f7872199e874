pub mod audio;
pub mod bridge;
pub mod config;
pub mod discovery;
pub mod midi;
pub mod names;
pub mod notifier;
pub mod stream;

use vstd::prelude::*;

verus! {

/// An inclusive range of supported buffer sizes, with `min <= max`.
#[derive(Clone, Copy, Debug, PartialEq, Eq, Structural)]
pub struct BufferSizeRange {
    pub min: u32,
    pub max: u32,
}

impl BufferSizeRange {
    pub open spec fn wf(self) -> bool {
        self.min <= self.max
    }

    /// A range holding a single buffer size.
    pub fn single(size: u32) -> (r: BufferSizeRange)
        ensures
            r.min == size,
            r.max == size,
            r.wf(),
    {
        BufferSizeRange { min: size, max: size }
    }
}

} // verus!
