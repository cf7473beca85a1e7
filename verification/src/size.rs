use vstd::prelude::*;

verus! {

/// Surface dimensions in device pixels, as produced by resize and
/// scale-factor-changed events and consumed by the renderer.
#[derive(Clone, Copy, Debug, PartialEq, Eq, Structural)]
pub struct PhysicalSize {
    pub width: u32,
    pub height: u32,
}

impl PhysicalSize {
    /// Builds a size from its two pixel dimensions.
    pub fn new(width: u32, height: u32) -> (s: PhysicalSize)
        ensures
            s == (PhysicalSize { width, height }),
    {
        PhysicalSize { width, height }
    }
}

} // verus!
