//! The presentable surface's stored configuration: its size, reconfigured on
//! resize with a guard against degenerate dimensions.

use vstd::prelude::*;

verus! {

/// The stored configuration of the presentable surface. A value is only ever
/// constructed and updated with positive dimensions, so a render attempt
/// always sees a usable size.
#[derive(Clone, Copy, PartialEq, Eq, Structural, Debug)]
pub struct SurfaceConfig {
    pub width: u32,
    pub height: u32,
}

impl SurfaceConfig {
    /// Both dimensions are positive.
    pub open spec fn wf(self) -> bool {
        self.width > 0 && self.height > 0
    }

    pub fn new(width: u32, height: u32) -> (c: SurfaceConfig)
        requires
            width > 0,
            height > 0,
        ensures
            c.width == width,
            c.height == height,
            c.wf(),
    {
        SurfaceConfig { width, height }
    }

    /// Store a new size. A zero dimension is the one condition under which
    /// reconfiguration is skipped: the previous valid size stays untouched.
    /// Returns whether anything changed, so the caller knows to reconfigure
    /// the underlying surface.
    pub fn configure(&mut self, width: u32, height: u32) -> (changed: bool)
        requires
            old(self).wf(),
        ensures
            width > 0 && height > 0 ==> *final(self) == (SurfaceConfig { width, height })
                && changed,
            width == 0 || height == 0 ==> *final(self) == *old(self) && !changed,
            final(self).wf(),
    {
        if width > 0 && height > 0 {
            self.width = width;
            self.height = height;
            true
        } else {
            false
        }
    }
}

} // verus!
