//! The viewport: a uniform-scale-plus-translation transform between screen
//! and canvas coordinates, with a clamped zoom range.
//!
//! All five quantities are double bit patterns. Applying the transform and
//! updating it under zoom and pan are floating-point computations done by
//! the numeric kernel outside the library; here the viewport is the data it
//! works on, with its identity and reset states fixed exactly.

use vstd::prelude::*;

use crate::point::{F64_ONE_BITS, F64_ZERO_BITS};

verus! {

/// Bit pattern of the double 0.1, the smallest allowed scale.
pub const MIN_SCALE_BITS: u64 = 0x3fb999999999999a;

/// Bit pattern of the double 10.0, the largest allowed scale.
pub const MAX_SCALE_BITS: u64 = 0x4024000000000000;

/// Zoom/pan state: scale, screen-pixel offsets, and the scale clamp range.
#[derive(Clone, Copy, PartialEq, Eq, Structural, Debug)]
pub struct Viewport {
    pub scale: u64,
    pub offset_x: u64,
    pub offset_y: u64,
    pub min_scale: u64,
    pub max_scale: u64,
}

impl Viewport {
    /// The identity transform under the default clamp range.
    pub open spec fn identity_spec() -> Viewport {
        Viewport {
            scale: F64_ONE_BITS,
            offset_x: F64_ZERO_BITS,
            offset_y: F64_ZERO_BITS,
            min_scale: MIN_SCALE_BITS,
            max_scale: MAX_SCALE_BITS,
        }
    }

    pub fn new() -> (vp: Viewport)
        ensures
            vp == Viewport::identity_spec(),
    {
        Viewport {
            scale: F64_ONE_BITS,
            offset_x: F64_ZERO_BITS,
            offset_y: F64_ZERO_BITS,
            min_scale: MIN_SCALE_BITS,
            max_scale: MAX_SCALE_BITS,
        }
    }

    /// Back to the identity transform; the clamp range is kept.
    pub fn reset(&mut self)
        ensures
            *final(self) == (Viewport {
                scale: F64_ONE_BITS,
                offset_x: F64_ZERO_BITS,
                offset_y: F64_ZERO_BITS,
                ..*old(self)
            }),
    {
        self.scale = F64_ONE_BITS;
        self.offset_x = F64_ZERO_BITS;
        self.offset_y = F64_ZERO_BITS;
    }
}

impl Default for Viewport {
    fn default() -> (vp: Viewport)
        ensures
            vp == Viewport::identity_spec(),
    {
        Viewport::new()
    }
}

} // verus!
