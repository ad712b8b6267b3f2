use crate::scalar::ONE;
use vstd::prelude::*;

verus! {

/// Upper bound on the number of point lights uploaded to the GPU each frame.
/// Lights beyond it stay in the scene but are not packed.
pub const MAX_POINT_LIGHTS: usize = 4;

/// Red and green of the colour a frame is cleared to: the double-precision
/// bit pattern of `0.1`.
pub const CLEAR_DIM: u64 = 0x3FB9_9999_9999_999A;

/// Blue of the colour a frame is cleared to: the double-precision bit pattern
/// of `0.2`.
pub const CLEAR_BLUE: u64 = 0x3FC9_9999_9999_999A;

/// Alpha of the colour a frame is cleared to: the double-precision bit
/// pattern of `1.0`.
pub const CLEAR_ALPHA: u64 = 0x3FF0_0000_0000_0000;

/// Depth a frame is cleared to: the far plane.
pub const CLEAR_DEPTH: u32 = ONE;

} // verus!
