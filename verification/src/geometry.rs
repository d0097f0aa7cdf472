//! The cubic-Bezier segment, the atomic unit of stroke rendering.
//!
//! Evaluating a segment at a parameter, and the Catmull-Rom conversion that
//! produces its inner control points, are floating-point computations that
//! live in the numeric kernel outside the library; here a segment is a plain
//! value whose construction policy the stroke builder verifies.

use vstd::prelude::*;

use crate::point::Point;

verus! {

/// A cubic Bezier segment with start/end widths for variable-width rendering.
/// Widths are double bit patterns, interpolated linearly by the renderer.
#[derive(Clone, Copy, PartialEq, Eq, Structural, Debug)]
pub struct BezierSegment {
    pub p0: Point,
    pub p1: Point,
    pub p2: Point,
    pub p3: Point,
    pub start_width: u64,
    pub end_width: u64,
}

/// The two inner control points of a cubic whose endpoints are already
/// known: what the numeric kernel hands back, either the trisection of a
/// chord (the linear placeholder) or the Catmull-Rom conversion's b1/b2.
#[derive(Clone, Copy, PartialEq, Eq, Structural, Debug)]
pub struct ControlPair {
    pub c1: Point,
    pub c2: Point,
}

} // verus!
