//! Plain geometric value types. Scalars are carried as opaque IEEE-754 bit
//! patterns (`u64` for a double, `u32` for a single); the numeric kernel that
//! interprets them lives outside the library.

use vstd::prelude::*;

verus! {

/// Bit pattern of the IEEE-754 double 0.0.
pub const F64_ZERO_BITS: u64 = 0x0;
/// Bit pattern of the IEEE-754 double 1.0.
pub const F64_ONE_BITS: u64 = 0x3ff0000000000000;
/// Bit pattern of the largest finite IEEE-754 double.
pub const F64_GREATEST_BITS: u64 = 0x7fefffffffffffff;
/// Bit pattern of the smallest finite IEEE-754 double.
pub const F64_LEAST_BITS: u64 = 0xffefffffffffffff;
/// Bit pattern of the IEEE-754 single 0.0.
pub const F32_ZERO_BITS: u32 = 0x0;
/// Bit pattern of the IEEE-754 single 1.0.
pub const F32_ONE_BITS: u32 = 0x3f800000;

/// A 2D point; each coordinate is the bit pattern of a double.
#[derive(Clone, Copy, PartialEq, Eq, Structural, Debug)]
pub struct Point {
    pub x: u64,
    pub y: u64,
}

impl Point {
    pub fn new(x: u64, y: u64) -> (r: Point)
        ensures
            r == (Point { x, y }),
    {
        Point { x, y }
    }
}

/// One input sample of a stroke: a canvas-space position, a pen pressure and
/// a timestamp, all carried as double bit patterns.
#[derive(Clone, Copy, PartialEq, Eq, Structural, Debug)]
pub struct StrokePoint {
    pub position: Point,
    pub pressure: u64,
    pub timestamp: u64,
}

impl StrokePoint {
    pub fn new(x: u64, y: u64, pressure: u64, timestamp: u64) -> (r: StrokePoint)
        ensures
            r == (StrokePoint { position: Point { x, y }, pressure, timestamp }),
    {
        StrokePoint { position: Point::new(x, y), pressure, timestamp }
    }
}

/// An RGBA color; each channel is the bit pattern of a single.
#[derive(Clone, Copy, PartialEq, Eq, Structural, Debug)]
pub struct Color {
    pub r: u32,
    pub g: u32,
    pub b: u32,
    pub a: u32,
}

impl Color {
    pub fn new(r: u32, g: u32, b: u32, a: u32) -> (c: Color)
        ensures
            c == (Color { r, g, b, a }),
    {
        Color { r, g, b, a }
    }

    /// Opaque black: all channels 0.0 but alpha 1.0.
    pub open spec fn black_spec() -> Color {
        Color { r: F32_ZERO_BITS, g: F32_ZERO_BITS, b: F32_ZERO_BITS, a: F32_ONE_BITS }
    }

    pub fn black() -> (c: Color)
        ensures
            c == Color::black_spec(),
    {
        Color::new(F32_ZERO_BITS, F32_ZERO_BITS, F32_ZERO_BITS, F32_ONE_BITS)
    }

    /// Opaque white: all channels 1.0.
    pub open spec fn white_spec() -> Color {
        Color { r: F32_ONE_BITS, g: F32_ONE_BITS, b: F32_ONE_BITS, a: F32_ONE_BITS }
    }

    pub fn white() -> (c: Color)
        ensures
            c == Color::white_spec(),
    {
        Color::new(F32_ONE_BITS, F32_ONE_BITS, F32_ONE_BITS, F32_ONE_BITS)
    }
}

/// An axis-aligned bounding box; the four bounds are double bit patterns.
///
/// The box produced by `empty` is the invalid sentinel (greatest finite double
/// as minima, least finite double as maxima); whether a box is valid is a
/// numeric question (`min <= max` on the doubles) that only the numeric
/// kernel outside the library can answer.
#[derive(Clone, Copy, PartialEq, Eq, Structural, Debug)]
pub struct BoundingBox {
    pub min_x: u64,
    pub min_y: u64,
    pub max_x: u64,
    pub max_y: u64,
}

impl BoundingBox {
    /// The invalid sentinel box, contained in no expansion.
    pub fn empty() -> (b: BoundingBox)
        ensures
            b == BoundingBox::empty_spec(),
    {
        BoundingBox {
            min_x: F64_GREATEST_BITS,
            min_y: F64_GREATEST_BITS,
            max_x: F64_LEAST_BITS,
            max_y: F64_LEAST_BITS,
        }
    }

    pub open spec fn empty_spec() -> BoundingBox {
        BoundingBox {
            min_x: F64_GREATEST_BITS,
            min_y: F64_GREATEST_BITS,
            max_x: F64_LEAST_BITS,
            max_y: F64_LEAST_BITS,
        }
    }
}

} // verus!
