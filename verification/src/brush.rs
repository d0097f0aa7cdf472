//! The brush model: a brush variant plus the parameters that drive width
//! computation. The width formula itself is floating-point and lives in the
//! numeric kernel outside the library; the presets below fix the parameter
//! values each variant is defined with.

use vstd::prelude::*;

use crate::point::{Color, F32_ONE_BITS, F32_ZERO_BITS, F64_ZERO_BITS};

verus! {

/// Bit pattern of the double 0.1.
pub const F64_P1_BITS: u64 = 0x3fb999999999999a;
/// Bit pattern of the double 0.05.
pub const F64_P05_BITS: u64 = 0x3fa999999999999a;
/// Bit pattern of the double 0.2.
pub const F64_P2_BITS: u64 = 0x3fc999999999999a;
/// Bit pattern of the double 0.3.
pub const F64_P3_BITS: u64 = 0x3fd3333333333333;
/// Bit pattern of the double 0.5.
pub const F64_P5_BITS: u64 = 0x3fe0000000000000;
/// Bit pattern of the double 0.8.
pub const F64_P8_BITS: u64 = 0x3fe999999999999a;
/// Bit pattern of the double 0.9.
pub const F64_P9_BITS: u64 = 0x3feccccccccccccd;
/// Bit pattern of the double 1.1.
pub const F64_1P1_BITS: u64 = 0x3ff199999999999a;
/// Bit pattern of the double 1.2.
pub const F64_1P2_BITS: u64 = 0x3ff3333333333333;
/// Bit pattern of the double 1.5.
pub const F64_1P5_BITS: u64 = 0x3ff8000000000000;
/// Bit pattern of the single 0.3.
pub const F32_P3_BITS: u32 = 0x3e99999a;
/// Bit pattern of the double 2.0, the default brush's base width.
pub const F64_TWO_BITS: u64 = 0x4000000000000000;

#[derive(Clone, Copy, PartialEq, Eq, Structural, Debug)]
pub enum BrushType {
    Pen,
    Highlighter,
    Eraser,
}

/// A brush: its variant, color, base width and width-formula parameters.
/// All numeric fields are double bit patterns.
#[derive(Clone, Copy, PartialEq, Eq, Structural, Debug)]
pub struct BrushConfig {
    pub brush_type: BrushType,
    pub color: Color,
    pub base_width: u64,
    pub min_width_factor: u64,
    pub max_width_factor: u64,
    pub pressure_sensitivity: u64,
    pub velocity_sensitivity: u64,
    pub smoothing: u64,
}

impl BrushConfig {
    /// The pen preset: width factors in [0.3, 1.5], pressure sensitivity 0.8,
    /// velocity sensitivity 0.3, smoothing 0.5.
    pub fn pen(color: Color, width: u64) -> (b: BrushConfig)
        ensures
            b == (BrushConfig {
                brush_type: BrushType::Pen,
                color,
                base_width: width,
                min_width_factor: F64_P3_BITS,
                max_width_factor: F64_1P5_BITS,
                pressure_sensitivity: F64_P8_BITS,
                velocity_sensitivity: F64_P3_BITS,
                smoothing: F64_P5_BITS,
            }),
    {
        BrushConfig {
            brush_type: BrushType::Pen,
            color,
            base_width: width,
            min_width_factor: F64_P3_BITS,
            max_width_factor: F64_1P5_BITS,
            pressure_sensitivity: F64_P8_BITS,
            velocity_sensitivity: F64_P3_BITS,
            smoothing: F64_P5_BITS,
        }
    }

    /// The highlighter preset: the given color with its alpha overridden to
    /// 0.3, width factors in [0.9, 1.1], pressure sensitivity 0.1, velocity
    /// sensitivity 0.05, smoothing 0.2.
    pub fn highlighter(color: Color, width: u64) -> (b: BrushConfig)
        ensures
            b == (BrushConfig {
                brush_type: BrushType::Highlighter,
                color: Color { a: F32_P3_BITS, ..color },
                base_width: width,
                min_width_factor: F64_P9_BITS,
                max_width_factor: F64_1P1_BITS,
                pressure_sensitivity: F64_P1_BITS,
                velocity_sensitivity: F64_P05_BITS,
                smoothing: F64_P2_BITS,
            }),
    {
        let highlight_color = Color { a: F32_P3_BITS, ..color };
        BrushConfig {
            brush_type: BrushType::Highlighter,
            color: highlight_color,
            base_width: width,
            min_width_factor: F64_P9_BITS,
            max_width_factor: F64_1P1_BITS,
            pressure_sensitivity: F64_P1_BITS,
            velocity_sensitivity: F64_P05_BITS,
            smoothing: F64_P2_BITS,
        }
    }

    /// The eraser preset: white color (visually unused), width factors in
    /// [0.8, 1.2], no pressure or velocity sensitivity, smoothing 0.3.
    pub fn eraser(width: u64) -> (b: BrushConfig)
        ensures
            b == (BrushConfig {
                brush_type: BrushType::Eraser,
                color: (Color {
                    r: F32_ONE_BITS,
                    g: F32_ONE_BITS,
                    b: F32_ONE_BITS,
                    a: F32_ONE_BITS,
                }),
                base_width: width,
                min_width_factor: F64_P8_BITS,
                max_width_factor: F64_1P2_BITS,
                pressure_sensitivity: F64_ZERO_BITS,
                velocity_sensitivity: F64_ZERO_BITS,
                smoothing: F64_P3_BITS,
            }),
    {
        BrushConfig {
            brush_type: BrushType::Eraser,
            color: Color::white(),
            base_width: width,
            min_width_factor: F64_P8_BITS,
            max_width_factor: F64_1P2_BITS,
            pressure_sensitivity: F64_ZERO_BITS,
            velocity_sensitivity: F64_ZERO_BITS,
            smoothing: F64_P3_BITS,
        }
    }
}

impl Default for BrushConfig {
    /// The default brush: a black pen of base width 2.0.
    fn default() -> (b: BrushConfig)
        ensures
            b == BrushConfig::default_spec(),
    {
        BrushConfig::pen(Color::black(), F64_TWO_BITS)
    }
}

impl BrushConfig {
    /// What `Default` yields: the pen preset over opaque black, width 2.0.
    pub open spec fn default_spec() -> BrushConfig {
        BrushConfig {
            brush_type: BrushType::Pen,
            color: Color {
                r: F32_ZERO_BITS,
                g: F32_ZERO_BITS,
                b: F32_ZERO_BITS,
                a: F32_ONE_BITS,
            },
            base_width: F64_TWO_BITS,
            min_width_factor: F64_P3_BITS,
            max_width_factor: F64_1P5_BITS,
            pressure_sensitivity: F64_P8_BITS,
            velocity_sensitivity: F64_P3_BITS,
            smoothing: F64_P5_BITS,
        }
    }
}

} // verus!
