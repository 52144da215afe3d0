//! Fill and stroke styles: solid colors, two-stop linear gradients with a
//! selectable interpolation color space, and stroke specifications with an
//! optional dash pattern.

use vstd::prelude::*;

verus! {

/// The color space a linear gradient interpolates its stops in.
#[derive(Clone, Copy, PartialEq, Eq, Structural, Debug)]
pub enum ColorSpace {
    /// The default, non-perceptual space.
    Srgb,
    /// A perceptually uniform space.
    Oklab,
}

/// One gradient stop: a packed `0xRRGGBB` color and its position along the
/// gradient axis in thousandths (0 is the start, 1000 the end).
#[derive(Clone, Copy, PartialEq, Eq, Structural, Debug)]
pub struct GradientStop {
    pub color: u32,
    pub position_pm: u32,
}

/// How two stroked segments are joined.
#[derive(Clone, Copy, PartialEq, Eq, Structural, Debug)]
pub enum LineJoin {
    Miter,
    Bevel,
}

/// A dash pattern: alternating painted and skipped run lengths, in logical
/// units, applied along a stroked path.
#[derive(Clone, Copy, PartialEq, Eq, Structural, Debug)]
pub struct Dash {
    pub on: u32,
    pub off: u32,
}

/// How a path is painted: its interior filled with a solid color or a
/// two-stop linear gradient, or its outline stroked.
#[derive(Clone, Copy, PartialEq, Eq, Structural, Debug)]
pub enum Style {
    Solid { color: u32 },
    LinearGradient { angle_deg: u32, stop_a: GradientStop, stop_b: GradientStop, space: ColorSpace },
    Stroke { color: u32, width: u32, join: LineJoin, dash: Option<Dash> },
}

} // verus!
