//! The color primitive consumed by the shading core.
//!
//! A [`Color`] is an 8-bit-per-channel RGBA value.  The shading core reads
//! exactly one thing from it: whether its alpha channel is at the maximum,
//! i.e. whether the color is fully opaque.

use vstd::prelude::*;

verus! {

/// The alpha value of a fully opaque color.
pub const ALPHA_OPAQUE: u8 = 255;

/// An RGBA color with 8-bit channels.
#[derive(Copy, Clone, Debug, PartialEq, Eq, Structural)]
pub struct Color {
    pub r: u8,
    pub g: u8,
    pub b: u8,
    pub a: u8,
}

impl Color {
    /// A color is opaque exactly when its alpha channel is at the maximum.
    pub open spec fn is_opaque_spec(self) -> bool {
        self.a == ALPHA_OPAQUE
    }

    pub fn from_rgba8(r: u8, g: u8, b: u8, a: u8) -> (c: Color)
        ensures
            c == (Color { r, g, b, a }),
    {
        Color { r, g, b, a }
    }

    pub fn is_opaque(&self) -> (res: bool)
        ensures
            res == self.is_opaque_spec(),
    {
        self.a == ALPHA_OPAQUE
    }
}

/// One entry of a gradient's color ramp: a color pinned at a position along
/// the gradient's domain.  The position runs from `0` (start of the domain)
/// to `u16::MAX` (end of the domain); the shading core stores it for the
/// ramp-evaluation stage and does not interpret it.
#[derive(Copy, Clone, Debug, PartialEq, Eq, Structural)]
pub struct GradientStop {
    pub position: u16,
    pub color: Color,
}

impl GradientStop {
    pub fn new(position: u16, color: Color) -> (s: GradientStop)
        ensures
            s == (GradientStop { position, color }),
    {
        GradientStop { position, color }
    }
}

} // verus!
