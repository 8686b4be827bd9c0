//! Core model of a minimal GPU renderer: surface configuration, the
//! per-frame lifecycle, the fixed demo geometry, and the pixel-level
//! effect of a clear-and-draw render pass.

use vstd::prelude::*;

pub mod context;
pub mod frame;
pub mod geometry;
pub mod layout;
pub mod lifecycle;
pub mod pass;
pub mod raster;

verus! {

/// An RGBA clear color. Each channel holds the raw bit pattern of the
/// floating-point channel value used by the presentation layer; the model
/// never interprets the bits, it only stores and compares them.
#[derive(Clone, Copy, PartialEq, Eq, Structural, Debug)]
pub struct Color {
    pub r_bits: u64,
    pub g_bits: u64,
    pub b_bits: u64,
    pub a_bits: u64,
}

impl Color {
    /// The color every channel of which is zero: transparent black.
    pub open spec fn spec_transparent_black() -> Color {
        Color { r_bits: 0, g_bits: 0, b_bits: 0, a_bits: 0 }
    }

    /// Builds the transparent black color, the demo's fixed clear color.
    pub fn transparent_black() -> (c: Color)
        ensures
            c == Color::spec_transparent_black(),
    {
        Color { r_bits: 0, g_bits: 0, b_bits: 0, a_bits: 0 }
    }
}

} // verus!
