//! The contrasts that a theme is held to.

use vstd::prelude::*;
use crate::scalar::Scalar;

verus! {

/// The encoding of 1.1, the usual contrast of an elevated surface.
pub const ELEVATED: u32 = 0x3f8c_cccd;

/// The encoding of 1.51, the usual contrast of a divider.
pub const DIVIDER: u32 = 0x3fc1_47ae;

/// The encoding of 7.0, the usual contrast of text.
pub const TEXT: u32 = 0x40e0_0000;

/// The contrasts that the colours of a theme are derived under, and the
/// direction in which elevated surfaces leave the surface below them.
#[derive(Clone, Copy, Debug)]
pub struct ThemeConstraints {
    /// The contrast of the component of a container to the container.
    pub elevated_contrast_ratio: Scalar,
    /// The contrast of a divider to what it lies on.
    pub divider_contrast_ratio: Scalar,
    /// The contrast of text to what it lies on.
    pub text_contrast_ratio: Scalar,
    /// Whether dividers are without chroma.
    pub divider_gray_scale: bool,
    /// Whether derived surfaces are lighter, not darker, than their origin.
    pub lighten: bool,
}

impl Default for ThemeConstraints {
    fn default() -> (c: ThemeConstraints)
        ensures
            c.elevated_contrast_ratio.bits == ELEVATED,
            c.divider_contrast_ratio.bits == DIVIDER,
            c.text_contrast_ratio.bits == TEXT,
            c.divider_gray_scale,
            c.lighten,
    {
        ThemeConstraints {
            elevated_contrast_ratio: Scalar::from_bits(ELEVATED),
            divider_contrast_ratio: Scalar::from_bits(DIVIDER),
            text_contrast_ratio: Scalar::from_bits(TEXT),
            divider_gray_scale: true,
            lighten: true,
        }
    }
}

} // verus!
