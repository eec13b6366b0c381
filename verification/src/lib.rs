//! Derivation of a complete, contrast-checked UI colour palette from a few
//! seed colours.
//!
//! Real numbers are held in their IEEE 754 single-precision encoding
//! ([`scalar::Scalar`]); comparing and matching them is integer work on the
//! encoding and is done here. Colour-space arithmetic is not: the host
//! performs it and hands the numbers in. There are three places where it
//! does:
//!
//! * A pick by bisection ([`color_picker::exact`]) asks the host for the
//!   contrast at each midpoint and for the clamped candidate; it decides
//!   what to ask next and what to return.
//! * A derivation ([`model`]) takes the hover and pressed fills of each
//!   widget as [`model::Shades`]; it decides everything else, through a
//!   [`color_picker::ColorPicker`].
//! * A stylesheet ([`model::AsCss`]) is written from colours in eight bits a
//!   channel ([`util::Rgba8`]).

pub mod color_picker;
pub mod model;
pub mod scalar;
pub mod util;
