//! The colour value and its textual form.

use vstd::prelude::*;
use vstd::string::StringExecFns;
use crate::scalar::Scalar;

verus! {

/// The encoding of 1.0, the alpha of an opaque colour.
pub const ONE: u32 = 0x3f80_0000;

/// An sRGB colour with alpha: four channels, each meant to lie in [0, 1].
#[derive(Clone, Copy, Debug, PartialEq, Eq, Structural)]
pub struct SRGBA {
    pub red: Scalar,
    pub green: Scalar,
    pub blue: Scalar,
    pub alpha: Scalar,
}

impl SRGBA {
    /// Opaque black.
    pub open spec fn spec_black() -> SRGBA {
        SRGBA {
            red: Scalar { bits: 0 },
            green: Scalar { bits: 0 },
            blue: Scalar { bits: 0 },
            alpha: Scalar { bits: ONE },
        }
    }

    /// Opaque white.
    pub open spec fn spec_white() -> SRGBA {
        SRGBA {
            red: Scalar { bits: ONE },
            green: Scalar { bits: ONE },
            blue: Scalar { bits: ONE },
            alpha: Scalar { bits: ONE },
        }
    }

    /// The colour with the same red, green and blue and the given alpha.
    pub open spec fn spec_with_alpha(self, alpha: Scalar) -> SRGBA {
        SRGBA { red: self.red, green: self.green, blue: self.blue, alpha }
    }

    /// The colour with the given channels.
    pub fn new(red: Scalar, green: Scalar, blue: Scalar, alpha: Scalar) -> (c: SRGBA)
        ensures
            c == (SRGBA { red, green, blue, alpha }),
    {
        SRGBA { red, green, blue, alpha }
    }

    /// Opaque black.
    #[verifier::when_used_as_spec(spec_black)]
    pub fn black() -> (c: SRGBA)
        ensures
            c == SRGBA::spec_black(),
    {
        SRGBA {
            red: Scalar { bits: 0 },
            green: Scalar { bits: 0 },
            blue: Scalar { bits: 0 },
            alpha: Scalar { bits: ONE },
        }
    }

    /// Opaque white.
    #[verifier::when_used_as_spec(spec_white)]
    pub fn white() -> (c: SRGBA)
        ensures
            c == SRGBA::spec_white(),
    {
        SRGBA {
            red: Scalar { bits: ONE },
            green: Scalar { bits: ONE },
            blue: Scalar { bits: ONE },
            alpha: Scalar { bits: ONE },
        }
    }

    /// The colour with the same red, green and blue and the given alpha.
    #[verifier::when_used_as_spec(spec_with_alpha)]
    pub fn with_alpha(self, alpha: Scalar) -> (c: SRGBA)
        ensures
            c == self.spec_with_alpha(alpha),
    {
        SRGBA { red: self.red, green: self.green, blue: self.blue, alpha }
    }

    /// The four channels: red, green, blue, alpha.
    pub fn into_inner(self) -> (channels: (Scalar, Scalar, Scalar, Scalar))
        ensures
            channels == (self.red, self.green, self.blue, self.alpha),
    {
        (self.red, self.green, self.blue, self.alpha)
    }
}

impl Default for SRGBA {
    /// Opaque black.
    fn default() -> (c: SRGBA)
        ensures
            c == SRGBA::black(),
    {
        SRGBA::black()
    }
}

/// An sRGB colour with alpha in eight bits a channel, as stylesheets write it.
#[derive(Clone, Copy, Debug, PartialEq, Eq, Structural, Default)]
pub struct Rgba8 {
    pub red: u8,
    pub green: u8,
    pub blue: u8,
    pub alpha: u8,
}

/// The lower-case hexadecimal digit of a number below 16.
pub open spec fn hex_digit(n: int) -> char {
    if n == 0 {
        '0'
    } else if n == 1 {
        '1'
    } else if n == 2 {
        '2'
    } else if n == 3 {
        '3'
    } else if n == 4 {
        '4'
    } else if n == 5 {
        '5'
    } else if n == 6 {
        '6'
    } else if n == 7 {
        '7'
    } else if n == 8 {
        '8'
    } else if n == 9 {
        '9'
    } else if n == 10 {
        'a'
    } else if n == 11 {
        'b'
    } else if n == 12 {
        'c'
    } else if n == 13 {
        'd'
    } else if n == 14 {
        'e'
    } else {
        'f'
    }
}

/// Bytes in lower-case hexadecimal: two digits a byte, the high one first.
pub open spec fn lower_hex(data: Seq<u8>) -> Seq<char> {
    Seq::new(
        2 * data.len(),
        |i: int|
            if i % 2 == 0 {
                hex_digit(data[i / 2] as int / 16)
            } else {
                hex_digit(data[i / 2] as int % 16)
            },
    )
}

/// A colour as a stylesheet writes it: `#`, then red, green, blue and alpha
/// in two hexadecimal digits each.
pub open spec fn hex(rgba: Rgba8) -> Seq<char> {
    seq!['#'] + lower_hex(seq![rgba.red, rgba.green, rgba.blue, rgba.alpha])
}

/// `hex::encode` on four bytes. It writes each byte as two lower-case
/// hexadecimal digits, the high four bits first, in the order of the bytes.
#[verifier::external_body]
fn encode(data: &[u8; 4]) -> (s: String)
    ensures
        s@ == lower_hex(data@),
{
    hex::encode(data)
}

/// A colour as a stylesheet writes it.
pub fn hex_from_rgba(rgba: &Rgba8) -> (s: String)
    ensures
        s@ == hex(*rgba),
{
    let raw: [u8; 4] = [rgba.red, rgba.green, rgba.blue, rgba.alpha];
    assert(raw@ =~= seq![rgba.red, rgba.green, rgba.blue, rgba.alpha]);
    let digits = encode(&raw);
    let mut s = String::from_str("#");
    proof {
        reveal_strlit("#");
        assert("#"@ =~= seq!['#']);
    }
    s.append(digits.as_str());
    s
}

} // verus!
