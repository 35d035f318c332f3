//! Colors with fixed-point channels: `SCALE` (1000) stands for full
//! intensity `1.0`.

use crate::fixed::{clamp_spec, div_i64, div_trunc, fp_mul, fp_mul_spec, SCALE};
use vstd::prelude::*;
use vstd::string::StringSliceAdditionalSpecFns;

verus! {

/// Largest channel magnitude for which the fixed-point products stay in `i64`.
pub const COLOR_LIMIT: i64 = 1_500_000_000;

/// Red, green, blue and alpha channels in thousandths of full intensity.
#[derive(Clone, Copy, Debug, PartialEq, Eq, Structural)]
pub struct Color {
    pub r: i64,
    pub g: i64,
    pub b: i64,
    pub a: i64,
}

/// Whether a byte is an ASCII hexadecimal digit.
pub open spec fn is_hex_digit(b: u8) -> bool {
    (48 <= b <= 57) || (65 <= b <= 70) || (97 <= b <= 102)
}

/// Numeric value of an ASCII hexadecimal digit.
pub open spec fn hex_val(b: u8) -> int {
    if 48 <= b <= 57 {
        b - 48
    } else if 65 <= b <= 70 {
        b - 55
    } else {
        b - 87
    }
}

/// Value of a two-digit hexadecimal byte, high digit first.
pub open spec fn hex_pair(hi: u8, lo: u8) -> int {
    16 * hex_val(hi) + hex_val(lo)
}

/// A byte channel (0..=255) rescaled into thousandths of full intensity.
pub open spec fn channel_of_byte(v: int) -> int {
    v * SCALE / 255
}

/// The color a string of six hexadecimal digits denotes; any other
/// string (wrong length or a stray character) denotes opaque black.
pub open spec fn hex_color_spec(bytes: Seq<u8>) -> Color {
    if bytes.len() == 6 && (forall|i: int| 0 <= i < 6 ==> is_hex_digit(#[trigger] bytes[i])) {
        Color {
            r: channel_of_byte(hex_pair(bytes[0], bytes[1])) as i64,
            g: channel_of_byte(hex_pair(bytes[2], bytes[3])) as i64,
            b: channel_of_byte(hex_pair(bytes[4], bytes[5])) as i64,
            a: SCALE,
        }
    } else {
        Color { r: 0, g: 0, b: 0, a: SCALE }
    }
}

/// Whether a byte is an ASCII hexadecimal digit.
fn hex_digit_check(b: u8) -> (r: bool)
    ensures
        r == is_hex_digit(b),
{
    (48 <= b && b <= 57) || (65 <= b && b <= 70) || (97 <= b && b <= 102)
}

/// Numeric value of an ASCII hexadecimal digit.
fn hex_digit_value(b: u8) -> (r: u8)
    requires
        is_hex_digit(b),
    ensures
        r == hex_val(b),
{
    if 48 <= b && b <= 57 {
        b - 48
    } else if 65 <= b && b <= 70 {
        b - 55
    } else {
        b - 87
    }
}

impl Color {
    /// Opaque black, the default value.
    pub fn new() -> (r: Self)
        ensures
            r == (Color { r: 0 as i64, g: 0 as i64, b: 0 as i64, a: SCALE }),
    {
        Self { r: 0, g: 0, b: 0, a: SCALE }
    }

    /// A color parsed from six hexadecimal digits, `"rrggbb"`; any other
    /// length, or a character outside the hexadecimal alphabet, yields
    /// opaque black.
    pub fn from_hex(hex: &str) -> (c: Color)
        ensures
            c == hex_color_spec(hex.spec_bytes()),
    {
        let bytes: &[u8] = hex.as_bytes();
        if bytes.len() != 6 {
            return Color { r: 0, g: 0, b: 0, a: SCALE };
        }
        let mut i: usize = 0;
        while i < 6
            invariant
                bytes@ == hex.spec_bytes(),
                bytes@.len() == 6,
                0 <= i <= 6,
                forall|j: int| 0 <= j < i ==> is_hex_digit(#[trigger] bytes@[j]),
            decreases 6 - i,
        {
            if !hex_digit_check(bytes[i]) {
                return Color { r: 0, g: 0, b: 0, a: SCALE };
            }
            i = i + 1;
        }
        let r = Self::channel_from_digits(bytes[0], bytes[1]);
        let g = Self::channel_from_digits(bytes[2], bytes[3]);
        let b = Self::channel_from_digits(bytes[4], bytes[5]);
        Color { r, g, b, a: SCALE }
    }

    /// One color channel from its two hexadecimal digits.
    fn channel_from_digits(hi: u8, lo: u8) -> (r: i64)
        requires
            is_hex_digit(hi),
            is_hex_digit(lo),
        ensures
            r == channel_of_byte(hex_pair(hi, lo)),
    {
        let v: u64 = 16 * (hex_digit_value(hi) as u64) + (hex_digit_value(lo) as u64);
        ((v * 1000) / 255) as i64
    }

    /// Opaque red.
    pub fn red() -> (c: Self)
        ensures
            c == (Color { r: SCALE, g: 0 as i64, b: 0 as i64, a: SCALE }),
    {
        Self { r: SCALE, g: 0, b: 0, a: SCALE }
    }

    /// Opaque green.
    pub fn green() -> (c: Self)
        ensures
            c == (Color { r: 0 as i64, g: SCALE, b: 0 as i64, a: SCALE }),
    {
        Self { r: 0, g: SCALE, b: 0, a: SCALE }
    }

    /// Opaque blue.
    pub fn blue() -> (c: Self)
        ensures
            c == (Color { r: 0 as i64, g: 0 as i64, b: SCALE, a: SCALE }),
    {
        Self { r: 0, g: 0, b: SCALE, a: SCALE }
    }

    /// Opaque yellow.
    pub fn yellow() -> (c: Self)
        ensures
            c == (Color { r: SCALE, g: SCALE, b: 0 as i64, a: SCALE }),
    {
        Self { r: SCALE, g: SCALE, b: 0, a: SCALE }
    }

    /// Opaque pink (magenta).
    pub fn pink() -> (c: Self)
        ensures
            c == (Color { r: SCALE, g: 0 as i64, b: SCALE, a: SCALE }),
    {
        Self { r: SCALE, g: 0, b: SCALE, a: SCALE }
    }

    /// Opaque teal (cyan).
    pub fn teal() -> (c: Self)
        ensures
            c == (Color { r: 0 as i64, g: SCALE, b: SCALE, a: SCALE }),
    {
        Self { r: 0, g: SCALE, b: SCALE, a: SCALE }
    }

    /// Opaque black.
    pub fn black() -> (c: Self)
        ensures
            c == (Color { r: 0 as i64, g: 0 as i64, b: 0 as i64, a: SCALE }),
    {
        Self { r: 0, g: 0, b: 0, a: SCALE }
    }

    /// Opaque white.
    pub fn white() -> (c: Self)
        ensures
            c == (Color { r: SCALE, g: SCALE, b: SCALE, a: SCALE }),
    {
        Self { r: SCALE, g: SCALE, b: SCALE, a: SCALE }
    }

    /// Fully transparent black.
    pub fn transparent() -> (c: Self)
        ensures
            c == (Color { r: 0 as i64, g: 0 as i64, b: 0 as i64, a: 0 as i64 }),
    {
        Self { r: 0, g: 0, b: 0, a: 0 }
    }

    /// A copy with every channel clamped into `[0, SCALE]`; the original
    /// is left unchanged.
    pub fn normalized(&mut self) -> (c: Color)
        ensures
            *final(self) == *old(self),
            c.r == clamp_spec(old(self).r as int, 0, SCALE as int),
            c.g == clamp_spec(old(self).g as int, 0, SCALE as int),
            c.b == clamp_spec(old(self).b as int, 0, SCALE as int),
            c.a == clamp_spec(old(self).a as int, 0, SCALE as int),
    {
        Color {
            r: if self.r > SCALE {
                SCALE
            } else if self.r < 0 {
                0
            } else {
                self.r
            },
            g: if self.g > SCALE {
                SCALE
            } else if self.g < 0 {
                0
            } else {
                self.g
            },
            b: if self.b > SCALE {
                SCALE
            } else if self.b < 0 {
                0
            } else {
                self.b
            },
            a: if self.a > SCALE {
                SCALE
            } else if self.a < 0 {
                0
            } else {
                self.a
            },
        }
    }

    /// Whether every channel is small enough for the fixed-point products.
    pub open spec fn in_fp_range(self) -> bool {
        &&& -COLOR_LIMIT <= self.r <= COLOR_LIMIT
        &&& -COLOR_LIMIT <= self.g <= COLOR_LIMIT
        &&& -COLOR_LIMIT <= self.b <= COLOR_LIMIT
        &&& -COLOR_LIMIT <= self.a <= COLOR_LIMIT
    }

    /// Channelwise sum.
    pub fn add(self, rhs: Color) -> (c: Color)
        requires
            i64::MIN <= self.r + rhs.r <= i64::MAX,
            i64::MIN <= self.g + rhs.g <= i64::MAX,
            i64::MIN <= self.b + rhs.b <= i64::MAX,
            i64::MIN <= self.a + rhs.a <= i64::MAX,
        ensures
            c == (Color {
                r: (self.r + rhs.r) as i64,
                g: (self.g + rhs.g) as i64,
                b: (self.b + rhs.b) as i64,
                a: (self.a + rhs.a) as i64,
            }),
    {
        Color { r: self.r + rhs.r, g: self.g + rhs.g, b: self.b + rhs.b, a: self.a + rhs.a }
    }

    /// Channelwise difference.
    pub fn sub(self, rhs: Color) -> (c: Color)
        requires
            i64::MIN <= self.r - rhs.r <= i64::MAX,
            i64::MIN <= self.g - rhs.g <= i64::MAX,
            i64::MIN <= self.b - rhs.b <= i64::MAX,
            i64::MIN <= self.a - rhs.a <= i64::MAX,
        ensures
            c == (Color {
                r: (self.r - rhs.r) as i64,
                g: (self.g - rhs.g) as i64,
                b: (self.b - rhs.b) as i64,
                a: (self.a - rhs.a) as i64,
            }),
    {
        Color { r: self.r - rhs.r, g: self.g - rhs.g, b: self.b - rhs.b, a: self.a - rhs.a }
    }

    /// Channelwise fixed-point product.
    pub fn mul(self, rhs: Color) -> (c: Color)
        requires
            self.in_fp_range(),
            rhs.in_fp_range(),
        ensures
            c.r == fp_mul_spec(self.r as int, rhs.r as int),
            c.g == fp_mul_spec(self.g as int, rhs.g as int),
            c.b == fp_mul_spec(self.b as int, rhs.b as int),
            c.a == fp_mul_spec(self.a as int, rhs.a as int),
    {
        Color {
            r: fp_mul(self.r, rhs.r),
            g: fp_mul(self.g, rhs.g),
            b: fp_mul(self.b, rhs.b),
            a: fp_mul(self.a, rhs.a),
        }
    }

    /// Channelwise fixed-point quotient.
    pub fn div(self, rhs: Color) -> (c: Color)
        requires
            self.in_fp_range(),
            rhs.r != 0,
            rhs.g != 0,
            rhs.b != 0,
            rhs.a != 0,
            rhs.r != i64::MIN,
            rhs.g != i64::MIN,
            rhs.b != i64::MIN,
            rhs.a != i64::MIN,
        ensures
            c.r == div_trunc(self.r * SCALE, rhs.r as int),
            c.g == div_trunc(self.g * SCALE, rhs.g as int),
            c.b == div_trunc(self.b * SCALE, rhs.b as int),
            c.a == div_trunc(self.a * SCALE, rhs.a as int),
    {
        Color {
            r: div_i64(self.r * SCALE, rhs.r),
            g: div_i64(self.g * SCALE, rhs.g),
            b: div_i64(self.b * SCALE, rhs.b),
            a: div_i64(self.a * SCALE, rhs.a),
        }
    }

    /// Every channel shifted by a fixed-point scalar.
    pub fn add_scalar(self, rhs: i64) -> (c: Color)
        requires
            i64::MIN <= self.r + rhs <= i64::MAX,
            i64::MIN <= self.g + rhs <= i64::MAX,
            i64::MIN <= self.b + rhs <= i64::MAX,
            i64::MIN <= self.a + rhs <= i64::MAX,
        ensures
            c == (Color {
                r: (self.r + rhs) as i64,
                g: (self.g + rhs) as i64,
                b: (self.b + rhs) as i64,
                a: (self.a + rhs) as i64,
            }),
    {
        Color { r: self.r + rhs, g: self.g + rhs, b: self.b + rhs, a: self.a + rhs }
    }

    /// Every channel shifted down by a fixed-point scalar.
    pub fn sub_scalar(self, rhs: i64) -> (c: Color)
        requires
            i64::MIN <= self.r - rhs <= i64::MAX,
            i64::MIN <= self.g - rhs <= i64::MAX,
            i64::MIN <= self.b - rhs <= i64::MAX,
            i64::MIN <= self.a - rhs <= i64::MAX,
        ensures
            c == (Color {
                r: (self.r - rhs) as i64,
                g: (self.g - rhs) as i64,
                b: (self.b - rhs) as i64,
                a: (self.a - rhs) as i64,
            }),
    {
        Color { r: self.r - rhs, g: self.g - rhs, b: self.b - rhs, a: self.a - rhs }
    }

    /// Every channel scaled by a fixed-point scalar.
    pub fn mul_scalar(self, rhs: i64) -> (c: Color)
        requires
            self.in_fp_range(),
            -COLOR_LIMIT <= rhs <= COLOR_LIMIT,
        ensures
            c.r == fp_mul_spec(self.r as int, rhs as int),
            c.g == fp_mul_spec(self.g as int, rhs as int),
            c.b == fp_mul_spec(self.b as int, rhs as int),
            c.a == fp_mul_spec(self.a as int, rhs as int),
    {
        Color { r: fp_mul(self.r, rhs), g: fp_mul(self.g, rhs), b: fp_mul(self.b, rhs), a: fp_mul(
            self.a,
            rhs,
        ) }
    }

    /// Every channel divided by a fixed-point scalar.
    pub fn div_scalar(self, rhs: i64) -> (c: Color)
        requires
            self.in_fp_range(),
            rhs != 0,
            rhs != i64::MIN,
        ensures
            c.r == div_trunc(self.r * SCALE, rhs as int),
            c.g == div_trunc(self.g * SCALE, rhs as int),
            c.b == div_trunc(self.b * SCALE, rhs as int),
            c.a == div_trunc(self.a * SCALE, rhs as int),
    {
        Color {
            r: div_i64(self.r * SCALE, rhs),
            g: div_i64(self.g * SCALE, rhs),
            b: div_i64(self.b * SCALE, rhs),
            a: div_i64(self.a * SCALE, rhs),
        }
    }
}

} // verus!
