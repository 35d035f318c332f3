//! Colors with integer channels in the range `0..=255`.

use vstd::prelude::*;

verus! {

/// Red, green, blue and alpha channels, one byte of range each
/// (stored widened so arithmetic has room).
#[derive(Clone, Copy, Debug, PartialEq, Eq, Structural)]
pub struct Color32 {
    pub r: u32,
    pub g: u32,
    pub b: u32,
    pub a: u32,
}

impl Color32 {
    /// Opaque black, the default value.
    pub fn new() -> (c: Self)
        ensures
            c == (Color32 { r: 0 as u32, g: 0 as u32, b: 0 as u32, a: 255 as u32 }),
    {
        Color32 { r: 0, g: 0, b: 0, a: 255 }
    }

    /// Opaque red.
    pub fn red() -> (c: Self)
        ensures
            c == (Color32 { r: 255 as u32, g: 0 as u32, b: 0 as u32, a: 255 as u32 }),
    {
        Color32 { r: 255, g: 0, b: 0, a: 255 }
    }

    /// Opaque green.
    pub fn green() -> (c: Self)
        ensures
            c == (Color32 { r: 0 as u32, g: 255 as u32, b: 0 as u32, a: 255 as u32 }),
    {
        Color32 { r: 0, g: 255, b: 0, a: 255 }
    }

    /// Opaque blue.
    pub fn blue() -> (c: Self)
        ensures
            c == (Color32 { r: 0 as u32, g: 0 as u32, b: 255 as u32, a: 255 as u32 }),
    {
        Color32 { r: 0, g: 0, b: 255, a: 255 }
    }

    /// Opaque yellow.
    pub fn yellow() -> (c: Self)
        ensures
            c == (Color32 { r: 255 as u32, g: 255 as u32, b: 0 as u32, a: 255 as u32 }),
    {
        Color32 { r: 255, g: 255, b: 0, a: 255 }
    }

    /// Opaque pink (magenta).
    pub fn pink() -> (c: Self)
        ensures
            c == (Color32 { r: 255 as u32, g: 0 as u32, b: 255 as u32, a: 255 as u32 }),
    {
        Color32 { r: 255, g: 0, b: 255, a: 255 }
    }

    /// Opaque teal (cyan).
    pub fn teal() -> (c: Self)
        ensures
            c == (Color32 { r: 0 as u32, g: 255 as u32, b: 255 as u32, a: 255 as u32 }),
    {
        Color32 { r: 0, g: 255, b: 255, a: 255 }
    }

    /// Opaque black.
    pub fn black() -> (c: Self)
        ensures
            c == (Color32 { r: 0 as u32, g: 0 as u32, b: 0 as u32, a: 255 as u32 }),
    {
        Color32 { r: 0, g: 0, b: 0, a: 255 }
    }

    /// Opaque white.
    pub fn white() -> (c: Self)
        ensures
            c == (Color32 { r: 255 as u32, g: 255 as u32, b: 255 as u32, a: 255 as u32 }),
    {
        Color32 { r: 255, g: 255, b: 255, a: 255 }
    }

    /// A copy with every channel clamped down into `0..=255`; the original
    /// is left unchanged.
    pub fn normalized(&mut self) -> (c: Color32)
        ensures
            *final(self) == *old(self),
            c.r == if old(self).r > 255 {
                255 as u32
            } else {
                old(self).r
            },
            c.g == if old(self).g > 255 {
                255 as u32
            } else {
                old(self).g
            },
            c.b == if old(self).b > 255 {
                255 as u32
            } else {
                old(self).b
            },
            c.a == if old(self).a > 255 {
                255 as u32
            } else {
                old(self).a
            },
    {
        Color32 {
            r: if self.r > 255 {
                255
            } else {
                self.r
            },
            g: if self.g > 255 {
                255
            } else {
                self.g
            },
            b: if self.b > 255 {
                255
            } else {
                self.b
            },
            a: if self.a > 255 {
                255
            } else {
                self.a
            },
        }
    }

    /// Channelwise sum.
    pub fn add(self, rhs: Color32) -> (c: Color32)
        requires
            self.r + rhs.r <= u32::MAX,
            self.g + rhs.g <= u32::MAX,
            self.b + rhs.b <= u32::MAX,
            self.a + rhs.a <= u32::MAX,
        ensures
            c == (Color32 {
                r: (self.r + rhs.r) as u32,
                g: (self.g + rhs.g) as u32,
                b: (self.b + rhs.b) as u32,
                a: (self.a + rhs.a) as u32,
            }),
    {
        Color32 { r: self.r + rhs.r, g: self.g + rhs.g, b: self.b + rhs.b, a: self.a + rhs.a }
    }

    /// Channelwise difference.
    pub fn sub(self, rhs: Color32) -> (c: Color32)
        requires
            rhs.r <= self.r,
            rhs.g <= self.g,
            rhs.b <= self.b,
            rhs.a <= self.a,
        ensures
            c == (Color32 {
                r: (self.r - rhs.r) as u32,
                g: (self.g - rhs.g) as u32,
                b: (self.b - rhs.b) as u32,
                a: (self.a - rhs.a) as u32,
            }),
    {
        Color32 { r: self.r - rhs.r, g: self.g - rhs.g, b: self.b - rhs.b, a: self.a - rhs.a }
    }

    /// Channelwise product.
    pub fn mul(self, rhs: Color32) -> (c: Color32)
        requires
            self.r * rhs.r <= u32::MAX,
            self.g * rhs.g <= u32::MAX,
            self.b * rhs.b <= u32::MAX,
            self.a * rhs.a <= u32::MAX,
        ensures
            c == (Color32 {
                r: (self.r * rhs.r) as u32,
                g: (self.g * rhs.g) as u32,
                b: (self.b * rhs.b) as u32,
                a: (self.a * rhs.a) as u32,
            }),
    {
        Color32 { r: self.r * rhs.r, g: self.g * rhs.g, b: self.b * rhs.b, a: self.a * rhs.a }
    }

    /// Channelwise quotient.
    pub fn div(self, rhs: Color32) -> (c: Color32)
        requires
            rhs.r != 0,
            rhs.g != 0,
            rhs.b != 0,
            rhs.a != 0,
        ensures
            c == (Color32 {
                r: (self.r / rhs.r) as u32,
                g: (self.g / rhs.g) as u32,
                b: (self.b / rhs.b) as u32,
                a: (self.a / rhs.a) as u32,
            }),
    {
        Color32 { r: self.r / rhs.r, g: self.g / rhs.g, b: self.b / rhs.b, a: self.a / rhs.a }
    }
}

} // verus!
