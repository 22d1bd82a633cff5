//! Colours and opacities, held exactly as fractions.

use vstd::prelude::*;

verus! {

/// An opacity `num / den`, between fully transparent (0) and opaque (1).
#[derive(Clone, Copy, Debug, PartialEq, Eq, Structural)]
pub struct Opacity {
    pub num: u64,
    pub den: u64,
}

impl Opacity {
    pub open spec fn wf(self) -> bool {
        0 < self.den && self.num <= self.den
    }

    /// `self` is no more opaque than `o`.
    pub open spec fn at_most(self, o: Opacity) -> bool {
        self.num as int * o.den as int <= o.num as int * self.den as int
    }

    pub open spec fn is_opaque(self) -> bool {
        self.num == self.den
    }
}

impl Opacity {
    /// Fully transparent.
    pub fn transparent() -> (r: Opacity)
        ensures
            r == (Opacity { num: 0, den: 1 }),
    {
        Opacity { num: 0, den: 1 }
    }

    /// Fully opaque.
    pub fn opaque() -> (r: Opacity)
        ensures
            r == (Opacity { num: 1, den: 1 }),
    {
        Opacity { num: 1, den: 1 }
    }

    /// The opacity of a box's border: two fifths.
    pub fn border() -> (r: Opacity)
        ensures
            r == (Opacity { num: 2, den: 5 }),
    {
        Opacity { num: 2, den: 5 }
    }
}

/// A colour in sRGB, eight bits a channel, without its opacity.
#[derive(Clone, Copy, Debug, PartialEq, Eq, Structural)]
pub struct Rgb {
    pub red: u8,
    pub green: u8,
    pub blue: u8,
}

impl Rgb {
    pub fn black() -> (r: Rgb)
        ensures
            r == (Rgb { red: 0, green: 0, blue: 0 }),
    {
        Rgb { red: 0, green: 0, blue: 0 }
    }

    pub fn white() -> (r: Rgb)
        ensures
            r == (Rgb { red: 255, green: 255, blue: 255 }),
    {
        Rgb { red: 255, green: 255, blue: 255 }
    }
}

/// A colour as displayed: its hue and its current opacity.
#[derive(Clone, Copy, Debug, PartialEq, Eq, Structural)]
pub struct Paint {
    pub color: Rgb,
    pub alpha: Opacity,
}

impl Paint {
    /// The same colour at another opacity.
    pub fn with_alpha(self, alpha: Opacity) -> (r: Paint)
        ensures
            r == (Paint { color: self.color, alpha }),
    {
        Paint { color: self.color, alpha }
    }
}

} // verus!
