//! Background clear colours, kept as exact fractions.
//!
//! The GPU wants each channel as a floating-point fraction of full
//! intensity. The library stores the numerator and denominator instead, so
//! the event-loop logic stays exact; the driver layer divides the two when
//! it hands the colour on.

use vstd::prelude::*;

use crate::size::Size;

verus! {

/// One colour channel as the fraction `num / den` of full intensity.
/// The denominator is never zero.
#[derive(Clone, Copy, Debug, PartialEq, Eq, Structural)]
pub struct Channel {
    pub num: u32,
    pub den: u32,
}

impl Channel {
    pub open spec fn wf(self) -> bool {
        self.den > 0
    }
}

/// A clear colour with red, green, blue and alpha channels.
#[derive(Clone, Copy, Debug, PartialEq, Eq, Structural)]
pub struct Color {
    pub r: Channel,
    pub g: Channel,
    pub b: Channel,
    pub a: Channel,
}

/// The fixed dark background both run modes start from:
/// red 0.05, green 0.062, blue 0.08, alpha 1.
pub open spec fn spec_default_background() -> Color {
    Color {
        r: Channel { num: 50, den: 1000 },
        g: Channel { num: 62, den: 1000 },
        b: Channel { num: 80, den: 1000 },
        a: Channel { num: 1000, den: 1000 },
    }
}

/// The colour the cursor position `(x, y)` selects in a window of size
/// `size`: red is `x / width`, green is `y / height`, blue and alpha full.
pub open spec fn spec_cursor_color(x: u32, y: u32, size: Size) -> Color {
    Color {
        r: Channel { num: x, den: size.width },
        g: Channel { num: y, den: size.height },
        b: Channel { num: 1, den: 1 },
        a: Channel { num: 1, den: 1 },
    }
}

impl Color {
    pub open spec fn wf(self) -> bool {
        self.r.wf() && self.g.wf() && self.b.wf() && self.a.wf()
    }

    /// The startup background colour.
    pub fn default_background() -> (c: Color)
        ensures
            c == spec_default_background(),
            c.wf(),
    {
        Color {
            r: Channel { num: 50, den: 1000 },
            g: Channel { num: 62, den: 1000 },
            b: Channel { num: 80, den: 1000 },
            a: Channel { num: 1000, den: 1000 },
        }
    }

    /// The background colour driven by the cursor position.
    pub fn from_cursor(x: u32, y: u32, size: Size) -> (c: Color)
        requires
            size.is_nonzero(),
        ensures
            c == spec_cursor_color(x, y, size),
            c.wf(),
    {
        Color {
            r: Channel { num: x, den: size.width },
            g: Channel { num: y, den: size.height },
            b: Channel { num: 1, den: 1 },
            a: Channel { num: 1, den: 1 },
        }
    }
}

} // verus!
