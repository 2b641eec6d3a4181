//! RGBA colors with fixed-point channels.

use vstd::prelude::*;

use crate::geometry::UNIT;

verus! {

/// An RGBA color. Each channel is stored in thousandths: `0` is fully off,
/// [`UNIT`] is fully on.
#[derive(Clone, Copy, PartialEq, Eq, Structural, Debug)]
pub struct Color {
    pub r: i64,
    pub g: i64,
    pub b: i64,
    pub a: i64,
}

impl Color {
    pub open spec fn wf(self) -> bool {
        0 <= self.r <= UNIT && 0 <= self.g <= UNIT && 0 <= self.b <= UNIT && 0 <= self.a <= UNIT
    }

    pub fn new(r: i64, g: i64, b: i64, a: i64) -> (c: Color)
        ensures
            c == (Color { r, g, b, a }),
    {
        Color { r, g, b, a }
    }

    /// The same color with its alpha channel multiplied by `strength`
    /// (a fixed-point factor in `0..=UNIT`).
    pub fn with_alpha_scaled_by(&self, strength: i64) -> (c: Color)
        requires
            self.wf(),
            0 <= strength <= UNIT,
        ensures
            c.r == self.r,
            c.g == self.g,
            c.b == self.b,
            c.a == self.a * strength / (UNIT as int),
            c.wf(),
    {
        proof {
            assert(0 <= self.a * strength <= UNIT * UNIT) by (nonlinear_arith)
                requires
                    0 <= self.a <= UNIT && 0 <= strength <= UNIT,
            ;
        }
        Color { r: self.r, g: self.g, b: self.b, a: (self.a * strength) / UNIT }
    }
}

} // verus!
