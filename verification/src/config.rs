//! The marker tool's configuration snapshot and its small value types.

use vstd::prelude::*;

use crate::color::Color;
use crate::geometry::UNIT;

verus! {

/// The error type of this crate's fallible operations.
#[derive(Clone, Copy, PartialEq, Eq, Structural, Debug)]
pub enum MarkerError {
    /// The given integer tag does not name a marker shape.
    InvalidShapeTag(u32),
}

/// Cap/join style of a marker stroke. Purely a rendering parameter: the
/// stored path is the same for both shapes.
#[derive(Clone, Copy, PartialEq, Eq, Structural, Debug, Hash)]
pub enum MarkerShape {
    Circular,
    Rectangular,
}

impl Default for MarkerShape {
    fn default() -> (r: Self)
        ensures
            r == MarkerShape::Circular,
    {
        MarkerShape::Circular
    }
}

impl MarkerShape {
    /// Decode the persisted small-integer tag of a shape.
    pub fn try_from_u32(value: u32) -> (r: Result<MarkerShape, MarkerError>)
        ensures
            value == 0 ==> r == Ok::<MarkerShape, MarkerError>(MarkerShape::Circular),
            value == 1 ==> r == Ok::<MarkerShape, MarkerError>(MarkerShape::Rectangular),
            value >= 2 ==> r == Err::<MarkerShape, MarkerError>(MarkerError::InvalidShapeTag(
                value,
            )),
    {
        if value == 0 {
            Ok(MarkerShape::Circular)
        } else if value == 1 {
            Ok(MarkerShape::Rectangular)
        } else {
            Err(MarkerError::InvalidShapeTag(value))
        }
    }

    /// The persisted small-integer tag of this shape.
    pub fn to_u32(&self) -> (r: u32)
        ensures
            *self == MarkerShape::Circular ==> r == 0,
            *self == MarkerShape::Rectangular ==> r == 1,
    {
        match self {
            MarkerShape::Circular => 0,
            MarkerShape::Rectangular => 1,
        }
    }
}

/// The store layer a stroke is inserted on.
#[derive(Clone, Copy, PartialEq, Eq, Structural, Debug)]
pub enum StrokeLayer {
    /// Ordinary user ink.
    UserLayer,
    /// Translucent ink drawn above user ink; the layer the marker writes to.
    Highlighter,
}

/// Smallest accepted opacity multiplier (fixed-point, thousandths).
pub const STRENGTH_MIN: i64 = 0;

/// Largest accepted opacity multiplier (fixed-point: a factor of one).
pub const STRENGTH_MAX: i64 = 1000;

/// Smallest accepted stroke width (fixed-point: one distance unit).
pub const WIDTH_MIN: i64 = 1000;

/// Largest accepted stroke width (fixed-point: 500 distance units).
pub const WIDTH_MAX: i64 = 500_000;

/// The immutable configuration snapshot the tool captures when a stroke
/// starts: width, shape, base color and the opacity multiplier.
#[derive(Clone, Copy, PartialEq, Eq, Structural, Debug)]
pub struct MarkerConfig {
    pub strength: i64,
    pub width: i64,
    pub shape: MarkerShape,
    pub color: Color,
}

impl MarkerConfig {
    pub open spec fn wf(self) -> bool {
        STRENGTH_MIN <= self.strength <= STRENGTH_MAX && WIDTH_MIN <= self.width <= WIDTH_MAX
            && self.color.wf()
    }

    /// The effective stroke color: the base color with its alpha multiplied
    /// by the strength factor.
    pub open spec fn spec_effective_color(self) -> Color {
        Color {
            r: self.color.r,
            g: self.color.g,
            b: self.color.b,
            a: (self.color.a * self.strength / (UNIT as int)) as i64,
        }
    }

    pub fn effective_color(&self) -> (c: Color)
        requires
            self.wf(),
        ensures
            c == self.spec_effective_color(),
            c.wf(),
    {
        self.color.with_alpha_scaled_by(self.strength)
    }

    /// The layer the marker draws on.
    pub fn layer(&self) -> (r: StrokeLayer)
        ensures
            r == StrokeLayer::Highlighter,
    {
        StrokeLayer::Highlighter
    }
}

impl Default for MarkerConfig {
    /// A yellow, half-strength marker of width 15 units.
    fn default() -> (r: Self)
        ensures
            r.strength == 500,
            r.width == 15_000,
            r.shape == MarkerShape::Circular,
            r.color == (Color { r: 1000, g: 900, b: 0, a: 1000 }),
            r.wf(),
    {
        MarkerConfig {
            strength: 500,
            width: 15_000,
            shape: MarkerShape::Circular,
            color: Color { r: 1000, g: 900, b: 0, a: 1000 },
        }
    }
}

} // verus!
