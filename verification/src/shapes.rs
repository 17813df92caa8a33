//! The fixed-layout argument records the foreign entry points take.
//!
//! The foreign side computes with `double` fields; the bridge never does
//! arithmetic on them, so each dimension is carried as the 64-bit pattern of
//! the value and crosses the boundary bit for bit.  The unverified rim owns
//! the `repr(C)` twins of these records and converts pattern by pattern.

use vstd::prelude::*;

verus! {

/// The kind of shape a [`Shape`] record describes, matching the foreign
/// side's discriminant order.
#[derive(Clone, Copy, Debug, PartialEq, Eq, Structural)]
pub enum ShapeType {
    Circle,
    Square,
    Triangle,
}

impl ShapeType {
    /// The discriminant value this variant carries across the boundary.
    pub open spec fn code_spec(self) -> u32 {
        match self {
            ShapeType::Circle => 0,
            ShapeType::Square => 1,
            ShapeType::Triangle => 2,
        }
    }

    /// The discriminant value this variant carries across the boundary.
    pub fn code(&self) -> (c: u32)
        ensures
            c == self.code_spec(),
    {
        match self {
            ShapeType::Circle => 0,
            ShapeType::Square => 1,
            ShapeType::Triangle => 2,
        }
    }
}

/// A shape description for the general area entry point: a discriminant and
/// two dimension slots.  For a circle, `dimension1` is the radius and
/// `dimension2` is unused; for a square, `dimension1` is the side; for a
/// triangle, `dimension1` is the base and `dimension2` the height.  Each
/// dimension holds the 64-bit pattern of the numeric value.
#[derive(Clone, Copy, Debug, PartialEq, Eq, Structural)]
pub struct Shape {
    pub shape_type: ShapeType,
    pub dimension1: u64,
    pub dimension2: u64,
}

impl Shape {
    /// A circle: `dimension1` is the radius pattern, `dimension2` unused.
    pub fn circle(radius: u64) -> (s: Shape)
        ensures
            s == (Shape { shape_type: ShapeType::Circle, dimension1: radius, dimension2: 0 }),
    {
        Shape { shape_type: ShapeType::Circle, dimension1: radius, dimension2: 0 }
    }

    /// A square: `dimension1` is the side pattern, `dimension2` unused.
    pub fn square(side: u64) -> (s: Shape)
        ensures
            s == (Shape { shape_type: ShapeType::Square, dimension1: side, dimension2: 0 }),
    {
        Shape { shape_type: ShapeType::Square, dimension1: side, dimension2: 0 }
    }

    /// A triangle: `dimension1` is the base pattern, `dimension2` the
    /// height pattern.
    pub fn triangle(base: u64, height: u64) -> (s: Shape)
        ensures
            s == (Shape { shape_type: ShapeType::Triangle, dimension1: base, dimension2: height }),
    {
        Shape { shape_type: ShapeType::Triangle, dimension1: base, dimension2: height }
    }
}

/// A circle description for the struct-taking area entry point.  `radius`
/// holds the 64-bit pattern of the numeric radius.
#[derive(Clone, Copy, Debug, PartialEq, Eq, Structural)]
pub struct Circle {
    pub radius: u64,
}

} // verus!
