//! Points, vectors and the two shapes a host is asked to paint.
//!
//! Every coordinate is a whole number of pixels. The origin is the top-left
//! corner of the playfield and `y` grows downwards.

use vstd::prelude::*;

verus! {

/// A position on the playfield.
#[derive(Clone, Copy, Debug, PartialEq, Eq, Structural)]
pub struct Point {
    pub x: i32,
    pub y: i32,
}

/// A displacement per tick.
#[derive(Clone, Copy, Debug, PartialEq, Eq, Structural)]
pub struct Vector {
    pub x: i32,
    pub y: i32,
}

/// An opaque colour, carried through to the host untouched.
#[derive(Clone, Copy, Debug, PartialEq, Eq, Structural)]
pub struct Color {
    pub r: u8,
    pub g: u8,
    pub b: u8,
}

/// The integer nearest to `v` that an `i32` can hold.
pub open spec fn saturate(v: int) -> int {
    if v < i32::MIN as int {
        i32::MIN as int
    } else if v > i32::MAX as int {
        i32::MAX as int
    } else {
        v
    }
}

/// `v` pulled into the closed interval `[lo, hi]`.
pub open spec fn clamp(v: int, lo: int, hi: int) -> int {
    if v < lo {
        lo
    } else if v > hi {
        hi
    } else {
        v
    }
}

/// The absolute value of `v`.
pub open spec fn magnitude(v: int) -> int {
    if v < 0 {
        -v
    } else {
        v
    }
}

/// Adds two coordinates, stopping at the ends of the `i32` range instead of
/// wrapping round.
pub fn saturating_sum(a: i32, b: i32) -> (r: i32)
    ensures
        r as int == saturate(a as int + b as int),
{
    let wide: i64 = a as i64 + b as i64;
    if wide < i32::MIN as i64 {
        i32::MIN
    } else if wide > i32::MAX as i64 {
        i32::MAX
    } else {
        wide as i32
    }
}

/// Subtracts `b` from `a`, stopping at the ends of the `i32` range instead
/// of wrapping round.
pub fn saturating_difference(a: i32, b: i32) -> (r: i32)
    ensures
        r as int == saturate(a as int - b as int),
{
    let wide: i64 = a as i64 - b as i64;
    if wide < i32::MIN as i64 {
        i32::MIN
    } else if wide > i32::MAX as i64 {
        i32::MAX
    } else {
        wide as i32
    }
}

/// The size of `v` without its sign; the one value whose size does not fit
/// becomes `i32::MAX`.
pub fn saturating_magnitude(v: i32) -> (r: i32)
    ensures
        r as int == saturate(magnitude(v as int)),
        r >= 0,
{
    if v == i32::MIN {
        i32::MAX
    } else if v < 0 {
        -v
    } else {
        v
    }
}

impl Color {
    /// Full white, the colour of everything on the playfield.
    pub fn white() -> (c: Color)
        ensures
            c == (Color { r: 255, g: 255, b: 255 }),
    {
        Color { r: 255, g: 255, b: 255 }
    }
}

} // verus!
