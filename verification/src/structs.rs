//! Numbers and the plain shapes built from them.
#![allow(non_snake_case)]

use vstd::prelude::*;

verus! {

/// A real number, held as the 64 bits of its binary64 encoding.
///
/// The interpreter carries numbers from one place to another and never does
/// arithmetic on them, so the encoding is all it needs.
#[derive(Clone, Copy, Debug)]
pub struct Real {
    pub bits: u64,
}

impl Real {
    /// The number with the given encoding.
    pub fn from_bits(bits: u64) -> (r: Real)
        ensures
            r.bits == bits,
    {
        Real { bits }
    }

    /// The encoding of this number.
    pub fn to_bits(&self) -> (r: u64)
        ensures
            r == self.bits,
    {
        self.bits
    }
}

/// A point of the plane.
#[derive(Clone, Copy, Debug)]
pub struct Point {
    pub x: Real,
    pub y: Real,
}

/// A circle with centre `O` and radius `r`.
#[derive(Clone, Copy, Debug)]
pub struct Circle {
    pub O: Point,
    pub r: Real,
}

/// The segment between two points.
#[derive(Clone, Copy, Debug)]
pub struct Segment {
    pub from: Point,
    pub to: Point,
}

/// An arc of the circle around `O` with radius `r`, from `from` to `to`.
///
/// `angle` is the signed angle that the arc sweeps; `sweep` and `large_arc` say
/// which of the four arcs between the two end points is meant.
#[derive(Clone, Copy, Debug)]
pub struct Arc {
    pub from: Point,
    pub to: Point,
    pub O: Point,
    pub r: Real,
    pub sweep: bool,
    pub large_arc: bool,
    pub angle: Real,
}

impl Segment {
    /// The segment from `A` to `B`.
    pub fn new(A: Point, B: Point) -> (r: Segment)
        ensures
            r.from == A,
            r.to == B,
    {
        Segment { from: A, to: B }
    }
}

} // verus!
