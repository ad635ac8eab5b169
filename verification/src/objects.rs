//! Plain draw primitives a rendering collaborator consumes.

use vstd::prelude::*;

verus! {

/// An RGBA color.
#[derive(Clone, Copy, PartialEq, Eq, Structural, Debug)]
pub struct Color {
    pub r: u8,
    pub g: u8,
    pub b: u8,
    pub a: u8,
}

/// A 2D quad starting in the upper left corner.
#[derive(Clone, Copy, Debug)]
pub struct Quad2D {
    pub x: u32,
    pub y: u32,
    pub width: u32,
    pub height: u32,
    pub color: Color,
}

impl Quad2D {
    pub fn new(x: u32, y: u32, width: u32, height: u32, color: Color) -> (r: Self)
        ensures
            r == (Quad2D { x, y, width, height, color }),
    {
        Quad2D { x, y, width, height, color }
    }
}

} // verus!
