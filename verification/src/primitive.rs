//! The plain values that cross the library: numbers for the shader, points,
//! rectangles and colors.
//!
//! The GPU reads 32-bit IEEE 754 numbers. The library moves them from the
//! widget to the instance buffer and never computes with them, so it holds each
//! by its bit pattern.

use vstd::prelude::*;

verus! {

/// A 32-bit IEEE 754 number, held by its bit pattern.
#[derive(Clone, Copy, Debug, PartialEq, Eq, Structural, Hash)]
pub struct Float {
    /// The 32 bits of the number.
    pub bits: u32,
}

/// The bit pattern of zero.
pub const ZERO_BITS: u32 = 0;

/// The bit pattern of one.
pub const ONE_BITS: u32 = 0x3f80_0000;

impl Float {
    /// The number with the given bit pattern.
    pub fn from_bits(bits: u32) -> (number: Float)
        ensures
            number.bits == bits,
    {
        Float { bits }
    }

    /// The bit pattern of the number.
    pub fn to_bits(self) -> (bits: u32)
        ensures
            bits == self.bits,
    {
        self.bits
    }

    /// Zero.
    pub fn zero() -> (number: Float)
        ensures
            number.bits == ZERO_BITS,
    {
        Float { bits: ZERO_BITS }
    }

    /// One.
    pub fn one() -> (number: Float)
        ensures
            number.bits == ONE_BITS,
    {
        Float { bits: ONE_BITS }
    }
}

/// A 2D point.
#[derive(Clone, Copy, Debug, PartialEq, Eq, Structural)]
pub struct Point {
    /// The X coordinate.
    pub x: Float,
    /// The Y coordinate.
    pub y: Float,
}

/// A rectangle.
#[derive(Debug, PartialEq, Eq, Structural)]
pub struct Rectangle<T> {
    /// X coordinate of the top-left corner.
    pub x: T,
    /// Y coordinate of the top-left corner.
    pub y: T,
    /// Width of the rectangle.
    pub width: T,
    /// Height of the rectangle.
    pub height: T,
}

impl<T: Copy> Clone for Rectangle<T> {
    fn clone(&self) -> (copy: Self)
        ensures
            copy == *self,
    {
        *self
    }
}

impl<T: Copy> Copy for Rectangle<T> {}

/// A color in the sRGB color space.
#[derive(Clone, Copy, Debug, PartialEq, Eq, Structural)]
pub struct Color {
    /// Red component, 0.0 - 1.0
    pub r: Float,
    /// Green component, 0.0 - 1.0
    pub g: Float,
    /// Blue component, 0.0 - 1.0
    pub b: Float,
    /// Transparency, 0.0 - 1.0
    pub a: Float,
}

impl Color {
    /// Black: no red, green or blue, and opaque.
    pub open spec fn black_spec() -> Color {
        Color {
            r: Float { bits: ZERO_BITS },
            g: Float { bits: ZERO_BITS },
            b: Float { bits: ZERO_BITS },
            a: Float { bits: ONE_BITS },
        }
    }

    /// Black: no red, green or blue, and opaque.
    pub fn black() -> (color: Color)
        ensures
            color == Color::black_spec(),
    {
        Color { r: Float::zero(), g: Float::zero(), b: Float::zero(), a: Float::one() }
    }

    /// An opaque color with the given components.
    pub fn from_rgb(r: Float, g: Float, b: Float) -> (color: Color)
        ensures
            color == (Color { r, g, b, a: Float { bits: ONE_BITS } }),
    {
        Color { r, g, b, a: Float::one() }
    }
}

} // verus!
