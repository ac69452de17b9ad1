//! Colors with three fixed-point components.
//!
//! Components are unclamped to the unit interval: light accumulation may
//! build over-bright values, and quantization to displayable channels is
//! a concern of the canvas sink, not of the renderer.

use crate::fixed::{fx_add_s, fx_mul_s, Fx};
use crate::vector::fx_of;
use vstd::prelude::*;

verus! {

/// A color with red, green and blue fixed-point components.
#[derive(Clone, Copy, Debug, PartialEq, Eq, Structural)]
pub struct Color {
    pub red: Fx,
    pub green: Fx,
    pub blue: Fx,
}

/// The black color: all components zero.
pub open spec fn col_black_s() -> Color {
    Color { red: fx_of(0), green: fx_of(0), blue: fx_of(0) }
}

/// Component-wise color sum.
pub open spec fn col_add_s(a: Color, b: Color) -> Color {
    Color {
        red: fx_of(fx_add_s(a.red.raw as int, b.red.raw as int)),
        green: fx_of(fx_add_s(a.green.raw as int, b.green.raw as int)),
        blue: fx_of(fx_add_s(a.blue.raw as int, b.blue.raw as int)),
    }
}

/// Component-wise color product.
pub open spec fn col_mul_s(a: Color, b: Color) -> Color {
    Color {
        red: fx_of(fx_mul_s(a.red.raw as int, b.red.raw as int)),
        green: fx_of(fx_mul_s(a.green.raw as int, b.green.raw as int)),
        blue: fx_of(fx_mul_s(a.blue.raw as int, b.blue.raw as int)),
    }
}

/// The color scaled by the scalar `k`.
pub open spec fn col_scale_s(c: Color, k: Fx) -> Color {
    Color {
        red: fx_of(fx_mul_s(c.red.raw as int, k.raw as int)),
        green: fx_of(fx_mul_s(c.green.raw as int, k.raw as int)),
        blue: fx_of(fx_mul_s(c.blue.raw as int, k.raw as int)),
    }
}

impl Color {
    /// The color with the given components.
    pub fn new(red: Fx, green: Fx, blue: Fx) -> (r: Color)
        ensures
            r == (Color { red, green, blue }),
    {
        Color { red, green, blue }
    }

    /// The black color.
    pub fn black() -> (r: Color)
        ensures
            r == col_black_s(),
    {
        Color { red: Fx::zero(), green: Fx::zero(), blue: Fx::zero() }
    }

    /// Component-wise color sum.
    pub fn add(self, other: Color) -> (r: Color)
        ensures
            r == col_add_s(self, other),
    {
        Color {
            red: self.red.add(other.red),
            green: self.green.add(other.green),
            blue: self.blue.add(other.blue),
        }
    }

    /// Component-wise color product.
    pub fn mul(self, other: Color) -> (r: Color)
        ensures
            r == col_mul_s(self, other),
    {
        Color {
            red: self.red.mul(other.red),
            green: self.green.mul(other.green),
            blue: self.blue.mul(other.blue),
        }
    }

    /// The color scaled by the scalar `k`.
    pub fn scale(self, k: Fx) -> (r: Color)
        ensures
            r == col_scale_s(self, k),
    {
        Color { red: self.red.mul(k), green: self.green.mul(k), blue: self.blue.mul(k) }
    }

    /// The red component.
    pub fn red(self) -> (r: Fx)
        ensures
            r == self.red,
    {
        self.red
    }

    /// The green component.
    pub fn green(self) -> (r: Fx)
        ensures
            r == self.green,
    {
        self.green
    }

    /// The blue component.
    pub fn blue(self) -> (r: Fx)
        ensures
            r == self.blue,
    {
        self.blue
    }
}

} // verus!
