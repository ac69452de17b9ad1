//! Light sources.

use crate::colors::{col_scale_s, Color};
use crate::fixed::{fx_div_s, fx_mul_s, Fx};
use crate::vector::{fx_of, v3_distance_s, Vec3};
use vstd::prelude::*;

verus! {

/// Inverse-square fading: the light color is scaled by
/// `factor / (d * d)` for a surface point at distance `d`.
#[derive(Clone, Copy, Debug, PartialEq, Eq, Structural)]
pub struct Attenuation {
    pub factor: Fx,
}

/// A point light: a position and a color, radiated either uniformly or
/// fading with the square of the distance.
#[derive(Clone, Copy, Debug, PartialEq, Eq, Structural)]
pub struct Light {
    pub source: Vec3,
    pub color: Color,
    pub attenuation: Option<Attenuation>,
}

/// The color the light sheds on the given surface point.
pub open spec fn light_color_at_s(light: Light, point: Vec3) -> Color {
    match light.attenuation {
        None => light.color,
        Some(attenuation) => {
            let d = v3_distance_s(light.source, point);
            col_scale_s(light.color, fx_of(fx_div_s(attenuation.factor.raw as int, fx_mul_s(d, d))))
        },
    }
}

impl Light {
    /// A point light at `source` shining uniformly with `color`.
    pub fn new(source: Vec3, color: Color) -> (r: Light)
        ensures
            r == (Light { source, color, attenuation: None::<Attenuation> }),
    {
        Light { source, color, attenuation: None }
    }

    /// A point light whose color fades with the square of the
    /// distance, scaled by `factor`.
    pub fn new_attenuated(source: Vec3, color: Color, factor: Fx) -> (r: Light)
        ensures
            r == (Light { source, color, attenuation: Some(Attenuation { factor }) }),
    {
        Light { source, color, attenuation: Some(Attenuation { factor }) }
    }

    /// The position the light radiates from.
    pub fn source(&self) -> (r: Vec3)
        ensures
            r == self.source,
    {
        self.source
    }

    /// The color the light sheds on the given surface point.
    pub fn light_color_at(&self, point: Vec3) -> (r: Color)
        ensures
            r == light_color_at_s(*self, point),
    {
        match self.attenuation {
            None => self.color,
            Some(attenuation) => {
                let d = self.source.distance(point);
                self.color.scale(attenuation.factor.div(d.mul(d)))
            },
        }
    }
}

} // verus!
