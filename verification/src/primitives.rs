//! Rays through the scene.

use crate::vector::{v3_between_s, Vec3};
use vstd::prelude::*;

verus! {

/// A half-line: an origin point and a direction vector.
///
/// Directions handed to the shading code are expected to be normalized;
/// the intersection search itself copes with any direction.
#[derive(Clone, Copy, Debug, PartialEq, Eq, Structural)]
pub struct Ray {
    pub source: Vec3,
    pub direction: Vec3,
}

/// The ray starting at `source` and pointing toward `destination`.
pub open spec fn ray_from_to_s(source: Vec3, destination: Vec3) -> Ray {
    Ray { source, direction: v3_between_s(source, destination) }
}

impl Ray {
    /// The ray with the given origin and direction.
    pub fn new(source: Vec3, direction: Vec3) -> (r: Ray)
        ensures
            r == (Ray { source, direction }),
    {
        Ray { source, direction }
    }

    /// The ray starting at `source` and pointing toward `destination`.
    pub fn ray_from_to(source: Vec3, destination: Vec3) -> (r: Ray)
        ensures
            r == ray_from_to_s(source, destination),
    {
        Ray { source, direction: Vec3::between_points(source, destination) }
    }
}

} // verus!
