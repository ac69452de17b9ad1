//! A small ray-tracing renderer.
//!
//! The renderer walks a list of camera rays, finds for each the nearest
//! scene object it hits, accumulates diffuse, specular, shadowed and
//! ambient light at the hit point, follows transparent objects with a
//! bounded recursion, and hands the resulting color to a canvas sink.
//!
//! All arithmetic is carried out on [`fixed::Fx`], a saturating
//! fixed-point scalar, so every color that comes out of the renderer is
//! a mathematical function of the scene alone.

pub mod colors;
pub mod lights;
pub mod scene;
pub mod fixed;
pub mod primitives;
pub mod renderer;
pub mod result;
pub mod vector;
