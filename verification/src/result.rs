//! Errors a render can end with.
//!
//! Every error aborts the whole render: there is no per-pixel recovery.

use vstd::prelude::*;

verus! {

/// The error a canvas sink reports when a pixel cannot be drawn.
#[derive(Debug)]
pub struct DrawCanvasError(pub String);

/// The ways a render can fail.
#[derive(Debug)]
pub enum RaytracerError {
    /// The hit object has no surface normal at the hit point.
    /// Carries the index of the object in the scene's object list.
    NormalNotFound(usize),
    /// The scene has no light at all, checked before any pixel is
    /// traced.
    NoLight,
    /// The canvas sink refused a pixel; carries the sink's message.
    CanvasWriteFailure(String),
}

} // verus!
