//! Verified core of an interactive globe viewer.
//!
//! The library keeps a GPU-drawn globe wireframe and a 2D marker overlay
//! in geometric agreement while the user drags the view or flies to a
//! marker.  All of its arithmetic is fixed-point (see [`fixed`]), so the
//! coordinate transforms, the rotation state and the interaction state
//! machine are verified exactly; the canvas, GPU and event plumbing that
//! feed it live outside the library.

pub mod fixed;
pub mod trig;
pub mod geo;
pub mod peer;
pub mod controller;
pub mod render;
