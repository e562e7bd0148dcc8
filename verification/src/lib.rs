//! Rendering context and frame lifecycle for a single textured polygon.
//!
//! The crate decides what a GPU backend has to do and in which order; the
//! backend itself (device, queue, surface, window) lives with the host.

pub mod binding;
pub mod frame;
pub mod geometry;
pub mod pipeline;
pub mod surface;
pub mod texture;
