//! A single square sprite moving over a fixed pixel surface.
pub mod bounds;
pub mod color;
pub mod direction;
pub mod error;
pub mod laws;
pub mod model;
pub mod world;
