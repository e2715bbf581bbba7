//! Core logic of a freehand drawing application: a vector-image stroke type
//! with axis-aligned bounds in integer document coordinates, the SVG
//! composition helpers it relies on, and the pure half of the application's
//! settings synchronization (color packing, color-scheme mappings, and the
//! declarative binding table).

pub mod appsettings;
pub mod color;
pub mod compose;
pub mod error;
pub mod geometry;
pub mod render;
pub mod vectorimage;
