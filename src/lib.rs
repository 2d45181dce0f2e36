//! Derives the standard structural traits for structs and enums while
//! bounding each generated impl only on the field types that its body reads.

pub mod bodies;
pub mod bounds;
pub mod catalog;
pub mod driver;
pub mod laws;
pub mod model;
pub mod render;
pub mod text;
