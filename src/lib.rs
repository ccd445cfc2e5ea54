//! Input, frame, surface and geometry logic of a first-person GPU renderer.
pub mod frame;
pub mod input;
pub mod mesh;
pub mod surface;
