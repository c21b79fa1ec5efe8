//! The verified core of a painting application: which texture the canvas shows
//! next, where a slider's bounds are found, how the camera's actions are bound
//! to input, and the errors the systems report.
pub mod camera;
pub mod canvas;
pub mod error;
pub mod ui;

pub use error::Error;
