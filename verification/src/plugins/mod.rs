//! The bundled plugins: I/O, classic filters and model inference.

pub mod filters;
pub mod io;
pub mod ml;
