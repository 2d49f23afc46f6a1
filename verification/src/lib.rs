//! Perceptor: a computer-vision library whose frames flow through a staged
//! pipeline (input, pre-process, process, post-process, output). This
//! crate holds the verified core: the pixel model, the grayscale and Sobel
//! filters, the stage order, the plugins' registrations and the decisions
//! the pipeline's systems take on every tick.

pub mod binary32;
pub mod engine;
pub mod pixels;
pub mod plugins;
pub mod prelude;
