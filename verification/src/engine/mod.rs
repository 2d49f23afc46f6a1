//! The pipeline engine: frames, stages and pipeline state.

pub mod frame;
pub mod pipeline;
pub mod schedule;
