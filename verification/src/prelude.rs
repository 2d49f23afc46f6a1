//! Convenient re-exports: `use perceptor::prelude::*;`.

pub use crate::engine::frame::{Frame, FrameMeta};
pub use crate::engine::pipeline::PipelineState;
pub use crate::engine::schedule::{InputStage, OutputStage, ProcessStage, Stage};
pub use crate::pixels::PixelBuffer;
pub use crate::plugins::filters::FiltersPlugin;
pub use crate::plugins::ml::MlPlugin;
