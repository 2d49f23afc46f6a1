//! The writer system's decisions: whether to write at all, how each frame
//! is handed to the encoder, and stopping the pipeline afterwards.

use vstd::prelude::*;

use crate::engine::frame::Frame;
use crate::engine::pipeline::PipelineState;
use crate::pixels::PixelView;
use crate::plugins::io::IoConfig;

verus! {

/// How a frame's bytes are laid out for encoding.
#[derive(Debug, Clone, Copy, PartialEq, Eq, Structural)]
pub enum PixelLayout {
    /// One luminance byte per pixel.
    Luma8,
    /// Three bytes (red, green, blue) per pixel.
    Rgb8,
}

/// What the writer hands the encoder for one frame, besides its bytes.
#[derive(Debug, Clone, Copy, PartialEq, Eq, Structural)]
pub struct EncodeRequest {
    /// Width in pixels, as the encoder's 32-bit value.
    pub width: u32,
    /// Height in pixels, as the encoder's 32-bit value.
    pub height: u32,
    /// Layout of the bytes.
    pub layout: PixelLayout,
}

/// Layout the writer uses for a frame with this many channels: luminance
/// for one channel, RGB otherwise.
pub open spec fn layout_for(channels: nat) -> PixelLayout {
    if channels == 1 {
        PixelLayout::Luma8
    } else {
        PixelLayout::Rgb8
    }
}

/// How the writer encodes a frame with this tensor.
pub open spec fn encoding_of(data: PixelView) -> EncodeRequest {
    EncodeRequest {
        width: data.width as u32,
        height: data.height as u32,
        layout: layout_for(data.channels),
    }
}

/// The writer encodes a frame with its own width and height (cast to 32
/// bits, width first), as luminance exactly when it has one channel and as
/// RGB otherwise.
pub proof fn law_encoding_follows_the_frame(data: PixelView)
    ensures
        encoding_of(data).width == data.width as u32,
        encoding_of(data).height == data.height as u32,
        (encoding_of(data).layout == PixelLayout::Luma8) <==> data.channels == 1,
        (encoding_of(data).layout == PixelLayout::Rgb8) <==> data.channels != 1,
{
}

impl IoConfig {
    /// Writer, decisions of a tick over the frames present: with no output
    /// path configured nothing is written; otherwise every frame is written,
    /// in order, as the returned requests say. Either way the pipeline is
    /// asked to stop afterwards.
    pub fn writer_plan(&self, state: &mut PipelineState, frames: &Vec<Frame>) -> (plan: Vec<
        EncodeRequest,
    >)
        ensures
            final(state).should_stop,
            final(state).tick_count == old(state).tick_count,
            self.output_path@.len() == 0 ==> plan@.len() == 0,
            self.output_path@.len() > 0 ==> plan@.len() == frames@.len(),
            self.output_path@.len() > 0 ==> forall|i: int|
                0 <= i < frames@.len() ==> #[trigger] plan@[i] == encoding_of(frames@[i].data@),
    {
        let mut plan: Vec<EncodeRequest> = Vec::new();
        if !self.output_path.as_str().is_empty() {
            let mut i: usize = 0;
            while i < frames.len()
                invariant
                    i <= frames@.len(),
                    plan@.len() == i,
                    forall|j: int| 0 <= j < i ==> #[trigger] plan@[j] == encoding_of(frames@[j].data@),
                decreases frames@.len() - i,
            {
                plan.push(frames[i].encode_request());
                i = i + 1;
            }
        }
        state.request_stop();
        plan
    }
}

impl Frame {
    /// How the writer encodes this frame: one-channel frames as luminance,
    /// all others as RGB, with the dimensions cast to 32 bits.
    pub fn encode_request(&self) -> (res: EncodeRequest)
        ensures
            res == encoding_of(self.data@),
    {
        let layout = if self.channels() == 1 {
            PixelLayout::Luma8
        } else {
            PixelLayout::Rgb8
        };
        EncodeRequest { width: self.width() as u32, height: self.height() as u32, layout }
    }
}

} // verus!
