//! Pipeline state and the decisions the pipeline loop takes between
//! ticks, plus the registry of the systems that plugins place in stages.

use vstd::prelude::*;

use crate::engine::schedule::Stage;

verus! {

/// Controls the life cycle of the pipeline loop.
#[derive(Debug, Clone, Copy, PartialEq, Eq, Structural)]
pub struct PipelineState {
    /// When `true`, the loop ends after the current tick.
    pub should_stop: bool,
    /// Number of ticks run so far.
    pub tick_count: u64,
}

impl Default for PipelineState {
    fn default() -> (res: PipelineState)
        ensures
            res == (PipelineState { should_stop: false, tick_count: 0 }),
    {
        PipelineState { should_stop: false, tick_count: 0 }
    }
}

impl PipelineState {
    /// The decision the loop takes after each tick: run another tick
    /// exactly when no system asked to stop.
    pub fn keep_running(&self) -> (res: bool)
        ensures
            res == !self.should_stop,
    {
        !self.should_stop
    }

    /// Counts one more tick run (the count stays put at its maximum).
    pub fn record_tick(&mut self)
        ensures
            final(self).should_stop == old(self).should_stop,
            final(self).tick_count == (if old(self).tick_count < u64::MAX {
                old(self).tick_count + 1
            } else {
                old(self).tick_count as int
            }),
    {
        self.tick_count = self.tick_count.saturating_add(1);
    }

    /// Asks the loop to end after the current tick.
    pub fn request_stop(&mut self)
        ensures
            final(self).should_stop,
            final(self).tick_count == old(self).tick_count,
    {
        self.should_stop = true;
    }
}

/// Whether a plugin of this name is new to the pipeline: plugins whose
/// name is already registered are ignored.
pub fn is_new_plugin(registered: &Vec<String>, name: &String) -> (res: bool)
    ensures
        res == (forall|i: int| 0 <= i < registered@.len() ==> #[trigger] registered@[i]@ != name@),
{
    let mut i: usize = 0;
    while i < registered.len()
        invariant
            i <= registered@.len(),
            forall|j: int| 0 <= j < i ==> #[trigger] registered@[j]@ != name@,
        decreases registered@.len() - i,
    {
        if registered[i] == *name {
            return false;
        }
        i = i + 1;
    }
    true
}

/// The systems that the bundled plugins provide.
#[derive(Debug, Clone, Copy, PartialEq, Eq, Structural)]
pub enum SystemKind {
    /// Reads the configured image and spawns a frame.
    ImageReader,
    /// Writes every frame to the configured output.
    ImageWriter,
    /// Converts RGB frames to luminance.
    Grayscale,
    /// Computes Sobel edge maps of luminance frames.
    Sobel,
    /// Attaches model predictions to frames.
    Inference,
}

/// A system placed in a stage by a plugin.
#[derive(Debug, Clone, Copy, PartialEq, Eq, Structural)]
pub struct Registration {
    /// The stage whose schedule runs the system.
    pub stage: Stage,
    /// The system.
    pub system: SystemKind,
}

} // verus!
