//! The reader system's decisions: whether to open the input, which
//! metadata the read frame carries, and what a successful or failed read
//! does to the configuration and the pipeline state.

use vstd::prelude::*;

use crate::engine::frame::{Frame, FrameMeta};
use crate::engine::pipeline::PipelineState;
use crate::plugins::io::IoConfig;

verus! {

/// A successful read: the configuration keeps its paths and format and
/// its next index advances by one.
pub open spec fn read_advances(before: IoConfig, after: IoConfig) -> bool {
    &&& after.input_path == before.input_path
    &&& after.output_path == before.output_path
    &&& after.format == before.format
    &&& after.next_index == before.next_index + 1
}

impl IoConfig {
    /// Reader, first decision of a tick: with no input path configured the
    /// pipeline is asked to stop and nothing is opened (`false`);
    /// otherwise the input is to be opened (`true`) and nothing changes.
    pub fn reader_should_open(&self, state: &mut PipelineState) -> (open: bool)
        ensures
            open == (self.input_path@.len() > 0),
            !open ==> final(state).should_stop && final(state).tick_count == old(state).tick_count,
            open ==> *final(state) == *old(state),
    {
        if self.input_path.as_str().is_empty() {
            state.request_stop();
            false
        } else {
            true
        }
    }

    /// Metadata of the frame about to be read: the next index, timestamp
    /// 0, and the input path as its source.
    pub fn next_frame_meta(&self) -> (res: FrameMeta)
        ensures
            res.index == self.next_index,
            res.timestamp_us == 0,
            res.source@ == self.input_path@,
    {
        FrameMeta { index: self.next_index, timestamp_us: 0, source: self.input_path.clone() }
    }

    /// Reader, second decision of a tick, given the frame decoded from the
    /// input (`None` when opening or decoding failed): a failure asks the
    /// pipeline to stop and spawns nothing; a frame is spawned and the next
    /// index advances by one.
    pub fn reader_accept(&mut self, state: &mut PipelineState, decoded: Option<Frame>) -> (spawn:
        Option<Frame>)
        requires
            decoded is Some ==> old(self).next_index < u64::MAX,
        ensures
            spawn == decoded,
            decoded is None ==> *final(self) == *old(self) && final(state).should_stop
                && final(state).tick_count == old(state).tick_count,
            decoded is Some ==> read_advances(*old(self), *final(self)) && *final(state) == *old(
                state,
            ),
    {
        match decoded {
            None => {
                state.request_stop();
                None
            },
            Some(frame) => {
                self.next_index = self.next_index + 1;
                Some(frame)
            },
        }
    }
}

/// Indices after a run of successful reads: after `i` of them the next
/// index has advanced by `i`.
proof fn lemma_index_after_reads(configs: Seq<IoConfig>, i: int)
    requires
        0 <= i < configs.len(),
        forall|j: int| 0 <= j < configs.len() - 1 ==> #[trigger] read_advances(configs[j], configs[j + 1]),
    ensures
        configs[i].next_index == configs[0].next_index + i,
    decreases i,
{
    if i > 0 {
        lemma_index_after_reads(configs, i - 1);
        assert(read_advances(configs[i - 1], configs[i - 1 + 1]));
    }
}

/// Frames are numbered in reading order: over consecutive successful reads,
/// where each frame takes the metadata the configuration gives before its
/// read, the frames carry the indices `n0, n0 + 1, …` without gap or
/// repeat, and the next index ends `n0 + k` after `k` reads.
pub proof fn law_reads_are_numbered_in_order(configs: Seq<IoConfig>, metas: Seq<FrameMeta>)
    requires
        configs.len() == metas.len() + 1,
        forall|j: int| 0 <= j < metas.len() ==> #[trigger] read_advances(configs[j], configs[j + 1]),
        forall|j: int| 0 <= j < metas.len() ==> #[trigger] metas[j].index == configs[j].next_index,
    ensures
        forall|j: int| 0 <= j < metas.len() ==> #[trigger] metas[j].index == configs[0].next_index + j,
        configs[metas.len() as int].next_index == configs[0].next_index + metas.len(),
{
    assert forall|j: int| 0 <= j < metas.len() implies #[trigger] metas[j].index == configs[0].next_index
        + j by {
        lemma_index_after_reads(configs, j);
    }
    lemma_index_after_reads(configs, metas.len() as int);
}

} // verus!
