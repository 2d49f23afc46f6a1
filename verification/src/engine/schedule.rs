//! The stages of a pipeline tick and their canonical order:
//!
//! ```text
//! InputStage → PreProcessStage → ProcessStage → PostProcessStage → OutputStage
//! ```

use vstd::prelude::*;

verus! {

/// One phase of a pipeline tick.
#[derive(Debug, Clone, Copy, PartialEq, Eq, Structural)]
pub enum Stage {
    /// Reading sources; systems here spawn frames.
    Input,
    /// Pre-processing (resize, normalisation, crop).
    PreProcess,
    /// Main processing (filters, detection, segmentation).
    Process,
    /// Post-processing (suppression, tracking, aggregation).
    PostProcess,
    /// Output (display, writing to disk, sending).
    Output,
}

/// The five stages in the order in which a tick runs them.
pub open spec fn stage_sequence() -> Seq<Stage> {
    seq![Stage::Input, Stage::PreProcess, Stage::Process, Stage::PostProcess, Stage::Output]
}

impl Stage {
    /// Position of the stage in a tick, from 0 (`Input`) to 4 (`Output`).
    pub open spec fn rank(self) -> nat {
        match self {
            Stage::Input => 0,
            Stage::PreProcess => 1,
            Stage::Process => 2,
            Stage::PostProcess => 3,
            Stage::Output => 4,
        }
    }

    /// The stage that runs right after this one in a tick, if any.
    pub open spec fn successor(self) -> Option<Stage> {
        if self.rank() < 4 {
            Some(stage_sequence()[self.rank() + 1int])
        } else {
            None
        }
    }

    /// The stage a tick starts with.
    pub fn first() -> (res: Stage)
        ensures
            res == stage_sequence()[0],
    {
        Stage::Input
    }

    /// The stage that runs after this one, `None` after the last.
    pub fn next(self) -> (res: Option<Stage>)
        ensures
            res == self.successor(),
    {
        match self {
            Stage::Input => Some(Stage::PreProcess),
            Stage::PreProcess => Some(Stage::Process),
            Stage::Process => Some(Stage::PostProcess),
            Stage::PostProcess => Some(Stage::Output),
            Stage::Output => None,
        }
    }

    /// Position of the stage in a tick.
    pub fn index(self) -> (res: usize)
        ensures
            res == self.rank(),
    {
        match self {
            Stage::Input => 0,
            Stage::PreProcess => 1,
            Stage::Process => 2,
            Stage::PostProcess => 3,
            Stage::Output => 4,
        }
    }

    /// Label of the stage (`"InputStage"`, …, `"OutputStage"`).
    pub fn name(self) -> (res: &'static str)
        ensures
            res@ == stage_name(self),
    {
        match self {
            Stage::Input => "InputStage",
            Stage::PreProcess => "PreProcessStage",
            Stage::Process => "ProcessStage",
            Stage::PostProcess => "PostProcessStage",
            Stage::Output => "OutputStage",
        }
    }
}

/// A tick runs the stages in canonical order: it starts with `Input`,
/// each stage is followed by the next one of the canonical sequence, the
/// last one (`Output`) by none, and each stage holds its own position, so
/// every stage runs exactly once per tick.
pub proof fn law_stage_order()
    ensures
        stage_sequence().len() == 5,
        stage_sequence()[0] == Stage::Input,
        forall|i: int| 0 <= i < 4 ==> #[trigger] stage_sequence()[i].successor() == Some(stage_sequence()[i + 1]),
        stage_sequence()[4].successor() is None,
        forall|i: int| 0 <= i < 5 ==> #[trigger] stage_sequence()[i].rank() == i,
        Stage::Input.successor() == Some(Stage::PreProcess),
        Stage::PreProcess.successor() == Some(Stage::Process),
        Stage::Process.successor() == Some(Stage::PostProcess),
        Stage::PostProcess.successor() == Some(Stage::Output),
        Stage::Output.successor() is None,
{
    assert(stage_sequence()[0].successor() == Some(stage_sequence()[1]));
    assert(stage_sequence()[1].successor() == Some(stage_sequence()[2]));
    assert(stage_sequence()[2].successor() == Some(stage_sequence()[3]));
    assert(stage_sequence()[3].successor() == Some(stage_sequence()[4]));
}

/// Label of each stage.
pub open spec fn stage_name(stage: Stage) -> Seq<char> {
    match stage {
        Stage::Input => "InputStage"@,
        Stage::PreProcess => "PreProcessStage"@,
        Stage::Process => "ProcessStage"@,
        Stage::PostProcess => "PostProcessStage"@,
        Stage::Output => "OutputStage"@,
    }
}

/// Labels of the stages in canonical order.
pub fn stage_order() -> (res: Vec<&'static str>)
    ensures
        res@.len() == 5,
        forall|i: int| 0 <= i < 5 ==> #[trigger] res@[i]@ == stage_name(stage_sequence()[i]),
{
    let mut res: Vec<&'static str> = Vec::new();
    let mut stage = Stage::first();
    let mut i: usize = 0;
    loop
        invariant
            i < 5,
            stage == stage_sequence()[i as int],
            res@.len() == i,
            forall|j: int| 0 <= j < i ==> #[trigger] res@[j]@ == stage_name(stage_sequence()[j]),
        decreases 5 - i,
    {
        res.push(stage.name());
        match stage.next() {
            Some(s) => {
                stage = s;
                i = i + 1;
            },
            None => {
                return res;
            },
        }
    }
}

/// Schedule label of [`Stage::Input`]: reading sources.
#[derive(Debug, Clone, Copy, PartialEq, Eq, Hash, Default)]
pub struct InputStage;

/// Schedule label of [`Stage::PreProcess`]: resize, normalisation, crop.
#[derive(Debug, Clone, Copy, PartialEq, Eq, Hash, Default)]
pub struct PreProcessStage;

/// Schedule label of [`Stage::Process`]: filters, detection, segmentation.
#[derive(Debug, Clone, Copy, PartialEq, Eq, Hash, Default)]
pub struct ProcessStage;

/// Schedule label of [`Stage::PostProcess`]: suppression, tracking.
#[derive(Debug, Clone, Copy, PartialEq, Eq, Hash, Default)]
pub struct PostProcessStage;

/// Schedule label of [`Stage::Output`]: display, writing, sending.
#[derive(Debug, Clone, Copy, PartialEq, Eq, Hash, Default)]
pub struct OutputStage;

impl InputStage {
    /// The stage this label names.
    pub fn stage(&self) -> (res: Stage)
        ensures
            res == Stage::Input,
    {
        Stage::Input
    }
}

impl PreProcessStage {
    /// The stage this label names.
    pub fn stage(&self) -> (res: Stage)
        ensures
            res == Stage::PreProcess,
    {
        Stage::PreProcess
    }
}

impl ProcessStage {
    /// The stage this label names.
    pub fn stage(&self) -> (res: Stage)
        ensures
            res == Stage::Process,
    {
        Stage::Process
    }
}

impl PostProcessStage {
    /// The stage this label names.
    pub fn stage(&self) -> (res: Stage)
        ensures
            res == Stage::PostProcess,
    {
        Stage::PostProcess
    }
}

impl OutputStage {
    /// The stage this label names.
    pub fn stage(&self) -> (res: Stage)
        ensures
            res == Stage::Output,
    {
        Stage::Output
    }
}

} // verus!
