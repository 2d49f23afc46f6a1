//! The machine-learning plugin: it places the inference system in the
//! post-process stage and installs the model configuration with its path.

pub mod inference;

use vstd::prelude::*;

use crate::engine::pipeline::{Registration, SystemKind};
use crate::engine::schedule::Stage;
use inference::ModelConfig;

verus! {

/// Plugin that places the inference system in the post-process stage.
#[derive(Debug, Clone)]
pub struct MlPlugin {
    /// Path of the model file.
    pub model_path: String,
}

impl Default for MlPlugin {
    fn default() -> (res: MlPlugin)
        ensures
            res.model_path@.len() == 0,
    {
        MlPlugin { model_path: String::new() }
    }
}

impl MlPlugin {
    /// The model configuration the plugin installs: its model path, with
    /// no input shape and no class names yet.
    pub fn model_config(&self) -> (res: ModelConfig)
        ensures
            res.model_path@ == self.model_path@,
            res.input_shape@ == seq![0usize, 0usize, 0usize],
            res.class_names@.len() == 0,
    {
        ModelConfig { model_path: self.model_path.clone(), input_shape: [0, 0, 0], class_names: Vec::new() }
    }

    /// Name of the plugin.
    pub fn name(&self) -> (res: &'static str)
        ensures
            res@ == "MlPlugin"@,
    {
        "MlPlugin"
    }

    /// The systems this plugin registers: inference, post-process stage.
    pub fn registrations(&self) -> (res: Vec<Registration>)
        ensures
            res@ == seq![Registration { stage: Stage::PostProcess, system: SystemKind::Inference }],
    {
        let mut res: Vec<Registration> = Vec::new();
        res.push(Registration { stage: Stage::PostProcess, system: SystemKind::Inference });
        proof {
            assert(res@ =~= seq![Registration { stage: Stage::PostProcess, system: SystemKind::Inference }]);
        }
        res
    }
}

} // verus!
