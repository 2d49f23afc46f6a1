//! Model configuration and the decision the inference system takes.

use vstd::prelude::*;


verus! {

/// Configuration of the model the inference system runs.
#[derive(Debug, Clone)]
pub struct ModelConfig {
    /// Path of the model file (`.onnx`, `.pt`, `.bin`, …).
    pub model_path: String,
    /// Input dimensions the model expects, `[C, H, W]`.
    pub input_shape: [usize; 3],
    /// Names of the output classes.
    pub class_names: Vec<String>,
}

impl Default for ModelConfig {
    fn default() -> (res: ModelConfig)
        ensures
            res.model_path@.len() == 0,
            res.input_shape@ == seq![0usize, 0usize, 0usize],
            res.class_names@.len() == 0,
    {
        ModelConfig { model_path: String::new(), input_shape: [0, 0, 0], class_names: Vec::new() }
    }
}

/// Number of scores a prediction carries for a model with these class
/// names: one per class, and at least one.
pub open spec fn score_count(config: ModelConfig) -> nat {
    if config.class_names@.len() == 0 {
        1
    } else {
        config.class_names@.len()
    }
}

/// One score per class: a configuration with class names gets exactly as
/// many scores as it has names, and one without any gets a single score;
/// never fewer scores than classes, never zero scores.
pub proof fn law_one_score_per_class(config: ModelConfig)
    ensures
        config.class_names@.len() >= 1 ==> score_count(config) == config.class_names@.len(),
        config.class_names@.len() == 0 ==> score_count(config) == 1,
        score_count(config) >= config.class_names@.len(),
        score_count(config) >= 1,
{
}

/// What the inference system does on a tick: nothing without a
/// configuration or with an empty model path (`None`); otherwise every
/// frame gets a prediction with the returned number of scores.
pub fn inference_plan(config: Option<&ModelConfig>) -> (res: Option<usize>)
    ensures
        config is None ==> res is None,
        config matches Some(c) ==> (res is None <==> c.model_path@.len() == 0),
        config matches Some(c) ==> (res matches Some(n) ==> n == score_count(*c)),
        config matches Some(c) ==> (res matches Some(n) ==> n == (if c.class_names@.len() == 0 {
            1
        } else {
            c.class_names@.len()
        })),
{
    match config {
        None => None,
        Some(c) => {
            if c.model_path.as_str().is_empty() {
                None
            } else {
                let n = c.class_names.len();
                if n == 0 {
                    Some(1)
                } else {
                    Some(n)
                }
            }
        },
    }
}

} // verus!
