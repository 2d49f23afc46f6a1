use perceptor::plugins::filters::FiltersPlugin;
use perceptor::plugins::ml::inference::{inference_plan, ModelConfig};
use perceptor::plugins::ml::MlPlugin;
use perceptor::engine::pipeline::{is_new_plugin, PipelineState, Registration, SystemKind};
use perceptor::pixels::{PixelBuffer, ShapeError};
use perceptor::engine::schedule::{stage_order, InputStage, OutputStage, Stage};

#[test]
fn ticks_visit_the_stages_in_canonical_order() {
    let mut seen = Vec::new();
    let mut stage = Some(Stage::first());
    while let Some(s) = stage {
        seen.push(s);
        stage = s.next();
    }
    assert_eq!(
        seen,
        vec![Stage::Input, Stage::PreProcess, Stage::Process, Stage::PostProcess, Stage::Output]
    );
    assert_eq!(seen.iter().map(|s| s.index()).collect::<Vec<_>>(), vec![0, 1, 2, 3, 4]);
}

#[test]
fn stage_labels_follow_the_canonical_order() {
    assert_eq!(
        stage_order(),
        vec!["InputStage", "PreProcessStage", "ProcessStage", "PostProcessStage", "OutputStage"]
    );
    assert_eq!(InputStage.stage(), Stage::Input);
    assert_eq!(OutputStage.stage(), Stage::Output);
    assert_eq!(Stage::Process.name(), "ProcessStage");
}

#[test]
fn loop_runs_until_a_system_asks_to_stop() {
    let mut state = PipelineState::default();
    assert!(state.keep_running());
    state.request_stop();
    assert!(!state.keep_running());
    assert_eq!(state.tick_count, 0);
}

#[test]
fn filters_plugin_switches() {
    let all = FiltersPlugin::all();
    assert!(all.enable_grayscale && all.enable_sobel);
    assert_eq!(FiltersPlugin::default(), FiltersPlugin::all());
    let none = FiltersPlugin::none();
    assert!(!none.enable_grayscale && !none.enable_sobel);
    assert_eq!(FiltersPlugin::default().registrations(), all.registrations());
    assert_eq!(
        all.registrations(),
        vec![
            Registration { stage: Stage::Process, system: SystemKind::Grayscale },
            Registration { stage: Stage::Process, system: SystemKind::Sobel },
        ]
    );
    assert!(FiltersPlugin::none().registrations().is_empty());
    let sobel_only = FiltersPlugin { enable_grayscale: false, enable_sobel: true };
    assert_eq!(
        sobel_only.registrations(),
        vec![Registration { stage: Stage::Process, system: SystemKind::Sobel }]
    );
    assert_eq!(all.name(), "FiltersPlugin");
}

#[test]
fn ml_plugin_runs_inference_after_processing() {
    let plugin = MlPlugin::default();
    assert_eq!(
        plugin.registrations(),
        vec![Registration { stage: Stage::PostProcess, system: SystemKind::Inference }]
    );
    assert_eq!(plugin.name(), "MlPlugin");
}

#[test]
fn inference_needs_a_configured_model() {
    assert_eq!(inference_plan(None), None);
    let mut config = ModelConfig::default();
    assert_eq!(inference_plan(Some(&config)), None);
    config.model_path = "model.onnx".to_string();
    assert_eq!(inference_plan(Some(&config)), Some(1));
    config.class_names = vec!["cat".to_string(), "dog".to_string(), "bird".to_string()];
    assert_eq!(inference_plan(Some(&config)), Some(3));
}

#[test]
fn shape_must_match_the_byte_count() {
    assert_eq!(PixelBuffer::from_shape_vec((2, 2, 2), vec![0; 7]).unwrap_err(), ShapeError::IncompatibleShape);
    let b = PixelBuffer::from_shape_vec((2, 2, 2), (0..8).collect()).unwrap();
    assert_eq!(b.get(1, 0, 1), 5);
    assert_eq!(b.len(), 8);
    assert!(PixelBuffer::from_shape_vec((usize::MAX, 2, 1), vec![]).is_err());
    assert!(PixelBuffer::from_shape_vec((usize::MAX, 0, 3), vec![]).is_ok());
}

#[test]
fn ticks_are_counted() {
    let mut state = PipelineState::default();
    state.record_tick();
    state.record_tick();
    assert_eq!(state.tick_count, 2);
    assert!(!state.should_stop);
    let mut full = PipelineState { should_stop: true, tick_count: u64::MAX };
    full.record_tick();
    assert_eq!(full.tick_count, u64::MAX);
    assert!(full.should_stop);
}

#[test]
fn duplicate_plugin_names_are_refused() {
    let registered = vec!["IoPlugin".to_string(), "FiltersPlugin".to_string()];
    assert!(!is_new_plugin(&registered, &"FiltersPlugin".to_string()));
    assert!(is_new_plugin(&registered, &"MlPlugin".to_string()));
    assert!(is_new_plugin(&Vec::new(), &"MlPlugin".to_string()));
}

#[test]
fn ml_plugin_installs_its_model_path() {
    let plugin = MlPlugin { model_path: "net.onnx".to_string() };
    let config = plugin.model_config();
    assert_eq!(config.model_path, "net.onnx");
    assert_eq!(config.input_shape, [0, 0, 0]);
    assert!(config.class_names.is_empty());
    assert_eq!(inference_plan(Some(&config)), Some(1));
}
