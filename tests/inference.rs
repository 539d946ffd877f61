use sealed_envelope::inference::{Precision, TensorRTConfig, TensorRTEngine, TensorRTInference};

#[test]
fn engine_keeps_its_settings() {
    let engine = TensorRTEngine::new(TensorRTConfig {
        engine_path: "model.plan".to_string(),
        max_batch_size: 8,
        max_workspace_size: 4096,
        precision: Precision::Int8,
    });
    assert_eq!(engine.engine_path(), "model.plan");
    assert_eq!(engine.max_batch_size(), 8);
    assert_eq!(engine.max_workspace_size(), 4096);
    assert_eq!(engine.precision(), Precision::Int8);
    assert!(!engine.has_handle());
}

#[test]
fn engine_from_file_defaults() {
    let engine = TensorRTEngine::load_from_file("/models/chat.engine");
    assert_eq!(engine.engine_path(), "/models/chat.engine");
    assert_eq!(engine.max_batch_size(), 1);
    assert_eq!(engine.max_workspace_size(), 1024 * 1024 * 1024);
    assert_eq!(engine.precision(), Precision::Float16);
}

#[test]
fn inference_session_lifecycle() {
    let mut s = TensorRTInference::new("m.onnx");
    assert_eq!(s.model_path(), "m.onnx");
    assert_eq!(s.device_id(), 0);
    assert!(!s.is_initialized());
    assert_eq!(s.infer("hi"), "Rust TensorRT processed: hi");
    assert!(s.is_initialized());
    s.set_device(3);
    assert_eq!(s.device_id(), 3);
    assert_eq!(s.model_path(), "m.onnx");
}

#[test]
fn warm_up_initializes() {
    let mut s = TensorRTInference::new("m");
    s.warm_up();
    assert!(s.is_initialized());
    assert_eq!(s.infer(""), "Rust TensorRT processed: ");
}
