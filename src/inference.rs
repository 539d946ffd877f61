//! Inference engine handles. No inference runtime is bound yet: the engines
//! hold their settings and state, and `infer` on text echoes its input
//! behind a fixed prefix.

use vstd::prelude::*;
use vstd::string::StringExecFns;

verus! {

/// Numeric precision an engine runs at.
#[derive(Debug, Clone, Copy, PartialEq, Eq, Structural)]
pub enum Precision {
    Float32,
    Float16,
    Int8,
}

/// Workspace size, in bytes, of an engine loaded from a file: one gibibyte.
pub const DEFAULT_WORKSPACE_SIZE: usize = 1073741824;

/// Settings of an inference engine.
#[derive(Debug, Clone)]
pub struct TensorRTConfig {
    /// Path of the serialized engine.
    pub engine_path: String,
    /// Largest batch the engine accepts.
    pub max_batch_size: usize,
    /// Largest workspace, in bytes.
    pub max_workspace_size: usize,
    /// Numeric precision.
    pub precision: Precision,
}

/// An engine built from its settings; no runtime handle is bound yet.
pub struct TensorRTEngine {
    config: TensorRTConfig,
    engine_handle: Option<u64>,
}

impl TensorRTEngine {
    pub closed spec fn spec_engine_path(&self) -> Seq<char> {
        self.config.engine_path@
    }

    pub closed spec fn spec_max_batch_size(&self) -> usize {
        self.config.max_batch_size
    }

    pub closed spec fn spec_max_workspace_size(&self) -> usize {
        self.config.max_workspace_size
    }

    pub closed spec fn spec_precision(&self) -> Precision {
        self.config.precision
    }

    pub closed spec fn spec_has_handle(&self) -> bool {
        self.engine_handle is Some
    }

    /// Creates an engine with the given settings and no runtime handle.
    pub fn new(config: TensorRTConfig) -> (r: TensorRTEngine)
        ensures
            r.spec_engine_path() == config.engine_path@,
            r.spec_max_batch_size() == config.max_batch_size,
            r.spec_max_workspace_size() == config.max_workspace_size,
            r.spec_precision() == config.precision,
            !r.spec_has_handle(),
    {
        TensorRTEngine { config, engine_handle: None }
    }

    /// An engine for the file at `path`: batch size one, a one-gibibyte
    /// workspace, half precision.
    pub fn load_from_file(path: &str) -> (r: TensorRTEngine)
        ensures
            r.spec_engine_path() == path@,
            r.spec_max_batch_size() == 1,
            r.spec_max_workspace_size() == DEFAULT_WORKSPACE_SIZE,
            r.spec_precision() == Precision::Float16,
            !r.spec_has_handle(),
    {
        let config = TensorRTConfig {
            engine_path: String::from_str(path),
            max_batch_size: 1,
            max_workspace_size: DEFAULT_WORKSPACE_SIZE,
            precision: Precision::Float16,
        };
        TensorRTEngine::new(config)
    }

    /// Path of the serialized engine.
    pub fn engine_path(&self) -> (r: &str)
        ensures
            r@ == self.spec_engine_path(),
    {
        self.config.engine_path.as_str()
    }

    /// Largest batch the engine accepts.
    pub fn max_batch_size(&self) -> (r: usize)
        ensures
            r == self.spec_max_batch_size(),
    {
        self.config.max_batch_size
    }

    /// Largest workspace, in bytes.
    pub fn max_workspace_size(&self) -> (r: usize)
        ensures
            r == self.spec_max_workspace_size(),
    {
        self.config.max_workspace_size
    }

    /// Numeric precision.
    pub fn precision(&self) -> (r: Precision)
        ensures
            r == self.spec_precision(),
    {
        self.config.precision
    }

    /// Whether a runtime handle is bound.
    pub fn has_handle(&self) -> (r: bool)
        ensures
            r == self.spec_has_handle(),
    {
        self.engine_handle.is_some()
    }
}

/// A text inference session bound to a model path and a device.
pub struct TensorRTInference {
    model_path: String,
    device_id: u32,
    initialized: bool,
}

impl TensorRTInference {
    pub closed spec fn spec_model_path(&self) -> Seq<char> {
        self.model_path@
    }

    pub closed spec fn spec_device_id(&self) -> u32 {
        self.device_id
    }

    pub closed spec fn spec_initialized(&self) -> bool {
        self.initialized
    }

    /// A session for `model_path` on device zero, not yet initialized.
    pub fn new(model_path: &str) -> (r: TensorRTInference)
        ensures
            r.spec_model_path() == model_path@,
            r.spec_device_id() == 0,
            !r.spec_initialized(),
    {
        TensorRTInference { model_path: String::from_str(model_path), device_id: 0, initialized: false }
    }

    /// Runs the session on `input`: the result is `input` behind the prefix
    /// `"Rust TensorRT processed: "`, and the session is initialized from
    /// then on.
    pub fn infer(&mut self, input: &str) -> (r: String)
        ensures
            r@ == "Rust TensorRT processed: "@ + input@,
            final(self).spec_initialized(),
            final(self).spec_model_path() == old(self).spec_model_path(),
            final(self).spec_device_id() == old(self).spec_device_id(),
    {
        let mut r = String::from_str("Rust TensorRT processed: ");
        r.append(input);
        self.initialized = true;
        r
    }

    /// Moves the session to device `device_id`.
    pub fn set_device(&mut self, device_id: u32)
        ensures
            final(self).spec_device_id() == device_id,
            final(self).spec_model_path() == old(self).spec_model_path(),
            final(self).spec_initialized() == old(self).spec_initialized(),
    {
        self.device_id = device_id;
    }

    /// Runs one inference on a fixed input, which initializes the session.
    pub fn warm_up(&mut self)
        ensures
            final(self).spec_initialized(),
            final(self).spec_model_path() == old(self).spec_model_path(),
            final(self).spec_device_id() == old(self).spec_device_id(),
    {
        let _ = self.infer("warming up");
    }

    /// The model path.
    pub fn model_path(&self) -> (r: &str)
        ensures
            r@ == self.spec_model_path(),
    {
        self.model_path.as_str()
    }

    /// The device the session runs on.
    pub fn device_id(&self) -> (r: u32)
        ensures
            r == self.spec_device_id(),
    {
        self.device_id
    }

    /// Whether the session has run at least once.
    pub fn is_initialized(&self) -> (r: bool)
        ensures
            r == self.spec_initialized(),
    {
        self.initialized
    }
}

} // verus!
