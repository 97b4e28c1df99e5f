//! The pluggable inference backend and its collaborators.
//!
//! The runtime and the model-bytes supplier are external capabilities: their
//! methods carry no promises, and every verified caller in this crate states
//! what holds of its own result whatever these methods return.

use vstd::prelude::*;

use crate::signature::ParamInfo;
use crate::tensor::Tensor;

verus! {

/// Options one session is created with.
#[derive(Clone, Copy, Debug, PartialEq, Eq, Structural)]
pub struct SessionOptions {
    pub cpu_num_threads: u16,
    pub use_gpu: bool,
}

impl SessionOptions {
    pub fn new(cpu_num_threads: u16, use_gpu: bool) -> (r: SessionOptions)
        ensures
            r.cpu_num_threads == cpu_num_threads,
            r.use_gpu == use_gpu,
    {
        SessionOptions { cpu_num_threads, use_gpu }
    }
}

/// Supplies the plaintext bytes of one model.  Decryption or I/O happens
/// behind this interface, on demand: the bytes are produced only if and when
/// the runtime actually asks for them, at most once per session construction.
pub trait ModelBytesSupplier {
    /// Produces the model bytes, or an error from storage or decryption.
    fn obtain(&mut self) -> Result<Vec<u8>, String>;
}

/// A supplier that already holds the plaintext bytes.
pub struct PlainModelBytes {
    pub bytes: Vec<u8>,
}

impl ModelBytesSupplier for PlainModelBytes {
    fn obtain(&mut self) -> Result<Vec<u8>, String> {
        Ok(self.bytes.clone())
    }
}

/// The inference backend: creates sessions from model bytes and executes
/// them.  Implementations live outside this crate; nothing is promised of
/// their results.
pub trait InferenceRuntime: Sized {
    /// A loaded model, owned by the runtime; opaque to this crate.
    type Session;

    /// Whether this runtime can report the parameter metadata of a loaded
    /// model.  When it cannot (a degraded capability), signature validation
    /// is skipped deliberately and the declared signature is trusted
    /// unchecked.
    fn supports_param_introspection(&self) -> bool;

    /// Creates a session, pulling the model bytes through the supplier, and
    /// reports the loaded model's input and output tensor signatures (their
    /// content is meaningful only if introspection is supported).
    fn new_session<S: ModelBytesSupplier>(
        &self,
        model: &mut S,
        options: &SessionOptions,
    ) -> Result<(Self::Session, Vec<ParamInfo>, Vec<ParamInfo>), String>;

    /// Executes one loaded model on the given input tensors.
    fn run(session: &mut Self::Session, inputs: Vec<Tensor>) -> Result<Vec<Tensor>, String>;
}

} // verus!
