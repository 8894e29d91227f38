//! Error taxonomy for the model-serving core.
//!
//! Three failure classes are kept distinct so that a transport layer can
//! map them to different externally visible codes: a store whose
//! synchronization primitive became unusable, a compute step's own
//! domain failure, and a worker that died before producing a result.

use vstd::prelude::*;

verus! {

/// A failure raised by the parameter store or by a compute step.
#[derive(Debug)]
pub enum ModelError {
    /// The store's synchronization primitive is unusable (for example a
    /// prior writer terminated abnormally while holding exclusive access).
    LockError(String),
    /// A compute step rejected its input, such as a fixed-point value
    /// whose update would not fit the representable range.
    ComputeError(String),
}

impl ModelError {
    /// A human-readable description of the failure.
    pub fn message(&self) -> (msg: String) {
        match self {
            ModelError::LockError(m) => m.clone(),
            ModelError::ComputeError(m) => m.clone(),
        }
    }
}

/// A failure surfaced by the dispatcher, keeping worker faults distinct
/// from failures the step itself reported.
#[derive(Debug)]
pub enum DispatchError {
    /// The worker executing the step terminated abnormally before
    /// producing a result.
    WorkerFailure(String),
    /// The step ran to completion and reported this failure itself.
    StepError(ModelError),
}

impl DispatchError {
    /// A human-readable description of the failure.
    pub fn message(&self) -> (msg: String) {
        match self {
            DispatchError::WorkerFailure(m) => m.clone(),
            DispatchError::StepError(e) => e.message(),
        }
    }
}

} // verus!
