//! Dispatch logic.
//!
//! A dispatcher offloads a compute step to a worker so the requesting
//! flow is never blocked, then reports the worker's outcome. The two
//! decisions it makes are here, verified: which of the step's operations
//! a submission runs, and how what came back from the worker maps to the
//! caller-visible result, keeping a worker fault distinct from a failure
//! the step reported itself.

use vstd::prelude::*;

use crate::algorithm::Algorithm;
use crate::errors::{DispatchError, ModelError};
use crate::fixed::Fixed;
use crate::model::Model;

verus! {

/// Which of a step's two operations a submission asks for.
#[derive(Clone, Copy, Debug, PartialEq, Eq, Structural)]
pub enum StepKind {
    Train,
    Infer,
}

/// What a completed step produced: an acknowledgment for training, a
/// scalar for inference.
#[derive(Clone, Copy, Debug, PartialEq, Eq, Structural)]
pub enum Outcome {
    Trained,
    Inferred(Fixed),
}

/// Runs the operation of `algorithm` that `kind` selects on `model`;
/// this is the body a dispatcher hands to its worker. A training
/// submission yields `Trained`, an inference submission `Inferred`.
pub fn run_step<A: Algorithm>(algorithm: &A, model: &Model, input: Fixed, kind: StepKind) -> (r:
    Result<Outcome, ModelError>)
    ensures
        r is Ok ==> (r->Ok_0 is Trained <==> kind is Train),
        r is Ok ==> (r->Ok_0 is Inferred <==> kind is Infer),
{
    match kind {
        StepKind::Train => match algorithm.training_step(model, input) {
            Ok(()) => Ok(Outcome::Trained),
            Err(e) => Err(e),
        },
        StepKind::Infer => match algorithm.inference_step(model, input) {
            Ok(value) => Ok(Outcome::Inferred(value)),
            Err(e) => Err(e),
        },
    }
}

/// Maps what came back from the worker to the dispatcher's result: a
/// worker that died before reporting (`None`) surfaces as
/// `WorkerFailure`, while a failure the step reported itself stays a
/// `StepError` carrying it — the two are never conflated.
pub fn resolve_worker(outcome: Option<Result<Outcome, ModelError>>) -> (r: Result<
    Outcome,
    DispatchError,
>)
    ensures
        match outcome {
            None => r matches Err(DispatchError::WorkerFailure(_)),
            Some(Ok(o)) => r matches Ok(out) && out == o,
            Some(Err(e)) => r matches Err(DispatchError::StepError(m)) && m == e,
        },
{
    match outcome {
        None => Err(
            DispatchError::WorkerFailure("worker terminated before producing a result".to_owned()),
        ),
        Some(Ok(o)) => Ok(o),
        Some(Err(e)) => Err(DispatchError::StepError(e)),
    }
}

} // verus!
