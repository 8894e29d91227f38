//! A small model-serving core: a shared store of fixed-point model
//! parameters, compute steps (training and inference) that operate on it,
//! and the dispatch logic that turns worker outcomes into caller-visible
//! results.

pub mod errors;
pub mod fixed;
pub mod algorithm;
pub mod model;
pub mod dispatch;
pub mod tensors;
