//! Tools: declarations sent to the model, the results tools give back,
//! their errors, closure-backed executors and the registry of tools.

pub mod types;
pub mod error;
pub mod executor;
pub mod registry;
