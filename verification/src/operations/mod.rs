//! The steps of a deployment: evaluating, building, copying, activating.
pub mod building;
pub mod deployment;
pub mod evaluation;
