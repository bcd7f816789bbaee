//! Planning and bookkeeping for deploying NixOS configurations to hosts.
use vstd::prelude::*;

pub mod cli;
pub mod command;
pub mod display;
pub mod errors;
pub mod evaluator;
pub mod execution;
pub mod host;
pub mod nix;
pub mod operations;
pub mod pipeline;
pub mod raw_executor;
pub mod rollout;
pub mod text;
pub mod types;

verus! {

} // verus!
