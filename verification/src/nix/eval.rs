//! One result of `nix-eval-jobs`.
use vstd::prelude::*;

verus! {

/// One line of `nix-eval-jobs` output: the attribute and its derivation.
pub struct EvalOutput {
    pub attr: String,
    pub attr_path: Vec<String>,
    pub drv_path: String,
    pub name: String,
    pub required_system_features: Vec<String>,
    pub system: String,
}

} // verus!
