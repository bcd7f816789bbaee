//! What the library asks of Nix: evaluations, builds and store paths.
pub mod eval;
pub mod flake;
pub mod store;
