//! Batch pre-flight checker for CosmWasm contract binaries.
//!
//! The crate resolves the effective check policy (available capabilities and
//! Wasm resource limits) from either a comma-separated capability list or a
//! binary-encoded chain configuration, drives the static-validation and
//! compilation pipeline for each input file, and aggregates the outcomes
//! into a run summary with exit-code semantics.

pub mod capabilities;
pub mod checker;
mod engine;
pub mod errors;
pub mod policy;
pub mod report;
