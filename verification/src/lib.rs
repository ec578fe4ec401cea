//! Command-line orchestration layer for running, proving, and verifying
//! executions of Triton VM programs.
//!
//! The crate resolves heterogeneous, mutually exclusive command inputs into
//! one canonical execution request, drives the three operating modes
//! (run, prove, verify), and encodes / decodes the persisted artifacts
//! (claim and proof files) that tie a proving invocation to a later,
//! independent verification.

pub mod args;
pub mod codec;
pub mod commands;
pub mod engine;
pub mod error;
pub mod field;
pub mod input;
pub mod render;
