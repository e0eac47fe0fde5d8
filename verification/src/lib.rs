//! Configuration resolution and build-verification core of an ahead-of-time
//! compiler for sandboxed modules.
//!
//! The crate turns user-level build intent (CPU feature selection, memory
//! layout limits, signing requirements, output kind) into a validated
//! configuration value, generates interface source text for several backends,
//! and plans an isolated build cycle that proves the generated source compiles
//! under its target toolchain.

pub mod codegen;
pub mod cpu;
pub mod error;
pub mod options;
pub mod package;
pub mod pipeline;
pub mod sizes;
pub mod strutil;
