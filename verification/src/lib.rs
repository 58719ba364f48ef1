//! Workflow orchestration for zero-knowledge proof artifacts.
//!
//! The crate decides which operations a proof system admits, which circuit
//! file a command reads and in which format, and in which order the inputs of
//! a command are loaded, handed to the proving engine and stored. It performs
//! no I/O and no cryptography itself: a driver executes the steps that the
//! crate prescribes and reports back how each one ended.

pub mod command;
pub mod error;
pub mod locator;
pub mod plan;
pub mod policy;
pub mod runner;
pub mod workflow;
