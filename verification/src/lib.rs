//! A job lifecycle library whose central encoding makes illegal stage
//! transitions unrepresentable: the concrete type of a job value decides
//! which operations exist on it.
//!
//! `job_management::typestate_final` is the core: a job moves
//! Pending -> Running -> Done, each stage a distinct type, each transition a
//! consuming move. Its sibling modules encode the same lifecycle with weaker
//! guarantees — typed stages behind optional accessors, or a runtime tag —
//! and are kept as contrast examples. `router` is a small, unrelated request
//! dispatcher that shares the crate.

pub mod job_management;
pub mod router;
