//! Inserts profiling probes at the start of function bodies.
//!
//! The library works on a plain model of a program: top-level items, method
//! groups, and function declarations whose bodies are sequences of statement
//! text. Each traversal driver classifies every declaration it meets, builds
//! its probe label, and prepends the probe statements of the active strategy.

pub mod classify;
pub mod decls;
pub mod drivers;
pub mod label;
pub mod laws;
pub mod probe;
