//! Runs a sandboxed WebAssembly module inside an enclave and guards the enclave's entry point.
//!
//! - `registry`: host functions offered to sandboxed code, keyed by (namespace, name).
//! - `engine`: compiling, linking and invoking modules.
//! - `boundary`: validation and copying of untrusted regions, and the status returned outward.

pub mod boundary;
pub mod engine;
pub mod registry;
