//! Acquisition and invocation of the `wasm-bindgen` command-line tool.
//!
//! The library is the decision core of a build step that must make a
//! specific version of `wasm-bindgen` available before code generation can
//! run. Three acquisition strategies are tried in order: reuse of a global
//! install found on the search path, download of a prebuilt per-platform
//! archive into a cache, and a source build through `cargo install`. The
//! pipeline is modelled as a state machine: each step consumes the outcome
//! of the previous outside operation (a search, a subprocess run, a
//! download, a filesystem check) and decides the next operation, so that
//! every decision is verified while the I/O itself stays with the caller.

pub mod invoke;
pub mod pipeline;
pub mod platform;
pub mod probe;
