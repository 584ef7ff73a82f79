//! Verified core of a toolkit that wraps the Faust DSP compiler.
//!
//! The heart of the crate is a wait-free, sparse, coalescing update channel
//! (`enum_set`, `sparse_update`) that carries parameter changes from a control
//! thread to a realtime audio thread.  Around it stand the plain-data parts of
//! the build tooling: compiler options (`code_option`, `compile_option`,
//! `option_map`), and the builder that assembles a compiler invocation
//! (`builder`).

pub mod builder;
pub mod casing;
pub mod code_option;
pub mod compile_option;
pub mod enum_set;
pub mod faust_json;
pub mod faust_types;
pub mod option_map;
pub mod params;
pub mod sparse_update;
pub mod text;
