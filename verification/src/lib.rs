//! A typed-binding and definition-generation core for an embedded scripting
//! runtime: native functions, modules and user-defined data types are
//! registered with structured type and documentation metadata, a runtime
//! bridge converts values and dispatches calls at the native/script
//! boundary, and a generator renders the metadata into definition stub
//! files for external tooling.

pub mod bridge;
pub mod builder;
pub mod convert;
pub mod generate;
pub mod render;
pub mod rpg;
pub mod specs;
pub mod types;
pub mod value;
