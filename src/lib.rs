//! Compile-time dispatch from enum variants to the concrete types they name.
//!
//! Each variant of an annotated enum carries a tag `#[concrete = "path::to::Type"]`.
//! From a model of such an enum this library checks the variants, rewrites
//! crate-local type paths for macro hygiene, and produces the source text of a
//! dispatch macro (plus introspection methods) that turns a runtime variant
//! into a compile-time type. It also composes several dispatch macros into one.

pub mod codegen;
pub mod combine;
pub mod derive;
pub mod expand;
pub mod naming;
pub mod render;
pub mod rewrite;
pub mod syntax;
pub mod text;
