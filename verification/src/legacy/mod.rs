//! The first generation of the derive: options read from meta items, and
//! the builder emitted from them.
pub mod syntax;
pub mod deprecation_notes;
pub mod options;
pub mod codegen;
pub mod laws;
pub mod check;
