//! Derive a builder for a struct.
//!
//! The library turns a plain description of a struct (its name, visibility,
//! generics, fields and attributes) into the Rust source text of a builder.
mod text;
pub mod syntax;
pub mod visibility;
pub mod bindings;
pub mod deprecation_notes;
pub mod meta;
pub mod options;
pub mod block;
pub mod default_expression;
pub mod attrs;
pub mod setter;
pub mod generics;
pub mod initializer;
pub mod field_default_value;
pub mod builder_field;
pub mod doc_comment;
pub mod tokens;
pub mod parsed_literal;
pub mod build_method;
pub mod builder;
pub mod try_from;
pub mod error_type;
pub mod macro_options;
pub mod derive;
pub mod legacy;
pub mod expanded;
pub mod laws;
pub mod field_options;

pub use text::{
    concat_all, lemma_concat_assoc, lemma_concat_empty, escape_char, escape_chars, join, push_joined, push_all, push_char, push_str, str_eq, string_literal,
    string_literal_text, strings_view, to_owned_string,
};
