//! Reading the `#[builder(...)]` options of the input struct and its fields.
pub mod visibility_attr;
pub mod build_fn;
pub mod setter_opts;
pub mod field_meta;
pub mod field;
pub mod darling_opts;
pub mod field_with_defaults;
pub mod accessors;
pub mod reporting;
pub mod independence;
pub mod splitting;
