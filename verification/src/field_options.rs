//! Field options as a flat record, and the setter and builder field they
//! configure.
use vstd::prelude::*;
use crate::attrs::copy_strings;
use crate::bindings::Bindings;
use crate::builder_field::{BuilderField, BuilderFieldType, BuilderFieldView};
use crate::default_expression::DefaultExpression;
use crate::deprecation_notes::DeprecationNotes;
use crate::options::BuilderPattern;
use crate::setter::{Setter, SetterView};
use crate::text::strings_view;
use crate::visibility::Visibility;

verus! {

/// These field options define how the builder interacts with the field.
#[derive(Debug)]
pub struct FieldOptions {
    /// Enables code generation for this setter.
    pub setter_enabled: bool,
    /// How the setter method takes and returns `self` (e.g. mutably).
    pub builder_pattern: BuilderPattern,
    /// The setter name.
    pub setter_ident: String,
    /// Visibility of the setter.
    pub setter_visibility: Visibility,
    /// Visibility of the field.
    pub field_visibility: Visibility,
    /// Default expression for the field, e.g. `#[builder(default="42u32")]`.
    pub default_expression: Option<DefaultExpression>,
    /// Whether the build method defines a default struct.
    pub use_default_struct: bool,
    /// The field name, may deviate from `setter_ident`.
    pub field_ident: String,
    /// The field type.
    pub field_type: String,
    /// Make the setter generic over `Into<_>`.
    pub setter_into: bool,
    /// Emit deprecation notes to the user.
    pub deprecation_notes: DeprecationNotes,
    /// Setter attributes, by meta text.
    pub attrs: Vec<String>,
    /// Bindings to libstd or libcore.
    pub bindings: Bindings,
    /// Enables code generation for the `TryInto` setter.
    pub try_setter: bool,
}

impl FieldOptions {
    /// What the setter of the field emits.
    pub open spec fn spec_setter(&self) -> SetterView {
        SetterView {
            enabled: self.setter_enabled,
            try_setter: self.try_setter,
            visibility: self.setter_visibility,
            pattern: self.builder_pattern,
            attrs: strings_view(self.attrs@),
            ident: self.setter_ident@,
            field_ident: self.field_ident@,
            field_type: self.field_type@,
            generic_into: self.setter_into,
            notes: self.deprecation_notes@,
            bindings: self.bindings,
        }
    }

    /// What the builder's field emits.
    pub open spec fn spec_builder_field(&self) -> BuilderFieldView {
        BuilderFieldView {
            field_ident: self.field_ident@,
            field_type: BuilderFieldType::Optional(self.field_type),
            field_enabled: self.setter_enabled,
            field_visibility: self.field_visibility,
            attrs: strings_view(self.attrs@),
        }
    }

    /// Returns a `Setter` according to the options.
    pub fn as_setter(&self) -> (r: Setter)
        ensures
            r@ == self.spec_setter(),
    {
        Setter {
            enabled: self.setter_enabled,
            try_setter: self.try_setter,
            visibility: self.setter_visibility.duplicate(),
            pattern: self.builder_pattern,
            attrs: copy_strings(&self.attrs),
            ident: self.setter_ident.clone(),
            field_ident: self.field_ident.clone(),
            field_type: self.field_type.clone(),
            generic_into: self.setter_into,
            deprecation_notes: self.deprecation_notes.duplicate(),
            bindings: self.bindings,
        }
    }

    /// Returns a `BuilderField` according to the options.
    pub fn as_builder_field(&self) -> (r: BuilderField)
        ensures
            r@ == self.spec_builder_field(),
    {
        BuilderField {
            field_ident: self.field_ident.clone(),
            field_type: BuilderFieldType::Optional(self.field_type.clone()),
            field_enabled: self.setter_enabled,
            field_visibility: self.field_visibility.duplicate(),
            attrs: copy_strings(&self.attrs),
        }
    }
}

} // verus!
