//! Field options with pull-through of the struct-level options, and the
//! code generators they configure.
use vstd::prelude::*;
use crate::attrs::copy_strings;
use crate::bindings::Bindings;
use crate::builder_field::{BuilderField, BuilderFieldType, BuilderFieldView};
use crate::deprecation_notes::DeprecationNotes;
use crate::field_default_value::{FieldDefaultValue, FieldDefaultValueView};
use crate::initializer::{FieldConversion, Initializer, InitializerView};
use crate::macro_options::darling_opts::Options;
use crate::macro_options::field::Field;
use crate::meta::{ident_string, ident_text};
use crate::options::BuilderPattern;
use crate::setter::{Setter, SetterView};
use crate::text::{push_str, strings_view, to_owned_string};
use crate::visibility::Visibility;

verus! {

broadcast use {crate::text::lemma_concat_assoc, crate::text::lemma_concat_empty};

/// Accessor for field data which can pull through options from the parent struct.
pub struct FieldWithDefaults<'a> {
    /// The struct's options.
    pub parent: &'a Options,
    /// The field's options.
    pub field: &'a Field,
}

impl Options {
    /// The path of the support crate: `crate = "..."`, or `::derive_builder`.
    pub open spec fn spec_crate_root(&self) -> Seq<char> {
        match self.crate_root {
            Some(c) => c@,
            None => "::derive_builder"@,
        }
    }

    /// The path of the support crate: `crate = "..."`, or `::derive_builder`.
    pub fn crate_root_path(&self) -> (r: String)
        ensures
            r@ == self.spec_crate_root(),
    {
        match &self.crate_root {
            Some(c) => c.clone(),
            None => to_owned_string("::derive_builder"),
        }
    }
}

impl<'a> FieldWithDefaults<'a> {
    /// Whether this field emits a setter.
    pub open spec fn spec_setter_enabled(&self) -> bool {
        match self.field.setter.spec_setter_enabled() {
            Some(b) => b,
            None => match self.parent.setter.spec_enabled() {
                Some(b) => b,
                None => true,
            },
        }
    }

    /// Whether this field is a real field of the builder (not a `PhantomData`).
    pub open spec fn spec_field_enabled(&self) -> bool {
        match self.field.setter.spec_field_enabled() {
            Some(b) => b,
            None => match self.parent.setter.spec_enabled() {
                Some(b) => b,
                None => true,
            },
        }
    }

    /// The prefix of the setter's name, if any.
    pub open spec fn spec_setter_prefix(&self) -> Option<String> {
        match self.field.setter.prefix {
            Some(p) => Some(p),
            None => self.parent.setter.prefix,
        }
    }

    /// The name of the field.
    pub open spec fn spec_field_ident(&self) -> Seq<char> {
        self.field.ident->Some_0@
    }

    /// The name of the setter.
    pub open spec fn spec_setter_ident(&self) -> Seq<char> {
        match self.field.setter.name {
            Some(n) => ident_text(n@),
            None => match self.spec_setter_prefix() {
                Some(p) => ident_text(p@) + "_"@ + self.spec_field_ident(),
                None => self.spec_field_ident(),
            },
        }
    }

    /// Whether the setter is generic over `Into`.
    pub open spec fn spec_setter_into(&self) -> bool {
        match self.field.setter.into {
            Some(b) => b,
            None => match self.parent.setter.into {
                Some(b) => b,
                None => false,
            },
        }
    }

    /// Whether the setter of an `Option` field takes the inner value.
    pub open spec fn spec_setter_strip_option(&self) -> bool {
        match self.field.setter.strip_option {
            Some(b) => b,
            None => match self.parent.setter.strip_option {
                Some(b) => b,
                None => false,
            },
        }
    }

    /// The visibility of the setter.
    pub open spec fn spec_setter_vis(&self) -> Visibility {
        match self.field.vis.spec_as_expressed_vis() {
            Some(v) => v,
            None => match self.parent.builder_vis.spec_as_expressed_vis() {
                Some(v) => v,
                None => Visibility::Public,
            },
        }
    }

    /// The visibility of the builder's field.
    pub open spec fn spec_field_vis(&self) -> Visibility {
        match self.field.field.vis.spec_as_expressed_vis() {
            Some(v) => v,
            None => if !self.spec_field_enabled() {
                Visibility::Inherited
            } else {
                match self.parent.field.vis.spec_as_expressed_vis() {
                    Some(v) => v,
                    None => Visibility::Inherited,
                }
            },
        }
    }

    /// The type of the builder's field.
    pub open spec fn spec_field_type(&self) -> BuilderFieldType {
        match self.field.field.builder_type {
            Some(t) => BuilderFieldType::Precisely(t),
            None => BuilderFieldType::Optional(self.field.ty),
        }
    }

    /// How the builder's field becomes the target's field.
    pub open spec fn spec_conversion(&self) -> FieldConversion {
        match self.field.field.build {
            Some(b) => FieldConversion::Block(b),
            None => if self.field.field.builder_type is Some {
                FieldConversion::Move
            } else {
                FieldConversion::OptionOrDefault
            },
        }
    }

    /// The builder pattern of this field.
    pub open spec fn spec_pattern(&self) -> BuilderPattern {
        match self.field.pattern {
            Some(p) => p,
            None => self.parent.pattern,
        }
    }

    /// Whether the field takes its default from the struct-level default.
    pub open spec fn spec_use_parent_default(&self) -> bool {
        self.field.default is None && self.parent.default is Some
    }

    /// What the setter of this field emits.
    pub open spec fn spec_setter(&self) -> SetterView {
        SetterView {
            enabled: self.spec_setter_enabled(),
            try_setter: self.field.try_setter || self.parent.try_setter,
            visibility: self.spec_setter_vis(),
            pattern: self.spec_pattern(),
            attrs: strings_view(self.field.setter_attrs@),
            ident: self.spec_setter_ident(),
            field_ident: self.spec_field_ident(),
            field_type: self.field.ty@,
            generic_into: self.spec_setter_into(),
            notes: self.parent.deprecation_notes@,
            bindings: Bindings { no_std: self.parent.no_std },
        }
    }

    /// What the initializer of this field emits.
    pub open spec fn spec_initializer(&self) -> InitializerView {
        InitializerView {
            crate_root: self.parent.spec_crate_root(),
            field_ident: self.spec_field_ident(),
            field_enabled: self.spec_field_enabled(),
            builder_pattern: self.spec_pattern(),
            conversion: self.spec_conversion(),
        }
    }

    /// What the default value of this field emits.
    pub open spec fn spec_default_value(&self) -> FieldDefaultValueView {
        FieldDefaultValueView {
            crate_root: self.parent.spec_crate_root(),
            field_ident: self.spec_field_ident(),
            field_type: self.field.ty@,
            field_enabled: self.spec_field_enabled(),
            enabled: !self.spec_field_enabled() || self.spec_conversion() is OptionOrDefault,
            default_value: self.field.default,
            use_default_struct: self.spec_use_parent_default(),
        }
    }

    /// What the builder's field emits.
    pub open spec fn spec_builder_field(&self) -> BuilderFieldView {
        BuilderFieldView {
            field_ident: self.spec_field_ident(),
            field_type: self.spec_field_type(),
            field_enabled: self.spec_field_enabled(),
            field_visibility: self.spec_field_vis(),
            attrs: strings_view(self.field.field_attrs@),
        }
    }

    /// Check if this field should emit a setter.
    pub fn setter_enabled(&self) -> (r: bool)
        ensures
            r == self.spec_setter_enabled(),
    {
        match self.field.setter.setter_enabled() {
            Some(b) => b,
            None => match self.parent.setter.enabled() {
                Some(b) => b,
                None => true,
            },
        }
    }

    /// Check if this field is a real field of the builder.
    pub fn field_enabled(&self) -> (r: bool)
        ensures
            r == self.spec_field_enabled(),
    {
        match self.field.setter.field_enabled() {
            Some(b) => b,
            None => match self.parent.setter.enabled() {
                Some(b) => b,
                None => true,
            },
        }
    }

    /// Check if this field should emit a fallible setter.
    pub fn try_setter(&self) -> (r: bool)
        ensures
            r == (self.field.try_setter || self.parent.try_setter),
    {
        self.field.try_setter || self.parent.try_setter
    }

    /// Get the prefix that should be applied to the field name to produce
    /// the setter ident, if any.
    pub fn setter_prefix(&self) -> (r: Option<&String>)
        ensures
            match (r, self.spec_setter_prefix()) {
                (Some(a), Some(b)) => *a == b,
                (None, None) => true,
                _ => false,
            },
    {
        match &self.field.setter.prefix {
            Some(p) => Some(p),
            None => match &self.parent.setter.prefix {
                Some(p) => Some(p),
                None => None,
            },
        }
    }

    /// Get the ident of the input field, which is also that of the builder's field.
    pub fn field_ident(&self) -> (r: &String)
        requires
            self.field.ident is Some,
        ensures
            r@ == self.spec_field_ident(),
    {
        match &self.field.ident {
            Some(i) => i,
            None => {
                proof {
                    assert(false);
                }
                &self.field.ty
            },
        }
    }

    /// Get the ident of the emitted setter method.
    pub fn setter_ident(&self) -> (r: String)
        requires
            self.field.setter.name is Some || self.field.ident is Some,
        ensures
            r@ == self.spec_setter_ident(),
    {
        if let Some(custom) = &self.field.setter.name {
            return ident_string(custom);
        }
        let ident = self.field_ident();
        if let Some(prefix) = self.setter_prefix() {
            let mut out = ident_string(prefix);
            push_str(&mut out, "_");
            push_str(&mut out, ident.as_str());
            return out;
        }
        ident.clone()
    }

    /// Checks if the emitted setter should be generic over types that impl
    /// `Into<FieldType>`.
    pub fn setter_into(&self) -> (r: bool)
        ensures
            r == self.spec_setter_into(),
    {
        match self.field.setter.into {
            Some(b) => b,
            None => match self.parent.setter.into {
                Some(b) => b,
                None => false,
            },
        }
    }

    /// Checks if the emitted setter should strip the wrapper Option over types that impl
    /// `Option<FieldType>`.
    pub fn setter_strip_option(&self) -> (r: bool)
        ensures
            r == self.spec_setter_strip_option(),
    {
        match self.field.setter.strip_option {
            Some(b) => b,
            None => match self.parent.setter.strip_option {
                Some(b) => b,
                None => false,
            },
        }
    }

    /// Get the visibility of the emitted setter, if there will be one.
    pub fn setter_vis(&self) -> (r: Visibility)
        ensures
            r == self.spec_setter_vis(),
    {
        match self.field.vis.as_expressed_vis() {
            Some(v) => v,
            None => match self.parent.builder_vis.as_expressed_vis() {
                Some(v) => v,
                None => Visibility::Public,
            },
        }
    }

    /// Get the visibility of the builder's field. Disabled fields become a
    /// `PhantomData` in the builder, which is kept private unless a
    /// visibility is given for the field itself.
    pub fn field_vis(&self) -> (r: Visibility)
        ensures
            r == self.spec_field_vis(),
    {
        match self.field.field.vis.as_expressed_vis() {
            Some(v) => v,
            None => if !self.field_enabled() {
                Visibility::Inherited
            } else {
                match self.parent.field.vis.as_expressed_vis() {
                    Some(v) => v,
                    None => Visibility::Inherited,
                }
            },
        }
    }

    /// The type of the builder's field.
    pub fn field_type(&self) -> (r: BuilderFieldType)
        ensures
            r == self.spec_field_type(),
    {
        match &self.field.field.builder_type {
            Some(t) => BuilderFieldType::Precisely(t.clone()),
            None => BuilderFieldType::Optional(self.field.ty.clone()),
        }
    }

    /// How the builder's field becomes the target's field.
    pub fn conversion(&self) -> (r: FieldConversion)
        ensures
            r == self.spec_conversion(),
    {
        match &self.field.field.build {
            Some(b) => FieldConversion::Block(b.duplicate()),
            None => if self.field.field.builder_type.is_some() {
                FieldConversion::Move
            } else {
                FieldConversion::OptionOrDefault
            },
        }
    }

    /// The builder pattern of this field.
    pub fn pattern(&self) -> (r: BuilderPattern)
        ensures
            r == self.spec_pattern(),
    {
        match self.field.pattern {
            Some(p) => p,
            None => self.parent.pattern,
        }
    }

    /// Whether the field takes its default from the struct-level default.
    pub fn use_parent_default(&self) -> (r: bool)
        ensures
            r == self.spec_use_parent_default(),
    {
        self.field.default.is_none() && self.parent.default.is_some()
    }

    /// The deprecation notes to emit.
    pub fn deprecation_notes(&self) -> (r: &DeprecationNotes)
        ensures
            r@ == self.parent.deprecation_notes@,
    {
        &self.parent.deprecation_notes
    }

    /// Returns a `Setter` according to the options.
    pub fn as_setter(&self) -> (r: Setter)
        requires
            self.field.ident is Some,
        ensures
            r@ == self.spec_setter(),
    {
        Setter {
            enabled: self.setter_enabled(),
            try_setter: self.try_setter(),
            visibility: self.setter_vis(),
            pattern: self.pattern(),
            attrs: copy_strings(&self.field.setter_attrs),
            ident: self.setter_ident(),
            field_ident: self.field_ident().clone(),
            field_type: self.field.ty.clone(),
            generic_into: self.setter_into(),
            deprecation_notes: self.deprecation_notes().duplicate(),
            bindings: Bindings { no_std: self.parent.no_std },
        }
    }

    /// Returns an `Initializer` according to the options.
    pub fn as_initializer(&self) -> (r: Initializer)
        requires
            self.field.ident is Some,
        ensures
            r@ == self.spec_initializer(),
    {
        Initializer {
            crate_root: self.parent.crate_root_path(),
            field_ident: self.field_ident().clone(),
            field_enabled: self.field_enabled(),
            builder_pattern: self.pattern(),
            conversion: self.conversion(),
        }
    }

    /// Returns the calculation of this field's default value, used when the
    /// field is disabled or converted from an `Option`.
    pub fn as_default_value(&self) -> (r: FieldDefaultValue)
        requires
            self.field.ident is Some,
        ensures
            r@ == self.spec_default_value(),
    {
        let field_enabled = self.field_enabled();
        let conversion = self.conversion();
        FieldDefaultValue {
            crate_root: self.parent.crate_root_path(),
            field_ident: self.field_ident().clone(),
            field_type: self.field.ty.clone(),
            field_enabled,
            enabled: !field_enabled || match conversion {
                FieldConversion::OptionOrDefault => true,
                _ => false,
            },
            default_value: match &self.field.default {
                Some(d) => Some(d.duplicate()),
                None => None,
            },
            use_default_struct: self.use_parent_default(),
        }
    }

    /// Returns a `BuilderField` according to the options.
    pub fn as_builder_field(&self) -> (r: BuilderField)
        requires
            self.field.ident is Some,
        ensures
            r@ == self.spec_builder_field(),
    {
        BuilderField {
            field_ident: self.field_ident().clone(),
            field_type: self.field_type(),
            field_enabled: self.field_enabled(),
            field_visibility: self.field_vis(),
            attrs: copy_strings(&self.field.field_attrs),
        }
    }
}

} // verus!
