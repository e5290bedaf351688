//! Fields of the builder struct.
use vstd::prelude::*;
use crate::attrs::{attrs_code, push_attrs};
use crate::text::{push_str, strings_view};
use crate::visibility::Visibility;

verus! {

broadcast use {crate::text::lemma_concat_assoc, crate::text::lemma_concat_empty};

/// The type of a field in the builder struct.
#[derive(Debug, Clone)]
pub enum BuilderFieldType {
    /// The corresponding builder field will be `Option<field_type>`.
    Optional(String),
    /// The corresponding builder field will be just this type.
    Precisely(String),
}

/// `bare_value` wrapped in `Some`.
pub open spec fn wrap_some_code(bare_value: Seq<char>) -> Seq<char> {
    "::derive_builder::export::core::option::Option::Some("@ + bare_value + ")"@
}

impl BuilderFieldType {
    /// The type of the target field.
    pub open spec fn spec_target_type(&self) -> String {
        match self {
            BuilderFieldType::Optional(ty) => *ty,
            BuilderFieldType::Precisely(ty) => *ty,
        }
    }

    /// The type of the builder field.
    pub open spec fn code(&self) -> Seq<char> {
        match self {
            BuilderFieldType::Optional(ty) => "::derive_builder::export::core::option::Option<"@ + ty@ + ">"@,
            BuilderFieldType::Precisely(ty) => ty@,
        }
    }

    /// Some call sites want the target field type.
    pub fn target_type(&self) -> (r: &String)
        ensures
            *r == self.spec_target_type(),
    {
        match self {
            BuilderFieldType::Optional(ty) => ty,
            BuilderFieldType::Precisely(ty) => ty,
        }
    }

    /// Returns expression wrapping `bare_value` in `Some`, if appropriate.
    pub fn wrap_some(&self, bare_value: String) -> (r: String)
        ensures
            r@ == match self {
                BuilderFieldType::Optional(_) => wrap_some_code(bare_value@),
                BuilderFieldType::Precisely(_) => bare_value@,
            },
    {
        match self {
            BuilderFieldType::Optional(_) => {
                let mut out = String::new();
                push_str(&mut out, "::derive_builder::export::core::option::Option::Some(");
                push_str(&mut out, bare_value.as_str());
                push_str(&mut out, ")");
                out
            },
            BuilderFieldType::Precisely(_) => bare_value,
        }
    }

    /// Appends the type of the builder field.
    pub fn to_tokens(&self, tokens: &mut String)
        ensures
            final(tokens)@ == old(tokens)@ + self.code(),
    {
        match self {
            BuilderFieldType::Optional(ty) => {
                push_str(tokens, "::derive_builder::export::core::option::Option<");
                push_str(tokens, ty.as_str());
                push_str(tokens, ">");
            },
            BuilderFieldType::Precisely(ty) => push_str(tokens, ty.as_str()),
        }
    }
}

/// Field for the builder struct.
#[derive(Debug, Clone)]
pub struct BuilderField {
    /// Name of the target field.
    pub field_ident: String,
    /// Type of the builder field.
    pub field_type: BuilderFieldType,
    /// Whether the builder implements a setter for this field.
    ///
    /// A field without setter becomes a `PhantomData` of the target type, so
    /// that generic parameters of the struct stay used.
    pub field_enabled: bool,
    /// Visibility of this builder field.
    pub field_visibility: Visibility,
    /// Attributes which will be attached to this builder field, by their meta text.
    pub attrs: Vec<String>,
}

/// What a builder field emits, by the source text of its parts.
pub struct BuilderFieldView {
    /// Name of the target field.
    pub field_ident: Seq<char>,
    /// Type of the builder field.
    pub field_type: BuilderFieldType,
    /// Whether the builder implements a setter for this field.
    pub field_enabled: bool,
    /// Visibility of this builder field.
    pub field_visibility: Visibility,
    /// Attributes of the builder field, by meta text.
    pub attrs: Seq<Seq<char>>,
}

impl View for BuilderField {
    type V = BuilderFieldView;

    open spec fn view(&self) -> BuilderFieldView {
        BuilderFieldView {
            field_ident: self.field_ident@,
            field_type: self.field_type,
            field_enabled: self.field_enabled,
            field_visibility: self.field_visibility,
            attrs: strings_view(self.attrs@),
        }
    }
}

impl BuilderFieldView {
    /// The source text of the field's declaration.
    pub open spec fn code(&self) -> Seq<char> {
        if self.field_enabled {
            attrs_code(self.attrs) + self.field_visibility.code() + self.field_ident + ": "@
                + self.field_type.code() + ", "@
        } else {
            attrs_code(self.attrs) + self.field_ident
                + ": ::derive_builder::export::core::marker::PhantomData<"@
                + self.field_type.spec_target_type()@ + ">, "@
        }
    }
}

impl BuilderField {
    /// The source text of the field's declaration.
    pub open spec fn code(&self) -> Seq<char> {
        self@.code()
    }

    /// The initializer of the field to `Default::default()`.
    pub open spec fn default_initializer_code(&self) -> Seq<char> {
        self.field_ident@ + " : ::derive_builder::export::core::default::Default::default(), "@
    }

    /// Appends the field's declaration to `tokens`.
    pub fn to_tokens(&self, tokens: &mut String)
        ensures
            final(tokens)@ == old(tokens)@ + self.code(),
    {
        push_attrs(tokens, &self.attrs);
        if self.field_enabled {
            self.field_visibility.to_tokens(tokens);
            push_str(tokens, self.field_ident.as_str());
            push_str(tokens, ": ");
            self.field_type.to_tokens(tokens);
            push_str(tokens, ", ");
        } else {
            push_str(tokens, self.field_ident.as_str());
            push_str(tokens, ": ::derive_builder::export::core::marker::PhantomData<");
            push_str(tokens, self.field_type.target_type().as_str());
            push_str(tokens, ">, ");
        }
    }

    /// Emits a struct field initializer that initializes the field to `Default::default`.
    pub fn default_initializer_tokens(&self) -> (r: String)
        ensures
            r@ == self.default_initializer_code(),
    {
        let mut out = String::new();
        push_str(&mut out, self.field_ident.as_str());
        push_str(&mut out, " : ::derive_builder::export::core::default::Default::default(), ");
        out
    }
}

} // verus!
