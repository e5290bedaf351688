//! Initializers of the target struct's fields, inside the build method.
use vstd::prelude::*;
use crate::block::BlockContents;
use crate::options::BuilderPattern;
use crate::text::push_str;

verus! {

broadcast use {crate::text::lemma_concat_assoc, crate::text::lemma_concat_empty};

/// Prefix of the local variable that holds a field's default value.
pub const DEFAULT_FIELD_NAME_PREFIX: &'static str = "__default_";

/// The name of the local variable that holds the default value of `field`.
pub open spec fn default_ident_code(field: Seq<char>) -> Seq<char> {
    "__default_"@ + field
}

/// How the builder's field becomes the target's field.
#[derive(Debug, Clone)]
pub enum FieldConversion {
    /// Usual conversion: unwrap the Option from the builder, or use a default value.
    OptionOrDefault,
    /// Custom conversion given as block contents.
    Block(BlockContents),
    /// Custom conversion is just to move the field from the builder.
    Move,
}

/// Initializer for the target struct fields.
///
/// Lives in the body of the build method.
#[derive(Debug, Clone)]
pub struct Initializer {
    /// Path to the root of the derive_builder crate.
    pub crate_root: String,
    /// Name of the target field.
    pub field_ident: String,
    /// Whether the builder implements a setter for this field.
    pub field_enabled: bool,
    /// How the build method takes and returns `self` (e.g. mutably).
    pub builder_pattern: BuilderPattern,
    /// Method to use to convert the builder's field to the target field.
    pub conversion: FieldConversion,
}

/// What an initializer emits, by the source text of its parts.
pub struct InitializerView {
    /// Path to the root of the derive_builder crate.
    pub crate_root: Seq<char>,
    /// Name of the target field.
    pub field_ident: Seq<char>,
    /// Whether the builder implements a setter for this field.
    pub field_enabled: bool,
    /// How the build method takes and returns `self`.
    pub builder_pattern: BuilderPattern,
    /// How the builder's field becomes the target's field.
    pub conversion: FieldConversion,
}

impl View for Initializer {
    type V = InitializerView;

    open spec fn view(&self) -> InitializerView {
        InitializerView {
            crate_root: self.crate_root@,
            field_ident: self.field_ident@,
            field_enabled: self.field_enabled,
            builder_pattern: self.builder_pattern,
            conversion: self.conversion,
        }
    }
}

impl InitializerView {
    /// `value_in_option` as it is (owned pattern) or with its content cloned.
    pub open spec fn move_or_clone_code(&self, value_in_option: Seq<char>) -> Seq<char> {
        match self.builder_pattern {
            BuilderPattern::Owned => value_in_option,
            _ => value_in_option + ".as_ref().map(|value| "@ + self.crate_root
                + "::export::core::clone::Clone::clone(value))"@,
        }
    }

    /// The value given to the target field.
    pub open spec fn rhs_code(&self) -> Seq<char> {
        if !self.field_enabled {
            default_ident_code(self.field_ident)
        } else {
            match self.conversion {
                FieldConversion::Move => "self."@ + self.field_ident,
                FieldConversion::OptionOrDefault => self.move_or_clone_code(
                    "self."@ + self.field_ident,
                ) + ".or("@ + default_ident_code(self.field_ident) + ").unwrap()"@,
                FieldConversion::Block(b) => b.code(),
            }
        }
    }

    /// The source text of the initializer: `field: value, `.
    pub open spec fn code(&self) -> Seq<char> {
        self.field_ident + ": "@ + self.rhs_code() + ", "@
    }
}

impl Initializer {
    /// The source text of the initializer: `field: value, `.
    pub open spec fn code(&self) -> Seq<char> {
        self@.code()
    }

    fn push_move_or_clone_self_field(&self, tokens: &mut String)
        ensures
            final(tokens)@ == old(tokens)@ + self@.move_or_clone_code("self."@ + self.field_ident@),
    {
        push_str(tokens, "self.");
        push_str(tokens, self.field_ident.as_str());
        match self.builder_pattern {
            BuilderPattern::Owned => {},
            _ => {
                push_str(tokens, ".as_ref().map(|value| ");
                push_str(tokens, self.crate_root.as_str());
                push_str(tokens, "::export::core::clone::Clone::clone(value))");
            },
        }
    }

    fn push_default_ident(&self, tokens: &mut String)
        ensures
            final(tokens)@ == old(tokens)@ + default_ident_code(self.field_ident@),
    {
        push_str(tokens, DEFAULT_FIELD_NAME_PREFIX);
        push_str(tokens, self.field_ident.as_str());
    }

    /// Appends the initializer to `tokens`.
    pub fn to_tokens(&self, tokens: &mut String)
        ensures
            final(tokens)@ == old(tokens)@ + self.code(),
    {
        push_str(tokens, self.field_ident.as_str());
        push_str(tokens, ": ");
        if !self.field_enabled {
            self.push_default_ident(tokens);
        } else {
            match &self.conversion {
                FieldConversion::Move => {
                    push_str(tokens, "self.");
                    push_str(tokens, self.field_ident.as_str());
                },
                FieldConversion::OptionOrDefault => {
                    self.push_move_or_clone_self_field(tokens);
                    push_str(tokens, ".or(");
                    self.push_default_ident(tokens);
                    push_str(tokens, ").unwrap()");
                },
                FieldConversion::Block(b) => b.to_tokens(tokens),
            }
        }
        push_str(tokens, ", ");
    }
}

} // verus!
