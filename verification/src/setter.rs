//! Setter methods of the builder.
use vstd::prelude::*;
use crate::attrs::{attrs_code, push_attrs};
use crate::bindings::Bindings;
use crate::deprecation_notes::{notes_code, DeprecationNotes};
use crate::options::BuilderPattern;
use crate::text::{push_str, strings_view};
use crate::visibility::Visibility;

verus! {

broadcast use {crate::text::lemma_concat_assoc, crate::text::lemma_concat_empty};

/// How a method with the given pattern takes `self`.
pub open spec fn self_param_code(p: BuilderPattern) -> Seq<char> {
    match p {
        BuilderPattern::Owned => "self"@,
        BuilderPattern::Mutable => "&mut self"@,
        BuilderPattern::Immutable => "&self"@,
    }
}

/// What a setter with the given pattern returns.
pub open spec fn return_ty_code(p: BuilderPattern) -> Seq<char> {
    match p {
        BuilderPattern::Owned => "Self"@,
        BuilderPattern::Mutable => "&mut Self"@,
        BuilderPattern::Immutable => "Self"@,
    }
}

/// The expression a setter with the given pattern starts the new builder from.
pub open spec fn self_into_code(p: BuilderPattern, clone_trait: Seq<char>) -> Seq<char> {
    match p {
        BuilderPattern::Immutable => clone_trait + "::clone(self)"@,
        _ => "self"@,
    }
}

/// Appends how a method with the given pattern takes `self`.
pub fn push_self_param(tokens: &mut String, p: BuilderPattern)
    ensures
        final(tokens)@ == old(tokens)@ + self_param_code(p),
{
    match p {
        BuilderPattern::Owned => push_str(tokens, "self"),
        BuilderPattern::Mutable => push_str(tokens, "&mut self"),
        BuilderPattern::Immutable => push_str(tokens, "&self"),
    }
}

fn push_return_ty(tokens: &mut String, p: BuilderPattern)
    ensures
        final(tokens)@ == old(tokens)@ + return_ty_code(p),
{
    match p {
        BuilderPattern::Owned => push_str(tokens, "Self"),
        BuilderPattern::Mutable => push_str(tokens, "&mut Self"),
        BuilderPattern::Immutable => push_str(tokens, "Self"),
    }
}

fn push_self_into(tokens: &mut String, p: BuilderPattern, clone_trait: &str)
    ensures
        final(tokens)@ == old(tokens)@ + self_into_code(p, clone_trait@),
{
    match p {
        BuilderPattern::Immutable => {
            push_str(tokens, clone_trait);
            push_str(tokens, "::clone(self)");
            assert(tokens@ == old(tokens)@ + self_into_code(p, clone_trait@));
        },
        _ => push_str(tokens, "self"),
    }
}

/// Setter for the struct fields in the build method.
#[derive(Debug, Clone)]
pub struct Setter {
    /// Enables code generation for this setter fn.
    pub enabled: bool,
    /// Enables code generation for the `try_` variant of this setter fn.
    pub try_setter: bool,
    /// Visibility of the setter.
    pub visibility: Visibility,
    /// How the setter method takes and returns `self` (e.g. mutably).
    pub pattern: BuilderPattern,
    /// Attributes which will be attached to this setter fn, by their meta text.
    pub attrs: Vec<String>,
    /// Name of this setter fn.
    pub ident: String,
    /// Name of the target field.
    pub field_ident: String,
    /// Type of the target field.
    pub field_type: String,
    /// Make the setter generic over `Into<T>`, where `T` is the field type.
    pub generic_into: bool,
    /// Emit deprecation notes to the user.
    pub deprecation_notes: DeprecationNotes,
    /// Bindings to libstd or libcore.
    pub bindings: Bindings,
}

/// What a setter emits, by the source text of its parts.
pub struct SetterView {
    /// Enables code generation for this setter fn.
    pub enabled: bool,
    /// Enables code generation for the `try_` variant of this setter fn.
    pub try_setter: bool,
    /// Visibility of the setter.
    pub visibility: Visibility,
    /// How the setter method takes and returns `self`.
    pub pattern: BuilderPattern,
    /// Attributes of the setter, by meta text.
    pub attrs: Seq<Seq<char>>,
    /// Name of the setter.
    pub ident: Seq<char>,
    /// Name of the target field.
    pub field_ident: Seq<char>,
    /// Type of the target field.
    pub field_type: Seq<char>,
    /// Whether the setter is generic over `Into<T>`.
    pub generic_into: bool,
    /// Deprecation notes.
    pub notes: Seq<Seq<char>>,
    /// Bindings to libstd or libcore.
    pub bindings: Bindings,
}

impl View for Setter {
    type V = SetterView;

    open spec fn view(&self) -> SetterView {
        SetterView {
            enabled: self.enabled,
            try_setter: self.try_setter,
            visibility: self.visibility,
            pattern: self.pattern,
            attrs: strings_view(self.attrs@),
            ident: self.ident@,
            field_ident: self.field_ident@,
            field_type: self.field_type@,
            generic_into: self.generic_into,
            notes: self.deprecation_notes@,
            bindings: self.bindings,
        }
    }
}

impl SetterView {
    /// The generic parameters of the setter.
    pub open spec fn ty_params_code(&self) -> Seq<char> {
        if self.generic_into {
            "<VALUE: "@ + self.bindings.spec_into_trait() + "<"@ + self.field_type + ">>"@
        } else {
            Seq::empty()
        }
    }

    /// The type of the setter's parameter.
    pub open spec fn param_ty_code(&self) -> Seq<char> {
        if self.generic_into {
            "VALUE"@
        } else {
            self.field_type
        }
    }

    /// The value the setter stores.
    pub open spec fn into_value_code(&self) -> Seq<char> {
        if self.generic_into {
            "value.into()"@
        } else {
            "value"@
        }
    }

    /// The signature of the setter method.
    pub open spec fn head_code(&self) -> Seq<char> {
        attrs_code(self.attrs) + "#[allow(unused_mut)] "@ + self.visibility.code()
            + "fn "@ + self.ident + " "@ + self.ty_params_code() + "("@
            + self_param_code(self.pattern) + ", value: "@ + self.param_ty_code() + ") -> "@
            + return_ty_code(self.pattern)
    }

    /// The body of the setter method.
    pub open spec fn body_code(&self) -> Seq<char> {
        " { "@ + notes_code(self.notes) + "let mut new = "@
            + self_into_code(self.pattern, self.bindings.spec_clone_trait()) + "; new."@
            + self.field_ident + " = "@ + self.bindings.spec_option_ty() + "::Some("@
            + self.into_value_code() + "); new } "@
    }

    /// The source text of the setter method.
    pub open spec fn main_code(&self) -> Seq<char> {
        self.head_code() + self.body_code()
    }

    /// The source text of the fallible `try_` setter method.
    pub open spec fn try_code(&self) -> Seq<char> {
        attrs_code(self.attrs) + self.visibility.code() + "fn try_"@ + self.ident
            + " <VALUE: "@ + self.bindings.spec_try_into_trait() + "<"@ + self.field_type
            + ">>("@ + self_param_code(self.pattern) + ", value: VALUE) -> "@
            + self.bindings.spec_result_ty() + "<"@ + return_ty_code(self.pattern)
            + ", VALUE::Error> { let converted : "@ + self.field_type
            + " = value.try_into()?; let mut new = "@
            + self_into_code(self.pattern, self.bindings.spec_clone_trait()) + "; new."@
            + self.field_ident + " = "@ + self.bindings.spec_option_ty()
            + "::Some(converted); Ok(new) } "@
    }

    /// The source text of everything the setter emits.
    pub open spec fn code(&self) -> Seq<char> {
        if !self.enabled {
            Seq::empty()
        } else if self.try_setter {
            self.main_code() + self.try_code()
        } else {
            self.main_code()
        }
    }
}

impl Setter {
    /// The source text of everything the setter emits.
    pub open spec fn code(&self) -> Seq<char> {
        self@.code()
    }

    fn push_head(&self, tokens: &mut String)
        ensures
            final(tokens)@ == old(tokens)@ + self@.head_code(),
    {
        let into = self.bindings.into_trait();
        push_attrs(tokens, &self.attrs);
        push_str(tokens, "#[allow(unused_mut)] ");
        self.visibility.to_tokens(tokens);
        push_str(tokens, "fn ");
        push_str(tokens, self.ident.as_str());
        push_str(tokens, " ");
        let ghost mid = tokens@;
        if self.generic_into {
            push_str(tokens, "<VALUE: ");
            push_str(tokens, into.as_str());
            push_str(tokens, "<");
            push_str(tokens, self.field_type.as_str());
            push_str(tokens, ">>");
            assert(tokens@ == mid + self@.ty_params_code());
        } else {
            assert(tokens@ == mid + self@.ty_params_code());
        }
        push_str(tokens, "(");
        push_self_param(tokens, self.pattern);
        push_str(tokens, ", value: ");
        if self.generic_into {
            push_str(tokens, "VALUE");
        } else {
            push_str(tokens, self.field_type.as_str());
        }
        push_str(tokens, ") -> ");
        push_return_ty(tokens, self.pattern);
        assert(tokens@ == old(tokens)@ + self@.head_code());
    }

    fn push_body(&self, tokens: &mut String)
        ensures
            final(tokens)@ == old(tokens)@ + self@.body_code(),
    {
        let clone = self.bindings.clone_trait();
        let option = self.bindings.option_ty();
        push_str(tokens, " { ");
        self.deprecation_notes.to_tokens(tokens);
        push_str(tokens, "let mut new = ");
        push_self_into(tokens, self.pattern, clone.as_str());
        push_str(tokens, "; new.");
        push_str(tokens, self.field_ident.as_str());
        push_str(tokens, " = ");
        push_str(tokens, option.as_str());
        push_str(tokens, "::Some(");
        if self.generic_into {
            push_str(tokens, "value.into()");
        } else {
            push_str(tokens, "value");
        }
        push_str(tokens, "); new } ");
        assert(tokens@ == old(tokens)@ + self@.body_code());
    }

    fn push_main(&self, tokens: &mut String)
        ensures
            final(tokens)@ == old(tokens)@ + self@.main_code(),
    {
        self.push_head(tokens);
        self.push_body(tokens);
        assert(tokens@ == old(tokens)@ + self@.main_code());
    }

    fn push_try(&self, tokens: &mut String)
        ensures
            final(tokens)@ == old(tokens)@ + self@.try_code(),
    {
        let clone = self.bindings.clone_trait();
        let option = self.bindings.option_ty();
        let try_into = self.bindings.try_into_trait();
        let result = self.bindings.result_ty();
        push_attrs(tokens, &self.attrs);
        self.visibility.to_tokens(tokens);
        push_str(tokens, "fn try_");
        push_str(tokens, self.ident.as_str());
        push_str(tokens, " <VALUE: ");
        push_str(tokens, try_into.as_str());
        push_str(tokens, "<");
        push_str(tokens, self.field_type.as_str());
        push_str(tokens, ">>(");
        push_self_param(tokens, self.pattern);
        push_str(tokens, ", value: VALUE) -> ");
        push_str(tokens, result.as_str());
        push_str(tokens, "<");
        push_return_ty(tokens, self.pattern);
        push_str(tokens, ", VALUE::Error> { let converted : ");
        push_str(tokens, self.field_type.as_str());
        push_str(tokens, " = value.try_into()?; let mut new = ");
        push_self_into(tokens, self.pattern, clone.as_str());
        push_str(tokens, "; new.");
        push_str(tokens, self.field_ident.as_str());
        push_str(tokens, " = ");
        push_str(tokens, option.as_str());
        push_str(tokens, "::Some(converted); Ok(new) } ");
        assert(tokens@ == old(tokens)@ + self@.try_code());
    }

    /// Appends the setter (and its `try_` variant, if enabled) to `tokens`;
    /// nothing if the setter is disabled.
    pub fn to_tokens(&self, tokens: &mut String)
        ensures
            final(tokens)@ == old(tokens)@ + self.code(),
    {
        if self.enabled {
            self.push_main(tokens);
            if self.try_setter {
                self.push_try(tokens);
                assert(tokens@ == old(tokens)@ + self.code());
            }
        } else {
            assert(old(tokens)@ + Seq::<char>::empty() =~= old(tokens)@);
        }
    }
}

} // verus!
