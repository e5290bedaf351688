//! The build method of the builder.
use vstd::prelude::*;
use crate::default_expression::DefaultExpression;
use crate::doc_comment::{doc_comment_from, doc_meta_code};
use crate::field_default_value::FieldDefaultValue;
use crate::generics::{Generics, ParamForm};
use crate::initializer::Initializer;
use crate::macro_options::field_with_defaults::FieldWithDefaults;
use crate::options::BuilderPattern;
use crate::text::{concat_all, push_all, push_str, strings_view};
use crate::visibility::Visibility;

verus! {

broadcast use {crate::text::lemma_concat_assoc, crate::text::lemma_concat_empty};

/// How the build method takes `self`.
pub open spec fn build_self_param_code(p: BuilderPattern) -> Seq<char> {
    match p {
        BuilderPattern::Owned => "self"@,
        _ => "&self"@,
    }
}

/// An optional doc attribute, by its meta text.
pub open spec fn opt_attr_code(m: Option<String>) -> Seq<char> {
    match m {
        Some(m) => "#["@ + m@ + "] "@,
        None => Seq::empty(),
    }
}

/// Optional generics, in the given place.
pub open spec fn opt_generics_code(g: Option<Generics>, form: ParamForm) -> Seq<char> {
    match g {
        Some(g) => g.code(form),
        None => Seq::empty(),
    }
}

/// Appends an optional attribute given by its meta text.
pub fn push_opt_attr(tokens: &mut String, m: &Option<String>)
    ensures
        final(tokens)@ == old(tokens)@ + opt_attr_code(*m),
{
    if let Some(m) = m {
        push_str(tokens, "#[");
        push_str(tokens, m.as_str());
        push_str(tokens, "] ");
    }
}

/// Appends optional generics, in the given place.
pub fn push_opt_generics(tokens: &mut String, g: &Option<Generics>, form: ParamForm)
    ensures
        final(tokens)@ == old(tokens)@ + opt_generics_code(*g, form),
{
    if let Some(g) = g {
        g.to_tokens(form, tokens);
    }
}

/// The build method of the builder.
#[derive(Debug)]
pub struct BuildMethod {
    /// Path to the root of the derive_builder crate.
    pub crate_root: String,
    /// Enables code generation for this build method.
    pub enabled: bool,
    /// Name of this build fn.
    pub ident: String,
    /// Visibility of the build method.
    pub visibility: Visibility,
    /// How the build method takes and returns `self` (e.g. mutably).
    pub pattern: BuilderPattern,
    /// Type of the target struct.
    pub target_ty: String,
    /// Type parameters and lifetimes of the target struct.
    pub target_ty_generics: Option<Generics>,
    /// Type of error.
    pub error_ty: String,
    /// The `let` statements of the fields' default values, in order.
    pub field_default_values: Vec<String>,
    /// Initializers of the target's fields, in order.
    pub initializers: Vec<String>,
    /// Doc attribute of the method, by its meta text.
    pub doc_comment: Option<String>,
    /// Default value for the whole struct; in scope for all initializers as `__default`.
    pub default_struct: Option<DefaultExpression>,
    /// Validation function with signature `&FooBuilder -> Result<(), String>`
    /// to call before the struct is built.
    pub validate_fn: Option<String>,
}

/// What a build method emits, by the source text of its parts.
pub struct BuildMethodView {
    /// Path to the root of the derive_builder crate.
    pub crate_root: Seq<char>,
    /// Enables code generation for this build method.
    pub enabled: bool,
    /// Name of this build fn.
    pub ident: Seq<char>,
    /// Visibility of the build method.
    pub visibility: Visibility,
    /// How the build method takes `self`.
    pub pattern: BuilderPattern,
    /// Type of the target struct.
    pub target_ty: Seq<char>,
    /// Its generic arguments, e.g. `<'a, T>`.
    pub target_ty_generics: Seq<char>,
    /// Type of error.
    pub error_ty: Seq<char>,
    /// The `let` statements of the fields' default values, in order.
    pub field_default_values: Seq<Seq<char>>,
    /// Initializers of the target's fields, in order.
    pub initializers: Seq<Seq<char>>,
    /// The doc attribute, or nothing.
    pub doc_code: Seq<char>,
    /// Default value for the whole struct.
    pub default_struct: Option<DefaultExpression>,
    /// Path of the validation function.
    pub validate_fn: Option<Seq<char>>,
}

impl View for BuildMethod {
    type V = BuildMethodView;

    open spec fn view(&self) -> BuildMethodView {
        BuildMethodView {
            crate_root: self.crate_root@,
            enabled: self.enabled,
            ident: self.ident@,
            visibility: self.visibility,
            pattern: self.pattern,
            target_ty: self.target_ty@,
            target_ty_generics: opt_generics_code(self.target_ty_generics, ParamForm::Ty),
            error_ty: self.error_ty@,
            field_default_values: strings_view(self.field_default_values@),
            initializers: strings_view(self.initializers@),
            doc_code: opt_attr_code(self.doc_comment),
            default_struct: self.default_struct,
            validate_fn: match self.validate_fn {
                Some(v) => Some(v@),
                None => None,
            },
        }
    }
}

impl BuildMethodView {
    /// The call of the validation function, if there is one.
    pub open spec fn validate_code(&self) -> Seq<char> {
        match self.validate_fn {
            Some(v) => v + "(&self)?; "@,
            None => Seq::empty(),
        }
    }

    /// The `let` of the struct-level default value, if there is one.
    pub open spec fn default_struct_code(&self) -> Seq<char> {
        match self.default_struct {
            Some(e) => "let __default: "@ + self.target_ty + self.target_ty_generics + " = "@
                + e.code_with_crate_root(self.crate_root) + "; "@,
            None => Seq::empty(),
        }
    }

    /// The signature of the method.
    pub open spec fn head_code(&self) -> Seq<char> {
        self.doc_code + self.visibility.code() + "fn "@ + self.ident + "("@
            + build_self_param_code(self.pattern) + ") -> "@ + self.crate_root
            + "::export::core::result::Result<"@ + self.target_ty + self.target_ty_generics
            + ", "@ + self.error_ty + ">"@
    }

    /// The body of the method.
    pub open spec fn body_code(&self) -> Seq<char> {
        " { "@ + self.validate_code() + self.default_struct_code() + concat_all(
            self.field_default_values,
        ) + "Ok("@ + self.target_ty + " { "@ + concat_all(self.initializers) + "}) } "@
    }

    /// The source text of the method; nothing if disabled.
    pub open spec fn code(&self) -> Seq<char> {
        if self.enabled {
            self.head_code() + self.body_code()
        } else {
            Seq::empty()
        }
    }
}

impl BuildMethod {
    /// The source text of the method; nothing if disabled.
    pub open spec fn code(&self) -> Seq<char> {
        self@.code()
    }

    fn push_head(&self, tokens: &mut String)
        ensures
            final(tokens)@ == old(tokens)@ + self@.head_code(),
    {
        push_opt_attr(tokens, &self.doc_comment);
        self.visibility.to_tokens(tokens);
        push_str(tokens, "fn ");
        push_str(tokens, self.ident.as_str());
        push_str(tokens, "(");
        match self.pattern {
            BuilderPattern::Owned => push_str(tokens, "self"),
            _ => push_str(tokens, "&self"),
        }
        push_str(tokens, ") -> ");
        push_str(tokens, self.crate_root.as_str());
        push_str(tokens, "::export::core::result::Result<");
        push_str(tokens, self.target_ty.as_str());
        push_opt_generics(tokens, &self.target_ty_generics, ParamForm::Ty);
        push_str(tokens, ", ");
        push_str(tokens, self.error_ty.as_str());
        push_str(tokens, ">");
    }

    fn push_body(&self, tokens: &mut String)
        ensures
            final(tokens)@ == old(tokens)@ + self@.body_code(),
    {
        push_str(tokens, " { ");
        if let Some(v) = &self.validate_fn {
            push_str(tokens, v.as_str());
            push_str(tokens, "(&self)?; ");
        }
        if let Some(e) = &self.default_struct {
            push_str(tokens, "let __default: ");
            push_str(tokens, self.target_ty.as_str());
            push_opt_generics(tokens, &self.target_ty_generics, ParamForm::Ty);
            push_str(tokens, " = ");
            e.with_crate_root(self.crate_root.as_str(), tokens);
            push_str(tokens, "; ");
        }
        push_all(tokens, &self.field_default_values);
        push_str(tokens, "Ok(");
        push_str(tokens, self.target_ty.as_str());
        push_str(tokens, " { ");
        push_all(tokens, &self.initializers);
        push_str(tokens, "}) } ");
    }

    /// Appends the method to `tokens`; nothing if disabled.
    pub fn to_tokens(&self, tokens: &mut String)
        ensures
            final(tokens)@ == old(tokens)@ + self.code(),
    {
        if self.enabled {
            self.push_head(tokens);
            self.push_body(tokens);
        }
    }

    /// Set a doc-comment for this item.
    pub fn doc_comment(&mut self, s: String)
        ensures
            final(self).doc_comment matches Some(m) && m@ == doc_meta_code(s@),
            final(self).crate_root == old(self).crate_root,
            final(self).enabled == old(self).enabled,
            final(self).ident == old(self).ident,
            final(self).visibility == old(self).visibility,
            final(self).pattern == old(self).pattern,
            final(self).target_ty == old(self).target_ty,
            final(self).target_ty_generics == old(self).target_ty_generics,
            final(self).error_ty == old(self).error_ty,
            final(self).field_default_values == old(self).field_default_values,
            final(self).initializers == old(self).initializers,
            final(self).default_struct == old(self).default_struct,
            final(self).validate_fn == old(self).validate_fn,
    {
        self.doc_comment = Some(doc_comment_from(s));
    }

    /// Adds a field: the `let` of its default value and its initializer.
    pub fn push_field(&mut self, default_value: &FieldDefaultValue, initializer: &Initializer)
        ensures
            strings_view(final(self).field_default_values@) == strings_view(
                old(self).field_default_values@,
            ).push(default_value.code()),
            strings_view(final(self).initializers@) == strings_view(old(self).initializers@).push(
                initializer.code(),
            ),
            final(self).crate_root == old(self).crate_root,
            final(self).enabled == old(self).enabled,
            final(self).ident == old(self).ident,
            final(self).visibility == old(self).visibility,
            final(self).pattern == old(self).pattern,
            final(self).target_ty == old(self).target_ty,
            final(self).target_ty_generics == old(self).target_ty_generics,
            final(self).error_ty == old(self).error_ty,
            final(self).doc_comment == old(self).doc_comment,
            final(self).default_struct == old(self).default_struct,
            final(self).validate_fn == old(self).validate_fn,
    {
        let mut d = String::new();
        default_value.to_tokens(&mut d);
        self.field_default_values.push(d);
        let mut i = String::new();
        initializer.to_tokens(&mut i);
        self.initializers.push(i);
        assert(strings_view(self.field_default_values@) =~= strings_view(
            old(self).field_default_values@,
        ).push(default_value.code()));
        assert(strings_view(self.initializers@) =~= strings_view(old(self).initializers@).push(
            initializer.code(),
        ));
    }

    /// Sets the fields of the method: the `let` of each field's default
    /// value and each field's initializer, in order, in place of any given before.
    pub fn fields(&mut self, fields: &Vec<FieldWithDefaults>)
        requires
            forall|i: int| 0 <= i < fields@.len() ==> (#[trigger] fields@[i]).field.ident is Some,
        ensures
            final(self)@ == (BuildMethodView {
                field_default_values: Seq::new(
                    fields@.len(),
                    |i: int| fields@[i].spec_default_value().code(),
                ),
                initializers: Seq::new(fields@.len(), |i: int| fields@[i].spec_initializer().code()),
                ..old(self)@
            }),
    {
        self.field_default_values = Vec::new();
        self.initializers = Vec::new();
        let ghost start = self@;
        assert(self@.field_default_values =~= Seq::<Seq<char>>::empty());
        assert(self@.initializers =~= Seq::<Seq<char>>::empty());
        assert(Seq::new(0, |j: int| fields@[j].spec_default_value().code()) =~= Seq::<Seq<char>>::empty());
        assert(Seq::new(0, |j: int| fields@[j].spec_initializer().code()) =~= Seq::<Seq<char>>::empty());
        let mut i: usize = 0;
        while i < fields.len()
            invariant
                i <= fields@.len(),
                forall|j: int| 0 <= j < fields@.len() ==> (#[trigger] fields@[j]).field.ident is Some,
                self@ == (BuildMethodView {
                    field_default_values: Seq::new(
                        i as nat,
                        |j: int| fields@[j].spec_default_value().code(),
                    ),
                    initializers: Seq::new(i as nat, |j: int| fields@[j].spec_initializer().code()),
                    ..start
                }),
                start == (BuildMethodView {
                    field_default_values: Seq::empty(),
                    initializers: Seq::empty(),
                    ..old(self)@
                }),
            decreases fields@.len() - i,
        {
            let f = &fields[i];
            let d = f.as_default_value();
            let n = f.as_initializer();
            self.push_field(&d, &n);
            assert(self@.field_default_values =~= Seq::new(
                (i + 1) as nat,
                |j: int| fields@[j].spec_default_value().code(),
            ));
            assert(self@.initializers =~= Seq::new(
                (i + 1) as nat,
                |j: int| fields@[j].spec_initializer().code(),
            ));
            i = i + 1;
        }
    }
}

} // verus!
