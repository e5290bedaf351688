//! The builder struct and its `impl` block.
use vstd::prelude::*;
use crate::attrs::{attrs_code, push_attrs};
use crate::build_method::{opt_attr_code, opt_generics_code, push_opt_attr, push_opt_generics, BuildMethod};
use crate::builder_field::BuilderField;
use crate::deprecation_notes::{notes_item_code, DeprecationNotes};
use crate::doc_comment::{doc_comment_from, doc_meta_code};
use crate::generics::{Generics, ParamForm};
use crate::setter::Setter;
use crate::text::{concat_all, push_all, push_str, strings_view};
use crate::visibility::Visibility;

verus! {

broadcast use {crate::text::lemma_concat_assoc, crate::text::lemma_concat_empty};

/// `, Trait` for each additional derived trait.
pub open spec fn derives_code(derives: Seq<Seq<char>>) -> Seq<char>
    decreases derives.len(),
{
    if derives.len() == 0 {
        Seq::empty()
    } else {
        derives_code(derives.drop_last()) + ", "@ + derives.last()
    }
}

fn push_derives(tokens: &mut String, derives: &Vec<String>)
    ensures
        final(tokens)@ == old(tokens)@ + derives_code(strings_view(derives@)),
{
    let ghost start = tokens@;
    let mut i: usize = 0;
    while i < derives.len()
        invariant
            i <= derives@.len(),
            tokens@ == start + derives_code(strings_view(derives@.subrange(0, i as int))),
        decreases derives@.len() - i,
    {
        push_str(tokens, ", ");
        push_str(tokens, derives[i].as_str());
        proof {
            assert(strings_view(derives@.subrange(0, i + 1)).drop_last() =~= strings_view(
                derives@.subrange(0, i as int),
            ));
        }
        i = i + 1;
    }
    assert(derives@.subrange(0, derives@.len() as int) =~= derives@);
}

/// Optional where clause.
pub open spec fn opt_where_code(g: Option<Generics>) -> Seq<char> {
    match g {
        Some(g) => g.where_code(),
        None => Seq::empty(),
    }
}

fn push_opt_where(tokens: &mut String, g: &Option<Generics>)
    ensures
        final(tokens)@ == old(tokens)@ + opt_where_code(*g),
{
    if let Some(g) = g {
        g.where_to_tokens(tokens);
    }
}

/// The builder struct and its `impl` block.
#[derive(Debug)]
pub struct Builder {
    /// Enables code generation for this builder struct.
    pub enabled: bool,
    /// Name of this builder struct.
    pub ident: String,
    /// Traits to automatically derive on the builder type, besides `Default` and `Clone`.
    pub derives: Vec<String>,
    /// Type parameters and lifetimes attached to this builder's struct definition.
    pub generics: Option<Generics>,
    /// Type parameters and lifetimes attached to this builder's impl block.
    pub impl_generics: Option<Generics>,
    /// Visibility of the builder struct.
    pub visibility: Visibility,
    /// Fields of the builder struct, e.g. `foo: u32,`; each terminated by a comma.
    pub fields: Vec<String>,
    /// Functions of the builder struct, e.g. `fn bar() -> { unimplemented!() }`.
    pub functions: Vec<String>,
    /// Doc attribute of the builder struct, by its meta text.
    pub doc_comment: Option<String>,
    /// Emit deprecation notes to the user.
    pub deprecation_notes: DeprecationNotes,
    /// Attributes of the builder struct, by meta text.
    pub struct_attrs: Vec<String>,
    /// Attributes of the `impl` block, by meta text.
    pub impl_attrs: Vec<String>,
}

/// What a builder emits, by the source text of its parts.
pub struct BuilderView {
    /// Enables code generation for this builder struct.
    pub enabled: bool,
    /// Name of this builder struct.
    pub ident: Seq<char>,
    /// Traits to derive besides `Default` and `Clone`.
    pub derives: Seq<Seq<char>>,
    /// Generic parameters of the struct's declaration, with their bounds and
    /// without defaults, e.g. `<'a, T: Debug>`.
    pub decl_generics: Seq<char>,
    /// Generic arguments of the struct, e.g. `<'a, T>`.
    pub ty_generics: Seq<char>,
    /// Generic parameters of the `impl` block.
    pub impl_generics: Seq<char>,
    /// The where clause, or nothing.
    pub where_code: Seq<char>,
    /// Visibility of the builder struct.
    pub visibility: Visibility,
    /// Fields of the builder struct.
    pub fields: Seq<Seq<char>>,
    /// Functions of the builder struct.
    pub functions: Seq<Seq<char>>,
    /// The doc attribute, or nothing.
    pub doc_code: Seq<char>,
    /// Deprecation notes.
    pub notes: Seq<Seq<char>>,
    /// Attributes of the builder struct, by meta text.
    pub struct_attrs: Seq<Seq<char>>,
    /// Attributes of the `impl` block, by meta text.
    pub impl_attrs: Seq<Seq<char>>,
}

impl View for Builder {
    type V = BuilderView;

    open spec fn view(&self) -> BuilderView {
        BuilderView {
            enabled: self.enabled,
            ident: self.ident@,
            derives: strings_view(self.derives@),
            decl_generics: opt_generics_code(self.generics, ParamForm::Impl),
            ty_generics: opt_generics_code(self.generics, ParamForm::Ty),
            impl_generics: opt_generics_code(self.impl_generics, ParamForm::Impl),
            where_code: opt_where_code(self.generics),
            visibility: self.visibility,
            fields: strings_view(self.fields@),
            functions: strings_view(self.functions@),
            doc_code: opt_attr_code(self.doc_comment),
            notes: self.deprecation_notes@,
            struct_attrs: strings_view(self.struct_attrs@),
            impl_attrs: strings_view(self.impl_attrs@),
        }
    }
}

impl BuilderView {
    /// The struct definition.
    pub open spec fn struct_code(&self) -> Seq<char> {
        "#[derive(Default, Clone"@ + derives_code(self.derives) + ")] "@ + attrs_code(
            self.struct_attrs,
        ) + self.doc_code + self.visibility.code() + "struct "@ + self.ident
            + self.decl_generics + self.where_code + " { "@ + concat_all(self.fields) + "} "@
    }

    /// The `impl` block.
    pub open spec fn impl_code(&self) -> Seq<char> {
        attrs_code(self.impl_attrs) + "#[allow(dead_code)] impl"@ + self.impl_generics + " "@
            + self.ident + self.ty_generics + self.where_code + " { "@ + concat_all(
            self.functions,
        ) + notes_item_code(self.notes) + "} "@
    }

    /// The source text of the builder; nothing if disabled.
    pub open spec fn code(&self) -> Seq<char> {
        if self.enabled {
            self.struct_code() + self.impl_code()
        } else {
            Seq::empty()
        }
    }
}

impl Builder {
    /// The source text of the builder; nothing if disabled.
    pub open spec fn code(&self) -> Seq<char> {
        self@.code()
    }

    fn push_struct(&self, tokens: &mut String)
        ensures
            final(tokens)@ == old(tokens)@ + self@.struct_code(),
    {
        push_str(tokens, "#[derive(Default, Clone");
        push_derives(tokens, &self.derives);
        push_str(tokens, ")] ");
        push_attrs(tokens, &self.struct_attrs);
        push_opt_attr(tokens, &self.doc_comment);
        self.visibility.to_tokens(tokens);
        push_str(tokens, "struct ");
        push_str(tokens, self.ident.as_str());
        push_opt_generics(tokens, &self.generics, ParamForm::Impl);
        push_opt_where(tokens, &self.generics);
        push_str(tokens, " { ");
        push_all(tokens, &self.fields);
        push_str(tokens, "} ");
    }

    fn push_impl(&self, tokens: &mut String)
        ensures
            final(tokens)@ == old(tokens)@ + self@.impl_code(),
    {
        push_attrs(tokens, &self.impl_attrs);
        push_str(tokens, "#[allow(dead_code)] impl");
        push_opt_generics(tokens, &self.impl_generics, ParamForm::Impl);
        push_str(tokens, " ");
        push_str(tokens, self.ident.as_str());
        push_opt_generics(tokens, &self.generics, ParamForm::Ty);
        push_opt_where(tokens, &self.generics);
        push_str(tokens, " { ");
        push_all(tokens, &self.functions);
        self.deprecation_notes.as_item(tokens);
        push_str(tokens, "} ");
    }

    /// Appends the builder to `tokens`; nothing if disabled.
    pub fn to_tokens(&self, tokens: &mut String)
        ensures
            final(tokens)@ == old(tokens)@ + self.code(),
    {
        if self.enabled {
            self.push_struct(tokens);
            self.push_impl(tokens);
        }
    }

    /// Set a doc-comment for this item.
    pub fn doc_comment(&mut self, s: String)
        ensures
            final(self).doc_comment matches Some(m) && m@ == doc_meta_code(s@),
            final(self)@ == (BuilderView { doc_code: "#["@ + doc_meta_code(s@) + "] "@, ..old(self)@ }),
    {
        self.doc_comment = Some(doc_comment_from(s));
    }

    /// Add a field to the builder.
    pub fn push_field(&mut self, f: &BuilderField)
        ensures
            final(self)@ == (BuilderView { fields: old(self)@.fields.push(f.code()), ..old(self)@ }),
    {
        let mut t = String::new();
        f.to_tokens(&mut t);
        self.fields.push(t);
        assert(strings_view(self.fields@) =~= strings_view(old(self).fields@).push(f.code()));
    }

    /// Add a setter function to the builder.
    pub fn push_setter_fn(&mut self, f: &Setter)
        ensures
            final(self)@ == (BuilderView {
                functions: old(self)@.functions.push(f.code()),
                ..old(self)@
            }),
    {
        let mut t = String::new();
        f.to_tokens(&mut t);
        self.functions.push(t);
        assert(strings_view(self.functions@) =~= strings_view(old(self).functions@).push(
            f.code(),
        ));
    }

    /// Add final build function to the builder.
    pub fn push_build_fn(&mut self, f: &BuildMethod)
        ensures
            final(self)@ == (BuilderView {
                functions: old(self)@.functions.push(f.code()),
                ..old(self)@
            }),
    {
        let mut t = String::new();
        f.to_tokens(&mut t);
        self.functions.push(t);
        assert(strings_view(self.functions@) =~= strings_view(old(self).functions@).push(
            f.code(),
        ));
    }
}

} // verus!
