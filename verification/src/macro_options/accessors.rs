//! Accessors for the struct's options, and the code generators they configure.
use vstd::prelude::*;
use crate::attrs::copy_strings;
use crate::build_method::{BuildMethod, BuildMethodView};
use crate::builder::{Builder, BuilderView};
use crate::deprecation_notes::DeprecationNotes;
use crate::error_type::{BuilderErrorType, BuilderErrorTypeView};
use crate::generics::{bounded_code, ParamForm};
use crate::macro_options::build_fn::BuildFnError;
use crate::macro_options::darling_opts::Options;
use crate::macro_options::field_with_defaults::FieldWithDefaults;
use crate::meta::{ident_string, ident_text};
use crate::options::{spec_requires_clone, BuilderPattern};
use crate::text::{push_str, strings_view, to_owned_string};
use crate::visibility::Visibility;

verus! {

broadcast use {crate::text::lemma_concat_assoc, crate::text::lemma_concat_empty};

impl Options {
    /// The name of the builder: `name = "..."`, or the struct's name followed by `Builder`.
    pub open spec fn spec_builder_ident(&self) -> Seq<char> {
        match self.name {
            Some(c) => ident_text(c@),
            None => self.ident@ + "Builder"@,
        }
    }

    /// The error type of the build method: the existing type given by
    /// `build_fn(error = "...")`, or the generated one named after the builder.
    pub open spec fn spec_builder_error_ident(&self) -> Seq<char> {
        match self.build_fn.error {
            Some(BuildFnError::Existing(p)) => p@,
            _ => match self.name {
                Some(c) => ident_text(c@) + "Error"@,
                None => self.ident@ + "BuilderError"@,
            },
        }
    }

    /// The visibility of the builder: the one given, or the struct's own.
    pub open spec fn spec_builder_vis(&self) -> Visibility {
        match self.builder_vis.spec_as_expressed_vis() {
            Some(v) => v,
            None => self.struct_vis,
        }
    }

    /// The visibility of the build method: the one given, or the builder's.
    pub open spec fn spec_build_method_vis(&self) -> Visibility {
        match self.build_fn.vis.spec_as_expressed_vis() {
            Some(v) => v,
            None => self.spec_builder_vis(),
        }
    }

    /// The builder pattern of the field at `i`: its own, or the struct's.
    pub open spec fn spec_field_pattern(&self, i: int) -> BuilderPattern {
        match self.data@[i].pattern {
            Some(p) => p,
            None => self.pattern,
        }
    }

    /// Whether the build method or a setter needs to clone fields.
    pub open spec fn spec_requires_clone(&self) -> bool {
        spec_requires_clone(self.pattern) || exists|i: int|
            0 <= i < self.data@.len() && spec_requires_clone(#[trigger] self.spec_field_pattern(i))
    }

    /// The name of the build method.
    pub open spec fn spec_build_fn_name(&self) -> Seq<char> {
        match self.build_fn.name {
            Some(n) => ident_text(n@),
            None => "build"@,
        }
    }

    /// The bound added to the type parameters of the builder's `impl` block
    /// when fields are cloned.
    pub open spec fn spec_clone_bound(&self) -> Seq<char> {
        self.spec_crate_root() + "::export::core::clone::Clone"@
    }

    /// The generic parameters of the builder's `impl` block.
    pub open spec fn spec_impl_generics(&self) -> Seq<char> {
        if self.spec_requires_clone() {
            bounded_code(self.generics, ParamForm::Impl, self.spec_clone_bound())
        } else {
            self.generics.code(ParamForm::Impl)
        }
    }

    /// What the builder struct and its `impl` block emit, before fields and
    /// functions are added.
    pub open spec fn spec_builder(&self) -> BuilderView {
        BuilderView {
            enabled: true,
            ident: self.spec_builder_ident(),
            derives: strings_view(self.derive@),
            decl_generics: self.generics.code(ParamForm::Impl),
            ty_generics: self.generics.code(ParamForm::Ty),
            impl_generics: self.spec_impl_generics(),
            where_code: self.generics.where_code(),
            visibility: self.spec_builder_vis(),
            fields: Seq::empty(),
            functions: Seq::empty(),
            doc_code: Seq::empty(),
            notes: self.deprecation_notes@,
            struct_attrs: strings_view(self.struct_attrs@),
            impl_attrs: strings_view(self.impl_attrs@),
        }
    }

    /// What the build method emits, before fields are added.
    pub open spec fn spec_build_method(&self) -> BuildMethodView {
        BuildMethodView {
            crate_root: self.spec_crate_root(),
            enabled: !self.build_fn.skip,
            ident: self.spec_build_fn_name(),
            visibility: self.spec_build_method_vis(),
            pattern: self.pattern,
            target_ty: self.ident@,
            target_ty_generics: self.generics.code(ParamForm::Ty),
            error_ty: self.spec_builder_error_ident(),
            field_default_values: Seq::empty(),
            initializers: Seq::empty(),
            doc_code: Seq::empty(),
            default_struct: self.default,
            validate_fn: match self.build_fn.validate {
                Some(v) => Some(v@),
                None => None,
            },
        }
    }

    /// Whether the build method's error type is generated.
    pub open spec fn spec_generate_error(&self) -> bool {
        !(self.build_fn.error matches Some(BuildFnError::Existing(_)))
    }

    /// Whether the generated error type has a validation variant.
    pub open spec fn spec_validation_error(&self) -> bool {
        match self.build_fn.error {
            Some(BuildFnError::Generated { validation_error }) => validation_error,
            _ => true,
        }
    }

    /// What the error type of the build method emits.
    pub open spec fn spec_error_type(&self) -> BuilderErrorTypeView {
        BuilderErrorTypeView {
            enabled: self.spec_generate_error(),
            ident: self.spec_builder_error_ident(),
            visibility: self.spec_builder_vis(),
            crate_root: self.spec_crate_root(),
            validation_error: self.spec_validation_error(),
            std: !self.no_std,
        }
    }

    /// The name of the builder.
    pub fn builder_ident(&self) -> (r: String)
        ensures
            r@ == self.spec_builder_ident(),
    {
        if let Some(custom) = &self.name {
            return ident_string(custom);
        }
        let mut out = self.ident.clone();
        push_str(&mut out, "Builder");
        out
    }

    /// The error type of the build method.
    pub fn builder_error_ident(&self) -> (r: String)
        ensures
            r@ == self.spec_builder_error_ident(),
    {
        if let Some(BuildFnError::Existing(existing)) = &self.build_fn.error {
            existing.clone()
        } else if let Some(custom) = &self.name {
            let mut out = ident_string(custom);
            push_str(&mut out, "Error");
            out
        } else {
            let mut out = self.ident.clone();
            push_str(&mut out, "BuilderError");
            out
        }
    }

    /// The visibility of the builder struct.
    /// If a visibility was declared in attributes, that will be used;
    /// otherwise the struct's own visibility will be used.
    pub fn builder_vis(&self) -> (r: Visibility)
        ensures
            r == self.spec_builder_vis(),
    {
        match self.builder_vis.as_expressed_vis() {
            Some(v) => v,
            None => self.struct_vis.duplicate(),
        }
    }

    /// Get the visibility of the emitted `build` method.
    /// This defaults to the visibility of the parent builder, but can be overridden.
    pub fn build_method_vis(&self) -> (r: Visibility)
        ensures
            r == self.spec_build_method_vis(),
    {
        match self.build_fn.vis.as_expressed_vis() {
            Some(v) => v,
            None => self.builder_vis(),
        }
    }

    /// A builder requires `Clone` to be derived if its build method or any of its setters
    /// use the mutable or immutable pattern.
    pub fn requires_clone(&self) -> (r: bool)
        ensures
            r == self.spec_requires_clone(),
    {
        if self.pattern.requires_clone() {
            return true;
        }
        let mut i: usize = 0;
        while i < self.data.len()
            invariant
                i <= self.data@.len(),
                forall|j: int| 0 <= j < i ==> !spec_requires_clone(#[trigger] self.spec_field_pattern(j)),
            decreases self.data@.len() - i,
        {
            let p = match self.data[i].pattern {
                Some(p) => p,
                None => self.pattern,
            };
            if p.requires_clone() {
                assert(spec_requires_clone(self.spec_field_pattern(i as int)));
                return true;
            }
            i = i + 1;
        }
        false
    }

    /// The number of fields of the struct.
    pub fn field_count(&self) -> (r: usize)
        ensures
            r == self.data@.len(),
    {
        self.data.len()
    }

    /// The field at `i`, with pull-through of the struct's options.
    pub fn field(&self, i: usize) -> (r: FieldWithDefaults)
        requires
            i < self.data@.len(),
        ensures
            r.parent == self,
            r.field == self.data@[i as int],
    {
        FieldWithDefaults { parent: self, field: &self.data[i] }
    }

    /// Returns the builder struct according to the options, without fields and functions.
    pub fn as_builder(&self) -> (r: Builder)
        ensures
            r@ == self.spec_builder(),
    {
        let requires_clone = self.requires_clone();
        let impl_generics = if requires_clone {
            let mut bound = self.crate_root_path();
            push_str(&mut bound, "::export::core::clone::Clone");
            self.generics.with_bound(bound.as_str())
        } else {
            self.generics.duplicate()
        };
        let r = Builder {
            enabled: true,
            ident: self.builder_ident(),
            derives: copy_strings(&self.derive),
            generics: Some(self.generics.duplicate()),
            impl_generics: Some(impl_generics),
            visibility: self.builder_vis(),
            fields: Vec::new(),
            functions: Vec::new(),
            doc_comment: None,
            deprecation_notes: self.deprecation_notes.duplicate(),
            struct_attrs: copy_strings(&self.struct_attrs),
            impl_attrs: copy_strings(&self.impl_attrs),
        };
        assert(r@.fields =~= Seq::<Seq<char>>::empty());
        assert(r@.functions =~= Seq::<Seq<char>>::empty());
        r
    }

    /// Returns the build method according to the options, without fields.
    pub fn as_build_method(&self) -> (r: BuildMethod)
        ensures
            r@ == self.spec_build_method(),
    {
        let r = BuildMethod {
            crate_root: self.crate_root_path(),
            enabled: !self.build_fn.skip,
            ident: match &self.build_fn.name {
                Some(n) => ident_string(n),
                None => to_owned_string("build"),
            },
            visibility: self.build_method_vis(),
            pattern: self.pattern,
            target_ty: self.ident.clone(),
            target_ty_generics: Some(self.generics.duplicate()),
            error_ty: self.builder_error_ident(),
            field_default_values: Vec::new(),
            initializers: Vec::new(),
            doc_comment: None,
            default_struct: match &self.default {
                Some(d) => Some(d.duplicate()),
                None => None,
            },
            validate_fn: match &self.build_fn.validate {
                Some(v) => Some(v.clone()),
                None => None,
            },
        };
        assert(r@.field_default_values =~= Seq::<Seq<char>>::empty());
        assert(r@.initializers =~= Seq::<Seq<char>>::empty());
        r
    }

    /// Returns the error type of the build method according to the options;
    /// disabled when an existing error type is used.
    pub fn as_error_type(&self) -> (r: BuilderErrorType)
        ensures
            r@ == self.spec_error_type(),
    {
        BuilderErrorType {
            enabled: match &self.build_fn.error {
                Some(e) => e.as_existing().is_none(),
                None => true,
            },
            ident: self.builder_error_ident(),
            visibility: self.builder_vis(),
            crate_root: self.crate_root_path(),
            validation_error: match &self.build_fn.error {
                Some(e) => match e.as_generated() {
                    Some(b) => b,
                    None => true,
                },
                None => true,
            },
            std: !self.no_std,
        }
    }
}

} // verus!
