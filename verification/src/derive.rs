//! Deriving a builder: from the description of a struct to the source text
//! of its builder, or of the errors found in its attributes.
use vstd::prelude::*;
use crate::build_method::{BuildMethod, BuildMethodView};
use crate::builder::{Builder, BuilderView};
use crate::macro_options::darling_opts::{
    options_from_input, spec_input_errors, Data, DeriveInput, Options,
};
use crate::macro_options::field_with_defaults::FieldWithDefaults;
use crate::text::{push_str, string_literal, string_literal_text, strings_view};

verus! {



/// The source text that reports one error at compile time.
pub open spec fn error_code(message: Seq<char>) -> Seq<char> {
    "::core::compile_error! { "@ + string_literal_text(message) + " } "@
}

/// The source text that reports each of `messages`, in order.
pub open spec fn errors_code(messages: Seq<Seq<char>>) -> Seq<char>
    decreases messages.len(),
{
    if messages.len() == 0 {
        Seq::empty()
    } else {
        errors_code(messages.drop_last()) + error_code(messages.last())
    }
}

/// Whether every field of the input struct has a name.
pub open spec fn named_fields(ast: DeriveInput) -> bool {
    ast.data matches Data::Struct(fields) ==> forall|i: int|
        0 <= i < fields@.len() ==> (#[trigger] fields@[i]).ident is Some
}

impl Options {
    /// Whether every field has a name.
    pub open spec fn all_fields_named(&self) -> bool {
        forall|i: int| 0 <= i < self.data@.len() ==> (#[trigger] self.data@[i]).ident is Some
    }

    /// The field at `i`, with the struct's options to fall back on.
    pub open spec fn spec_field_at(&self, i: int) -> FieldWithDefaults<'_> {
        FieldWithDefaults { parent: self, field: &self.data@[i] }
    }

    /// The builder's fields, one for each field of the struct.
    pub open spec fn spec_builder_fields(&self) -> Seq<Seq<char>> {
        Seq::new(self.data@.len(), |i: int| self.spec_field_at(i).spec_builder_field().code())
    }

    /// The builder's setters, one for each field of the struct.
    pub open spec fn spec_setters(&self) -> Seq<Seq<char>> {
        Seq::new(self.data@.len(), |i: int| self.spec_field_at(i).spec_setter().code())
    }

    /// The default values of the build method, one for each field of the struct.
    pub open spec fn spec_default_values(&self) -> Seq<Seq<char>> {
        Seq::new(self.data@.len(), |i: int| self.spec_field_at(i).spec_default_value().code())
    }

    /// The initializers of the build method, one for each field of the struct.
    pub open spec fn spec_initializers(&self) -> Seq<Seq<char>> {
        Seq::new(self.data@.len(), |i: int| self.spec_field_at(i).spec_initializer().code())
    }

    /// The build method, with every field.
    pub open spec fn spec_full_build_method(&self) -> BuildMethodView {
        BuildMethodView {
            field_default_values: self.spec_default_values(),
            initializers: self.spec_initializers(),
            ..self.spec_build_method()
        }
    }

    /// The builder, with its fields, its setters and its build method.
    pub open spec fn spec_full_builder(&self) -> BuilderView {
        BuilderView {
            fields: self.spec_builder_fields(),
            functions: self.spec_setters().push(self.spec_full_build_method().code()),
            ..self.spec_builder()
        }
    }

    /// The source text derived for the struct: the builder, then its error type.
    pub open spec fn spec_derived(&self) -> Seq<char> {
        self.spec_full_builder().code() + self.spec_error_type().code()
    }

    /// Adds the field at `i` to the builder and to its build method.
    fn push_field_at(&self, i: usize, builder: &mut Builder, build_fn: &mut BuildMethod)
        requires
            i < self.data@.len(),
            self.data@[i as int].ident is Some,
        ensures
            final(builder)@ == (BuilderView {
                fields: old(builder)@.fields.push(self.spec_field_at(i as int).spec_builder_field().code()),
                functions: old(builder)@.functions.push(self.spec_field_at(i as int).spec_setter().code()),
                ..old(builder)@
            }),
            final(build_fn)@ == (BuildMethodView {
                field_default_values: old(build_fn)@.field_default_values.push(
                    self.spec_field_at(i as int).spec_default_value().code(),
                ),
                initializers: old(build_fn)@.initializers.push(
                    self.spec_field_at(i as int).spec_initializer().code(),
                ),
                ..old(build_fn)@
            }),
    {
        let field = self.field(i);
        let bf = field.as_builder_field();
        let setter = field.as_setter();
        let dv = field.as_default_value();
        let init = field.as_initializer();
        builder.push_field(&bf);
        builder.push_setter_fn(&setter);
        build_fn.push_field(&dv, &init);
    }

    /// Emits the builder, with its fields, setters and build method, and
    /// its error type.
    pub fn derived(&self) -> (r: String)
        requires
            self.all_fields_named(),
        ensures
            r@ == self.spec_derived(),
    {
        let mut builder = self.as_builder();
        let mut build_fn = self.as_build_method();
        let n = self.field_count();
        let mut i: usize = 0;
        proof {
            assert(self.spec_builder_fields().take(0) =~= Seq::<Seq<char>>::empty());
            assert(self.spec_setters().take(0) =~= Seq::<Seq<char>>::empty());
            assert(self.spec_default_values().take(0) =~= Seq::<Seq<char>>::empty());
            assert(self.spec_initializers().take(0) =~= Seq::<Seq<char>>::empty());
        }
        while i < n
            invariant
                n == self.data@.len(),
                i <= n,
                self.all_fields_named(),
                builder@ == (BuilderView {
                    fields: self.spec_builder_fields().take(i as int),
                    functions: self.spec_setters().take(i as int),
                    ..self.spec_builder()
                }),
                build_fn@ == (BuildMethodView {
                    field_default_values: self.spec_default_values().take(i as int),
                    initializers: self.spec_initializers().take(i as int),
                    ..self.spec_build_method()
                }),
            decreases n - i,
        {
            self.push_field_at(i, &mut builder, &mut build_fn);
            proof {
                assert(self.spec_builder_fields().take(i + 1) =~= self.spec_builder_fields().take(
                    i as int,
                ).push(self.spec_field_at(i as int).spec_builder_field().code()));
                assert(self.spec_setters().take(i + 1) =~= self.spec_setters().take(i as int).push(
                    self.spec_field_at(i as int).spec_setter().code(),
                ));
                assert(self.spec_default_values().take(i + 1) =~= self.spec_default_values().take(
                    i as int,
                ).push(self.spec_field_at(i as int).spec_default_value().code()));
                assert(self.spec_initializers().take(i + 1) =~= self.spec_initializers().take(
                    i as int,
                ).push(self.spec_field_at(i as int).spec_initializer().code()));
            }
            i = i + 1;
        }
        proof {
            assert(self.spec_builder_fields().take(n as int) =~= self.spec_builder_fields());
            assert(self.spec_setters().take(n as int) =~= self.spec_setters());
            assert(self.spec_default_values().take(n as int) =~= self.spec_default_values());
            assert(self.spec_initializers().take(n as int) =~= self.spec_initializers());
        }
        builder.push_build_fn(&build_fn);
        let mut out = String::new();
        builder.to_tokens(&mut out);
        let error_type = self.as_error_type();
        error_type.to_tokens(&mut out);
        out
    }
}

/// Appends the source text that reports each of `messages`.
pub fn push_errors(tokens: &mut String, messages: &Vec<String>)
    ensures
        final(tokens)@ == old(tokens)@ + errors_code(strings_view(messages@)),
{
    let mut i: usize = 0;
    while i < messages.len()
        invariant
            i <= messages@.len(),
            tokens@ == old(tokens)@ + errors_code(strings_view(messages@).take(i as int)),
        decreases messages@.len() - i,
    {
        push_str(tokens, "::core::compile_error! { ");
        let lit = string_literal(messages[i].as_str());
        push_str(tokens, lit.as_str());
        push_str(tokens, " } ");
        proof {
            let s = strings_view(messages@);
            assert(s.take(i + 1).drop_last() =~= s.take(i as int));
        }
        i = i + 1;
    }
    proof {
        assert(strings_view(messages@).take(messages@.len() as int) =~= strings_view(messages@));
    }
}

/// Derive a builder for a struct: the builder, its setters, its build
/// method and its error type, or, where the struct's attributes hold
/// errors, a compile error for each of them.
pub fn builder_for_struct(ast: DeriveInput) -> (r: String)
    requires
        spec_input_errors(ast).len() == 0 ==> named_fields(ast),
    ensures
        spec_input_errors(ast).len() != 0 ==> r@ == errors_code(spec_input_errors(ast)),
        spec_input_errors(ast).len() == 0 ==> exists|o: Options|
            options_from_input(o, ast) && r@ == o.spec_derived(),
{
    let ghost input = ast;
    match Options::from_derive_input(ast) {
        Ok(opts) => {
            assert forall|i: int| 0 <= i < opts.data@.len() implies (
            #[trigger] opts.data@[i]).ident is Some by {
                if let Data::Struct(fields) = input.data {
                    assert(fields@[i].ident is Some);
                }
            }
            opts.derived()
        },
        Err(errs) => {
            let mut out = String::new();
            push_errors(&mut out, &errs);
            out
        },
    }
}

/// Whether every field of the input struct has a name.
pub fn fields_named(ast: &DeriveInput) -> (r: bool)
    ensures
        r == named_fields(*ast),
{
    match &ast.data {
        Data::Struct(fields) => {
            let mut i: usize = 0;
            while i < fields.len()
                invariant
                    i <= fields@.len(),
                    forall|j: int| 0 <= j < i ==> (#[trigger] fields@[j]).ident is Some,
                    ast.data matches Data::Struct(fs) && fs@ == fields@,
                decreases fields@.len() - i,
            {
                if fields[i].ident.is_none() {
                    return false;
                }
                i = i + 1;
            }
            true
        },
        Data::Other => true,
    }
}

/// Derive a builder for a struct, or report the errors in its attributes;
/// `None` for a struct whose attributes hold no error but which has fields
/// without a name, which no builder can be derived for.
pub fn checked_builder_for_struct(ast: DeriveInput) -> (r: Option<String>)
    ensures
        r is None <==> (spec_input_errors(ast).len() == 0 && !named_fields(ast)),
        r matches Some(s) ==> {
            &&& spec_input_errors(ast).len() != 0 ==> s@ == errors_code(spec_input_errors(ast))
            &&& spec_input_errors(ast).len() == 0 ==> exists|o: Options|
                options_from_input(o, ast) && s@ == o.spec_derived()
        },
{
    if fields_named(&ast) {
        return Some(builder_for_struct(ast));
    }
    match Options::from_derive_input(ast) {
        Ok(_) => None,
        Err(errs) => {
            let mut out = String::new();
            push_errors(&mut out, &errs);
            Some(out)
        },
    }
}

} // verus!
