//! The builder emitted by the first-generation derive: a struct with an
//! optional field for each field, a setter for each, and a build method.
use vstd::prelude::*;
use crate::generics::ParamForm;
use crate::legacy::options::{
    field_initial, fold_attrs, spec_field_options_of, spec_struct_options, valid_attrs,
    FieldMode, FieldOptions, FieldOptionsView, OptionsBuilder, SetterPattern, StructMode,
    StructOptions,
};
use crate::legacy::syntax::{filter_attr, spec_filter_attr, Attribute, Body, Field, MacroInput};
use crate::text::{concat_all, push_all, push_str, string_literal, string_literal_text, strings_view};

verus! {

broadcast use {crate::text::lemma_concat_assoc, crate::text::lemma_concat_empty};

/// The attributes of a field that are repeated on its builder field and
/// setter, each followed by a space.
pub open spec fn kept_attrs_code(attrs: Seq<Attribute>) -> Seq<char>
    decreases attrs.len(),
{
    if attrs.len() == 0 {
        Seq::empty()
    } else {
        kept_attrs_code(attrs.drop_last()) + if spec_filter_attr(attrs.last()) {
            attrs.last().tokens@ + " "@
        } else {
            Seq::empty()
        }
    }
}

/// Appends the attributes of a field that are repeated on its builder field
/// and setter.
pub fn push_kept_attrs(tokens: &mut String, attrs: &Vec<Attribute>)
    ensures
        final(tokens)@ == old(tokens)@ + kept_attrs_code(attrs@),
{
    let mut i: usize = 0;
    while i < attrs.len()
        invariant
            i <= attrs@.len(),
            tokens@ == old(tokens)@ + kept_attrs_code(attrs@.take(i as int)),
        decreases attrs@.len() - i,
    {
        assert(attrs@.take(i + 1).drop_last() =~= attrs@.take(i as int));
        if filter_attr(&attrs[i]) {
            push_str(tokens, attrs[i].tokens.as_str());
            push_str(tokens, " ");
        }
        i = i + 1;
    }
    assert(attrs@.take(attrs@.len() as int) =~= attrs@);
}

/// The name of a named field.
pub open spec fn field_ident(f: Field) -> Seq<char> {
    f.ident->Some_0@
}

/// The builder field: the field wrapped in an `Option`, or nothing without
/// a setter.
pub open spec fn builder_field_code(f: Field, o: FieldOptionsView) -> Seq<char> {
    if o.setter_enabled {
        kept_attrs_code(f.attrs@) + f.vis.code() + field_ident(f) + ": ::std::option::Option<"@
            + f.ty@ + ">, "@
    } else {
        Seq::empty()
    }
}

/// The error of the build method when a field was never set.
pub open spec fn uninitialized_msg(name: Seq<char>) -> Seq<char> {
    "`"@ + name + "` must be initialized"@
}

/// The initializer of a field in the build method: the value that was set
/// (moved out or cloned), an error if none was, or the default value
/// without a setter.
pub open spec fn initializer_code(f: Field, o: FieldOptionsView) -> Seq<char> {
    let ident = field_ident(f);
    let err = string_literal_text(uninitialized_msg(o.field_name));
    if o.setter_enabled {
        match o.setter_pattern {
            SetterPattern::Owned => ident + ": self."@ + ident + ".ok_or("@ + err + ")?, "@,
            _ => ident + ": ::std::clone::Clone::clone(self."@ + ident + ".as_ref().ok_or("@ + err
                + ")?), "@,
        }
    } else {
        ident + ": ::std::default::Default::default(), "@
    }
}

/// The name of a setter: the field's name, after the prefix and `_` if
/// there is a prefix.
pub open spec fn setter_name(f: Field, o: FieldOptionsView) -> Seq<char> {
    if o.setter_prefix.len() > 0 {
        o.setter_prefix + "_"@ + field_ident(f)
    } else {
        field_ident(f)
    }
}

/// How a setter takes the builder.
pub open spec fn setter_self_code(p: SetterPattern) -> Seq<char> {
    match p {
        SetterPattern::Owned => "self"@,
        SetterPattern::Mutable => "&mut self"@,
        SetterPattern::Immutable => "&self"@,
    }
}

/// What a setter returns.
pub open spec fn setter_return_code(p: SetterPattern) -> Seq<char> {
    match p {
        SetterPattern::Mutable => "&mut Self"@,
        _ => "Self"@,
    }
}

/// The builder a setter changes: itself, or a clone.
pub open spec fn setter_new_code(p: SetterPattern) -> Seq<char> {
    match p {
        SetterPattern::Immutable => "::std::clone::Clone::clone(self)"@,
        _ => "self"@,
    }
}

/// The setter of a field, or nothing if disabled.
pub open spec fn setter_code(f: Field, o: FieldOptionsView) -> Seq<char> {
    if o.setter_enabled {
        kept_attrs_code(f.attrs@) + o.setter_vis.code() + "fn "@ + setter_name(f, o)
            + "<VALUE: ::std::convert::Into<"@ + f.ty@ + ">>("@ + setter_self_code(o.setter_pattern)
            + ", value: VALUE) -> "@ + setter_return_code(o.setter_pattern) + " { let mut new = "@
            + setter_new_code(o.setter_pattern) + "; new."@ + field_ident(f)
            + " = ::std::option::Option::Some(value.into()); new } "@
    } else {
        Seq::empty()
    }
}

/// Emits the builder field of a field.
pub fn derive_builder_field(f: &Field, opts: &FieldOptions) -> (r: String)
    requires
        f.ident is Some,
    ensures
        r@ == builder_field_code(*f, opts@),
{
    let mut t = String::new();
    if opts.setter_enabled() {
        if let Some(ident) = &f.ident {
            push_kept_attrs(&mut t, &f.attrs);
            f.vis.to_tokens(&mut t);
            push_str(&mut t, ident.as_str());
            push_str(&mut t, ": ::std::option::Option<");
            push_str(&mut t, f.ty.as_str());
            push_str(&mut t, ">, ");
        }
    }
    t
}

/// Emits the initializer of a field in the build method.
pub fn derive_initializer(f: &Field, opts: &FieldOptions) -> (r: String)
    requires
        f.ident is Some,
    ensures
        r@ == initializer_code(*f, opts@),
{
    let mut t = String::new();
    if let Some(ident) = &f.ident {
        let mut err = String::new();
        push_str(&mut err, "`");
        push_str(&mut err, opts.field_name());
        push_str(&mut err, "` must be initialized");
        let err_uninitialized = string_literal(err.as_str());
        push_str(&mut t, ident.as_str());
        if opts.setter_enabled() {
            match opts.setter_pattern() {
                SetterPattern::Owned => {
                    push_str(&mut t, ": self.");
                    push_str(&mut t, ident.as_str());
                    push_str(&mut t, ".ok_or(");
                    push_str(&mut t, err_uninitialized.as_str());
                    push_str(&mut t, ")?, ");
                },
                _ => {
                    push_str(&mut t, ": ::std::clone::Clone::clone(self.");
                    push_str(&mut t, ident.as_str());
                    push_str(&mut t, ".as_ref().ok_or(");
                    push_str(&mut t, err_uninitialized.as_str());
                    push_str(&mut t, ")?), ");
                },
            }
        } else {
            push_str(&mut t, ": ::std::default::Default::default(), ");
        }
    }
    t
}

/// Emits the setter of a field.
pub fn derive_setter(f: &Field, opts: &FieldOptions) -> (r: String)
    requires
        f.ident is Some,
    ensures
        r@ == setter_code(*f, opts@),
{
    let mut t = String::new();
    if opts.setter_enabled() {
        if let Some(fieldname) = &f.ident {
            let pattern = *opts.setter_pattern();
            push_kept_attrs(&mut t, &f.attrs);
            opts.setter_visibility().to_tokens(&mut t);
            push_str(&mut t, "fn ");
            if opts.setter_prefix().unicode_len() > 0 {
                push_str(&mut t, opts.setter_prefix());
                push_str(&mut t, "_");
            }
            push_str(&mut t, fieldname.as_str());
            push_str(&mut t, "<VALUE: ::std::convert::Into<");
            push_str(&mut t, f.ty.as_str());
            push_str(&mut t, ">>(");
            match pattern {
                SetterPattern::Owned => push_str(&mut t, "self"),
                SetterPattern::Mutable => push_str(&mut t, "&mut self"),
                SetterPattern::Immutable => push_str(&mut t, "&self"),
            }
            push_str(&mut t, ", value: VALUE) -> ");
            match pattern {
                SetterPattern::Mutable => push_str(&mut t, "&mut Self"),
                _ => push_str(&mut t, "Self"),
            }
            push_str(&mut t, " { let mut new = ");
            match pattern {
                SetterPattern::Immutable => push_str(&mut t, "::std::clone::Clone::clone(self)"),
                _ => push_str(&mut t, "self"),
            }
            push_str(&mut t, "; new.");
            push_str(&mut t, fieldname.as_str());
            push_str(&mut t, " = ::std::option::Option::Some(value.into()); new } ");
        }
    }
    t
}

/// Whether the input is a struct with braces whose fields all have names,
/// and whose attributes, and those of its fields, can all be read.
pub open spec fn valid_input(ast: MacroInput) -> bool {
    &&& valid_attrs::<StructMode>(ast.attrs@)
    &&& ast.body matches Body::Struct(fields)
    &&& forall|i: int| 0 <= i < fields@.len() ==> (#[trigger] fields@[i]).ident is Some
        && valid_attrs::<FieldMode>(fields@[i].attrs@)
}

/// The fields of a struct with braces.
pub open spec fn input_fields(ast: MacroInput) -> Seq<Field> {
    match ast.body {
        Body::Struct(fields) => fields@,
        Body::Other => Seq::empty(),
    }
}

/// The options of the field at `i`: its own, else the struct's.
pub open spec fn input_field_options(ast: MacroInput, i: int) -> FieldOptionsView {
    let f = input_fields(ast)[i];
    spec_field_options_of(
        fold_attrs(f.attrs@, field_initial()),
        field_ident(f),
        spec_struct_options(ast).field_defaults,
    )
}

/// The builder fields, one for each field.
pub open spec fn input_builder_fields(ast: MacroInput) -> Seq<Seq<char>> {
    Seq::new(input_fields(ast).len(), |i: int| builder_field_code(input_fields(ast)[i], input_field_options(ast, i)))
}

/// The setters, one for each field.
pub open spec fn input_setters(ast: MacroInput) -> Seq<Seq<char>> {
    Seq::new(input_fields(ast).len(), |i: int| setter_code(input_fields(ast)[i], input_field_options(ast, i)))
}

/// The initializers of the build method, one for each field.
pub open spec fn input_initializers(ast: MacroInput) -> Seq<Seq<char>> {
    Seq::new(input_fields(ast).len(), |i: int| initializer_code(input_fields(ast)[i], input_field_options(ast, i)))
}

/// The build method: it takes the builder by value with the owned pattern,
/// else by reference, and returns the struct or the error of the first
/// field that was not set.
pub open spec fn build_fn_code(ast: MacroInput) -> Seq<char> {
    let so = spec_struct_options(ast);
    so.builder_vis.code() + "fn build("@ + match so.field_defaults.setter_pattern {
        SetterPattern::Owned => "self"@,
        _ => "&self"@,
    } + ") -> ::std::result::Result<"@ + ast.ident@ + ast.generics.code(ParamForm::Ty)
        + ", ::std::string::String> { Ok("@ + ast.ident@ + " { "@ + concat_all(input_initializers(ast))
        + "}) } "@
}

/// The source text of the builder: its struct and its `impl` block.
pub open spec fn builder_code(ast: MacroInput) -> Seq<char> {
    let so = spec_struct_options(ast);
    let ty = ast.generics.code(ParamForm::Ty);
    let wh = ast.generics.where_code();
    "#[derive(Default, Clone)] "@ + so.builder_vis.code() + "struct "@ + so.builder_name + ty + wh
        + " { "@ + concat_all(input_builder_fields(ast)) + "} #[allow(dead_code)] impl"@
        + ast.generics.code(ParamForm::Impl) + " "@ + so.builder_name + ty + wh + " { "@
        + concat_all(input_setters(ast)) + build_fn_code(ast) + "} "@
}

/// The options of a field: its own, else the struct's.
fn field_options(f: &Field, opts: &StructOptions) -> (r: FieldOptions)
    requires
        f.ident is Some,
        valid_attrs::<FieldMode>(f.attrs@),
    ensures
        r@ == spec_field_options_of(fold_attrs(f.attrs@, field_initial()), field_ident(*f), opts@.field_defaults),
{
    let mut b = OptionsBuilder::<FieldMode>::default();
    assert(b@ == field_initial());
    b.parse_attributes(&f.attrs);
    match &f.ident {
        Some(name) => b.build(name.as_str(), opts),
        None => b.build("", opts),
    }
}

/// Emits the build method.
fn push_build_fn(t: &mut String, ast: &MacroInput, opts: &StructOptions, initializers: &Vec<String>)
    requires
        opts@ == spec_struct_options(*ast),
        strings_view(initializers@) == input_initializers(*ast),
    ensures
        final(t)@ == old(t)@ + build_fn_code(*ast),
{
    opts.builder_visibility().to_tokens(t);
    push_str(t, "fn build(");
    match opts.field_defaults().setter_pattern() {
        SetterPattern::Owned => push_str(t, "self"),
        _ => push_str(t, "&self"),
    }
    push_str(t, ") -> ::std::result::Result<");
    push_str(t, ast.ident.as_str());
    ast.generics.to_tokens(ParamForm::Ty, t);
    push_str(t, ", ::std::string::String> { Ok(");
    push_str(t, ast.ident.as_str());
    push_str(t, " { ");
    push_all(t, initializers);
    push_str(t, "}) } ");
}

/// Derive a builder for a struct with braces: a builder struct with an
/// optional field for each field, and an `impl` block with a setter for
/// each field and a build method.
pub fn builder_for_struct(ast: &MacroInput) -> (r: String)
    requires
        valid_input(*ast),
    ensures
        r@ == builder_code(*ast),
{
    let opts = StructOptions::from_input(ast);
    let fields = match &ast.body {
        Body::Struct(fields) => fields,
        Body::Other => {
            return String::new();
        },
    };
    let mut setter_fns: Vec<String> = Vec::new();
    let mut builder_fields: Vec<String> = Vec::new();
    let mut initializers: Vec<String> = Vec::new();
    let mut i: usize = 0;
    proof {
        assert(input_builder_fields(*ast).take(0) =~= Seq::<Seq<char>>::empty());
        assert(input_setters(*ast).take(0) =~= Seq::<Seq<char>>::empty());
        assert(input_initializers(*ast).take(0) =~= Seq::<Seq<char>>::empty());
    }
    while i < fields.len()
        invariant
            valid_input(*ast),
            input_fields(*ast) == fields@,
            opts@ == spec_struct_options(*ast),
            i <= fields@.len(),
            strings_view(builder_fields@) == input_builder_fields(*ast).take(i as int),
            strings_view(setter_fns@) == input_setters(*ast).take(i as int),
            strings_view(initializers@) == input_initializers(*ast).take(i as int),
        decreases fields@.len() - i,
    {
        let f = &fields[i];
        assert(f.ident is Some && valid_attrs::<FieldMode>(f.attrs@));
        let f_opts = field_options(f, &opts);
        assert(f_opts@ == input_field_options(*ast, i as int));
        let s = derive_setter(f, &f_opts);
        let b = derive_builder_field(f, &f_opts);
        let n = derive_initializer(f, &f_opts);
        proof {
            assert(input_setters(*ast).take(i + 1) =~= input_setters(*ast).take(i as int).push(s@));
            assert(input_builder_fields(*ast).take(i + 1) =~= input_builder_fields(*ast).take(
                i as int,
            ).push(b@));
            assert(input_initializers(*ast).take(i + 1) =~= input_initializers(*ast).take(
                i as int,
            ).push(n@));
        }
        setter_fns.push(s);
        builder_fields.push(b);
        initializers.push(n);
        proof {
            assert(strings_view(setter_fns@) =~= input_setters(*ast).take(i + 1));
            assert(strings_view(builder_fields@) =~= input_builder_fields(*ast).take(i + 1));
            assert(strings_view(initializers@) =~= input_initializers(*ast).take(i + 1));
        }
        i = i + 1;
    }
    proof {
        assert(input_builder_fields(*ast).take(i as int) =~= input_builder_fields(*ast));
        assert(input_setters(*ast).take(i as int) =~= input_setters(*ast));
        assert(input_initializers(*ast).take(i as int) =~= input_initializers(*ast));
    }
    let mut t = String::new();
    push_str(&mut t, "#[derive(Default, Clone)] ");
    opts.builder_visibility().to_tokens(&mut t);
    push_str(&mut t, "struct ");
    push_str(&mut t, opts.builder_name());
    ast.generics.to_tokens(ParamForm::Ty, &mut t);
    ast.generics.where_to_tokens(&mut t);
    push_str(&mut t, " { ");
    push_all(&mut t, &builder_fields);
    push_str(&mut t, "} #[allow(dead_code)] impl");
    ast.generics.to_tokens(ParamForm::Impl, &mut t);
    push_str(&mut t, " ");
    push_str(&mut t, opts.builder_name());
    ast.generics.to_tokens(ParamForm::Ty, &mut t);
    ast.generics.where_to_tokens(&mut t);
    push_str(&mut t, " { ");
    push_all(&mut t, &setter_fns);
    push_build_fn(&mut t, ast, &opts, &initializers);
    push_str(&mut t, "} ");
    t
}

} // verus!
