//! The options of the input struct: reading them from its attributes.
use vstd::prelude::*;
use crate::default_expression::{spec_parse_default, DefaultExpression};
use crate::deprecation_notes::DeprecationNotes;
use crate::generics::Generics;
use crate::macro_options::build_fn::{spec_default_build_fn, spec_parse_build_fn, BuildFn};
use crate::macro_options::field::{
    field_from_state, spec_from_field, spec_unnest_attr, unnest_attr, Field, FieldInput,
};
use crate::macro_options::field_meta::{spec_parse_struct_field_meta, StructLevelFieldMeta};
use crate::macro_options::setter_opts::{
    empty_struct_setter, ident_opt, spec_ident_opt, spec_parse_struct_setter, StructLevelSetter,
};
use crate::macro_options::visibility_attr::{spec_vis_item, vis_item_leftover, VisibilityAttr};
use crate::meta::{
    args_present, attr_args_error, attr_args_error_msg, expected_comma_msg, expected_parens_msg,
    has_args, msg, path_value, set_once, spec_path_value, spec_set_once, unrecognized_msg,
    Attribute, Diagnostic, MetaArgs, NestedMeta,
};
use crate::options::{spec_parse_pattern, BuilderPattern};
use crate::text::{str_eq, strings_view};
use crate::visibility::Visibility;

verus! {

/// The body of the input type.
#[derive(Debug)]
pub enum Data {
    /// A struct, with its fields.
    Struct(Vec<FieldInput>),
    /// An enum or a union.
    Other,
}

/// The input of the derive: a struct with its attributes.
#[derive(Debug)]
pub struct DeriveInput {
    /// The struct's name.
    pub ident: String,
    /// The struct's visibility.
    pub vis: Visibility,
    /// The struct's generics.
    pub generics: Generics,
    /// The struct's outer attributes.
    pub attrs: Vec<Attribute>,
    /// The struct's body.
    pub data: Data,
}

/// The struct-level `builder` options read so far (besides `derive(...)`).
#[derive(Debug, Clone)]
pub struct StructOpts {
    /// `name = "..."`.
    pub name: Option<String>,
    /// `crate = "..."`.
    pub crate_root: Option<String>,
    /// `pattern = "..."`.
    pub pattern: Option<BuilderPattern>,
    /// `build_fn(...)`.
    pub build_fn: Option<BuildFn>,
    /// `custom_constructor`.
    pub custom_constructor: Option<bool>,
    /// `create_empty = "..."`.
    pub create_empty: Option<String>,
    /// `setter(...)`.
    pub setter: Option<StructLevelSetter>,
    /// `default` or `default = "..."`.
    pub default: Option<DefaultExpression>,
    /// `no_std`.
    pub no_std: Option<bool>,
    /// `try_setter`.
    pub try_setter: Option<bool>,
    /// `field(...)`.
    pub field: Option<StructLevelFieldMeta>,
    /// `public`, `private` or `vis = "..."`.
    pub builder_vis: VisibilityAttr,
}

/// No option read yet.
pub open spec fn empty_struct_opts() -> StructOpts {
    StructOpts {
        name: Option::None,
        crate_root: Option::None,
        pattern: Option::None,
        build_fn: Option::None,
        custom_constructor: Option::None,
        create_empty: Option::None,
        setter: Option::None,
        default: Option::None,
        no_std: Option::None,
        try_setter: Option::None,
        field: Option::None,
        builder_vis: VisibilityAttr::Unset,
    }
}

/// Reading the items of `derive(...)`: their paths, or the error that stops it.
pub open spec fn spec_derive_items(items: Seq<NestedMeta>) -> Result<Seq<String>, Seq<char>>
    decreases items.len(),
{
    if items.len() == 0 {
        Ok(Seq::empty())
    } else {
        match spec_derive_items(items.drop_last()) {
            Ok(paths) => {
                let item = items.last();
                if item.args is Malformed {
                    Err(item.args->Malformed_0@)
                } else if has_args(item.args) {
                    Err(expected_comma_msg())
                } else {
                    Ok(paths.push(item.path))
                }
            },
            Err(e) => Err(e),
        }
    }
}

/// Reading `derive(Trait, ...)`.
pub open spec fn spec_parse_derive(args: MetaArgs) -> Result<Seq<String>, Seq<char>> {
    match args {
        MetaArgs::List(items) => spec_derive_items(items@),
        MetaArgs::Malformed(m) => Err(m@),
        _ => Err(expected_parens_msg()),
    }
}

/// The state of reading struct-level options: the options, `derive(...)`, and the errors.
pub type StructItemState = (StructOpts, Option<Seq<String>>, Seq<Seq<char>>);

/// Sets a flag option that takes no arguments.
pub open spec fn spec_flag(args: MetaArgs, slot: Option<bool>, diag: Seq<Seq<char>>) -> (Option<bool>, Option<Seq<char>>, Seq<Seq<char>>) {
    let (n, d) = spec_set_once(slot, true, diag);
    (n, if has_args(args) {
        Some(expected_comma_msg())
    } else {
        Option::None
    }, d)
}

/// Reading one option inside the struct's `#[builder(...)]`: the new state and
/// the error that stops this attribute, if any.
pub open spec fn spec_struct_item(item: NestedMeta, st: StructItemState) -> (StructItemState, Option<Seq<char>>) {
    let (acc, derive, diag) = st;
    if item.args is Malformed {
        (st, Some(item.args->Malformed_0@))
    } else if item.path@ == "name"@ {
        let (r, d) = spec_ident_opt(item.args, acc.name, diag);
        match r {
            Ok(n) => ((StructOpts { name: n, ..acc }, derive, d), Option::None),
            Err(e) => ((acc, derive, d), Some(e)),
        }
    } else if item.path@ == "crate"@ {
        match spec_path_value(item.args) {
            Ok(v) => {
                let (n, d) = spec_set_once(acc.crate_root, v, diag);
                ((StructOpts { crate_root: n, ..acc }, derive, d), Option::None)
            },
            Err(e) => (st, Some(e)),
        }
    } else if item.path@ == "pattern"@ {
        let (r, d) = spec_parse_pattern(item.args, diag);
        match r {
            Ok(v) => {
                let (n, d2) = spec_set_once(acc.pattern, v, d);
                ((StructOpts { pattern: n, ..acc }, derive, d2), Option::None)
            },
            Err(e) => ((acc, derive, d), Some(e)),
        }
    } else if item.path@ == "build_fn"@ {
        let (r, d) = spec_parse_build_fn(item.args, diag);
        match r {
            Ok(v) => {
                let (n, d2) = spec_set_once(acc.build_fn, v, d);
                ((StructOpts { build_fn: n, ..acc }, derive, d2), Option::None)
            },
            Err(e) => ((acc, derive, d), Some(e)),
        }
    } else if item.path@ == "derive"@ {
        match spec_parse_derive(item.args) {
            Ok(v) => {
                let (n, d) = spec_set_once(derive, v, diag);
                ((acc, n, d), Option::None)
            },
            Err(e) => (st, Some(e)),
        }
    } else if item.path@ == "custom_constructor"@ {
        let (n, e, d) = spec_flag(item.args, acc.custom_constructor, diag);
        ((StructOpts { custom_constructor: n, ..acc }, derive, d), e)
    } else if item.path@ == "create_empty"@ {
        let (r, d) = spec_ident_opt(item.args, acc.create_empty, diag);
        match r {
            Ok(n) => ((StructOpts { create_empty: n, ..acc }, derive, d), Option::None),
            Err(e) => ((acc, derive, d), Some(e)),
        }
    } else if item.path@ == "setter"@ {
        let (r, d) = spec_parse_struct_setter(item.args, diag);
        match r {
            Ok(v) => {
                let (n, d2) = spec_set_once(acc.setter, v, d);
                ((StructOpts { setter: n, ..acc }, derive, d2), Option::None)
            },
            Err(e) => ((acc, derive, d), Some(e)),
        }
    } else if item.path@ == "default"@ {
        match spec_parse_default(item.args) {
            Ok(v) => {
                let (n, d) = spec_set_once(acc.default, v, diag);
                ((StructOpts { default: n, ..acc }, derive, d), if item.args is List {
                    Some(expected_comma_msg())
                } else {
                    Option::None
                })
            },
            Err(e) => (st, Some(e)),
        }
    } else if item.path@ == "no_std"@ {
        let (n, e, d) = spec_flag(item.args, acc.no_std, diag);
        ((StructOpts { no_std: n, ..acc }, derive, d), e)
    } else if item.path@ == "try_setter"@ {
        let (n, e, d) = spec_flag(item.args, acc.try_setter, diag);
        ((StructOpts { try_setter: n, ..acc }, derive, d), e)
    } else if item.path@ == "field"@ {
        let (r, d) = spec_parse_struct_field_meta(item.args, diag);
        match r {
            Ok(v) => {
                let (n, d2) = spec_set_once(acc.field, v, d);
                ((StructOpts { field: n, ..acc }, derive, d2), Option::None)
            },
            Err(e) => ((acc, derive, d), Some(e)),
        }
    } else {
        let (r, v, d) = spec_vis_item(item, acc.builder_vis, diag);
        match r {
            Ok(true) => ((StructOpts { builder_vis: v, ..acc }, derive, d), if vis_item_leftover(
                item,
            ) {
                Some(expected_comma_msg())
            } else {
                Option::None
            }),
            Ok(false) => ((acc, derive, d), Some(unrecognized_msg())),
            Err(e) => ((acc, derive, d), Some(e)),
        }
    }
}

/// Reading the options inside the struct's `#[builder(...)]`, in order, up to
/// the first error.
pub open spec fn spec_struct_items(items: Seq<NestedMeta>, st: StructItemState) -> (StructItemState, Option<Seq<char>>)
    decreases items.len(),
{
    if items.len() == 0 {
        (st, Option::None)
    } else {
        let (st2, e) = spec_struct_item(items[0], st);
        if e is Some {
            (st2, e)
        } else {
            spec_struct_items(items.drop_first(), st2)
        }
    }
}

/// The state of reading the struct's attributes: the options, `derive(...)`,
/// the attributes of the builder struct and of its `impl` block (by meta text),
/// and the errors.
pub type StructState = (StructOpts, Option<Seq<String>>, Seq<String>, Seq<String>, Seq<Seq<char>>);

/// Reading one attribute of the struct.
pub open spec fn spec_struct_attr(attr: Attribute, st: StructState) -> StructState {
    let (acc, derive, sa, ia, diag) = st;
    if attr.path@ == "builder"@ {
        match attr.args {
            MetaArgs::Word => st,
            MetaArgs::List(items) => {
                let ((a, dv, d), e) = spec_struct_items(items@, (acc, derive, diag));
                match e {
                    Some(m) => (a, dv, sa, ia, d.push(m)),
                    Option::None => (a, dv, sa, ia, d),
                }
            },
            _ => (acc, derive, sa, ia, diag.push(attr_args_error(attr.path@, attr.args))),
        }
    } else if attr.path@ == "cfg"@ || attr.path@ == "allow"@ {
        (acc, derive, sa.push(attr.meta_text), ia.push(attr.meta_text), diag)
    } else if attr.path@ == "builder_struct_attr"@ {
        let (sa2, d) = spec_unnest_attr(attr, sa, diag);
        (acc, derive, sa2, ia, d)
    } else if attr.path@ == "builder_impl_attr"@ {
        let (ia2, d) = spec_unnest_attr(attr, ia, diag);
        (acc, derive, sa, ia2, d)
    } else {
        st
    }
}

/// Reading the attributes of the struct, in order.
pub open spec fn spec_struct_attrs(attrs: Seq<Attribute>, st: StructState) -> StructState
    decreases attrs.len(),
{
    if attrs.len() == 0 {
        st
    } else {
        spec_struct_attrs(attrs.drop_first(), spec_struct_attr(attrs[0], st))
    }
}

/// The state of reading the struct's attributes from the start.
pub open spec fn spec_read_struct_attrs(ast: DeriveInput) -> StructState {
    spec_struct_attrs(ast.attrs@, (empty_struct_opts(), Option::None, Seq::empty(), Seq::empty(), Seq::empty()))
}

/// The errors after reading the given fields, in order, starting from `diag`.
pub open spec fn spec_fields_diag(fields: Seq<FieldInput>, diag: Seq<Seq<char>>) -> Seq<Seq<char>>
    decreases fields.len(),
{
    if fields.len() == 0 {
        diag
    } else {
        spec_from_field(fields.last(), spec_fields_diag(fields.drop_last(), diag)).3
    }
}

/// The error for an input that is not a struct.
pub open spec fn not_struct_msg() -> Seq<char> {
    "this derive macro requires a struct with named fields"@
}

/// All errors of reading the input.
pub open spec fn spec_input_errors(ast: DeriveInput) -> Seq<Seq<char>> {
    let d1 = spec_read_struct_attrs(ast).4;
    match ast.data {
        Data::Struct(fields) => spec_fields_diag(fields@, d1),
        Data::Other => d1.push(not_struct_msg()),
    }
}

/// Options of the derived builder, read from the input struct.
#[derive(Debug)]
pub struct Options {
    /// The struct's name.
    pub ident: String,
    /// Attributes of the builder struct, by meta text.
    pub struct_attrs: Vec<String>,
    /// Attributes of the builder's `impl` block, by meta text.
    pub impl_attrs: Vec<String>,
    /// The visibility of the deriving struct.
    pub struct_vis: Visibility,
    /// The struct's generics.
    pub generics: Generics,
    /// The name of the generated builder, if not `{ident}Builder`, as written
    /// (see [`crate::meta::ident_text`]).
    pub name: Option<String>,
    /// The path to the root of the derive_builder crate, if not `::derive_builder`.
    pub crate_root: Option<String>,
    /// The builder pattern of the struct.
    pub pattern: BuilderPattern,
    /// The build method's options.
    pub build_fn: BuildFn,
    /// Additional traits to derive on the builder.
    pub derive: Vec<String>,
    /// Whether the user writes the builder's constructor.
    pub custom_constructor: bool,
    /// The name of the constructor of an empty builder, if not `create_empty`,
    /// as written (see [`crate::meta::ident_text`]).
    pub create_empty: Option<String>,
    /// Setter options applied to all field setters in the struct.
    pub setter: StructLevelSetter,
    /// Struct-level value to use in place of any unfilled fields.
    pub default: Option<DefaultExpression>,
    /// Desired visibility of the builder struct.
    pub builder_vis: VisibilityAttr,
    /// The fields of the struct.
    pub data: Vec<Field>,
    /// Whether the generated code complies with `#![no_std]`.
    pub no_std: bool,
    /// Whether fallible setters are emitted beside each regular setter.
    pub try_setter: bool,
    /// Options of the builder's fields.
    pub field: StructLevelFieldMeta,
    /// Deprecation notes to emit.
    pub deprecation_notes: DeprecationNotes,
}

/// `b`, or `false` if unset.
pub open spec fn or_false(b: Option<bool>) -> bool {
    match b {
        Some(b) => b,
        Option::None => false,
    }
}

/// Whether `o` holds the options read from `ast` (whose reading gave no error).
pub open spec fn options_from_input(o: Options, ast: DeriveInput) -> bool {
    let (acc, derive, sa, ia, _) = spec_read_struct_attrs(ast);
    &&& o.ident == ast.ident
    &&& o.struct_attrs@ == sa
    &&& o.impl_attrs@ == ia
    &&& o.struct_vis == ast.vis
    &&& o.generics == ast.generics
    &&& o.name == acc.name
    &&& o.crate_root == acc.crate_root
    &&& o.pattern == match acc.pattern {
        Some(p) => p,
        Option::None => BuilderPattern::Mutable,
    }
    &&& o.build_fn == match acc.build_fn {
        Some(b) => b,
        Option::None => spec_default_build_fn(),
    }
    &&& o.derive@ == match derive {
        Some(d) => d,
        Option::None => Seq::empty(),
    }
    &&& o.custom_constructor == or_false(acc.custom_constructor)
    &&& o.create_empty == acc.create_empty
    &&& o.setter == match acc.setter {
        Some(s) => s,
        Option::None => empty_struct_setter(),
    }
    &&& o.default == acc.default
    &&& o.builder_vis == acc.builder_vis
    &&& o.no_std == or_false(acc.no_std)
    &&& o.try_setter == or_false(acc.try_setter)
    &&& o.field == match acc.field {
        Some(f) => f,
        Option::None => StructLevelFieldMeta { vis: VisibilityAttr::Unset },
    }
    &&& o.deprecation_notes@ == Seq::<Seq<char>>::empty()
    &&& ast.data matches Data::Struct(fields) && o.data@.len() == fields@.len() && forall|i: int|
        0 <= i < fields@.len() ==> field_from_state(
            #[trigger] o.data@[i],
            fields@[i],
            spec_from_field(fields@[i], spec_fields_diag(fields@.take(i), spec_read_struct_attrs(ast).4)),
        )
}

fn flag(args: &MetaArgs, slot: &mut Option<bool>, diag: &mut Diagnostic) -> (r: Result<(), String>)
    ensures
        ({
            let (n, e, d) = spec_flag(*args, *old(slot), old(diag)@);
            &&& *final(slot) == n
            &&& final(diag)@ == d
            &&& match (r, e) {
                (Ok(()), Option::None) => true,
                (Err(x), Some(y)) => x@ == y,
                _ => false,
            }
        }),
{
    set_once(slot, true, diag);
    if args_present(args) {
        return Err(msg("expected `,`"));
    }
    Ok(())
}

/// View of an optional vector.
pub open spec fn opt_vec_view<T>(v: Option<Vec<T>>) -> Option<Seq<T>> {
    match v {
        Some(v) => Some(v@),
        Option::None => Option::None,
    }
}

fn parse_derive(args: &MetaArgs) -> (r: Result<Vec<String>, String>)
    ensures
        match (r, spec_parse_derive(*args)) {
            (Ok(a), Ok(b)) => a@ == b,
            (Err(a), Err(b)) => a@ == b,
            _ => false,
        },
{
    match args {
        MetaArgs::List(items) => {
            let mut paths: Vec<String> = Vec::new();
            let mut i: usize = 0;
            while i < items.len()
                invariant
                    i <= items@.len(),
                    *args == MetaArgs::List(*items),
                    spec_derive_items(items@.take(i as int)) == Ok::<Seq<String>, Seq<char>>(paths@),
                decreases items@.len() - i,
            {
                proof {
                    assert(items@.take(i + 1).drop_last() =~= items@.take(i as int));
                    assert(items@.take(i + 1).last() == items@[i as int]);
                }
                if let MetaArgs::Malformed(m) = &items[i].args {
                    proof {
                        lemma_derive_items_err_stays(items@, i as int + 1);
                    }
                    return Err(m.clone());
                }
                if args_present(&items[i].args) {
                    proof {
                        lemma_derive_items_err_stays(items@, i as int + 1);
                    }
                    return Err(msg("expected `,`"));
                }
                paths.push(items[i].path.clone());
                i = i + 1;
            }
            assert(items@.take(items@.len() as int) =~= items@);
            Ok(paths)
        },
        MetaArgs::Malformed(m) => Err(m.clone()),
        _ => Err(msg("expected parentheses")),
    }
}

/// Once reading a prefix of the `derive(...)` items fails, reading all of them fails alike.
proof fn lemma_derive_items_err_stays(items: Seq<NestedMeta>, k: int)
    requires
        0 <= k <= items.len(),
        spec_derive_items(items.take(k)) is Err,
    ensures
        spec_derive_items(items) == spec_derive_items(items.take(k)),
    decreases items.len() - k,
{
    if k < items.len() {
        assert(items.take(k + 1).drop_last() =~= items.take(k));
        lemma_derive_items_err_stays(items, k + 1);
    } else {
        assert(items.take(k) =~= items);
    }
}

fn derive_item(item: &NestedMeta, derive: &mut Option<Vec<String>>, diag: &mut Diagnostic) -> (r: Result<(), String>)
    ensures
        ({
            let (n, d, e) = match spec_parse_derive(item.args) {
                Ok(v) => {
                    let (n, d) = spec_set_once(opt_vec_view(*old(derive)), v, old(diag)@);
                    (n, d, Option::None)
                },
                Err(e) => (opt_vec_view(*old(derive)), old(diag)@, Some(e)),
            };
            &&& opt_vec_view(*final(derive)) == n
            &&& final(diag)@ == d
            &&& match (r, e) {
                (Ok(()), Option::None) => true,
                (Err(x), Some(y)) => x@ == y,
                _ => false,
            }
        }),
{
    let v = parse_derive(&item.args)?;
    set_once(derive, v, diag);
    Ok(())
}

/// Whether a step of reading struct-level options went as specified.
pub open spec fn struct_item_done(item: NestedMeta, acc0: StructOpts, dv0: Option<Seq<String>>, d0: Seq<Seq<char>>, acc: StructOpts, dv: Option<Seq<String>>, d: Seq<Seq<char>>, r: Result<(), String>) -> bool {
    let ((a2, dv2, d2), e) = spec_struct_item(item, (acc0, dv0, d0));
    &&& acc == a2
    &&& dv == dv2
    &&& d == d2
    &&& match (r, e) {
        (Ok(()), Option::None) => true,
        (Err(x), Some(y)) => x@ == y,
        _ => false,
    }
}

fn struct_item_first(item: &NestedMeta, acc: &mut StructOpts, derive: &mut Option<Vec<String>>, diag: &mut Diagnostic) -> (r: Result<(), String>)
    requires
        !(item.args is Malformed),
        item.path@ == "name"@ || item.path@ == "crate"@ || item.path@ == "pattern"@
            || item.path@ == "build_fn"@ || item.path@ == "derive"@ || item.path@ == "custom_constructor"@,
    ensures
        struct_item_done(*item, *old(acc), opt_vec_view(*old(derive)), old(diag)@, *final(acc), opt_vec_view(*final(derive)), final(diag)@, r),
{
    let ghost acc0 = *acc;
    let ghost dv0 = opt_vec_view(*derive);
    let ghost d0 = diag@;
    let p = item.path.as_str();
    if str_eq(p, "name") {
        let r = ident_opt(&item.args, &mut acc.name, diag);
        assert(struct_item_done(*item, acc0, dv0, d0, *acc, opt_vec_view(*derive), diag@, r));
        r
    } else if str_eq(p, "crate") {
        let v = path_value(&item.args)?;
        set_once(&mut acc.crate_root, v, diag);
        assert(struct_item_done(*item, acc0, dv0, d0, *acc, opt_vec_view(*derive), diag@, Ok(())));
        Ok(())
    } else if str_eq(p, "pattern") {
        let v = BuilderPattern::parse_nested_meta(item, diag)?;
        set_once(&mut acc.pattern, v, diag);
        assert(struct_item_done(*item, acc0, dv0, d0, *acc, opt_vec_view(*derive), diag@, Ok(())));
        Ok(())
    } else if str_eq(p, "build_fn") {
        let v = BuildFn::parse_nested_meta(item, diag)?;
        set_once(&mut acc.build_fn, v, diag);
        assert(struct_item_done(*item, acc0, dv0, d0, *acc, opt_vec_view(*derive), diag@, Ok(())));
        Ok(())
    } else if str_eq(p, "derive") {
        let r = derive_item(item, derive, diag);
        assert(struct_item_done(*item, acc0, dv0, d0, *acc, opt_vec_view(*derive), diag@, r));
        r
    } else {
        let r = flag(&item.args, &mut acc.custom_constructor, diag);
        assert(struct_item_done(*item, acc0, dv0, d0, *acc, opt_vec_view(*derive), diag@, r));
        r
    }
}

fn struct_item_second(item: &NestedMeta, acc: &mut StructOpts, derive: &mut Option<Vec<String>>, diag: &mut Diagnostic) -> (r: Result<(), String>)
    requires
        !(item.args is Malformed),
        !(item.path@ == "name"@ || item.path@ == "crate"@ || item.path@ == "pattern"@
            || item.path@ == "build_fn"@ || item.path@ == "derive"@ || item.path@ == "custom_constructor"@),
    ensures
        struct_item_done(*item, *old(acc), opt_vec_view(*old(derive)), old(diag)@, *final(acc), opt_vec_view(*final(derive)), final(diag)@, r),
{
    let ghost acc0 = *acc;
    let ghost dv0 = opt_vec_view(*derive);
    let ghost d0 = diag@;
    let p = item.path.as_str();
    if str_eq(p, "create_empty") {
        let r = ident_opt(&item.args, &mut acc.create_empty, diag);
        assert(struct_item_done(*item, acc0, dv0, d0, *acc, opt_vec_view(*derive), diag@, r));
        r
    } else if str_eq(p, "setter") {
        let v = StructLevelSetter::parse_nested_meta(item, diag)?;
        set_once(&mut acc.setter, v, diag);
        assert(struct_item_done(*item, acc0, dv0, d0, *acc, opt_vec_view(*derive), diag@, Ok(())));
        Ok(())
    } else if str_eq(p, "default") {
        let v = DefaultExpression::parse_nested_meta(item)?;
        set_once(&mut acc.default, v, diag);
        if let MetaArgs::List(_) = &item.args {
            return Err(msg("expected `,`"));
        }
        assert(struct_item_done(*item, acc0, dv0, d0, *acc, opt_vec_view(*derive), diag@, Ok(())));
        Ok(())
    } else if str_eq(p, "no_std") {
        let r = flag(&item.args, &mut acc.no_std, diag);
        assert(struct_item_done(*item, acc0, dv0, d0, *acc, opt_vec_view(*derive), diag@, r));
        r
    } else if str_eq(p, "try_setter") {
        let r = flag(&item.args, &mut acc.try_setter, diag);
        assert(struct_item_done(*item, acc0, dv0, d0, *acc, opt_vec_view(*derive), diag@, r));
        r
    } else if str_eq(p, "field") {
        let v = StructLevelFieldMeta::parse_nested_meta(item, diag)?;
        set_once(&mut acc.field, v, diag);
        assert(struct_item_done(*item, acc0, dv0, d0, *acc, opt_vec_view(*derive), diag@, Ok(())));
        Ok(())
    } else {
        let recognized = acc.builder_vis.parse_nested_meta(item, diag)?;
        if !recognized {
            return Err(msg("unrecognized derive_builder attribute"));
        }
        if !str_eq(p, "vis") && args_present(&item.args) {
            return Err(msg("expected `,`"));
        }
        assert(struct_item_done(*item, acc0, dv0, d0, *acc, opt_vec_view(*derive), diag@, Ok(())));
        Ok(())
    }
}

fn struct_item(item: &NestedMeta, acc: &mut StructOpts, derive: &mut Option<Vec<String>>, diag: &mut Diagnostic) -> (r: Result<(), String>)
    ensures
        struct_item_done(*item, *old(acc), opt_vec_view(*old(derive)), old(diag)@, *final(acc), opt_vec_view(*final(derive)), final(diag)@, r),
{
    if let MetaArgs::Malformed(m) = &item.args {
        return Err(m.clone());
    }
    let p = item.path.as_str();
    if str_eq(p, "name") || str_eq(p, "crate") || str_eq(p, "pattern") || str_eq(p, "build_fn")
        || str_eq(p, "derive") || str_eq(p, "custom_constructor") {
        struct_item_first(item, acc, derive, diag)
    } else {
        struct_item_second(item, acc, derive, diag)
    }
}

fn struct_items(items: &Vec<NestedMeta>, acc: &mut StructOpts, derive: &mut Option<Vec<String>>, diag: &mut Diagnostic) -> (r: Result<(), String>)
    ensures
        ({
            let ((a, dv, d), e) = spec_struct_items(items@, (*old(acc), opt_vec_view(*old(derive)), old(diag)@));
            &&& *final(acc) == a
            &&& opt_vec_view(*final(derive)) == dv
            &&& final(diag)@ == d
            &&& match (r, e) {
                (Ok(()), Option::None) => true,
                (Err(x), Some(y)) => x@ == y,
                _ => false,
            }
        }),
{
    let ghost st0: StructItemState = (*acc, opt_vec_view(*derive), diag@);
    let mut i: usize = 0;
    assert(items@.skip(0) =~= items@);
    while i < items.len()
        invariant
            i <= items@.len(),
            st0 == (*old(acc), opt_vec_view(*old(derive)), old(diag)@),
            spec_struct_items(items@, st0) == spec_struct_items(
                items@.skip(i as int),
                (*acc, opt_vec_view(*derive), diag@),
            ),
        decreases items@.len() - i,
    {
        proof {
            assert(items@.skip(i as int)[0] == items@[i as int]);
            assert(items@.skip(i as int).drop_first() =~= items@.skip(i + 1));
        }
        let r = struct_item(&items[i], acc, derive, diag);
        if let Err(e) = r {
            return Err(e);
        }
        i = i + 1;
    }
    assert(items@.skip(i as int) =~= Seq::<NestedMeta>::empty());
    Ok(())
}

impl Options {
    /// Reads the options of the builder from the input struct. All errors
    /// (of every attribute and every field) are reported together.
    pub fn from_derive_input(ast: DeriveInput) -> (r: Result<Self, Vec<String>>)
        ensures
            match r {
                Ok(o) => spec_input_errors(ast).len() == 0 && options_from_input(o, ast),
                Err(errs) => spec_input_errors(ast).len() != 0 && strings_view(errs@)
                    == spec_input_errors(ast),
            },
    {
        let mut diag = Diagnostic::new();
        let mut acc = StructOpts {
            name: None,
            crate_root: None,
            pattern: None,
            build_fn: None,
            custom_constructor: None,
            create_empty: None,
            setter: None,
            default: None,
            no_std: None,
            try_setter: None,
            field: None,
            builder_vis: VisibilityAttr::Unset,
        };
        let mut derive: Option<Vec<String>> = None;
        let mut struct_attrs: Vec<String> = Vec::new();
        let mut impl_attrs: Vec<String> = Vec::new();
        let ghost st0: StructState = (empty_struct_opts(), Option::None, Seq::empty(), Seq::empty(), Seq::empty());
        let mut i: usize = 0;
        assert(ast.attrs@.skip(0) =~= ast.attrs@);
        while i < ast.attrs.len()
            invariant
                i <= ast.attrs@.len(),
                st0 == (empty_struct_opts(), Option::<Seq<String>>::None, Seq::<String>::empty(), Seq::<String>::empty(), Seq::<Seq<char>>::empty()),
                spec_struct_attrs(ast.attrs@, st0) == spec_struct_attrs(
                    ast.attrs@.skip(i as int),
                    (acc, opt_vec_view(derive), struct_attrs@, impl_attrs@, diag@),
                ),
            decreases ast.attrs@.len() - i,
        {
            proof {
                assert(ast.attrs@.skip(i as int)[0] == ast.attrs@[i as int]);
                assert(ast.attrs@.skip(i as int).drop_first() =~= ast.attrs@.skip(i + 1));
            }
            let attr = &ast.attrs[i];
            if str_eq(attr.path.as_str(), "builder") {
                match &attr.args {
                    MetaArgs::Word => {},
                    MetaArgs::List(items) => {
                        let r = struct_items(items, &mut acc, &mut derive, &mut diag);
                        if let Err(e) = r {
                            diag.push(e);
                        }
                    },
                    _ => {
                        diag.push(attr_args_error_msg(attr));
                    },
                }
            } else if str_eq(attr.path.as_str(), "cfg") || str_eq(attr.path.as_str(), "allow") {
                struct_attrs.push(attr.meta_text.clone());
                impl_attrs.push(attr.meta_text.clone());
            } else if str_eq(attr.path.as_str(), "builder_struct_attr") {
                unnest_attr(attr, &mut struct_attrs, &mut diag);
            } else if str_eq(attr.path.as_str(), "builder_impl_attr") {
                unnest_attr(attr, &mut impl_attrs, &mut diag);
            }
            i = i + 1;
        }
        assert(ast.attrs@.skip(i as int) =~= Seq::<Attribute>::empty());
        let ghost d1 = diag@;
        let mut data: Vec<Field> = Vec::new();
        match &ast.data {
            Data::Struct(fields) => {
                let mut j: usize = 0;
                while j < fields.len()
                    invariant
                        j <= fields@.len(),
                        data@.len() == j,
                        diag@ == spec_fields_diag(fields@.take(j as int), d1),
                        forall|k: int|
                            0 <= k < j ==> field_from_state(
                                #[trigger] data@[k],
                                fields@[k],
                                spec_from_field(fields@[k], spec_fields_diag(fields@.take(k), d1)),
                            ),
                    decreases fields@.len() - j,
                {
                    proof {
                        assert(fields@.take(j + 1).drop_last() =~= fields@.take(j as int));
                    }
                    let f = Field::from_field(&fields[j], &mut diag);
                    data.push(f);
                    j = j + 1;
                }
                assert(fields@.take(fields@.len() as int) =~= fields@);
            },
            Data::Other => {
                diag.push(msg("this derive macro requires a struct with named fields"));
            },
        }
        if let Some(errs) = diag.take() {
            return Err(errs);
        }
        Ok(Options {
            ident: ast.ident,
            struct_attrs,
            impl_attrs,
            struct_vis: ast.vis,
            generics: ast.generics,
            name: acc.name,
            crate_root: acc.crate_root,
            pattern: match acc.pattern {
                Some(p) => p,
                None => BuilderPattern::Mutable,
            },
            build_fn: match acc.build_fn {
                Some(b) => b,
                None => BuildFn::default(),
            },
            derive: match derive {
                Some(d) => d,
                None => Vec::new(),
            },
            custom_constructor: match acc.custom_constructor {
                Some(b) => b,
                None => false,
            },
            create_empty: acc.create_empty,
            setter: match acc.setter {
                Some(s) => s,
                None => StructLevelSetter::default(),
            },
            default: acc.default,
            builder_vis: acc.builder_vis,
            data,
            no_std: match acc.no_std {
                Some(b) => b,
                None => false,
            },
            try_setter: match acc.try_setter {
                Some(b) => b,
                None => false,
            },
            field: match acc.field {
                Some(f) => f,
                None => StructLevelFieldMeta::default(),
            },
            deprecation_notes: DeprecationNotes::new(),
        })
    }
}

} // verus!
