//! Errors are never dropped: each step of reading the options keeps the
//! errors recorded before it, in order, and may only add new ones.
use vstd::prelude::*;
use crate::block::spec_parse_block;
use crate::default_expression::spec_parse_default;
use crate::macro_options::build_fn::{
    empty_build_fn_acc, spec_build_fn_item, spec_build_fn_items, spec_check_validation,
    spec_error_item, spec_error_items, spec_parse_build_fn, spec_parse_build_fn_error, BuildFnAcc,
};
use crate::macro_options::darling_opts::{
    StructOpts,
    spec_fields_diag, spec_flag, spec_input_errors, spec_parse_derive, spec_read_struct_attrs,
    spec_struct_attr, spec_struct_attrs, spec_struct_item, spec_struct_items, Data, DeriveInput,
    StructItemState, StructState,
};
use crate::macro_options::field::{
    spec_check_field_vs_default, spec_field_attr, spec_field_attrs, spec_field_item,
    spec_field_items, spec_from_field, spec_unnest_attr, FieldInput, FieldOpts, FieldState,
};
use crate::macro_options::field_meta::{
    empty_field_field_meta, spec_field_field_meta_item, spec_field_field_meta_items,
    spec_parse_field_field_meta, spec_parse_struct_field_meta, spec_struct_field_meta_item,
    spec_struct_field_meta_items, FieldLevelFieldMeta, StructLevelFieldMeta,
};
use crate::macro_options::setter_opts::{
    empty_field_setter, empty_struct_setter, spec_bool_opt, spec_field_setter_item,
    spec_field_setter_items, spec_ident_opt, spec_parse_field_setter, spec_parse_struct_setter,
    spec_struct_setter_item, spec_struct_setter_items, FieldLevelSetter, StructLevelSetter,
};
use crate::macro_options::visibility_attr::{spec_report_conflict, spec_vis_item, VisibilityAttr};
use crate::meta::{
    spec_ident_value, spec_lit_bool_value, spec_optional_bool, spec_path_value, spec_set_once,
    spec_type_value, Attribute, MetaArgs, NestedMeta,
};
use crate::options::{spec_each_item, spec_each_items, spec_parse_each, spec_parse_pattern, EachAcc};

verus! {

/// Whether `after` starts with the errors of `before`, in the same order.
pub open spec fn keeps(before: Seq<Seq<char>>, after: Seq<Seq<char>>) -> bool {
    &&& before.len() <= after.len()
    &&& forall|i: int| #![auto] 0 <= i < before.len() ==> after[i] == before[i]
}

proof fn lemma_set_once<T>(out: Option<T>, v: T, d: Seq<Seq<char>>)
    ensures
        keeps(d, spec_set_once(out, v, d).1),
{
}

proof fn lemma_bool_opt(args: MetaArgs, slot: Option<bool>, d: Seq<Seq<char>>)
    ensures
        keeps(d, spec_bool_opt(args, slot, d).1),
{
    if let Ok(v) = spec_optional_bool(args) {
        lemma_set_once(slot, v, d);
    }
}

proof fn lemma_ident_opt(args: MetaArgs, slot: Option<String>, d: Seq<Seq<char>>)
    ensures
        keeps(d, spec_ident_opt(args, slot, d).1),
{
    if let Ok(v) = spec_ident_value(args) {
        lemma_set_once(slot, v, d);
    }
}

proof fn lemma_struct_setter_items(items: Seq<NestedMeta>, acc: StructLevelSetter, d: Seq<Seq<char>>)
    ensures
        keeps(d, spec_struct_setter_items(items, acc, d).1),
    decreases items.len(),
{
    if items.len() > 0 {
        let item = items[0];
        lemma_ident_opt(item.args, acc.prefix, d);
        lemma_bool_opt(item.args, acc.into, d);
        lemma_bool_opt(item.args, acc.strip_option, d);
        lemma_bool_opt(item.args, acc.skip, d);
        let (r, d1) = spec_struct_setter_item(item, acc, d);
        if let Ok(a) = r {
            lemma_struct_setter_items(items.drop_first(), a, d1);
        }
    }
}

proof fn lemma_parse_struct_setter(args: MetaArgs, d: Seq<Seq<char>>)
    ensures
        keeps(d, spec_parse_struct_setter(args, d).1),
{
    if let MetaArgs::List(items) = args {
        lemma_struct_setter_items(items@, empty_struct_setter(), d);
    }
}

proof fn lemma_each_items(items: Seq<NestedMeta>, acc: EachAcc, d: Seq<Seq<char>>)
    ensures
        keeps(d, spec_each_items(items, acc, d).1),
    decreases items.len(),
{
    if items.len() > 0 {
        let item = items[0];
        if let Ok(v) = spec_ident_value(item.args) {
            lemma_set_once(acc.0, v, d);
        }
        if let Ok(v) = spec_optional_bool(item.args) {
            lemma_set_once(acc.1, v, d);
        }
        let (r, d1) = spec_each_item(item, acc, d);
        if let Ok(a) = r {
            lemma_each_items(items.drop_first(), a, d1);
        }
    }
}

proof fn lemma_parse_each(args: MetaArgs, d: Seq<Seq<char>>)
    ensures
        keeps(d, spec_parse_each(args, d).1),
{
    if let MetaArgs::List(items) = args {
        lemma_each_items(items@, (None, None), d);
    }
}

proof fn lemma_field_setter_items(items: Seq<NestedMeta>, acc: FieldLevelSetter, d: Seq<Seq<char>>)
    ensures
        keeps(d, spec_field_setter_items(items, acc, d).1),
    decreases items.len(),
{
    if items.len() > 0 {
        let item = items[0];
        lemma_ident_opt(item.args, acc.prefix, d);
        lemma_ident_opt(item.args, acc.name, d);
        lemma_bool_opt(item.args, acc.into, d);
        lemma_bool_opt(item.args, acc.strip_option, d);
        lemma_bool_opt(item.args, acc.skip, d);
        lemma_bool_opt(item.args, acc.custom, d);
        lemma_parse_each(item.args, d);
        let (re, de) = spec_parse_each(item.args, d);
        if let Ok(v) = re {
            lemma_set_once(acc.each, v, de);
        }
        let (r, d1) = spec_field_setter_item(item, acc, d);
        if let Ok(a) = r {
            lemma_field_setter_items(items.drop_first(), a, d1);
        }
    }
}

proof fn lemma_parse_field_setter(args: MetaArgs, d: Seq<Seq<char>>)
    ensures
        keeps(d, spec_parse_field_setter(args, d).1),
{
    if let MetaArgs::List(items) = args {
        lemma_field_setter_items(items@, empty_field_setter(), d);
    }
}

proof fn lemma_vis_item(item: NestedMeta, v: VisibilityAttr, d: Seq<Seq<char>>)
    ensures
        keeps(d, spec_vis_item(item, v, d).2),
{
}

proof fn lemma_struct_field_meta_items(items: Seq<NestedMeta>, acc: StructLevelFieldMeta, d: Seq<Seq<char>>)
    ensures
        keeps(d, spec_struct_field_meta_items(items, acc, d).1),
    decreases items.len(),
{
    if items.len() > 0 {
        lemma_vis_item(items[0], acc.vis, d);
        let (r, d1) = spec_struct_field_meta_item(items[0], acc, d);
        if let Ok(a) = r {
            lemma_struct_field_meta_items(items.drop_first(), a, d1);
        }
    }
}

proof fn lemma_parse_struct_field_meta(args: MetaArgs, d: Seq<Seq<char>>)
    ensures
        keeps(d, spec_parse_struct_field_meta(args, d).1),
{
    if let MetaArgs::List(items) = args {
        lemma_struct_field_meta_items(items@, StructLevelFieldMeta { vis: VisibilityAttr::Unset }, d);
    }
}

proof fn lemma_field_field_meta_items(items: Seq<NestedMeta>, acc: FieldLevelFieldMeta, d: Seq<Seq<char>>)
    ensures
        keeps(d, spec_field_field_meta_items(items, acc, d).1),
    decreases items.len(),
{
    if items.len() > 0 {
        let item = items[0];
        if let Ok(v) = spec_type_value(item.args) {
            lemma_set_once(acc.builder_type, v, d);
        }
        if let Ok(v) = spec_parse_block(item.args) {
            lemma_set_once(acc.build, v, d);
        }
        lemma_vis_item(item, acc.vis, d);
        let (r, d1) = spec_field_field_meta_item(item, acc, d);
        if let Ok(a) = r {
            lemma_field_field_meta_items(items.drop_first(), a, d1);
        }
    }
}

proof fn lemma_parse_field_field_meta(args: MetaArgs, d: Seq<Seq<char>>)
    ensures
        keeps(d, spec_parse_field_field_meta(args, d).1),
{
    if let MetaArgs::List(items) = args {
        lemma_field_field_meta_items(items@, empty_field_field_meta(), d);
    }
}

proof fn lemma_error_items(items: Seq<NestedMeta>, acc: Option<bool>, d: Seq<Seq<char>>)
    ensures
        keeps(d, spec_error_items(items, acc, d).1),
    decreases items.len(),
{
    if items.len() > 0 {
        if let Ok(v) = spec_lit_bool_value(items[0].args) {
            lemma_set_once(acc, v, d);
        }
        let (r, d1) = spec_error_item(items[0], acc, d);
        if let Ok(a) = r {
            lemma_error_items(items.drop_first(), a, d1);
        }
    }
}

proof fn lemma_parse_build_fn_error(args: MetaArgs, d: Seq<Seq<char>>)
    ensures
        keeps(d, spec_parse_build_fn_error(args, d).1),
{
    if let MetaArgs::List(items) = args {
        lemma_error_items(items@, None, d);
    }
}

proof fn lemma_build_fn_item(item: NestedMeta, acc: BuildFnAcc, d: Seq<Seq<char>>)
    ensures
        keeps(d, spec_build_fn_item(item, acc, d).1),
{
    if let Ok(v) = spec_optional_bool(item.args) {
        lemma_set_once(acc.skip, v, d);
    }
    if let Ok(v) = spec_ident_value(item.args) {
        lemma_set_once(acc.name, v, d);
    }
    if let Ok(v) = spec_path_value(item.args) {
        lemma_set_once(acc.validate, v, d);
    }
    lemma_parse_build_fn_error(item.args, d);
    let (re, d1) = spec_parse_build_fn_error(item.args, d);
    if let Ok(v) = re {
        lemma_set_once(acc.error, v, d1);
    }
    lemma_vis_item(item, acc.vis, d);
}

proof fn lemma_build_fn_items(items: Seq<NestedMeta>, acc: BuildFnAcc, d: Seq<Seq<char>>)
    ensures
        keeps(d, spec_build_fn_items(items, acc, d).1),
    decreases items.len(),
{
    if items.len() > 0 {
        lemma_build_fn_item(items[0], acc, d);
        let (r, d1) = spec_build_fn_item(items[0], acc, d);
        if let Ok(a) = r {
            lemma_build_fn_items(items.drop_first(), a, d1);
        }
    }
}

proof fn lemma_parse_build_fn(args: MetaArgs, d: Seq<Seq<char>>)
    ensures
        keeps(d, spec_parse_build_fn(args, d).1),
{
    if let MetaArgs::List(items) = args {
        lemma_build_fn_items(items@, empty_build_fn_acc(), d);
    }
}

proof fn lemma_struct_item(item: NestedMeta, st: StructItemState)
    ensures
        keeps(st.2, spec_struct_item(item, st).0.2),
{
    let (acc, derive, diag) = st;
    lemma_ident_opt(item.args, acc.name, diag);
    if let Ok(v) = spec_path_value(item.args) {
        lemma_set_once(acc.crate_root, v, diag);
    }
    let (rp, dp) = spec_parse_pattern(item.args, diag);
    if let Ok(v) = rp {
        lemma_set_once(acc.pattern, v, dp);
    }
    lemma_parse_build_fn(item.args, diag);
    let (rb, db) = spec_parse_build_fn(item.args, diag);
    if let Ok(v) = rb {
        lemma_set_once(acc.build_fn, v, db);
    }
    if let Ok(v) = spec_parse_derive(item.args) {
        lemma_set_once(derive, v, diag);
    }
    lemma_set_once(acc.custom_constructor, true, diag);
    lemma_ident_opt(item.args, acc.create_empty, diag);
    lemma_parse_struct_setter(item.args, diag);
    let (rs, ds) = spec_parse_struct_setter(item.args, diag);
    if let Ok(v) = rs {
        lemma_set_once(acc.setter, v, ds);
    }
    if let Ok(v) = spec_parse_default(item.args) {
        lemma_set_once(acc.default, v, diag);
    }
    lemma_set_once(acc.no_std, true, diag);
    lemma_set_once(acc.try_setter, true, diag);
    lemma_parse_struct_field_meta(item.args, diag);
    let (rf, df) = spec_parse_struct_field_meta(item.args, diag);
    if let Ok(v) = rf {
        lemma_set_once(acc.field, v, df);
    }
    lemma_vis_item(item, acc.builder_vis, diag);
}

proof fn lemma_struct_items(items: Seq<NestedMeta>, st: StructItemState)
    ensures
        keeps(st.2, spec_struct_items(items, st).0.2),
    decreases items.len(),
{
    if items.len() > 0 {
        lemma_struct_item(items[0], st);
        let (st2, e) = spec_struct_item(items[0], st);
        if e is None {
            lemma_struct_items(items.drop_first(), st2);
        }
    }
}

pub(crate) proof fn lemma_struct_attrs(attrs: Seq<Attribute>, st: StructState)
    ensures
        keeps(st.4, spec_struct_attrs(attrs, st).4),
    decreases attrs.len(),
{
    if attrs.len() > 0 {
        let attr = attrs[0];
        let (acc, derive, sa, ia, diag) = st;
        if let MetaArgs::List(items) = attr.args {
            lemma_struct_items(items@, (acc, derive, diag));
        }
        lemma_struct_attrs(attrs.drop_first(), spec_struct_attr(attr, st));
    }
}

proof fn lemma_field_items(items: Seq<NestedMeta>, acc: FieldOpts, d: Seq<Seq<char>>)
    ensures
        keeps(d, spec_field_items(items, acc, d).2),
    decreases items.len(),
{
    if items.len() > 0 {
        let item = items[0];
        let (rp, dp) = spec_parse_pattern(item.args, d);
        if let Ok(v) = rp {
            lemma_set_once(acc.pattern, v, dp);
        }
        lemma_parse_field_setter(item.args, d);
        let (rs, ds) = spec_parse_field_setter(item.args, d);
        if let Ok(v) = rs {
            lemma_set_once(acc.setter, v, ds);
        }
        if let Ok(v) = spec_parse_default(item.args) {
            lemma_set_once(acc.default, v, d);
        }
        lemma_set_once(acc.try_setter, true, d);
        lemma_parse_field_field_meta(item.args, d);
        let (rf, df) = spec_parse_field_field_meta(item.args, d);
        if let Ok(v) = rf {
            lemma_set_once(acc.field, v, df);
        }
        lemma_vis_item(item, acc.vis, d);
        let (a, e, d1) = spec_field_item(item, acc, d);
        if e is None {
            lemma_field_items(items.drop_first(), a, d1);
        }
    }
}

proof fn lemma_field_attrs(attrs: Seq<Attribute>, st: FieldState)
    ensures
        keeps(st.3, spec_field_attrs(attrs, st).3),
    decreases attrs.len(),
{
    if attrs.len() > 0 {
        let attr = attrs[0];
        let (acc, fa, sa, diag) = st;
        if let MetaArgs::List(items) = attr.args {
            lemma_field_items(items@, acc, diag);
        }
        lemma_field_attrs(attrs.drop_first(), spec_field_attr(attr, st));
    }
}

proof fn lemma_fields_diag(fields: Seq<FieldInput>, d: Seq<Seq<char>>)
    ensures
        keeps(d, spec_fields_diag(fields, d)),
    decreases fields.len(),
{
    if fields.len() > 0 {
        lemma_fields_diag(fields.drop_last(), d);
        let before = spec_fields_diag(fields.drop_last(), d);
        let f = fields.last();
        lemma_field_attrs(f.attrs@, (crate::macro_options::field::empty_field_opts(), Seq::empty(), Seq::empty(), before));
    }
}

proof fn lemma_fields_prefix(fields: Seq<FieldInput>, k: int, d: Seq<Seq<char>>)
    requires
        0 <= k <= fields.len(),
    ensures
        keeps(spec_fields_diag(fields.take(k), d), spec_fields_diag(fields, d)),
    decreases fields.len(),
{
    if k == fields.len() {
        assert(fields.take(k) =~= fields);
    } else {
        lemma_fields_prefix(fields.drop_last(), k, d);
        assert(fields.drop_last().take(k) =~= fields.take(k));
        let before = spec_fields_diag(fields.drop_last(), d);
        lemma_field_attrs(fields.last().attrs@, (crate::macro_options::field::empty_field_opts(), Seq::empty(), Seq::empty(), before));
    }
}

/// No error is ever dropped: the derive reports the errors found in the
/// struct's attributes first, in order, then those found in each field, in
/// the order of the fields; reading more fields only adds errors after them.
pub proof fn law_errors_are_kept(ast: DeriveInput)
    ensures
        keeps(spec_read_struct_attrs(ast).4, spec_input_errors(ast)),
        ast.data matches Data::Struct(fields) ==> forall|k: int| 0 <= k <= fields@.len() ==> keeps(
            #[trigger] spec_fields_diag(fields@.take(k), spec_read_struct_attrs(ast).4),
            spec_input_errors(ast),
        ),
{
    let d1 = spec_read_struct_attrs(ast).4;
    match ast.data {
        Data::Struct(fields) => {
            lemma_fields_diag(fields@, d1);
            assert forall|k: int| 0 <= k <= fields@.len() implies keeps(
                #[trigger] spec_fields_diag(fields@.take(k), d1),
                spec_input_errors(ast),
            ) by {
                lemma_fields_prefix(fields@, k, d1);
            }
        },
        Data::Other => {},
    }
}

/// Whether `name` is one of the struct-level options that take no value.
pub open spec fn is_flag_name(name: Seq<char>) -> bool {
    name == "no_std"@ || name == "try_setter"@ || name == "custom_constructor"@
}

/// The value read so far for the struct-level flag `name`.
pub open spec fn flag_slot(acc: StructOpts, name: Seq<char>) -> Option<bool> {
    if name == "no_std"@ {
        acc.no_std
    } else if name == "try_setter"@ {
        acc.try_setter
    } else {
        acc.custom_constructor
    }
}

/// Whether `item` gives the flag `name`.
pub open spec fn gives_flag(item: NestedMeta, name: Seq<char>) -> bool {
    item.path@ == name && !(item.args is Malformed)
}

proof fn lemma_flag_branch(item: NestedMeta, name: Seq<char>)
    requires
        is_flag_name(name),
        gives_flag(item, name),
    ensures
        item.path@ != "name"@ && item.path@ != "crate"@ && item.path@ != "pattern"@
            && item.path@ != "build_fn"@ && item.path@ != "derive"@,
        name == "no_std"@ ==> item.path@ != "custom_constructor"@ && item.path@ != "create_empty"@
            && item.path@ != "setter"@ && item.path@ != "default"@,
        name == "try_setter"@ ==> item.path@ != "custom_constructor"@ && item.path@
            != "create_empty"@ && item.path@ != "setter"@ && item.path@ != "default"@ && item.path@
            != "no_std"@,
{
    reveal_strlit("name");
    reveal_strlit("crate");
    reveal_strlit("pattern");
    reveal_strlit("build_fn");
    reveal_strlit("derive");
    reveal_strlit("custom_constructor");
    reveal_strlit("create_empty");
    reveal_strlit("setter");
    reveal_strlit("default");
    reveal_strlit("no_std");
    reveal_strlit("try_setter");
    let p = item.path@;
    if name == "no_std"@ {
        assert(p.len() == 6 && p[0] == 'n');
    } else if name == "try_setter"@ {
        assert(p.len() == 10 && p[0] == 't');
    } else {
        assert(p.len() == 18 && p[1] == 'u');
    }
}

/// Reading an option never unsets a flag that was set.
proof fn lemma_flag_stays(item: NestedMeta, st: StructItemState, name: Seq<char>)
    requires
        flag_slot(st.0, name) is Some,
    ensures
        flag_slot(spec_struct_item(item, st).0.0, name) is Some,
{
}

/// With the flag `name` set, reading it again records an error or stops
/// the attribute with one.
proof fn lemma_flag_again(items: Seq<NestedMeta>, st: StructItemState, name: Seq<char>, q: int)
    requires
        is_flag_name(name),
        flag_slot(st.0, name) is Some,
        0 <= q < items.len(),
        gives_flag(items[q], name),
    ensures
        spec_struct_items(items, st).1 is Some || spec_struct_items(items, st).0.2.len() > st.2.len(),
    decreases items.len(),
{
    let (st2, e) = spec_struct_item(items[0], st);
    lemma_struct_item(items[0], st);
    if e is None {
        lemma_struct_items(items.drop_first(), st2);
        if q == 0 {
            lemma_flag_branch(items[0], name);
            assert(st2.2.len() > st.2.len());
        } else {
            lemma_flag_stays(items[0], st, name);
            assert(items.drop_first()[q - 1] == items[q]);
            lemma_flag_again(items.drop_first(), st2, name, q - 1);
        }
    }
}

/// Reading the flag `name` sets it.
proof fn lemma_flag_sets(item: NestedMeta, st: StructItemState, name: Seq<char>)
    requires
        is_flag_name(name),
        gives_flag(item, name),
    ensures
        flag_slot(spec_struct_item(item, st).0.0, name) is Some,
{
    lemma_flag_branch(item, name);
}

/// Giving a flag twice in the options records an error or stops the
/// attribute with one.
proof fn lemma_flag_twice(items: Seq<NestedMeta>, st: StructItemState, name: Seq<char>, p: int, q: int)
    requires
        is_flag_name(name),
        0 <= p < q < items.len(),
        gives_flag(items[p], name),
        gives_flag(items[q], name),
    ensures
        spec_struct_items(items, st).1 is Some || spec_struct_items(items, st).0.2.len() > st.2.len(),
    decreases items.len(),
{
    let (st2, e) = spec_struct_item(items[0], st);
    lemma_struct_item(items[0], st);
    if e is None {
        lemma_struct_items(items.drop_first(), st2);
        assert(items.drop_first()[q - 1] == items[q]);
        if p == 0 {
            lemma_flag_sets(items[0], st, name);
            lemma_flag_again(items.drop_first(), st2, name, q - 1);
        } else {
            assert(items.drop_first()[p - 1] == items[p]);
            lemma_flag_twice(items.drop_first(), st2, name, p - 1, q - 1);
        }
    }
}

/// Reading attributes one after another is reading a first part of them,
/// then the rest.
proof fn lemma_struct_attrs_split(attrs: Seq<Attribute>, st: StructState, j: int)
    requires
        0 <= j <= attrs.len(),
    ensures
        spec_struct_attrs(attrs, st) == spec_struct_attrs(attrs.skip(j), spec_struct_attrs(attrs.take(j), st)),
    decreases attrs.len(),
{
    if j == 0 {
        assert(attrs.skip(0) =~= attrs);
        assert(attrs.take(0).len() == 0);
    } else {
        lemma_struct_attrs_split(attrs.drop_first(), spec_struct_attr(attrs[0], st), j - 1);
        assert(attrs.drop_first().skip(j - 1) =~= attrs.skip(j));
        assert(attrs.take(j).drop_first() =~= attrs.drop_first().take(j - 1));
        assert(attrs.take(j)[0] == attrs[0]);
    }
}

/// A flag that takes no value (`no_std`, `try_setter`,
/// `custom_constructor`) given twice in one `#[builder(...)]` attribute of
/// the struct is reported as an error.
pub proof fn law_flag_given_twice(ast: DeriveInput, j: int, name: Seq<char>, p: int, q: int)
    requires
        is_flag_name(name),
        0 <= j < ast.attrs@.len(),
        ast.attrs@[j].path@ == "builder"@,
        ast.attrs@[j].args matches MetaArgs::List(items) && 0 <= p < q < items@.len() && gives_flag(
            items@[p],
            name,
        ) && gives_flag(items@[q], name),
    ensures
        spec_input_errors(ast).len() > 0,
{
    let attrs = ast.attrs@;
    let st0: StructState = (crate::macro_options::darling_opts::empty_struct_opts(), None, Seq::empty(), Seq::empty(), Seq::empty());
    let before = spec_struct_attrs(attrs.take(j), st0);
    lemma_struct_attrs_split(attrs, st0, j);
    let rest = attrs.skip(j);
    assert(rest[0] == attrs[j]);
    let after_j = spec_struct_attr(rest[0], before);
    if let MetaArgs::List(items) = attrs[j].args {
        let (acc, derive, sa, ia, diag) = before;
        lemma_flag_twice(items@, (acc, derive, diag), name, p, q);
    }
    assert(after_j.4.len() > 0);
    lemma_struct_attrs(rest.drop_first(), after_j);
    law_errors_are_kept(ast);
}

} // verus!
