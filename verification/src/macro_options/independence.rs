//! Reading a field depends on that field alone: its options, and the errors
//! it adds after the ones recorded before, are the same whatever was
//! recorded before.
use vstd::prelude::*;
use crate::block::spec_parse_block;
use crate::default_expression::spec_parse_default;
use crate::macro_options::darling_opts::{
    spec_fields_diag, spec_input_errors, spec_read_struct_attrs, Data, DeriveInput,
};
use crate::macro_options::field::{
    empty_field_opts, spec_check_field_vs_default, spec_field_attr, spec_field_attrs,
    spec_field_item, spec_field_items, spec_from_field, spec_unnest_attr, FieldInput, FieldOpts,
    FieldState,
};
use crate::macro_options::field_meta::{
    empty_field_field_meta, spec_field_field_meta_item, spec_field_field_meta_items,
    spec_parse_field_field_meta, FieldLevelFieldMeta,
};
use crate::macro_options::setter_opts::{
    empty_field_setter, spec_bool_opt, spec_field_setter_item, spec_field_setter_items,
    spec_ident_opt, spec_parse_field_setter, FieldLevelSetter,
};
use crate::macro_options::visibility_attr::{spec_report_conflict, spec_vis_item, VisibilityAttr};
use crate::meta::{
    spec_ident_value, spec_optional_bool, spec_set_once, spec_type_value, Attribute, MetaArgs,
    NestedMeta,
};
use crate::options::{spec_each_item, spec_each_items, spec_parse_each, spec_parse_pattern, EachAcc};

verus! {

broadcast use {
    crate::text::lemma_concat_assoc,
    crate::text::lemma_concat_empty,
    crate::text::lemma_concat_push,
};

/// Whether `r` is `e` with the errors `d` recorded before.
pub open spec fn shifted<T>(r: (T, Seq<Seq<char>>), e: (T, Seq<Seq<char>>), d: Seq<Seq<char>>) -> bool {
    r.0 == e.0 && r.1 == d + e.1
}

proof fn ind_set_once<T>(out: Option<T>, v: T, d: Seq<Seq<char>>)
    ensures
        shifted(spec_set_once(out, v, d), spec_set_once(out, v, Seq::empty()), d),
{
}

proof fn ind_bool_opt(args: MetaArgs, slot: Option<bool>, d: Seq<Seq<char>>)
    ensures
        shifted(spec_bool_opt(args, slot, d), spec_bool_opt(args, slot, Seq::empty()), d),
{
    if let Ok(v) = spec_optional_bool(args) {
        ind_set_once(slot, v, d);
    }
}

proof fn ind_ident_opt(args: MetaArgs, slot: Option<String>, d: Seq<Seq<char>>)
    ensures
        shifted(spec_ident_opt(args, slot, d), spec_ident_opt(args, slot, Seq::empty()), d),
{
    if let Ok(v) = spec_ident_value(args) {
        ind_set_once(slot, v, d);
    }
}

proof fn ind_each_item(item: NestedMeta, acc: EachAcc, d: Seq<Seq<char>>)
    ensures
        shifted(spec_each_item(item, acc, d), spec_each_item(item, acc, Seq::empty()), d),
{
    if let Ok(v) = spec_ident_value(item.args) {
        ind_set_once(acc.0, v, d);
    }
    if let Ok(v) = spec_optional_bool(item.args) {
        ind_set_once(acc.1, v, d);
    }
}

proof fn ind_each_items(items: Seq<NestedMeta>, acc: EachAcc, d: Seq<Seq<char>>)
    ensures
        shifted(spec_each_items(items, acc, d), spec_each_items(items, acc, Seq::empty()), d),
    decreases items.len(),
{
    if items.len() > 0 {
        ind_each_item(items[0], acc, d);
        let (r, e1) = spec_each_item(items[0], acc, Seq::empty());
        if let Ok(a) = r {
            ind_each_items(items.drop_first(), a, d + e1);
            ind_each_items(items.drop_first(), a, e1);
        }
    }
}

proof fn ind_parse_each(args: MetaArgs, d: Seq<Seq<char>>)
    ensures
        shifted(spec_parse_each(args, d), spec_parse_each(args, Seq::empty()), d),
{
    if let MetaArgs::List(items) = args {
        ind_each_items(items@, (None, None), d);
    }
}

proof fn ind_field_setter_item(item: NestedMeta, acc: FieldLevelSetter, d: Seq<Seq<char>>)
    ensures
        shifted(spec_field_setter_item(item, acc, d), spec_field_setter_item(item, acc, Seq::empty()), d),
{
    ind_ident_opt(item.args, acc.prefix, d);
    ind_ident_opt(item.args, acc.name, d);
    ind_bool_opt(item.args, acc.into, d);
    ind_bool_opt(item.args, acc.strip_option, d);
    ind_bool_opt(item.args, acc.skip, d);
    ind_bool_opt(item.args, acc.custom, d);
    ind_parse_each(item.args, d);
    let (r, e1) = spec_parse_each(item.args, Seq::empty());
    if let Ok(v) = r {
        ind_set_once(acc.each, v, d + e1);
        ind_set_once(acc.each, v, e1);
    }
}

proof fn ind_field_setter_items(items: Seq<NestedMeta>, acc: FieldLevelSetter, d: Seq<Seq<char>>)
    ensures
        shifted(spec_field_setter_items(items, acc, d), spec_field_setter_items(items, acc, Seq::empty()), d),
    decreases items.len(),
{
    if items.len() > 0 {
        ind_field_setter_item(items[0], acc, d);
        let (r, e1) = spec_field_setter_item(items[0], acc, Seq::empty());
        if let Ok(a) = r {
            ind_field_setter_items(items.drop_first(), a, d + e1);
            ind_field_setter_items(items.drop_first(), a, e1);
        }
    }
}

proof fn ind_parse_field_setter(args: MetaArgs, d: Seq<Seq<char>>)
    ensures
        shifted(spec_parse_field_setter(args, d), spec_parse_field_setter(args, Seq::empty()), d),
{
    if let MetaArgs::List(items) = args {
        ind_field_setter_items(items@, empty_field_setter(), d);
    }
}

proof fn ind_parse_pattern(args: MetaArgs, d: Seq<Seq<char>>)
    ensures
        shifted(spec_parse_pattern(args, d), spec_parse_pattern(args, Seq::empty()), d),
{
}

proof fn ind_vis_item(item: NestedMeta, v: VisibilityAttr, d: Seq<Seq<char>>)
    ensures
        spec_vis_item(item, v, d).0 == spec_vis_item(item, v, Seq::empty()).0,
        spec_vis_item(item, v, d).1 == spec_vis_item(item, v, Seq::empty()).1,
        spec_vis_item(item, v, d).2 == d + spec_vis_item(item, v, Seq::empty()).2,
{
}

proof fn ind_field_field_meta_items(items: Seq<NestedMeta>, acc: FieldLevelFieldMeta, d: Seq<Seq<char>>)
    ensures
        shifted(spec_field_field_meta_items(items, acc, d), spec_field_field_meta_items(items, acc, Seq::empty()), d),
    decreases items.len(),
{
    if items.len() > 0 {
        let item = items[0];
        if let Ok(v) = spec_type_value(item.args) {
            ind_set_once(acc.builder_type, v, d);
        }
        if let Ok(v) = spec_parse_block(item.args) {
            ind_set_once(acc.build, v, d);
        }
        ind_vis_item(item, acc.vis, d);
        let (r, e1) = spec_field_field_meta_item(item, acc, Seq::empty());
        assert(shifted(spec_field_field_meta_item(item, acc, d), (r, e1), d));
        if let Ok(a) = r {
            ind_field_field_meta_items(items.drop_first(), a, d + e1);
            ind_field_field_meta_items(items.drop_first(), a, e1);
        }
    }
}

proof fn ind_parse_field_field_meta(args: MetaArgs, d: Seq<Seq<char>>)
    ensures
        shifted(spec_parse_field_field_meta(args, d), spec_parse_field_field_meta(args, Seq::empty()), d),
{
    if let MetaArgs::List(items) = args {
        ind_field_field_meta_items(items@, empty_field_field_meta(), d);
    }
}

proof fn ind_check_field_vs_default(
    field: Option<FieldLevelFieldMeta>,
    default: Option<crate::default_expression::DefaultExpression>,
    d: Seq<Seq<char>>,
)
    ensures
        spec_check_field_vs_default(field, default, d) == d + spec_check_field_vs_default(field, default, Seq::empty()),
{
}

proof fn ind_field_item(item: NestedMeta, acc: FieldOpts, d: Seq<Seq<char>>)
    ensures
        spec_field_item(item, acc, d).0 == spec_field_item(item, acc, Seq::empty()).0,
        spec_field_item(item, acc, d).1 == spec_field_item(item, acc, Seq::empty()).1,
        spec_field_item(item, acc, d).2 == d + spec_field_item(item, acc, Seq::empty()).2,
{
    let e = Seq::<Seq<char>>::empty();
    ind_parse_pattern(item.args, d);
    let (rp, ep) = spec_parse_pattern(item.args, e);
    if let Ok(v) = rp {
        ind_set_once(acc.pattern, v, d + ep);
        ind_set_once(acc.pattern, v, ep);
    }
    ind_parse_field_setter(item.args, d);
    let (rs, es) = spec_parse_field_setter(item.args, e);
    if let Ok(v) = rs {
        ind_set_once(acc.setter, v, d + es);
        ind_set_once(acc.setter, v, es);
    }
    if let Ok(v) = spec_parse_default(item.args) {
        ind_set_once(acc.default, v, d);
        let (n, ed) = spec_set_once(acc.default, v, e);
        ind_check_field_vs_default(acc.field, n, d + ed);
        ind_check_field_vs_default(acc.field, n, ed);
    }
    ind_set_once(acc.try_setter, true, d);
    ind_parse_field_field_meta(item.args, d);
    let (rf, ef) = spec_parse_field_field_meta(item.args, e);
    if let Ok(v) = rf {
        ind_set_once(acc.field, v, d + ef);
        ind_set_once(acc.field, v, ef);
        let (n, ef2) = spec_set_once(acc.field, v, ef);
        ind_check_field_vs_default(n, acc.default, d + ef2);
        ind_check_field_vs_default(n, acc.default, ef2);
    }
    ind_vis_item(item, acc.vis, d);
}

proof fn ind_field_items(items: Seq<NestedMeta>, acc: FieldOpts, d: Seq<Seq<char>>)
    ensures
        spec_field_items(items, acc, d).0 == spec_field_items(items, acc, Seq::empty()).0,
        spec_field_items(items, acc, d).1 == spec_field_items(items, acc, Seq::empty()).1,
        spec_field_items(items, acc, d).2 == d + spec_field_items(items, acc, Seq::empty()).2,
    decreases items.len(),
{
    if items.len() > 0 {
        ind_field_item(items[0], acc, d);
        let (a, err, e1) = spec_field_item(items[0], acc, Seq::empty());
        if err is None {
            ind_field_items(items.drop_first(), a, d + e1);
            ind_field_items(items.drop_first(), a, e1);
        }
    }
}

proof fn ind_field_attrs(attrs: Seq<Attribute>, acc: FieldOpts, fa: Seq<String>, sa: Seq<String>, d: Seq<Seq<char>>)
    ensures
        spec_field_attrs(attrs, (acc, fa, sa, d)).0 == spec_field_attrs(attrs, (acc, fa, sa, Seq::empty())).0,
        spec_field_attrs(attrs, (acc, fa, sa, d)).1 == spec_field_attrs(attrs, (acc, fa, sa, Seq::empty())).1,
        spec_field_attrs(attrs, (acc, fa, sa, d)).2 == spec_field_attrs(attrs, (acc, fa, sa, Seq::empty())).2,
        spec_field_attrs(attrs, (acc, fa, sa, d)).3 == d + spec_field_attrs(attrs, (acc, fa, sa, Seq::empty())).3,
    decreases attrs.len(),
{
    if attrs.len() > 0 {
        let attr = attrs[0];
        let e = Seq::<Seq<char>>::empty();
        if let MetaArgs::List(items) = attr.args {
            ind_field_items(items@, acc, d);
        }
        let s1 = spec_field_attr(attr, (acc, fa, sa, e));
        let sd = spec_field_attr(attr, (acc, fa, sa, d));
        assert(sd.0 == s1.0 && sd.1 == s1.1 && sd.2 == s1.2 && sd.3 == d + s1.3);
        ind_field_attrs(attrs.drop_first(), s1.0, s1.1, s1.2, d + s1.3);
        ind_field_attrs(attrs.drop_first(), s1.0, s1.1, s1.2, s1.3);
    }
}

/// The errors that reading a field adds, by themselves.
pub open spec fn field_errors(f: FieldInput) -> Seq<Seq<char>> {
    spec_from_field(f, Seq::empty()).3
}

/// The errors that reading the fields adds, field after field.
pub open spec fn all_field_errors(fields: Seq<FieldInput>) -> Seq<Seq<char>>
    decreases fields.len(),
{
    if fields.len() == 0 {
        Seq::empty()
    } else {
        all_field_errors(fields.drop_last()) + field_errors(fields.last())
    }
}

/// Reading a field gives the same options, and adds the same errors after
/// those recorded before, whatever was recorded before.
pub proof fn law_field_reading_is_independent(f: FieldInput, d: Seq<Seq<char>>)
    ensures
        spec_from_field(f, d).0 == spec_from_field(f, Seq::empty()).0,
        spec_from_field(f, d).1 == spec_from_field(f, Seq::empty()).1,
        spec_from_field(f, d).2 == spec_from_field(f, Seq::empty()).2,
        spec_from_field(f, d).3 == d + field_errors(f),
{
    ind_field_attrs(f.attrs@, empty_field_opts(), Seq::empty(), Seq::empty(), d);
}

proof fn lemma_fields_diag_split(fields: Seq<FieldInput>, d: Seq<Seq<char>>)
    ensures
        spec_fields_diag(fields, d) == d + all_field_errors(fields),
    decreases fields.len(),
{
    if fields.len() > 0 {
        lemma_fields_diag_split(fields.drop_last(), d);
        law_field_reading_is_independent(fields.last(), spec_fields_diag(fields.drop_last(), d));
    }
}

/// The errors of the derive are those of the struct's attributes, then
/// those of each field by itself, in the order of the fields.
pub proof fn law_input_errors(ast: DeriveInput)
    ensures
        ast.data matches Data::Struct(fields) ==> spec_input_errors(ast) == spec_read_struct_attrs(ast).4
            + all_field_errors(fields@),
{
    if let Data::Struct(fields) = ast.data {
        lemma_fields_diag_split(fields@, spec_read_struct_attrs(ast).4);
    }
}

/// An error in the struct's attributes, or in those of any field, makes the
/// derive report errors, and so emit no builder.
pub proof fn law_any_error_is_reported(ast: DeriveInput, k: int)
    requires
        ast.data matches Data::Struct(fields) && 0 <= k < fields@.len() && (field_errors(fields@[k]).len() > 0
            || spec_read_struct_attrs(ast).4.len() > 0),
    ensures
        spec_input_errors(ast).len() > 0,
{
    law_input_errors(ast);
    if let Data::Struct(fields) = ast.data {
        lemma_all_errors_len(fields@, k);
    }
}

proof fn lemma_all_errors_len(fields: Seq<FieldInput>, k: int)
    requires
        0 <= k < fields.len(),
    ensures
        all_field_errors(fields).len() >= field_errors(fields[k]).len(),
    decreases fields.len(),
{
    if k < fields.len() - 1 {
        assert(fields.drop_last()[k] == fields[k]);
        lemma_all_errors_len(fields.drop_last(), k);
    }
}

} // verus!
