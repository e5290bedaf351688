//! The `field(...)` options of the struct and of its fields.
use vstd::prelude::*;
use crate::block::{spec_parse_block, BlockContents};
use crate::macro_options::visibility_attr::{spec_vis_item, vis_item_leftover, VisibilityAttr};
use crate::meta::{
    args_present, expected_comma_msg, expected_parens_msg, msg, set_once, spec_set_once,
    spec_type_value, type_value, unrecognized_msg, Diagnostic, MetaArgs, NestedMeta,
};
use crate::options::same_result;
use crate::text::str_eq;

verus! {

/// Contents of the `field` meta in `builder` attributes at the struct level.
#[derive(Debug, Clone)]
pub struct StructLevelFieldMeta {
    /// Visibility of the builder's fields.
    pub vis: VisibilityAttr,
}

/// Reading one item inside a struct-level `field(...)`: only visibilities.
pub open spec fn spec_struct_field_meta_item(item: NestedMeta, acc: StructLevelFieldMeta, diag: Seq<Seq<char>>) -> (Result<StructLevelFieldMeta, Seq<char>>, Seq<Seq<char>>) {
    if item.args is Malformed {
        (Err(item.args->Malformed_0@), diag)
    } else {
        let (r, v, d) = spec_vis_item(item, acc.vis, diag);
        match r {
            Ok(true) => if vis_item_leftover(item) {
                (Err(expected_comma_msg()), d)
            } else {
                (Ok(StructLevelFieldMeta { vis: v }), d)
            },
            Ok(false) => (Err(unrecognized_msg()), d),
            Err(e) => (Err(e), d),
        }
    }
}

/// Reading the items inside a struct-level `field(...)`, in order, up to the first error.
pub open spec fn spec_struct_field_meta_items(items: Seq<NestedMeta>, acc: StructLevelFieldMeta, diag: Seq<Seq<char>>) -> (Result<StructLevelFieldMeta, Seq<char>>, Seq<Seq<char>>)
    decreases items.len(),
{
    if items.len() == 0 {
        (Ok(acc), diag)
    } else {
        let (r, d) = spec_struct_field_meta_item(items[0], acc, diag);
        match r {
            Ok(a) => spec_struct_field_meta_items(items.drop_first(), a, d),
            Err(e) => (Err(e), d),
        }
    }
}

/// Reading a struct-level `field(...)`.
pub open spec fn spec_parse_struct_field_meta(args: MetaArgs, diag: Seq<Seq<char>>) -> (Result<StructLevelFieldMeta, Seq<char>>, Seq<Seq<char>>) {
    match args {
        MetaArgs::List(items) => spec_struct_field_meta_items(
            items@,
            StructLevelFieldMeta { vis: VisibilityAttr::Unset },
            diag,
        ),
        MetaArgs::Malformed(m) => (Err(m@), diag),
        _ => (Err(expected_parens_msg()), diag),
    }
}

/// Reads one visibility option into `vis`; an error if it is another option.
fn vis_only_item(item: &NestedMeta, vis: &mut VisibilityAttr, diag: &mut Diagnostic) -> (r: Result<(), String>)
    ensures
        ({
            let (s, v, d) = spec_vis_item(*item, *old(vis), old(diag)@);
            &&& final(diag)@ == d
            &&& *final(vis) == v
            &&& match (r, s) {
                (Ok(()), Ok(true)) => !vis_item_leftover(*item),
                (Err(a), Ok(true)) => vis_item_leftover(*item) && a@ == expected_comma_msg(),
                (Err(a), Ok(false)) => a@ == unrecognized_msg(),
                (Err(a), Err(b)) => a@ == b,
                _ => false,
            }
        }),
{
    let recognized = vis.parse_nested_meta(item, diag)?;
    if !recognized {
        return Err(msg("unrecognized derive_builder attribute"));
    }
    if !str_eq(item.path.as_str(), "vis") && args_present(&item.args) {
        return Err(msg("expected `,`"));
    }
    Ok(())
}

fn parse_struct_field_meta_items(items: &Vec<NestedMeta>, acc: &mut StructLevelFieldMeta, diag: &mut Diagnostic) -> (r: Result<(), String>)
    ensures
        ({
            let (s, d) = spec_struct_field_meta_items(items@, *old(acc), old(diag)@);
            &&& final(diag)@ == d
            &&& match (r, s) {
                (Ok(()), Ok(a)) => *final(acc) == a,
                (Err(a), Err(b)) => a@ == b,
                _ => false,
            }
        }),
{
    let ghost acc0 = *acc;
    let ghost d0 = diag@;
    let mut i: usize = 0;
    assert(items@.skip(0) =~= items@);
    while i < items.len()
        invariant
            i <= items@.len(),
            acc0 == *old(acc),
            d0 == old(diag)@,
            spec_struct_field_meta_items(items@, acc0, d0) == spec_struct_field_meta_items(items@.skip(i as int), *acc, diag@),
        decreases items@.len() - i,
    {
        proof {
            assert(items@.skip(i as int)[0] == items@[i as int]);
            assert(items@.skip(i as int).drop_first() =~= items@.skip(i + 1));
        }
        if let MetaArgs::Malformed(m) = &items[i].args {
            return Err(m.clone());
        }
        let r = vis_only_item(&items[i], &mut acc.vis, diag);
        if let Err(e) = r {
            return Err(e);
        }
        i = i + 1;
    }
    assert(items@.skip(i as int) =~= Seq::<NestedMeta>::empty());
    Ok(())
}

impl StructLevelFieldMeta {
    /// Reads a struct-level `field(public | private | vis = "...")`.
    pub fn parse_nested_meta(meta: &NestedMeta, diag: &mut Diagnostic) -> (r: Result<Self, String>)
        ensures
            ({
                let (s, d) = spec_parse_struct_field_meta(meta.args, old(diag)@);
                &&& final(diag)@ == d
                &&& same_result(r, s)
            }),
    {
        match &meta.args {
            MetaArgs::List(items) => {
                let mut acc = StructLevelFieldMeta { vis: VisibilityAttr::Unset };
                parse_struct_field_meta_items(items, &mut acc, diag)?;
                Ok(acc)
            },
            MetaArgs::Malformed(m) => Err(m.clone()),
            _ => Err(msg("expected parentheses")),
        }
    }
}

impl Default for StructLevelFieldMeta {
    fn default() -> (r: Self)
        ensures
            r == (StructLevelFieldMeta { vis: VisibilityAttr::Unset }),
    {
        StructLevelFieldMeta { vis: VisibilityAttr::Unset }
    }
}

/// Contents of the `field` meta in `builder` attributes at the field level.
#[derive(Debug, Clone)]
pub struct FieldLevelFieldMeta {
    /// Visibility of the builder's field.
    pub vis: VisibilityAttr,
    /// Custom builder field type.
    pub builder_type: Option<String>,
    /// Custom builder field method, for making target struct field value.
    pub build: Option<BlockContents>,
}

/// No options given.
pub open spec fn empty_field_field_meta() -> FieldLevelFieldMeta {
    FieldLevelFieldMeta { vis: VisibilityAttr::Unset, builder_type: Option::None, build: Option::None }
}

/// Reading one item inside a field-level `field(...)`.
pub open spec fn spec_field_field_meta_item(item: NestedMeta, acc: FieldLevelFieldMeta, diag: Seq<Seq<char>>) -> (Result<FieldLevelFieldMeta, Seq<char>>, Seq<Seq<char>>) {
    if item.args is Malformed {
        (Err(item.args->Malformed_0@), diag)
    } else if item.path@ == "ty"@ || item.path@ == "type"@ {
        match spec_type_value(item.args) {
            Ok(v) => {
                let (n, d) = spec_set_once(acc.builder_type, v, diag);
                (Ok(FieldLevelFieldMeta { builder_type: n, ..acc }), d)
            },
            Err(e) => (Err(e), diag),
        }
    } else if item.path@ == "build"@ {
        match spec_parse_block(item.args) {
            Ok(v) => {
                let (n, d) = spec_set_once(acc.build, v, diag);
                (Ok(FieldLevelFieldMeta { build: n, ..acc }), d)
            },
            Err(e) => (Err(e), diag),
        }
    } else {
        let (r, v, d) = spec_vis_item(item, acc.vis, diag);
        match r {
            Ok(true) => if vis_item_leftover(item) {
                (Err(expected_comma_msg()), d)
            } else {
                (Ok(FieldLevelFieldMeta { vis: v, ..acc }), d)
            },
            Ok(false) => (Err(unrecognized_msg()), d),
            Err(e) => (Err(e), d),
        }
    }
}

/// Reading the items inside a field-level `field(...)`, in order, up to the first error.
pub open spec fn spec_field_field_meta_items(items: Seq<NestedMeta>, acc: FieldLevelFieldMeta, diag: Seq<Seq<char>>) -> (Result<FieldLevelFieldMeta, Seq<char>>, Seq<Seq<char>>)
    decreases items.len(),
{
    if items.len() == 0 {
        (Ok(acc), diag)
    } else {
        let (r, d) = spec_field_field_meta_item(items[0], acc, diag);
        match r {
            Ok(a) => spec_field_field_meta_items(items.drop_first(), a, d),
            Err(e) => (Err(e), d),
        }
    }
}

/// Reading a field-level `field(...)`.
pub open spec fn spec_parse_field_field_meta(args: MetaArgs, diag: Seq<Seq<char>>) -> (Result<FieldLevelFieldMeta, Seq<char>>, Seq<Seq<char>>) {
    match args {
        MetaArgs::List(items) => spec_field_field_meta_items(items@, empty_field_field_meta(), diag),
        MetaArgs::Malformed(m) => (Err(m@), diag),
        _ => (Err(expected_parens_msg()), diag),
    }
}

fn parse_field_field_meta_item(item: &NestedMeta, acc: &mut FieldLevelFieldMeta, diag: &mut Diagnostic) -> (r: Result<(), String>)
    ensures
        ({
            let (s, d) = spec_field_field_meta_item(*item, *old(acc), old(diag)@);
            &&& final(diag)@ == d
            &&& match (r, s) {
                (Ok(()), Ok(a)) => *final(acc) == a,
                (Err(a), Err(b)) => a@ == b,
                _ => false,
            }
        }),
{
    if let MetaArgs::Malformed(m) = &item.args {
        return Err(m.clone());
    }
    if str_eq(item.path.as_str(), "ty") || str_eq(item.path.as_str(), "type") {
        let v = type_value(&item.args)?;
        set_once(&mut acc.builder_type, v, diag);
        Ok(())
    } else if str_eq(item.path.as_str(), "build") {
        let v = BlockContents::parse_nested_meta(item)?;
        set_once(&mut acc.build, v, diag);
        Ok(())
    } else {
        vis_only_item(item, &mut acc.vis, diag)
    }
}

fn parse_field_field_meta_items(items: &Vec<NestedMeta>, acc: &mut FieldLevelFieldMeta, diag: &mut Diagnostic) -> (r: Result<(), String>)
    ensures
        ({
            let (s, d) = spec_field_field_meta_items(items@, *old(acc), old(diag)@);
            &&& final(diag)@ == d
            &&& match (r, s) {
                (Ok(()), Ok(a)) => *final(acc) == a,
                (Err(a), Err(b)) => a@ == b,
                _ => false,
            }
        }),
{
    let ghost acc0 = *acc;
    let ghost d0 = diag@;
    let mut i: usize = 0;
    assert(items@.skip(0) =~= items@);
    while i < items.len()
        invariant
            i <= items@.len(),
            acc0 == *old(acc),
            d0 == old(diag)@,
            spec_field_field_meta_items(items@, acc0, d0) == spec_field_field_meta_items(items@.skip(i as int), *acc, diag@),
        decreases items@.len() - i,
    {
        proof {
            assert(items@.skip(i as int)[0] == items@[i as int]);
            assert(items@.skip(i as int).drop_first() =~= items@.skip(i + 1));
        }
        let r = parse_field_field_meta_item(&items[i], acc, diag);
        if let Err(e) = r {
            return Err(e);
        }
        i = i + 1;
    }
    assert(items@.skip(i as int) =~= Seq::<NestedMeta>::empty());
    Ok(())
}

impl FieldLevelFieldMeta {
    /// Reads a field-level `field(ty = "...", build = "...", public | private | vis = "...")`.
    pub fn parse_nested_meta(meta: &NestedMeta, diag: &mut Diagnostic) -> (r: Result<Self, String>)
        ensures
            ({
                let (s, d) = spec_parse_field_field_meta(meta.args, old(diag)@);
                &&& final(diag)@ == d
                &&& same_result(r, s)
            }),
    {
        match &meta.args {
            MetaArgs::List(items) => {
                let mut acc = FieldLevelFieldMeta {
                    vis: VisibilityAttr::Unset,
                    builder_type: None,
                    build: None,
                };
                parse_field_field_meta_items(items, &mut acc, diag)?;
                Ok(acc)
            },
            MetaArgs::Malformed(m) => Err(m.clone()),
            _ => Err(msg("expected parentheses")),
        }
    }
}

impl Default for FieldLevelFieldMeta {
    fn default() -> (r: Self)
        ensures
            r == empty_field_field_meta(),
    {
        FieldLevelFieldMeta { vis: VisibilityAttr::Unset, builder_type: None, build: None }
    }
}

} // verus!
