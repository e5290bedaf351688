//! The `setter(...)` options of the struct and of its fields.
use vstd::prelude::*;
use crate::meta::{
    args_is_list, expected_comma_msg, expected_parens_msg, has_list, ident_value, msg,
    optional_bool, set_once, spec_ident_value, spec_optional_bool, spec_set_once,
    unrecognized_msg, Diagnostic, MetaArgs, NestedMeta,
};
use crate::options::{spec_parse_each, Each};
use crate::text::str_eq;

verus! {

/// Setter options applied to all field setters in the struct.
#[derive(Debug, Clone)]
pub struct StructLevelSetter {
    /// Prefix of the setters' names, as written (see [`crate::meta::ident_text`]).
    pub prefix: Option<String>,
    /// Whether setters are generic over `Into`.
    pub into: Option<bool>,
    /// Whether setters of `Option` fields take the inner value.
    pub strip_option: Option<bool>,
    /// Whether setters are skipped.
    pub skip: Option<bool>,
}

/// No options given.
pub open spec fn empty_struct_setter() -> StructLevelSetter {
    StructLevelSetter {
        prefix: Option::None,
        into: Option::None,
        strip_option: Option::None,
        skip: Option::None,
    }
}

/// Reading a boolean option into `slot`: the new slot, errors, and the error
/// that stops the parse, if any.
pub open spec fn spec_bool_opt(args: MetaArgs, slot: Option<bool>, diag: Seq<Seq<char>>) -> (Result<Option<bool>, Seq<char>>, Seq<Seq<char>>) {
    match spec_optional_bool(args) {
        Ok(v) => {
            let (n, d) = spec_set_once(slot, v, diag);
            if has_list(args) {
                (Err(expected_comma_msg()), d)
            } else {
                (Ok(n), d)
            }
        },
        Err(e) => (Err(e), diag),
    }
}

/// Reading an identifier option into `slot`.
pub open spec fn spec_ident_opt(args: MetaArgs, slot: Option<String>, diag: Seq<Seq<char>>) -> (Result<Option<String>, Seq<char>>, Seq<Seq<char>>) {
    match spec_ident_value(args) {
        Ok(v) => {
            let (n, d) = spec_set_once(slot, v, diag);
            (Ok(n), d)
        },
        Err(e) => (Err(e), diag),
    }
}

/// Reads a boolean option (`k`, `k = true`, `k = "true"`) into `slot`.
pub fn bool_opt(args: &MetaArgs, slot: &mut Option<bool>, diag: &mut Diagnostic) -> (r: Result<(), String>)
    ensures
        ({
            let (s, d) = spec_bool_opt(*args, *old(slot), old(diag)@);
            &&& final(diag)@ == d
            &&& match (r, s) {
                (Ok(()), Ok(n)) => *final(slot) == n,
                (Err(a), Err(b)) => a@ == b,
                _ => false,
            }
        }),
{
    let v = optional_bool(args)?;
    set_once(slot, v, diag);
    if args_is_list(args) {
        return Err(msg("expected `,`"));
    }
    Ok(())
}

/// Reads an identifier option (`k = "ident"`) into `slot`.
pub fn ident_opt(args: &MetaArgs, slot: &mut Option<String>, diag: &mut Diagnostic) -> (r: Result<(), String>)
    ensures
        ({
            let (s, d) = spec_ident_opt(*args, *old(slot), old(diag)@);
            &&& final(diag)@ == d
            &&& match (r, s) {
                (Ok(()), Ok(n)) => *final(slot) == n,
                (Err(a), Err(b)) => a@ == b && *final(slot) == *old(slot),
                _ => false,
            }
        }),
{
    let v = ident_value(args)?;
    set_once(slot, v, diag);
    Ok(())
}

/// Reading one item inside a struct-level `setter(...)`.
pub open spec fn spec_struct_setter_item(item: NestedMeta, acc: StructLevelSetter, diag: Seq<Seq<char>>) -> (Result<StructLevelSetter, Seq<char>>, Seq<Seq<char>>) {
    if item.args is Malformed {
        (Err(item.args->Malformed_0@), diag)
    } else if item.path@ == "prefix"@ {
        let (r, d) = spec_ident_opt(item.args, acc.prefix, diag);
        match r {
            Ok(n) => (Ok(StructLevelSetter { prefix: n, ..acc }), d),
            Err(e) => (Err(e), d),
        }
    } else if item.path@ == "into"@ {
        let (r, d) = spec_bool_opt(item.args, acc.into, diag);
        match r {
            Ok(n) => (Ok(StructLevelSetter { into: n, ..acc }), d),
            Err(e) => (Err(e), d),
        }
    } else if item.path@ == "strip_option"@ {
        let (r, d) = spec_bool_opt(item.args, acc.strip_option, diag);
        match r {
            Ok(n) => (Ok(StructLevelSetter { strip_option: n, ..acc }), d),
            Err(e) => (Err(e), d),
        }
    } else if item.path@ == "skip"@ {
        let (r, d) = spec_bool_opt(item.args, acc.skip, diag);
        match r {
            Ok(n) => (Ok(StructLevelSetter { skip: n, ..acc }), d),
            Err(e) => (Err(e), d),
        }
    } else {
        (Err(unrecognized_msg()), diag)
    }
}

/// Reading the items inside a struct-level `setter(...)`, in order, up to the first error.
pub open spec fn spec_struct_setter_items(items: Seq<NestedMeta>, acc: StructLevelSetter, diag: Seq<Seq<char>>) -> (Result<StructLevelSetter, Seq<char>>, Seq<Seq<char>>)
    decreases items.len(),
{
    if items.len() == 0 {
        (Ok(acc), diag)
    } else {
        let (r, d) = spec_struct_setter_item(items[0], acc, diag);
        match r {
            Ok(a) => spec_struct_setter_items(items.drop_first(), a, d),
            Err(e) => (Err(e), d),
        }
    }
}

/// Reading a struct-level `setter(...)`.
pub open spec fn spec_parse_struct_setter(args: MetaArgs, diag: Seq<Seq<char>>) -> (Result<StructLevelSetter, Seq<char>>, Seq<Seq<char>>) {
    match args {
        MetaArgs::List(items) => spec_struct_setter_items(items@, empty_struct_setter(), diag),
        MetaArgs::Malformed(m) => (Err(m@), diag),
        _ => (Err(expected_parens_msg()), diag),
    }
}

fn parse_struct_setter_item(item: &NestedMeta, acc: &mut StructLevelSetter, diag: &mut Diagnostic) -> (r: Result<(), String>)
    ensures
        ({
            let (s, d) = spec_struct_setter_item(*item, *old(acc), old(diag)@);
            &&& final(diag)@ == d
            &&& match (r, s) {
                (Ok(()), Ok(a)) => *final(acc) == a,
                (Err(a), Err(b)) => a@ == b,
                _ => false,
            }
        }),
{
    if let MetaArgs::Malformed(m) = &item.args {
        return Err(m.clone());
    }
    if str_eq(item.path.as_str(), "prefix") {
        ident_opt(&item.args, &mut acc.prefix, diag)
    } else if str_eq(item.path.as_str(), "into") {
        bool_opt(&item.args, &mut acc.into, diag)
    } else if str_eq(item.path.as_str(), "strip_option") {
        bool_opt(&item.args, &mut acc.strip_option, diag)
    } else if str_eq(item.path.as_str(), "skip") {
        bool_opt(&item.args, &mut acc.skip, diag)
    } else {
        Err(msg("unrecognized derive_builder attribute"))
    }
}

fn parse_struct_setter_items(items: &Vec<NestedMeta>, acc: &mut StructLevelSetter, diag: &mut Diagnostic) -> (r: Result<(), String>)
    ensures
        ({
            let (s, d) = spec_struct_setter_items(items@, *old(acc), old(diag)@);
            &&& final(diag)@ == d
            &&& match (r, s) {
                (Ok(()), Ok(a)) => *final(acc) == a,
                (Err(a), Err(b)) => a@ == b,
                _ => false,
            }
        }),
{
    let ghost acc0 = *acc;
    let ghost d0 = diag@;
    let mut i: usize = 0;
    assert(items@.skip(0) =~= items@);
    while i < items.len()
        invariant
            i <= items@.len(),
            acc0 == *old(acc),
            d0 == old(diag)@,
            spec_struct_setter_items(items@, acc0, d0) == spec_struct_setter_items(items@.skip(i as int), *acc, diag@),
        decreases items@.len() - i,
    {
        proof {
            assert(items@.skip(i as int)[0] == items@[i as int]);
            assert(items@.skip(i as int).drop_first() =~= items@.skip(i + 1));
        }
        let r = parse_struct_setter_item(&items[i], acc, diag);
        if let Err(e) = r {
            return Err(e);
        }
        i = i + 1;
    }
    assert(items@.skip(i as int) =~= Seq::<NestedMeta>::empty());
    Ok(())
}

impl StructLevelSetter {
    /// Reads a struct-level `setter(prefix = "...", into, strip_option, skip)`.
    pub fn parse_nested_meta(meta: &NestedMeta, diag: &mut Diagnostic) -> (r: Result<Self, String>)
        ensures
            ({
                let (s, d) = spec_parse_struct_setter(meta.args, old(diag)@);
                &&& final(diag)@ == d
                &&& crate::options::same_result(r, s)
            }),
    {
        match &meta.args {
            MetaArgs::List(items) => {
                let mut acc = StructLevelSetter { prefix: None, into: None, strip_option: None, skip: None };
                parse_struct_setter_items(items, &mut acc, diag)?;
                Ok(acc)
            },
            MetaArgs::Malformed(m) => Err(m.clone()),
            _ => Err(msg("expected parentheses")),
        }
    }

    /// Whether setters are explicitly enabled or disabled at the struct level.
    pub open spec fn spec_enabled(&self) -> Option<bool> {
        match self.skip {
            Some(x) => Some(!x),
            Option::None => Option::None,
        }
    }

    /// Check if setters are explicitly enabled or disabled at the struct level.
    pub fn enabled(&self) -> (r: Option<bool>)
        ensures
            r == self.spec_enabled(),
    {
        match self.skip {
            Some(x) => Some(!x),
            None => None,
        }
    }
}

impl Default for StructLevelSetter {
    fn default() -> (r: Self)
        ensures
            r == empty_struct_setter(),
    {
        StructLevelSetter { prefix: None, into: None, strip_option: None, skip: None }
    }
}

/// The `setter` options of one field. Unlike the struct-level options, these
/// allow a specific name and an `each` setter.
#[derive(Debug, Clone)]
pub struct FieldLevelSetter {
    /// Prefix of the setter's name, as written (see [`crate::meta::ident_text`]).
    pub prefix: Option<String>,
    /// Name of the setter, as written (see [`crate::meta::ident_text`]).
    pub name: Option<String>,
    /// Whether the setter is generic over `Into`.
    pub into: Option<bool>,
    /// Whether the setter of an `Option` field takes the inner value.
    pub strip_option: Option<bool>,
    /// Whether the setter (and the builder field) is skipped.
    pub skip: Option<bool>,
    /// Whether the user writes the setter (the field is kept).
    pub custom: Option<bool>,
    /// Options of an additional setter that adds one item.
    pub each: Option<Each>,
}

/// No options given.
pub open spec fn empty_field_setter() -> FieldLevelSetter {
    FieldLevelSetter {
        prefix: Option::None,
        name: Option::None,
        into: Option::None,
        strip_option: Option::None,
        skip: Option::None,
        custom: Option::None,
        each: Option::None,
    }
}

/// Reading one item inside a field-level `setter(...)`.
pub open spec fn spec_field_setter_item(item: NestedMeta, acc: FieldLevelSetter, diag: Seq<Seq<char>>) -> (Result<FieldLevelSetter, Seq<char>>, Seq<Seq<char>>) {
    if item.args is Malformed {
        (Err(item.args->Malformed_0@), diag)
    } else if item.path@ == "prefix"@ {
        let (r, d) = spec_ident_opt(item.args, acc.prefix, diag);
        match r {
            Ok(n) => (Ok(FieldLevelSetter { prefix: n, ..acc }), d),
            Err(e) => (Err(e), d),
        }
    } else if item.path@ == "name"@ {
        let (r, d) = spec_ident_opt(item.args, acc.name, diag);
        match r {
            Ok(n) => (Ok(FieldLevelSetter { name: n, ..acc }), d),
            Err(e) => (Err(e), d),
        }
    } else if item.path@ == "into"@ {
        let (r, d) = spec_bool_opt(item.args, acc.into, diag);
        match r {
            Ok(n) => (Ok(FieldLevelSetter { into: n, ..acc }), d),
            Err(e) => (Err(e), d),
        }
    } else if item.path@ == "strip_option"@ {
        let (r, d) = spec_bool_opt(item.args, acc.strip_option, diag);
        match r {
            Ok(n) => (Ok(FieldLevelSetter { strip_option: n, ..acc }), d),
            Err(e) => (Err(e), d),
        }
    } else if item.path@ == "skip"@ {
        let (r, d) = spec_bool_opt(item.args, acc.skip, diag);
        match r {
            Ok(n) => (Ok(FieldLevelSetter { skip: n, ..acc }), d),
            Err(e) => (Err(e), d),
        }
    } else if item.path@ == "custom"@ {
        let (r, d) = spec_bool_opt(item.args, acc.custom, diag);
        match r {
            Ok(n) => (Ok(FieldLevelSetter { custom: n, ..acc }), d),
            Err(e) => (Err(e), d),
        }
    } else if item.path@ == "each"@ {
        let (r, d) = spec_parse_each(item.args, diag);
        match r {
            Ok(v) => {
                let (n, d2) = spec_set_once(acc.each, v, d);
                (Ok(FieldLevelSetter { each: n, ..acc }), d2)
            },
            Err(e) => (Err(e), d),
        }
    } else {
        (Err(unrecognized_msg()), diag)
    }
}

/// Reading the items inside a field-level `setter(...)`, in order, up to the first error.
pub open spec fn spec_field_setter_items(items: Seq<NestedMeta>, acc: FieldLevelSetter, diag: Seq<Seq<char>>) -> (Result<FieldLevelSetter, Seq<char>>, Seq<Seq<char>>)
    decreases items.len(),
{
    if items.len() == 0 {
        (Ok(acc), diag)
    } else {
        let (r, d) = spec_field_setter_item(items[0], acc, diag);
        match r {
            Ok(a) => spec_field_setter_items(items.drop_first(), a, d),
            Err(e) => (Err(e), d),
        }
    }
}

/// Reading a field-level `setter` or `setter(...)`: a bare `setter` (or
/// `setter = ...`, which is then refused) means `setter(skip = false)`.
pub open spec fn spec_parse_field_setter(args: MetaArgs, diag: Seq<Seq<char>>) -> (Result<FieldLevelSetter, Seq<char>>, Seq<Seq<char>>) {
    match args {
        MetaArgs::List(items) => spec_field_setter_items(items@, empty_field_setter(), diag),
        MetaArgs::Malformed(m) => (Err(m@), diag),
        _ => (Ok(FieldLevelSetter { skip: Some(false), ..empty_field_setter() }), diag),
    }
}

fn parse_field_setter_item(item: &NestedMeta, acc: &mut FieldLevelSetter, diag: &mut Diagnostic) -> (r: Result<(), String>)
    ensures
        ({
            let (s, d) = spec_field_setter_item(*item, *old(acc), old(diag)@);
            &&& final(diag)@ == d
            &&& match (r, s) {
                (Ok(()), Ok(a)) => *final(acc) == a,
                (Err(a), Err(b)) => a@ == b,
                _ => false,
            }
        }),
{
    if let MetaArgs::Malformed(m) = &item.args {
        return Err(m.clone());
    }
    if str_eq(item.path.as_str(), "prefix") {
        ident_opt(&item.args, &mut acc.prefix, diag)
    } else if str_eq(item.path.as_str(), "name") {
        ident_opt(&item.args, &mut acc.name, diag)
    } else if str_eq(item.path.as_str(), "into") {
        bool_opt(&item.args, &mut acc.into, diag)
    } else if str_eq(item.path.as_str(), "strip_option") {
        bool_opt(&item.args, &mut acc.strip_option, diag)
    } else if str_eq(item.path.as_str(), "skip") {
        bool_opt(&item.args, &mut acc.skip, diag)
    } else if str_eq(item.path.as_str(), "custom") {
        bool_opt(&item.args, &mut acc.custom, diag)
    } else if str_eq(item.path.as_str(), "each") {
        let v = Each::parse_nested_meta(item, diag)?;
        set_once(&mut acc.each, v, diag);
        Ok(())
    } else {
        Err(msg("unrecognized derive_builder attribute"))
    }
}

fn parse_field_setter_items(items: &Vec<NestedMeta>, acc: &mut FieldLevelSetter, diag: &mut Diagnostic) -> (r: Result<(), String>)
    ensures
        ({
            let (s, d) = spec_field_setter_items(items@, *old(acc), old(diag)@);
            &&& final(diag)@ == d
            &&& match (r, s) {
                (Ok(()), Ok(a)) => *final(acc) == a,
                (Err(a), Err(b)) => a@ == b,
                _ => false,
            }
        }),
{
    let ghost acc0 = *acc;
    let ghost d0 = diag@;
    let mut i: usize = 0;
    assert(items@.skip(0) =~= items@);
    while i < items.len()
        invariant
            i <= items@.len(),
            acc0 == *old(acc),
            d0 == old(diag)@,
            spec_field_setter_items(items@, acc0, d0) == spec_field_setter_items(items@.skip(i as int), *acc, diag@),
        decreases items@.len() - i,
    {
        proof {
            assert(items@.skip(i as int)[0] == items@[i as int]);
            assert(items@.skip(i as int).drop_first() =~= items@.skip(i + 1));
        }
        let r = parse_field_setter_item(&items[i], acc, diag);
        if let Err(e) = r {
            return Err(e);
        }
        i = i + 1;
    }
    assert(items@.skip(i as int) =~= Seq::<NestedMeta>::empty());
    Ok(())
}

impl FieldLevelSetter {
    /// Reads a field-level `setter` (which re-enables a setter disabled at the
    /// struct level) or `setter(prefix = "...", name = "...", into,
    /// strip_option, skip, custom, each = ...)`.
    pub fn parse_nested_meta(meta: &NestedMeta, diag: &mut Diagnostic) -> (r: Result<Self, String>)
        ensures
            ({
                let (s, d) = spec_parse_field_setter(meta.args, old(diag)@);
                &&& final(diag)@ == d
                &&& crate::options::same_result(r, s)
            }),
    {
        match &meta.args {
            MetaArgs::List(items) => {
                let mut acc = FieldLevelSetter {
                    prefix: None,
                    name: None,
                    into: None,
                    strip_option: None,
                    skip: None,
                    custom: None,
                    each: None,
                };
                parse_field_setter_items(items, &mut acc, diag)?;
                Ok(acc)
            },
            MetaArgs::Malformed(m) => Err(m.clone()),
            _ => Ok(FieldLevelSetter {
                prefix: None,
                name: None,
                into: None,
                strip_option: None,
                skip: Some(false),
                custom: None,
                each: None,
            }),
        }
    }

    /// Whether the options say that the setter and the field are emitted.
    pub open spec fn spec_field_enabled(&self) -> Option<bool> {
        match self.skip {
            Some(x) => Some(!x),
            Option::None => if self.prefix is Some || self.name is Some || self.into is Some
                || self.strip_option is Some || self.each is Some {
                Some(true)
            } else {
                Option::None
            },
        }
    }

    /// Whether the options say that the setter is emitted: as for the field,
    /// except that `setter(custom)` keeps the field and drops the setter.
    pub open spec fn spec_setter_enabled(&self) -> Option<bool> {
        match self.custom {
            Some(x) => Some(!x),
            Option::None => self.spec_field_enabled(),
        }
    }

    /// Get whether the setter should be emitted. The rules are the same as
    /// for `field_enabled`, except we only skip the setter if `setter(custom)` is present.
    pub fn setter_enabled(&self) -> (r: Option<bool>)
        ensures
            r == self.spec_setter_enabled(),
    {
        if self.custom.is_some() {
            return match self.custom {
                Some(x) => Some(!x),
                None => None,
            };
        }
        self.field_enabled()
    }

    /// Get whether or not this field-level setter indicates a setter and
    /// field should be emitted. The presence of a `setter` with _any_
    /// properties set forces the setter to be emitted.
    pub fn field_enabled(&self) -> (r: Option<bool>)
        ensures
            r == self.spec_field_enabled(),
    {
        if let Some(x) = self.skip {
            return Some(!x);
        }
        if self.prefix.is_some() || self.name.is_some() || self.into.is_some()
            || self.strip_option.is_some() || self.each.is_some() {
            return Some(true);
        }
        None
    }
}

impl Default for FieldLevelSetter {
    fn default() -> (r: Self)
        ensures
            r == empty_field_setter(),
    {
        FieldLevelSetter {
            prefix: None,
            name: None,
            into: None,
            strip_option: None,
            skip: None,
            custom: None,
            each: None,
        }
    }
}

} // verus!
