//! The `build_fn(...)` options of the struct.
use vstd::prelude::*;
use crate::macro_options::visibility_attr::{spec_vis_item, vis_item_leftover, VisibilityAttr};
use crate::meta::{
    args_is_list, args_present, expected_comma_msg, expected_eq_or_parens_msg,
    expected_parens_msg, has_list, ident_value, lit_bool_value, msg, optional_bool, path_value,
    set_once, spec_ident_value, spec_lit_bool_value, spec_optional_bool, spec_path_value,
    spec_set_once, unrecognized_msg, Diagnostic, MetaArgs, NestedMeta,
};
use crate::options::same_result;
use crate::text::str_eq;

verus! {

/// The error type of the build method.
#[derive(Debug, Clone)]
pub enum BuildFnError {
    /// `error = "path::to::Error"`: an existing type.
    Existing(String),
    /// `error(validation_error = ...)`: a generated type, with or without a
    /// validation variant that holds a `String`.
    Generated { validation_error: bool },
}

/// The error for `error(...)` without `validation_error`.
pub open spec fn missing_validation_error_msg() -> Seq<char> {
    "missing attribute `validation_error`"@
}

/// Reading one item inside `error(...)`.
pub open spec fn spec_error_item(item: NestedMeta, acc: Option<bool>, diag: Seq<Seq<char>>) -> (Result<Option<bool>, Seq<char>>, Seq<Seq<char>>) {
    if item.args is Malformed {
        (Err(item.args->Malformed_0@), diag)
    } else if item.path@ == "validation_error"@ {
        match spec_lit_bool_value(item.args) {
            Ok(v) => {
                let (n, d) = spec_set_once(acc, v, diag);
                (Ok(n), d)
            },
            Err(e) => (Err(e), diag),
        }
    } else {
        (Err(unrecognized_msg()), diag)
    }
}

/// Reading the items inside `error(...)`, in order, up to the first error.
pub open spec fn spec_error_items(items: Seq<NestedMeta>, acc: Option<bool>, diag: Seq<Seq<char>>) -> (Result<Option<bool>, Seq<char>>, Seq<Seq<char>>)
    decreases items.len(),
{
    if items.len() == 0 {
        (Ok(acc), diag)
    } else {
        let (r, d) = spec_error_item(items[0], acc, diag);
        match r {
            Ok(a) => spec_error_items(items.drop_first(), a, d),
            Err(e) => (Err(e), d),
        }
    }
}

/// Reading `error = "..."` or `error(validation_error = ...)`.
pub open spec fn spec_parse_build_fn_error(args: MetaArgs, diag: Seq<Seq<char>>) -> (Result<BuildFnError, Seq<char>>, Seq<Seq<char>>) {
    match args {
        MetaArgs::Value(_) => match spec_path_value(args) {
            Ok(p) => (Ok(BuildFnError::Existing(p)), diag),
            Err(e) => (Err(e), diag),
        },
        MetaArgs::List(items) => {
            let (r, d) = spec_error_items(items@, Option::None, diag);
            match r {
                Ok(Some(b)) => (Ok(BuildFnError::Generated { validation_error: b }), d),
                Ok(Option::None) => (Err(missing_validation_error_msg()), d),
                Err(e) => (Err(e), d),
            }
        },
        MetaArgs::Malformed(m) => (Err(m@), diag),
        MetaArgs::Word => (Err(expected_eq_or_parens_msg()), diag),
    }
}

fn parse_error_item(item: &NestedMeta, acc: &mut Option<bool>, diag: &mut Diagnostic) -> (r: Result<(), String>)
    ensures
        ({
            let (s, d) = spec_error_item(*item, *old(acc), old(diag)@);
            &&& final(diag)@ == d
            &&& match (r, s) {
                (Ok(()), Ok(a)) => *final(acc) == a,
                (Err(a), Err(b)) => a@ == b,
                _ => false,
            }
        }),
{
    if let MetaArgs::Malformed(m) = &item.args {
        return Err(m.clone());
    }
    if str_eq(item.path.as_str(), "validation_error") {
        let v = lit_bool_value(&item.args)?;
        set_once(acc, v, diag);
        Ok(())
    } else {
        Err(msg("unrecognized derive_builder attribute"))
    }
}

fn parse_error_items(items: &Vec<NestedMeta>, acc: &mut Option<bool>, diag: &mut Diagnostic) -> (r: Result<(), String>)
    ensures
        ({
            let (s, d) = spec_error_items(items@, *old(acc), old(diag)@);
            &&& final(diag)@ == d
            &&& match (r, s) {
                (Ok(()), Ok(a)) => *final(acc) == a,
                (Err(a), Err(b)) => a@ == b,
                _ => false,
            }
        }),
{
    let ghost acc0 = *acc;
    let ghost d0 = diag@;
    let mut i: usize = 0;
    assert(items@.skip(0) =~= items@);
    while i < items.len()
        invariant
            i <= items@.len(),
            acc0 == *old(acc),
            d0 == old(diag)@,
            spec_error_items(items@, acc0, d0) == spec_error_items(items@.skip(i as int), *acc, diag@),
        decreases items@.len() - i,
    {
        proof {
            assert(items@.skip(i as int)[0] == items@[i as int]);
            assert(items@.skip(i as int).drop_first() =~= items@.skip(i + 1));
        }
        let r = parse_error_item(&items[i], acc, diag);
        if let Err(e) = r {
            return Err(e);
        }
        i = i + 1;
    }
    assert(items@.skip(i as int) =~= Seq::<NestedMeta>::empty());
    Ok(())
}

impl BuildFnError {
    /// Reads `error = "path::to::Error"` or `error(validation_error = false)`.
    pub fn parse_nested_meta(meta: &NestedMeta, diag: &mut Diagnostic) -> (r: Result<Self, String>)
        ensures
            ({
                let (s, d) = spec_parse_build_fn_error(meta.args, old(diag)@);
                &&& final(diag)@ == d
                &&& same_result(r, s)
            }),
    {
        match &meta.args {
            MetaArgs::Value(_) => {
                let p = path_value(&meta.args)?;
                Ok(BuildFnError::Existing(p))
            },
            MetaArgs::List(items) => {
                let mut acc: Option<bool> = None;
                parse_error_items(items, &mut acc, diag)?;
                match acc {
                    Some(b) => Ok(BuildFnError::Generated { validation_error: b }),
                    None => Err(msg("missing attribute `validation_error`")),
                }
            },
            MetaArgs::Malformed(m) => Err(m.clone()),
            MetaArgs::Word => Err(msg("expected `=` or parentheses")),
        }
    }

    /// The path of the existing error type, if one was given.
    pub fn as_existing(&self) -> (r: Option<&String>)
        ensures
            match self {
                BuildFnError::Existing(p) => r == Some(p),
                _ => r is None,
            },
    {
        match self {
            BuildFnError::Existing(p) => Some(p),
            BuildFnError::Generated { .. } => None,
        }
    }

    /// Whether the generated error type has a validation variant, if the error
    /// type is generated.
    pub fn as_generated(&self) -> (r: Option<bool>)
        ensures
            match self {
                BuildFnError::Generated { validation_error } => r == Some(*validation_error),
                _ => r is None,
            },
    {
        match self {
            BuildFnError::Generated { validation_error } => Some(*validation_error),
            BuildFnError::Existing(_) => None,
        }
    }
}

/// Options for the `build_fn` property in struct-level builder options.
#[derive(Debug, Clone)]
pub struct BuildFn {
    /// Whether no build method is emitted.
    pub skip: bool,
    /// The method's name, if not `build`, as written (see [`crate::meta::ident_text`]).
    pub name: Option<String>,
    /// Path of a validation function called before the struct is built.
    pub validate: Option<String>,
    /// Visibility of the method.
    pub vis: VisibilityAttr,
    /// Either the path to an existing error type that the build method should
    /// return or options of the generated error type.
    pub error: Option<BuildFnError>,
}

/// The partial state of reading `build_fn(...)`.
#[derive(Debug, Clone)]
pub struct BuildFnAcc {
    /// `skip` read so far.
    pub skip: Option<bool>,
    /// `name` read so far.
    pub name: Option<String>,
    /// `validate` read so far.
    pub validate: Option<String>,
    /// Visibility read so far.
    pub vis: VisibilityAttr,
    /// `error` read so far.
    pub error: Option<BuildFnError>,
}

/// The error for a validation function beside a generated error without validation variant.
pub open spec fn validation_conflict_msg() -> Seq<char> {
    "`error(validation_error = false)` and `validate` cannot be used together"@
}

/// The errors after checking that `validate` is not given beside
/// `error(validation_error = false)`.
pub open spec fn spec_check_validation(validate: Option<String>, error: Option<BuildFnError>, diag: Seq<Seq<char>>) -> Seq<Seq<char>> {
    if validate is Some && (error matches Some(BuildFnError::Generated { validation_error }) && !validation_error) {
        diag.push(validation_conflict_msg())
    } else {
        diag
    }
}

/// Reading one item inside `build_fn(...)`.
pub open spec fn spec_build_fn_item(item: NestedMeta, acc: BuildFnAcc, diag: Seq<Seq<char>>) -> (Result<BuildFnAcc, Seq<char>>, Seq<Seq<char>>) {
    if item.args is Malformed {
        (Err(item.args->Malformed_0@), diag)
    } else if item.path@ == "skip"@ {
        match spec_optional_bool(item.args) {
            Ok(v) => {
                let (n, d) = spec_set_once(acc.skip, v, diag);
                if has_list(item.args) {
                    (Err(expected_comma_msg()), d)
                } else {
                    (Ok(BuildFnAcc { skip: n, ..acc }), d)
                }
            },
            Err(e) => (Err(e), diag),
        }
    } else if item.path@ == "name"@ {
        match spec_ident_value(item.args) {
            Ok(v) => {
                let (n, d) = spec_set_once(acc.name, v, diag);
                (Ok(BuildFnAcc { name: n, ..acc }), d)
            },
            Err(e) => (Err(e), diag),
        }
    } else if item.path@ == "validate"@ {
        match spec_path_value(item.args) {
            Ok(v) => {
                let (n, d) = spec_set_once(acc.validate, v, diag);
                (Ok(BuildFnAcc { validate: n, ..acc }), spec_check_validation(n, acc.error, d))
            },
            Err(e) => (Err(e), diag),
        }
    } else if item.path@ == "error"@ {
        let (r, d1) = spec_parse_build_fn_error(item.args, diag);
        match r {
            Ok(v) => {
                let (n, d2) = spec_set_once(acc.error, v, d1);
                (Ok(BuildFnAcc { error: n, ..acc }), spec_check_validation(acc.validate, n, d2))
            },
            Err(e) => (Err(e), d1),
        }
    } else {
        let (r, v, d) = spec_vis_item(item, acc.vis, diag);
        match r {
            Ok(true) => if vis_item_leftover(item) {
                (Err(expected_comma_msg()), d)
            } else {
                (Ok(BuildFnAcc { vis: v, ..acc }), d)
            },
            Ok(false) => (Err(unrecognized_msg()), d),
            Err(e) => (Err(e), d),
        }
    }
}

/// Reading the items inside `build_fn(...)`, in order, up to the first error.
pub open spec fn spec_build_fn_items(items: Seq<NestedMeta>, acc: BuildFnAcc, diag: Seq<Seq<char>>) -> (Result<BuildFnAcc, Seq<char>>, Seq<Seq<char>>)
    decreases items.len(),
{
    if items.len() == 0 {
        (Ok(acc), diag)
    } else {
        let (r, d) = spec_build_fn_item(items[0], acc, diag);
        match r {
            Ok(a) => spec_build_fn_items(items.drop_first(), a, d),
            Err(e) => (Err(e), d),
        }
    }
}

/// Nothing read yet.
pub open spec fn empty_build_fn_acc() -> BuildFnAcc {
    BuildFnAcc {
        skip: Option::None,
        name: Option::None,
        validate: Option::None,
        vis: VisibilityAttr::Unset,
        error: Option::None,
    }
}

/// Reading `build_fn(...)`.
pub open spec fn spec_parse_build_fn(args: MetaArgs, diag: Seq<Seq<char>>) -> (Result<BuildFn, Seq<char>>, Seq<Seq<char>>) {
    match args {
        MetaArgs::List(items) => {
            let (r, d) = spec_build_fn_items(items@, empty_build_fn_acc(), diag);
            match r {
                Ok(a) => (
                    Ok(
                        BuildFn {
                            skip: match a.skip {
                                Some(b) => b,
                                Option::None => false,
                            },
                            name: a.name,
                            validate: a.validate,
                            vis: a.vis,
                            error: a.error,
                        },
                    ),
                    d,
                ),
                Err(e) => (Err(e), d),
            }
        },
        MetaArgs::Malformed(m) => (Err(m@), diag),
        _ => (Err(expected_parens_msg()), diag),
    }
}

fn check_validation(validate: &Option<String>, error: &Option<BuildFnError>, diag: &mut Diagnostic)
    ensures
        final(diag)@ == spec_check_validation(*validate, *error, old(diag)@),
{
    if validate.is_some() {
        if let Some(BuildFnError::Generated { validation_error }) = error {
            if !*validation_error {
                diag.push(
                    msg("`error(validation_error = false)` and `validate` cannot be used together"),
                );
            }
        }
    }
}

fn parse_build_fn_item(item: &NestedMeta, acc: &mut BuildFnAcc, diag: &mut Diagnostic) -> (r: Result<(), String>)
    ensures
        ({
            let (s, d) = spec_build_fn_item(*item, *old(acc), old(diag)@);
            &&& final(diag)@ == d
            &&& match (r, s) {
                (Ok(()), Ok(a)) => *final(acc) == a,
                (Err(a), Err(b)) => a@ == b,
                _ => false,
            }
        }),
{
    if let MetaArgs::Malformed(m) = &item.args {
        return Err(m.clone());
    }
    if str_eq(item.path.as_str(), "skip") {
        let v = optional_bool(&item.args)?;
        set_once(&mut acc.skip, v, diag);
        if args_is_list(&item.args) {
            return Err(msg("expected `,`"));
        }
        Ok(())
    } else if str_eq(item.path.as_str(), "name") {
        let v = ident_value(&item.args)?;
        set_once(&mut acc.name, v, diag);
        Ok(())
    } else if str_eq(item.path.as_str(), "validate") {
        let v = path_value(&item.args)?;
        set_once(&mut acc.validate, v, diag);
        check_validation(&acc.validate, &acc.error, diag);
        Ok(())
    } else if str_eq(item.path.as_str(), "error") {
        let v = BuildFnError::parse_nested_meta(item, diag)?;
        set_once(&mut acc.error, v, diag);
        check_validation(&acc.validate, &acc.error, diag);
        Ok(())
    } else {
        let recognized = acc.vis.parse_nested_meta(item, diag)?;
        if !recognized {
            return Err(msg("unrecognized derive_builder attribute"));
        }
        if !str_eq(item.path.as_str(), "vis") && args_present(&item.args) {
            return Err(msg("expected `,`"));
        }
        Ok(())
    }
}

fn parse_build_fn_items(items: &Vec<NestedMeta>, acc: &mut BuildFnAcc, diag: &mut Diagnostic) -> (r: Result<(), String>)
    ensures
        ({
            let (s, d) = spec_build_fn_items(items@, *old(acc), old(diag)@);
            &&& final(diag)@ == d
            &&& match (r, s) {
                (Ok(()), Ok(a)) => *final(acc) == a,
                (Err(a), Err(b)) => a@ == b,
                _ => false,
            }
        }),
{
    let ghost acc0 = *acc;
    let ghost d0 = diag@;
    let mut i: usize = 0;
    assert(items@.skip(0) =~= items@);
    while i < items.len()
        invariant
            i <= items@.len(),
            acc0 == *old(acc),
            d0 == old(diag)@,
            spec_build_fn_items(items@, acc0, d0) == spec_build_fn_items(items@.skip(i as int), *acc, diag@),
        decreases items@.len() - i,
    {
        proof {
            assert(items@.skip(i as int)[0] == items@[i as int]);
            assert(items@.skip(i as int).drop_first() =~= items@.skip(i + 1));
        }
        let r = parse_build_fn_item(&items[i], acc, diag);
        if let Err(e) = r {
            return Err(e);
        }
        i = i + 1;
    }
    assert(items@.skip(i as int) =~= Seq::<NestedMeta>::empty());
    Ok(())
}

impl BuildFn {
    /// Reads `build_fn(skip, name = "...", validate = "...", error = ..., public | private | vis = "...")`.
    pub fn parse_nested_meta(meta: &NestedMeta, diag: &mut Diagnostic) -> (r: Result<Self, String>)
        ensures
            ({
                let (s, d) = spec_parse_build_fn(meta.args, old(diag)@);
                &&& final(diag)@ == d
                &&& same_result(r, s)
            }),
    {
        match &meta.args {
            MetaArgs::List(items) => {
                let mut acc = BuildFnAcc {
                    skip: None,
                    name: None,
                    validate: None,
                    vis: VisibilityAttr::Unset,
                    error: None,
                };
                parse_build_fn_items(items, &mut acc, diag)?;
                Ok(BuildFn {
                    skip: match acc.skip {
                        Some(b) => b,
                        None => false,
                    },
                    name: acc.name,
                    validate: acc.validate,
                    vis: acc.vis,
                    error: acc.error,
                })
            },
            MetaArgs::Malformed(m) => Err(m.clone()),
            _ => Err(msg("expected parentheses")),
        }
    }
}

/// No options: a `build` method that is not skipped.
pub open spec fn spec_default_build_fn() -> BuildFn {
    BuildFn {
        skip: false,
        name: Option::None,
        validate: Option::None,
        vis: VisibilityAttr::Unset,
        error: Option::None,
    }
}

impl Default for BuildFn {
    fn default() -> (r: Self)
        ensures
            r == spec_default_build_fn(),
    {
        BuildFn { skip: false, name: None, validate: None, vis: VisibilityAttr::Unset, error: None }
    }
}

} // verus!
