//! The options of one field of the input struct.
use vstd::prelude::*;
use crate::default_expression::{spec_parse_default, DefaultExpression};
use crate::macro_options::field_meta::{spec_parse_field_field_meta, FieldLevelFieldMeta};
use crate::macro_options::setter_opts::{spec_parse_field_setter, FieldLevelSetter};
use crate::macro_options::visibility_attr::{spec_vis_item, vis_item_leftover, VisibilityAttr};
use crate::meta::{
    args_present, attr_args_error, attr_args_error_msg, expected_comma_msg, has_args, msg,
    set_once, spec_set_once, unrecognized_msg, Attribute, Diagnostic, MetaArgs, NestedMeta,
};
use crate::options::{spec_parse_pattern, BuilderPattern};
use crate::syntax::{check_meta, parses_as_meta};
use crate::text::str_eq;

verus! {

/// A field of the input struct.
#[derive(Debug)]
pub struct FieldInput {
    /// The field's name; `None` in a tuple struct.
    pub ident: Option<String>,
    /// The field's type, as written.
    pub ty: String,
    /// The field's outer attributes.
    pub attrs: Vec<Attribute>,
}

/// The `builder` options of a field read so far.
#[derive(Debug, Clone)]
pub struct FieldOpts {
    /// `pattern = "..."`.
    pub pattern: Option<BuilderPattern>,
    /// `public`, `private` or `vis = "..."`.
    pub vis: VisibilityAttr,
    /// `setter` or `setter(...)`.
    pub setter: Option<FieldLevelSetter>,
    /// `default` or `default = "..."`.
    pub default: Option<DefaultExpression>,
    /// `try_setter`.
    pub try_setter: Option<bool>,
    /// `field(...)`.
    pub field: Option<FieldLevelFieldMeta>,
}

/// No option read yet.
pub open spec fn empty_field_opts() -> FieldOpts {
    FieldOpts {
        pattern: Option::None,
        vis: VisibilityAttr::Unset,
        setter: Option::None,
        default: Option::None,
        try_setter: Option::None,
        field: Option::None,
    }
}

/// The error for `default` beside `field(build = ...)`.
pub open spec fn default_vs_build_msg() -> Seq<char> {
    "#[builder(default)] and #[builder(field(build=\"...\"))] cannot be used together"@
}

/// The error for `default` beside `field(ty = ...)`.
pub open spec fn default_vs_ty_msg() -> Seq<char> {
    "#[builder(default)] and #[builder(field(ty=\"...\"))] cannot be used together"@
}

/// The errors after checking that a default is not given beside a custom
/// build block or a custom field type, which would leave it unused.
pub open spec fn spec_check_field_vs_default(field: Option<FieldLevelFieldMeta>, default: Option<DefaultExpression>, diag: Seq<Seq<char>>) -> Seq<Seq<char>> {
    match (field, default) {
        (Some(f), Some(_)) => {
            let d1 = if f.build is Some {
                diag.push(default_vs_build_msg())
            } else {
                diag
            };
            if f.builder_type is Some {
                d1.push(default_vs_ty_msg())
            } else {
                d1
            }
        },
        _ => diag,
    }
}

/// Reading one option inside a field's `#[builder(...)]`: the options read so
/// far, the error that stops this attribute (if any), and the errors recorded.
pub open spec fn spec_field_item(item: NestedMeta, acc: FieldOpts, diag: Seq<Seq<char>>) -> (FieldOpts, Option<Seq<char>>, Seq<Seq<char>>) {
    if item.args is Malformed {
        (acc, Some(item.args->Malformed_0@), diag)
    } else if item.path@ == "pattern"@ {
        let (r, d) = spec_parse_pattern(item.args, diag);
        match r {
            Ok(v) => {
                let (n, d2) = spec_set_once(acc.pattern, v, d);
                (FieldOpts { pattern: n, ..acc }, Option::None, d2)
            },
            Err(e) => (acc, Some(e), d),
        }
    } else if item.path@ == "setter"@ {
        let (r, d) = spec_parse_field_setter(item.args, diag);
        match r {
            Ok(v) => {
                let (n, d2) = spec_set_once(acc.setter, v, d);
                (FieldOpts { setter: n, ..acc }, if item.args is Value {
                    Some(expected_comma_msg())
                } else {
                    Option::None
                }, d2)
            },
            Err(e) => (acc, Some(e), d),
        }
    } else if item.path@ == "default"@ {
        match spec_parse_default(item.args) {
            Ok(v) => {
                let (n, d) = spec_set_once(acc.default, v, diag);
                let d2 = spec_check_field_vs_default(acc.field, n, d);
                (FieldOpts { default: n, ..acc }, if item.args is List {
                    Some(expected_comma_msg())
                } else {
                    Option::None
                }, d2)
            },
            Err(e) => (acc, Some(e), diag),
        }
    } else if item.path@ == "try_setter"@ {
        let (n, d) = spec_set_once(acc.try_setter, true, diag);
        (FieldOpts { try_setter: n, ..acc }, if has_args(item.args) {
            Some(expected_comma_msg())
        } else {
            Option::None
        }, d)
    } else if item.path@ == "field"@ {
        let (r, d) = spec_parse_field_field_meta(item.args, diag);
        match r {
            Ok(v) => {
                let (n, d2) = spec_set_once(acc.field, v, d);
                (FieldOpts { field: n, ..acc }, Option::None, spec_check_field_vs_default(
                    n,
                    acc.default,
                    d2,
                ))
            },
            Err(e) => (acc, Some(e), d),
        }
    } else {
        let (r, v, d) = spec_vis_item(item, acc.vis, diag);
        match r {
            Ok(true) => (FieldOpts { vis: v, ..acc }, if vis_item_leftover(item) {
                Some(expected_comma_msg())
            } else {
                Option::None
            }, d),
            Ok(false) => (acc, Some(unrecognized_msg()), d),
            Err(e) => (acc, Some(e), d),
        }
    }
}

/// Reading the options inside a field's `#[builder(...)]`, in order, up to the
/// first error.
pub open spec fn spec_field_items(items: Seq<NestedMeta>, acc: FieldOpts, diag: Seq<Seq<char>>) -> (FieldOpts, Option<Seq<char>>, Seq<Seq<char>>)
    decreases items.len(),
{
    if items.len() == 0 {
        (acc, Option::None, diag)
    } else {
        let (a, e, d) = spec_field_item(items[0], acc, diag);
        if e is Some {
            (a, e, d)
        } else {
            spec_field_items(items.drop_first(), a, d)
        }
    }
}

/// The state of reading a field's attributes: the `builder` options, the
/// attributes of the builder field and of the setter (by meta text), and the errors.
pub type FieldState = (FieldOpts, Seq<String>, Seq<String>, Seq<Seq<char>>);

/// The error for arguments of `builder_field_attr(...)` or
/// `builder_setter_attr(...)` that do not form an attribute.
pub open spec fn expected_meta_msg() -> Seq<char> {
    "expected meta item"@
}

/// Moving an attribute like `#[builder_field_attr(doc(hidden))]` to `#[doc(hidden)]`.
pub open spec fn spec_unnest_attr(attr: Attribute, out: Seq<String>, diag: Seq<Seq<char>>) -> (Seq<String>, Seq<Seq<char>>) {
    if attr.args is List {
        if parses_as_meta(attr.args_text@) {
            (out.push(attr.args_text), diag)
        } else {
            (out, diag.push(expected_meta_msg()))
        }
    } else {
        (out, diag.push(attr_args_error(attr.path@, attr.args)))
    }
}

/// Reading one attribute of a field.
pub open spec fn spec_field_attr(attr: Attribute, st: FieldState) -> FieldState {
    let (acc, fa, sa, diag) = st;
    if attr.path@ == "builder"@ {
        match attr.args {
            MetaArgs::List(items) => {
                let (a, e, d) = spec_field_items(items@, acc, diag);
                match e {
                    Some(m) => (a, fa, sa, d.push(m)),
                    Option::None => (a, fa, sa, d),
                }
            },
            _ => (acc, fa, sa, diag.push(attr_args_error(attr.path@, attr.args))),
        }
    } else if attr.path@ == "doc"@ || attr.path@ == "cfg"@ || attr.path@ == "allow"@ {
        (acc, fa.push(attr.meta_text), sa.push(attr.meta_text), diag)
    } else if attr.path@ == "builder_field_attr"@ {
        let (fa2, d) = spec_unnest_attr(attr, fa, diag);
        (acc, fa2, sa, d)
    } else if attr.path@ == "builder_setter_attr"@ {
        let (sa2, d) = spec_unnest_attr(attr, sa, diag);
        (acc, fa, sa2, d)
    } else {
        st
    }
}

/// Reading the attributes of a field, in order.
pub open spec fn spec_field_attrs(attrs: Seq<Attribute>, st: FieldState) -> FieldState
    decreases attrs.len(),
{
    if attrs.len() == 0 {
        st
    } else {
        spec_field_attrs(attrs.drop_first(), spec_field_attr(attrs[0], st))
    }
}

/// Data extracted from the fields of the input struct.
#[derive(Debug)]
pub struct Field {
    /// The field's name; `None` in a tuple struct.
    pub ident: Option<String>,
    /// The field's type, as written.
    pub ty: String,
    /// Field-level override for builder pattern.
    pub pattern: Option<BuilderPattern>,
    /// Declared visibility for the setter, e.g. `#[builder(vis = "...")]`.
    pub vis: VisibilityAttr,
    /// The field's setter options.
    pub setter: FieldLevelSetter,
    /// The value for this field if the setter is never invoked: an explicit
    /// expression or `Default::default()`; the struct-level default is not here.
    pub default: Option<DefaultExpression>,
    /// Whether a fallible `try_` setter is emitted.
    pub try_setter: bool,
    /// The field's `field(...)` options.
    pub field: FieldLevelFieldMeta,
    /// Attributes of the builder field, by meta text.
    pub field_attrs: Vec<String>,
    /// Attributes of the setter, by meta text.
    pub setter_attrs: Vec<String>,
}

/// Whether `f` is what reading `ast` gives, with `st` the final reading state.
pub open spec fn field_from_state(f: Field, ast: FieldInput, st: FieldState) -> bool {
    let (acc, fa, sa, _) = st;
    &&& f.ident == ast.ident
    &&& f.ty == ast.ty
    &&& f.pattern == acc.pattern
    &&& f.vis == acc.vis
    &&& f.setter == match acc.setter {
        Some(s) => s,
        Option::None => crate::macro_options::setter_opts::empty_field_setter(),
    }
    &&& f.default == acc.default
    &&& f.try_setter == match acc.try_setter {
        Some(b) => b,
        Option::None => false,
    }
    &&& f.field == match acc.field {
        Some(m) => m,
        Option::None => crate::macro_options::field_meta::empty_field_field_meta(),
    }
    &&& f.field_attrs@ == fa
    &&& f.setter_attrs@ == sa
}

/// The final state of reading the attributes of `ast`, starting from the errors `diag`.
pub open spec fn spec_from_field(ast: FieldInput, diag: Seq<Seq<char>>) -> FieldState {
    spec_field_attrs(ast.attrs@, (empty_field_opts(), Seq::empty(), Seq::empty(), diag))
}

fn check_field_vs_default(field: &Option<FieldLevelFieldMeta>, default: &Option<DefaultExpression>, diag: &mut Diagnostic)
    ensures
        final(diag)@ == spec_check_field_vs_default(*field, *default, old(diag)@),
{
    if let (Some(field), Some(_default)) = (field, default) {
        if field.build.is_some() {
            diag.push(
                msg("#[builder(default)] and #[builder(field(build=\"...\"))] cannot be used together"),
            );
        }
        if field.builder_type.is_some() {
            diag.push(
                msg("#[builder(default)] and #[builder(field(ty=\"...\"))] cannot be used together"),
            );
        }
    }
}

fn field_item(item: &NestedMeta, acc: &mut FieldOpts, diag: &mut Diagnostic) -> (r: Result<(), String>)
    ensures
        ({
            let (a, e, d) = spec_field_item(*item, *old(acc), old(diag)@);
            &&& *final(acc) == a
            &&& final(diag)@ == d
            &&& match (r, e) {
                (Ok(()), Option::None) => true,
                (Err(x), Some(y)) => x@ == y,
                _ => false,
            }
        }),
{
    if let MetaArgs::Malformed(m) = &item.args {
        return Err(m.clone());
    }
    if str_eq(item.path.as_str(), "pattern") {
        let v = BuilderPattern::parse_nested_meta(item, diag)?;
        set_once(&mut acc.pattern, v, diag);
        Ok(())
    } else if str_eq(item.path.as_str(), "setter") {
        let v = FieldLevelSetter::parse_nested_meta(item, diag)?;
        set_once(&mut acc.setter, v, diag);
        if let MetaArgs::Value(_) = &item.args {
            return Err(msg("expected `,`"));
        }
        Ok(())
    } else if str_eq(item.path.as_str(), "default") {
        let v = DefaultExpression::parse_nested_meta(item)?;
        set_once(&mut acc.default, v, diag);
        check_field_vs_default(&acc.field, &acc.default, diag);
        if let MetaArgs::List(_) = &item.args {
            return Err(msg("expected `,`"));
        }
        Ok(())
    } else if str_eq(item.path.as_str(), "try_setter") {
        set_once(&mut acc.try_setter, true, diag);
        if args_present(&item.args) {
            return Err(msg("expected `,`"));
        }
        Ok(())
    } else if str_eq(item.path.as_str(), "field") {
        let v = FieldLevelFieldMeta::parse_nested_meta(item, diag)?;
        set_once(&mut acc.field, v, diag);
        check_field_vs_default(&acc.field, &acc.default, diag);
        Ok(())
    } else {
        let recognized = acc.vis.parse_nested_meta(item, diag)?;
        if !recognized {
            return Err(msg("unrecognized derive_builder attribute"));
        }
        if !str_eq(item.path.as_str(), "vis") && args_present(&item.args) {
            return Err(msg("expected `,`"));
        }
        Ok(())
    }
}

fn field_items(items: &Vec<NestedMeta>, acc: &mut FieldOpts, diag: &mut Diagnostic) -> (r: Result<(), String>)
    ensures
        ({
            let (a, e, d) = spec_field_items(items@, *old(acc), old(diag)@);
            &&& *final(acc) == a
            &&& final(diag)@ == d
            &&& match (r, e) {
                (Ok(()), Option::None) => true,
                (Err(x), Some(y)) => x@ == y,
                _ => false,
            }
        }),
{
    let ghost acc0 = *acc;
    let ghost d0 = diag@;
    let mut i: usize = 0;
    assert(items@.skip(0) =~= items@);
    while i < items.len()
        invariant
            i <= items@.len(),
            acc0 == *old(acc),
            d0 == old(diag)@,
            spec_field_items(items@, acc0, d0) == spec_field_items(items@.skip(i as int), *acc, diag@),
        decreases items@.len() - i,
    {
        proof {
            assert(items@.skip(i as int)[0] == items@[i as int]);
            assert(items@.skip(i as int).drop_first() =~= items@.skip(i + 1));
        }
        let r = field_item(&items[i], acc, diag);
        if let Err(e) = r {
            return Err(e);
        }
        i = i + 1;
    }
    assert(items@.skip(i as int) =~= Seq::<NestedMeta>::empty());
    Ok(())
}

/// Convert an attribute like `#[builder_field_attr(doc(hidden))]` into
/// `#[doc(hidden)]` (kept by its meta text `doc(hidden)`).
pub fn unnest_attr(attr: &Attribute, out: &mut Vec<String>, diag: &mut Diagnostic)
    ensures
        (final(out)@, final(diag)@) == spec_unnest_attr(*attr, old(out)@, old(diag)@),
{
    if let MetaArgs::List(_) = &attr.args {
        if check_meta(attr.args_text.as_str()) {
            out.push(attr.args_text.clone());
        } else {
            diag.push(msg("expected meta item"));
        }
    } else {
        diag.push(attr_args_error_msg(attr));
    }
}

impl Field {
    /// Reads the attributes of a field: its `builder` options (errors go to
    /// `diag`), the attributes copied to the builder field and setter (`doc`,
    /// `cfg`, `allow`), and those given for them explicitly
    /// (`builder_field_attr`, `builder_setter_attr`).
    pub fn from_field(ast: &FieldInput, diag: &mut Diagnostic) -> (r: Field)
        ensures
            ({
                let st = spec_from_field(*ast, old(diag)@);
                &&& field_from_state(r, *ast, st)
                &&& final(diag)@ == st.3
            }),
    {
        let mut acc = FieldOpts {
            pattern: None,
            vis: VisibilityAttr::Unset,
            setter: None,
            default: None,
            try_setter: None,
            field: None,
        };
        let mut field_attrs: Vec<String> = Vec::new();
        let mut setter_attrs: Vec<String> = Vec::new();
        let ghost d0 = diag@;
        let ghost st0: FieldState = (empty_field_opts(), Seq::empty(), Seq::empty(), d0);
        let mut i: usize = 0;
        assert(ast.attrs@.skip(0) =~= ast.attrs@);
        while i < ast.attrs.len()
            invariant
                i <= ast.attrs@.len(),
                d0 == old(diag)@,
                st0 == (empty_field_opts(), Seq::<String>::empty(), Seq::<String>::empty(), d0),
                spec_field_attrs(ast.attrs@, st0) == spec_field_attrs(
                    ast.attrs@.skip(i as int),
                    (acc, field_attrs@, setter_attrs@, diag@),
                ),
            decreases ast.attrs@.len() - i,
        {
            proof {
                assert(ast.attrs@.skip(i as int)[0] == ast.attrs@[i as int]);
                assert(ast.attrs@.skip(i as int).drop_first() =~= ast.attrs@.skip(i + 1));
            }
            let attr = &ast.attrs[i];
            if str_eq(attr.path.as_str(), "builder") {
                match &attr.args {
                    MetaArgs::List(items) => {
                        let r = field_items(items, &mut acc, diag);
                        if let Err(e) = r {
                            diag.push(e);
                        }
                    },
                    _ => {
                        diag.push(attr_args_error_msg(attr));
                    },
                }
            } else if str_eq(attr.path.as_str(), "doc") || str_eq(attr.path.as_str(), "cfg")
                || str_eq(attr.path.as_str(), "allow") {
                field_attrs.push(attr.meta_text.clone());
                setter_attrs.push(attr.meta_text.clone());
            } else if str_eq(attr.path.as_str(), "builder_field_attr") {
                unnest_attr(attr, &mut field_attrs, diag);
            } else if str_eq(attr.path.as_str(), "builder_setter_attr") {
                unnest_attr(attr, &mut setter_attrs, diag);
            }
            i = i + 1;
        }
        assert(ast.attrs@.skip(i as int) =~= Seq::<Attribute>::empty());
        Field {
            ident: ast.ident.clone(),
            ty: ast.ty.clone(),
            pattern: acc.pattern,
            vis: acc.vis,
            setter: match acc.setter {
                Some(s) => s,
                None => FieldLevelSetter::default(),
            },
            default: acc.default,
            try_setter: match acc.try_setter {
                Some(b) => b,
                None => false,
            },
            field: match acc.field {
                Some(m) => m,
                None => FieldLevelFieldMeta::default(),
            },
            field_attrs,
            setter_attrs,
        }
    }
}

} // verus!
