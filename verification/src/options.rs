//! The builder pattern and the `each` option.
use vstd::prelude::*;
use crate::meta::{
    args_is_list, has_list, ident_value, msg, optional_bool, set_once, spec_ident_value,
    spec_optional_bool, spec_set_once, spec_str_value, str_value, unrecognized_msg,
    expected_comma_msg, expected_eq_or_parens_msg, Diagnostic, MetaArgs, NestedMeta,
};
use crate::text::{push_str, str_eq};

verus! {

/// Controls the signature of a setter method,
/// more specifically how `self` is passed and returned.
///
/// It can also be generalized to methods with different parameter sets and
/// return types, e.g. the `build()` method.
#[derive(PartialEq, Eq, Structural, Debug, Clone, Copy)]
pub enum BuilderPattern {
    /// E.g. `fn bar(self, bar: Bar) -> Self`.
    Owned,
    /// E.g. `fn bar(&mut self, bar: Bar) -> &mut Self`.
    Mutable,
    /// E.g. `fn bar(&self, bar: Bar) -> Self`.
    ///
    /// Needs to `clone` in order to return an _updated_ instance of `Self`.
    Immutable,
}

/// The message recorded for a pattern name that is not known.
pub open spec fn unknown_pattern_msg(value: Seq<char>) -> Seq<char> {
    "unknown literal value `"@ + value + "`"@
}

/// The pattern named by `value`, if it names one.
pub open spec fn spec_pattern_named(value: Seq<char>) -> Option<BuilderPattern> {
    if value == "owned"@ {
        Some(BuilderPattern::Owned)
    } else if value == "mutable"@ {
        Some(BuilderPattern::Mutable)
    } else if value == "immutable"@ {
        Some(BuilderPattern::Immutable)
    } else {
        None
    }
}

/// Reading `pattern = "..."`: the pattern (the default one, with an error
/// recorded, for an unknown name) and the errors, or the error that stops the parse.
pub open spec fn spec_parse_pattern(args: MetaArgs, diag: Seq<Seq<char>>) -> (Result<BuilderPattern, Seq<char>>, Seq<Seq<char>>) {
    match spec_str_value(args) {
        Ok(s) => match spec_pattern_named(s@) {
            Some(p) => (Ok(p), diag),
            None => (Ok(BuilderPattern::Mutable), diag.push(unknown_pattern_msg(s@))),
        },
        Err(e) => (Err(e), diag),
    }
}

/// Whether a pattern needs the builder's fields to be cloned in `build`.
pub open spec fn spec_requires_clone(p: BuilderPattern) -> bool {
    p != BuilderPattern::Owned
}

impl BuilderPattern {
    /// Reads `pattern = "owned" | "mutable" | "immutable"`.
    pub fn parse_nested_meta(meta: &NestedMeta, diag: &mut Diagnostic) -> (r: Result<Self, String>)
        ensures
            ({
                let (s, d) = spec_parse_pattern(meta.args, old(diag)@);
                &&& final(diag)@ == d
                &&& match (r, s) {
                    (Ok(a), Ok(b)) => a == b,
                    (Err(a), Err(b)) => a@ == b,
                    _ => false,
                }
            }),
    {
        let lit = str_value(&meta.args)?;
        if str_eq(lit.as_str(), "owned") {
            Ok(BuilderPattern::Owned)
        } else if str_eq(lit.as_str(), "mutable") {
            Ok(BuilderPattern::Mutable)
        } else if str_eq(lit.as_str(), "immutable") {
            Ok(BuilderPattern::Immutable)
        } else {
            let mut m = msg("unknown literal value `");
            push_str(&mut m, lit.as_str());
            push_str(&mut m, "`");
            diag.push(m);
            Ok(Self::default())
        }
    }

    /// Returns true if this style of builder needs to be able to clone its
    /// fields during the `build` method.
    pub fn requires_clone(&self) -> (r: bool)
        ensures
            r == spec_requires_clone(*self),
    {
        *self != Self::Owned
    }
}

/// Defaults to `Mutable`.
impl Default for BuilderPattern {
    fn default() -> (r: Self)
        ensures
            r == BuilderPattern::Mutable,
    {
        Self::Mutable
    }
}

/// Options of the additional setter that adds one item to a collection field.
#[derive(Debug, Clone)]
pub struct Each {
    /// Name of the setter, as written (see [`crate::meta::ident_text`]).
    pub name: String,
    /// Whether the setter is generic over `Into<Item>`.
    pub into: bool,
}

/// The partial state of reading `each(...)`: the `name` and `into` read so far.
pub type EachAcc = (Option<String>, Option<bool>);

/// Reading one item inside `each(...)`.
pub open spec fn spec_each_item(item: NestedMeta, acc: EachAcc, diag: Seq<Seq<char>>) -> (Result<EachAcc, Seq<char>>, Seq<Seq<char>>) {
    if item.args is Malformed {
        (Err(item.args->Malformed_0@), diag)
    } else if item.path@ == "name"@ {
        match spec_ident_value(item.args) {
            Ok(v) => {
                let (n, d) = spec_set_once(acc.0, v, diag);
                (Ok((n, acc.1)), d)
            },
            Err(e) => (Err(e), diag),
        }
    } else if item.path@ == "into"@ {
        match spec_optional_bool(item.args) {
            Ok(v) => {
                let (n, d) = spec_set_once(acc.1, v, diag);
                if has_list(item.args) {
                    (Err(expected_comma_msg()), d)
                } else {
                    (Ok((acc.0, n)), d)
                }
            },
            Err(e) => (Err(e), diag),
        }
    } else {
        (Err(unrecognized_msg()), diag)
    }
}

/// Reading the items inside `each(...)`, in order, up to the first error.
pub open spec fn spec_each_items(items: Seq<NestedMeta>, acc: EachAcc, diag: Seq<Seq<char>>) -> (Result<EachAcc, Seq<char>>, Seq<Seq<char>>)
    decreases items.len(),
{
    if items.len() == 0 {
        (Ok(acc), diag)
    } else {
        let (r, d) = spec_each_item(items[0], acc, diag);
        match r {
            Ok(a) => spec_each_items(items.drop_first(), a, d),
            Err(e) => (Err(e), d),
        }
    }
}

/// The error for `each(...)` without a `name`.
pub open spec fn missing_name_msg() -> Seq<char> {
    "missing attribute `name`"@
}

/// Reading `each = "..."` or `each(name = "...", into)`.
pub open spec fn spec_parse_each(args: MetaArgs, diag: Seq<Seq<char>>) -> (Result<Each, Seq<char>>, Seq<Seq<char>>) {
    match args {
        MetaArgs::Value(_) => match spec_ident_value(args) {
            Ok(n) => (Ok(Each { name: n, into: false }), diag),
            Err(e) => (Err(e), diag),
        },
        MetaArgs::List(items) => {
            let (r, d) = spec_each_items(items@, (None, None), diag);
            match r {
                Ok(acc) => match acc.0 {
                    Some(n) => (Ok(Each { name: n, into: match acc.1 { Some(b) => b, None => false } }), d),
                    None => (Err(missing_name_msg()), d),
                },
                Err(e) => (Err(e), d),
            }
        },
        _ => (Err(expected_eq_or_parens_msg()), diag),
    }
}

/// A result against its specification, errors compared by their text.
pub open spec fn same_result<T>(r: Result<T, String>, s: Result<T, Seq<char>>) -> bool {
    match (r, s) {
        (Ok(a), Ok(b)) => a == b,
        (Err(a), Err(b)) => a@ == b,
        _ => false,
    }
}

fn parse_each_item(item: &NestedMeta, acc: &mut EachAcc, diag: &mut Diagnostic) -> (r: Result<(), String>)
    ensures
        ({
            let (s, d) = spec_each_item(*item, *old(acc), old(diag)@);
            &&& final(diag)@ == d
            &&& match (r, s) {
                (Ok(()), Ok(a)) => *final(acc) == a,
                (Err(a), Err(b)) => a@ == b,
                _ => false,
            }
        }),
{
    if let MetaArgs::Malformed(m) = &item.args {
        return Err(m.clone());
    }
    if str_eq(item.path.as_str(), "name") {
        let v = ident_value(&item.args)?;
        set_once(&mut acc.0, v, diag);
        Ok(())
    } else if str_eq(item.path.as_str(), "into") {
        let v = optional_bool(&item.args)?;
        set_once(&mut acc.1, v, diag);
        if args_is_list(&item.args) {
            return Err(msg("expected `,`"));
        }
        Ok(())
    } else {
        Err(msg("unrecognized derive_builder attribute"))
    }
}

impl Each {
    /// Reads `each = "..."`, which names the setter, or `each(name = "...", into)`.
    pub fn parse_nested_meta(meta: &NestedMeta, diag: &mut Diagnostic) -> (r: Result<Self, String>)
        ensures
            ({
                let (s, d) = spec_parse_each(meta.args, old(diag)@);
                &&& final(diag)@ == d
                &&& same_result(r, s)
            }),
    {
        match &meta.args {
            MetaArgs::Value(_) => {
                let name = ident_value(&meta.args)?;
                Ok(Each { name, into: false })
            },
            MetaArgs::List(items) => {
                let mut acc: EachAcc = (None, None);
                let mut i: usize = 0;
                let ghost d0 = diag@;
                proof {
                    assert(items@.skip(0) =~= items@);
                }
                while i < items.len()
                    invariant
                        i <= items@.len(),
                        meta.args == MetaArgs::List(*items),
                        d0 == old(diag)@,
                        spec_each_items(items@, (None, None), d0) == spec_each_items(
                            items@.skip(i as int),
                            acc,
                            diag@,
                        ),
                    decreases items@.len() - i,
                {
                    proof {
                        assert(items@.skip(i as int)[0] == items@[i as int]);
                        assert(items@.skip(i as int).drop_first() =~= items@.skip(i + 1));
                    }
                    let ghost acc_before = acc;
                    let ghost diag_before = diag@;
                    let r = parse_each_item(&items[i], &mut acc, diag);
                    proof {
                        let tail = items@.skip(i as int);
                        assert(spec_each_items(tail, acc_before, diag_before) == {
                            let (r, d) = spec_each_item(tail[0], acc_before, diag_before);
                            match r {
                                Ok(a) => spec_each_items(tail.drop_first(), a, d),
                                Err(e) => (Err(e), d),
                            }
                        });
                    }
                    if let Err(e) = r {
                        proof {
                            let tail = items@.skip(i as int);
                            let (sr, sd) = spec_each_item(tail[0], acc_before, diag_before);
                            assert(spec_each_items(items@, (None, None), d0) == (sr, sd));
                        }
                        return Err(e);
                    }
                    i = i + 1;
                }
                proof {
                    assert(items@.skip(i as int) =~= Seq::<NestedMeta>::empty());
                }
                match acc.0 {
                    Some(name) => Ok(Each {
                        name,
                        into: match acc.1 {
                            Some(b) => b,
                            None => false,
                        },
                    }),
                    None => Err(msg("missing attribute `name`")),
                }
            },
            _ => Err(msg("expected `=` or parentheses")),
        }
    }
}

} // verus!
