//! The mutually exclusive visibility options `public`, `private` and `vis = "..."`.
use vstd::prelude::*;
use crate::meta::{has_args, msg, spec_vis_value, vis_value, Diagnostic, NestedMeta};
use crate::text::str_eq;
use crate::visibility::Visibility;

verus! {

/// `derive_builder` uses separate sibling keywords to represent
/// mutually-exclusive visibility states.
#[derive(Debug, Clone)]
pub enum VisibilityAttr {
    /// `public`
    Public,
    /// `private`
    Private,
    /// `vis = "pub(crate)"`, by the visibility's text.
    Explicit(String),
    /// None of them.
    Unset,
}

/// The error recorded when a visibility follows another one.
pub open spec fn conflict_msg(v: VisibilityAttr) -> Option<Seq<char>> {
    match v {
        VisibilityAttr::Public => Some("this visibility conflicts with a `public` specified earlier"@),
        VisibilityAttr::Private => Some("this visibility conflicts with a `private` specified earlier"@),
        VisibilityAttr::Explicit(_) => Some("this visibility conflicts with a `vis = \"...\"` specified earlier"@),
        VisibilityAttr::Unset => Option::None,
    }
}

/// The errors after a conflict check against the visibility given earlier.
pub open spec fn spec_report_conflict(v: VisibilityAttr, diag: Seq<Seq<char>>) -> Seq<Seq<char>> {
    match conflict_msg(v) {
        Some(m) => diag.push(m),
        Option::None => diag,
    }
}

/// Reading one option as a visibility option: whether it is one (and then the
/// new visibility and errors), or the error that stops the parse.
pub open spec fn spec_vis_item(item: NestedMeta, v: VisibilityAttr, diag: Seq<Seq<char>>) -> (Result<bool, Seq<char>>, VisibilityAttr, Seq<Seq<char>>) {
    if item.path@ == "public"@ {
        (Ok(true), VisibilityAttr::Public, spec_report_conflict(v, diag))
    } else if item.path@ == "private"@ {
        (Ok(true), VisibilityAttr::Private, spec_report_conflict(v, diag))
    } else if item.path@ == "vis"@ {
        match spec_vis_value(item.args) {
            Ok(s) => (Ok(true), VisibilityAttr::Explicit(s), spec_report_conflict(v, diag)),
            Err(e) => (Err(e), v, diag),
        }
    } else {
        (Ok(false), v, diag)
    }
}

/// Whether a recognized visibility option leaves arguments unread: `public`
/// and `private` take none.
pub open spec fn vis_item_leftover(item: NestedMeta) -> bool {
    item.path@ != "vis"@ && has_args(item.args)
}

impl VisibilityAttr {
    /// Records an error if a visibility was given earlier.
    pub fn report_conflict(&self, diag: &mut Diagnostic)
        ensures
            final(diag)@ == spec_report_conflict(*self, old(diag)@),
    {
        match self {
            VisibilityAttr::Public => {
                diag.push(msg("this visibility conflicts with a `public` specified earlier"));
            },
            VisibilityAttr::Private => {
                diag.push(msg("this visibility conflicts with a `private` specified earlier"));
            },
            VisibilityAttr::Explicit(_) => {
                diag.push(msg("this visibility conflicts with a `vis = \"...\"` specified earlier"));
            },
            VisibilityAttr::Unset => {},
        }
    }

    /// Reads `public`, `private` or `vis = "..."`; `Ok(false)` for any other option.
    pub fn parse_nested_meta(&mut self, meta: &NestedMeta, diag: &mut Diagnostic) -> (r: Result<bool, String>)
        ensures
            ({
                let (s, v, d) = spec_vis_item(*meta, *old(self), old(diag)@);
                &&& *final(self) == v
                &&& final(diag)@ == d
                &&& match (r, s) {
                    (Ok(a), Ok(b)) => a == b,
                    (Err(a), Err(b)) => a@ == b,
                    _ => false,
                }
            }),
    {
        if str_eq(meta.path.as_str(), "public") {
            self.report_conflict(diag);
            *self = VisibilityAttr::Public;
            Ok(true)
        } else if str_eq(meta.path.as_str(), "private") {
            self.report_conflict(diag);
            *self = VisibilityAttr::Private;
            Ok(true)
        } else if str_eq(meta.path.as_str(), "vis") {
            let v = vis_value(&meta.args)?;
            self.report_conflict(diag);
            *self = VisibilityAttr::Explicit(v);
            Ok(true)
        } else {
            Ok(false)
        }
    }

    /// The explicitly-expressed visibility preference, if any.
    pub open spec fn spec_as_expressed_vis(&self) -> Option<Visibility> {
        match self {
            VisibilityAttr::Public => Some(Visibility::Public),
            VisibilityAttr::Private => Some(Visibility::Inherited),
            VisibilityAttr::Explicit(v) => Some(Visibility::Explicit(*v)),
            VisibilityAttr::Unset => Option::None,
        }
    }

    /// Get the explicitly-expressed visibility preference from the attribute.
    /// This returns `None` if the input didn't include either keyword.
    pub fn as_expressed_vis(&self) -> (r: Option<Visibility>)
        ensures
            r == self.spec_as_expressed_vis(),
    {
        match self {
            VisibilityAttr::Public => Some(Visibility::Public),
            VisibilityAttr::Private => Some(Visibility::Inherited),
            VisibilityAttr::Explicit(v) => Some(Visibility::Explicit(v.clone())),
            VisibilityAttr::Unset => Option::None,
        }
    }
}

impl Default for VisibilityAttr {
    fn default() -> (r: Self)
        ensures
            r == VisibilityAttr::Unset,
    {
        VisibilityAttr::Unset
    }
}

} // verus!
