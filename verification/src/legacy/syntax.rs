//! The input of the first-generation derive: attributes made of meta items,
//! and the struct they stand on.
use vstd::prelude::*;
use crate::generics::Generics;
use crate::text::{push_str, str_eq, string_literal, string_literal_text, to_owned_string};
use crate::visibility::Visibility;

verus! {

broadcast use {crate::text::lemma_concat_assoc, crate::text::lemma_concat_empty};

/// Whether an attribute is written outside (`#[..]`) or inside (`#![..]`) its item.
#[derive(Debug, Clone, Copy, PartialEq, Eq)]
pub enum AttrStyle {
    /// `#[..]`
    Outer,
    /// `#![..]`
    Inner,
}

/// How a string literal is written.
#[derive(Debug, Clone, Copy, PartialEq, Eq)]
pub enum StrStyle {
    /// `"..."`
    Cooked,
    /// `r#"..."#`
    Raw,
}

/// A literal in an attribute.
#[derive(Debug, Clone)]
pub enum Lit {
    /// A string literal, with its value.
    Str(String, StrStyle),
    /// `true` or `false`.
    Bool(bool),
    /// Any other literal, by its debug text.
    Other(String),
}

/// A meta item: `word`, `name = lit` or `name(...)`.
#[derive(Debug)]
pub enum MetaItem {
    /// `word`
    Word(String),
    /// `name = lit`
    NameValue(String, Lit),
    /// `name(nested, ...)`
    List(String, Vec<NestedMetaItem>),
}

/// An element of a meta item list.
#[derive(Debug)]
pub enum NestedMetaItem {
    /// A meta item.
    MetaItem(MetaItem),
    /// A literal.
    Literal(Lit),
}

/// An attribute.
#[derive(Debug)]
pub struct Attribute {
    /// Outer or inner.
    pub style: AttrStyle,
    /// The attribute's content.
    pub value: MetaItem,
    /// Whether it was written as a doc comment.
    pub is_sugared_doc: bool,
    /// The attribute's source text.
    pub tokens: String,
}

/// A field of the input struct.
#[derive(Debug)]
pub struct Field {
    /// The field's name; `None` in a tuple struct.
    pub ident: Option<String>,
    /// The field's visibility.
    pub vis: Visibility,
    /// The field's type, as written.
    pub ty: String,
    /// The field's attributes.
    pub attrs: Vec<Attribute>,
}

/// The body of the input type.
#[derive(Debug)]
pub enum Body {
    /// A struct with braces, and its fields.
    Struct(Vec<Field>),
    /// A tuple or unit struct, or an enum.
    Other,
}

/// The input of the derive.
#[derive(Debug)]
pub struct MacroInput {
    /// The type's name.
    pub ident: String,
    /// The type's visibility.
    pub vis: Visibility,
    /// The type's attributes.
    pub attrs: Vec<Attribute>,
    /// The type's generics.
    pub generics: Generics,
    /// The type's body.
    pub body: Body,
}

/// The name of a meta item.
pub open spec fn spec_meta_name(m: MetaItem) -> Seq<char> {
    match m {
        MetaItem::Word(id) => id@,
        MetaItem::NameValue(id, _) => id@,
        MetaItem::List(id, _) => id@,
    }
}

/// The name of a meta item.
pub fn meta_name(m: &MetaItem) -> (r: &str)
    ensures
        r@ == spec_meta_name(*m),
{
    match m {
        MetaItem::Word(id) => id.as_str(),
        MetaItem::NameValue(id, _) => id.as_str(),
        MetaItem::List(id, _) => id.as_str(),
    }
}

/// The debug text of a literal.
pub open spec fn lit_debug(lit: Lit) -> Seq<char> {
    match lit {
        Lit::Str(v, style) => "Str("@ + string_literal_text(v@) + match style {
            StrStyle::Cooked => ", Cooked)"@,
            StrStyle::Raw => ", Raw)"@,
        },
        Lit::Bool(b) => if b {
            "Bool(true)"@
        } else {
            "Bool(false)"@
        },
        Lit::Other(t) => t@,
    }
}

/// The debug text of a literal.
pub fn lit_debug_text(lit: &Lit) -> (r: String)
    ensures
        r@ == lit_debug(*lit),
{
    match lit {
        Lit::Str(v, style) => {
            let mut out = to_owned_string("Str(");
            let l = string_literal(v.as_str());
            push_str(&mut out, l.as_str());
            match style {
                StrStyle::Cooked => push_str(&mut out, ", Cooked)"),
                StrStyle::Raw => push_str(&mut out, ", Raw)"),
            }
            out
        },
        Lit::Bool(b) => if *b {
            to_owned_string("Bool(true)")
        } else {
            to_owned_string("Bool(false)")
        },
        Lit::Other(t) => t.clone(),
    }
}

/// Whether `lit` is a string literal written with plain quotes.
pub open spec fn is_cooked_str(lit: Lit) -> bool {
    lit matches Lit::Str(_, StrStyle::Cooked)
}

/// The value of a string literal.
pub open spec fn lit_str_value(lit: Lit) -> String
    recommends
        lit is Str,
{
    lit->Str_0
}

/// What reading a literal as a plain string gives: its value, or an error.
pub open spec fn spec_cooked_string(lit: Lit) -> Result<String, Seq<char>> {
    match lit {
        Lit::Str(v, StrStyle::Cooked) => Ok(v),
        Lit::Str(_, StrStyle::Raw) => Err("Non-standard string found `"@ + lit_debug(lit) + "`"@),
        _ => Err("Unable to interpret as string `"@ + lit_debug(lit) + "`."@),
    }
}

/// Reads a literal as a plain (not raw) string.
pub fn parse_lit_as_cooked_string(lit: &Lit) -> (r: Result<&String, String>)
    ensures
        match (r, spec_cooked_string(*lit)) {
            (Ok(v), Ok(w)) => *v == w,
            (Err(e), Err(f)) => e@ == f,
            _ => false,
        },
{
    match lit {
        Lit::Str(value, StrStyle::Cooked) => Ok(value),
        Lit::Str(_, StrStyle::Raw) => {
            let mut e = to_owned_string("Non-standard string found `");
            let d = lit_debug_text(lit);
            push_str(&mut e, d.as_str());
            push_str(&mut e, "`");
            Err(e)
        },
        _ => {
            let mut e = to_owned_string("Unable to interpret as string `");
            let d = lit_debug_text(lit);
            push_str(&mut e, d.as_str());
            push_str(&mut e, "`.");
            Err(e)
        },
    }
}

/// What reading a literal as a boolean gives: `true` and `false`, also as
/// strings; an error for anything else.
pub open spec fn spec_lit_bool(lit: Lit) -> Result<bool, Seq<char>> {
    match lit {
        Lit::Bool(b) => Ok(b),
        _ => match spec_cooked_string(lit) {
            Ok(v) => if v@ == "true"@ {
                Ok(true)
            } else if v@ == "false"@ {
                Ok(false)
            } else {
                Err("Invalid boolean value `"@ + v@ + "`, expected `true` or `false`."@)
            },
            Err(_) => Err("Value must be a bool or string, but found `"@ + lit_debug(lit) + "`"@),
        },
    }
}

/// Reads a literal as a boolean: `true`, `false`, `"true"` or `"false"`.
pub fn parse_lit_as_bool(lit: &Lit) -> (r: Result<bool, String>)
    ensures
        match (r, spec_lit_bool(*lit)) {
            (Ok(v), Ok(w)) => v == w,
            (Err(e), Err(f)) => e@ == f,
            _ => false,
        },
{
    if let Lit::Bool(value) = lit {
        return Ok(*value);
    }
    match parse_lit_as_cooked_string(lit) {
        Ok(value) => {
            if str_eq(value.as_str(), "true") {
                Ok(true)
            } else if str_eq(value.as_str(), "false") {
                Ok(false)
            } else {
                let mut e = to_owned_string("Invalid boolean value `");
                push_str(&mut e, value.as_str());
                push_str(&mut e, "`, expected `true` or `false`.");
                Err(e)
            }
        },
        Err(_) => {
            let mut e = to_owned_string("Value must be a bool or string, but found `");
            let d = lit_debug_text(lit);
            push_str(&mut e, d.as_str());
            push_str(&mut e, "`");
            Err(e)
        },
    }
}

/// Whether an attribute of a field is repeated on the builder's field and
/// setter: doc comments and `#[doc = ...]`, and `cfg(...)` and `allow(...)`
/// lists.
pub open spec fn spec_filter_attr(attr: Attribute) -> bool {
    &&& attr.style is Outer
    &&& match attr.value {
        MetaItem::NameValue(id, _) => id@ == "doc"@,
        MetaItem::List(id, _) => !attr.is_sugared_doc && (id@ == "cfg"@ || id@ == "allow"@),
        MetaItem::Word(_) => false,
    }
}

/// Whether an attribute of a field is repeated on the builder's field and setter.
pub fn filter_attr(attr: &Attribute) -> (r: bool)
    ensures
        r == spec_filter_attr(*attr),
{
    if let AttrStyle::Inner = attr.style {
        return false;
    }
    match &attr.value {
        MetaItem::NameValue(ident, _) => str_eq(ident.as_str(), "doc"),
        MetaItem::List(ident, _) => {
            if attr.is_sugared_doc {
                return false;
            }
            let is_cfg = str_eq(ident.as_str(), "cfg");
            let is_allow = str_eq(ident.as_str(), "allow");
            is_cfg || is_allow
        },
        MetaItem::Word(_) => false,
    }
}

} // verus!
