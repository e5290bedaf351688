//! A plain model of attributes such as `#[builder(setter(into), default)]`.
//!
//! The option parser reads attributes through this model: an attribute has a
//! path (`builder`) and arguments; a list argument holds nested items, each
//! with a path and arguments of its own.
use vstd::prelude::*;
use crate::syntax::{
    check_path, check_type, check_visibility, parse_ident, parses_as_path, parses_as_type,
    parses_as_visibility, syn_ident_text,
};
use crate::text::{str_eq, to_owned_string};

verus! {

/// The value given to an option after `=`.
#[derive(Debug, Clone)]
pub enum Lit {
    /// A string literal, by its value (without quotes or escapes).
    Str(String),
    /// Any other expression (a boolean literal among them), as written.
    Expr(String),
}

/// The arguments that follow the path of an option.
#[derive(Debug)]
pub enum MetaArgs {
    /// Nothing follows the path, e.g. `skip`.
    Word,
    /// `= value` follows the path, e.g. `skip = true`.
    Value(Lit),
    /// A parenthesized list of items follows the path, e.g. `setter(into)`.
    List(Vec<NestedMeta>),
    /// The item could not be read as an option; the message says why.
    Malformed(String),
}

/// One item of an option list: a path and its arguments.
#[derive(Debug)]
pub struct NestedMeta {
    /// The path of the item, e.g. `setter`.
    pub path: String,
    /// What follows the path.
    pub args: MetaArgs,
}

/// An outer attribute of the input struct or of one of its fields.
#[derive(Debug)]
pub struct Attribute {
    /// The attribute's path, e.g. `builder`, `doc` or `cfg`.
    pub path: String,
    /// What follows the path.
    pub args: MetaArgs,
    /// The text between `#[` and `]`, e.g. `doc = " Some docs"`.
    pub meta_text: String,
    /// For a list attribute, the text inside its parentheses, else empty.
    pub args_text: String,
}

/// The error reported when `=` was expected.
pub open spec fn expected_eq_msg() -> Seq<char> {
    "expected `=`"@
}

/// The error reported when a string literal was expected.
pub open spec fn expected_str_msg() -> Seq<char> {
    "expected string literal"@
}

/// The error reported when parentheses were expected.
pub open spec fn expected_parens_msg() -> Seq<char> {
    "expected parentheses"@
}

/// The error reported when arguments follow an option that takes none.
pub open spec fn expected_comma_msg() -> Seq<char> {
    "expected `,`"@
}

/// The error reported when `=` or parentheses were expected.
pub open spec fn expected_eq_or_parens_msg() -> Seq<char> {
    "expected `=` or parentheses"@
}

/// The error reported for an option that the parser does not know.
pub open spec fn unrecognized_msg() -> Seq<char> {
    "unrecognized derive_builder attribute"@
}

/// The error reported when an option is given twice.
pub open spec fn duplicate_msg() -> Seq<char> {
    "duplicate attribute"@
}

/// The error reported when a string does not hold an identifier.
pub open spec fn expected_ident_msg() -> Seq<char> {
    "expected identifier"@
}

/// The error reported when a string does not hold a path.
pub open spec fn expected_path_msg() -> Seq<char> {
    "expected path"@
}

/// The error reported when a string does not hold a type.
pub open spec fn expected_type_msg() -> Seq<char> {
    "expected type"@
}

/// The error reported when a string does not hold a visibility.
pub open spec fn expected_vis_msg() -> Seq<char> {
    "expected visibility"@
}

/// The boolean that a string spells (`true` or `false`, exactly), or the
/// error for any other string.
pub open spec fn spec_bool_from_str(s: Seq<char>) -> Result<bool, Seq<char>> {
    if s == "true"@ {
        Ok(true)
    } else if s == "false"@ {
        Ok(false)
    } else {
        Err(expected_bool_msg())
    }
}

/// Reads a boolean from a string that spells `true` or `false`.
pub fn bool_from_str(s: &str) -> (r: Result<bool, String>)
    ensures
        match (r, spec_bool_from_str(s@)) {
            (Ok(a), Ok(b)) => a == b,
            (Err(a), Err(b)) => a@ == b,
            _ => false,
        },
{
    if str_eq(s, "true") {
        Ok(true)
    } else if str_eq(s, "false") {
        Ok(false)
    } else {
        Err(msg("expected boolean literal"))
    }
}

/// The string value of `= "..."`, or the error that reading it reports.
pub open spec fn spec_str_value(args: MetaArgs) -> Result<String, Seq<char>> {
    match args {
        MetaArgs::Value(Lit::Str(s)) => Ok(s),
        MetaArgs::Value(_) => Err(expected_str_msg()),
        _ => Err(expected_eq_msg()),
    }
}

/// The value of a boolean option written as `k`, `k = true` or `k = "true"`,
/// or the error that reading it reports.
pub open spec fn spec_optional_bool(args: MetaArgs) -> Result<bool, Seq<char>> {
    match args {
        MetaArgs::Value(Lit::Str(s)) => spec_bool_from_str(s@),
        MetaArgs::Value(Lit::Expr(s)) => spec_bool_from_str(s@),
        _ => Ok(true),
    }
}

/// Whether arguments are left over after an option that reads no `= value`
/// and no list: anything but a bare word is.
pub open spec fn has_args(args: MetaArgs) -> bool {
    !(args is Word)
}

/// Whether arguments are left over after an option that reads an optional
/// `= value` (a list is).
pub open spec fn has_list(args: MetaArgs) -> bool {
    args is List
}

/// A message as an owned string.
pub fn msg(s: &str) -> (r: String)
    ensures
        r@ == s@,
{
    to_owned_string(s)
}

/// Reads the string value of `= "..."`.
pub fn str_value(args: &MetaArgs) -> (r: Result<String, String>)
    ensures
        match (r, spec_str_value(*args)) {
            (Ok(a), Ok(b)) => a == b,
            (Err(a), Err(b)) => a@ == b,
            _ => false,
        },
{
    match args {
        MetaArgs::Value(Lit::Str(s)) => Ok(s.clone()),
        MetaArgs::Value(_) => Err(msg("expected string literal")),
        _ => Err(msg("expected `=`")),
    }
}

/// Reads a boolean option written as `k`, `k = true` or `k = "true"`.
pub fn optional_bool(args: &MetaArgs) -> (r: Result<bool, String>)
    ensures
        match (r, spec_optional_bool(*args)) {
            (Ok(a), Ok(b)) => a == b,
            (Err(a), Err(b)) => a@ == b,
            _ => false,
        },
{
    match args {
        MetaArgs::Value(Lit::Str(s)) => bool_from_str(s.as_str()),
        MetaArgs::Value(Lit::Expr(s)) => bool_from_str(s.as_str()),
        _ => Ok(true),
    }
}

/// Whether `args` is anything but a bare word.
pub fn args_present(args: &MetaArgs) -> (r: bool)
    ensures
        r == has_args(*args),
{
    match args {
        MetaArgs::Word => false,
        _ => true,
    }
}

/// Whether `args` is a list.
pub fn args_is_list(args: &MetaArgs) -> (r: bool)
    ensures
        r == has_list(*args),
{
    match args {
        MetaArgs::List(_) => true,
        _ => false,
    }
}

/// Collected errors of one parse; reported together at the end.
#[derive(Debug)]
pub struct Diagnostic {
    errors: Vec<String>,
}

impl View for Diagnostic {
    type V = Seq<Seq<char>>;

    closed spec fn view(&self) -> Seq<Seq<char>> {
        crate::text::strings_view(self.errors@)
    }
}

impl Diagnostic {
    /// No errors yet.
    pub fn new() -> (r: Self)
        ensures
            r@ == Seq::<Seq<char>>::empty(),
    {
        Diagnostic { errors: Vec::new() }
    }

    /// Records an error.
    pub fn push(&mut self, err: String)
        ensures
            final(self)@ == old(self)@.push(err@),
    {
        self.errors.push(err);
        assert(crate::text::strings_view(self.errors@) =~= crate::text::strings_view(
            old(self).errors@,
        ).push(err@));
    }

    /// The errors recorded so far, if there is any; leaves none behind.
    pub fn take(&mut self) -> (r: Option<Vec<String>>)
        ensures
            final(self)@ == Seq::<Seq<char>>::empty(),
            old(self)@.len() == 0 ==> r is None,
            old(self)@.len() != 0 ==> (r matches Some(v) && crate::text::strings_view(v@)
                == old(self)@),
    {
        if self.errors.len() == 0 {
            proof {
                assert(self@ =~= Seq::<Seq<char>>::empty());
            }
            None
        } else {
            let mut taken = Vec::new();
            std::mem::swap(&mut taken, &mut self.errors);
            proof {
                assert(self@ =~= Seq::<Seq<char>>::empty());
            }
            Some(taken)
        }
    }
}

/// Stores `value` into an option that was not set yet; records a duplicate
/// error (and keeps the first value) if it was.
pub fn set_once<T>(out: &mut Option<T>, value: T, diag: &mut Diagnostic)
    ensures
        (*final(out), final(diag)@) == spec_set_once(*old(out), value, old(diag)@),
{
    if out.is_some() {
        diag.push(msg("duplicate attribute"));
    } else {
        *out = Some(value);
    }
}

/// The outcome of [`set_once`] on the option and the errors.
pub open spec fn spec_set_once<T>(out: Option<T>, value: T, diag: Seq<Seq<char>>) -> (Option<T>, Seq<Seq<char>>) {
    if out is Some {
        (out, diag.push(duplicate_msg()))
    } else {
        (Some(value), diag)
    }
}

/// The string of `= "..."` if it is an identifier, or the error that reading it reports.
pub open spec fn spec_ident_value(args: MetaArgs) -> Result<String, Seq<char>> {
    match spec_str_value(args) {
        Ok(s) => if syn_ident_text(s@) is Some {
            Ok(s)
        } else {
            Err(expected_ident_msg())
        },
        Err(e) => Err(e),
    }
}

/// The identifier that a string accepted by [`ident_value`] names: the text
/// `syn` gives it (`" Foo "` names `Foo`). Options keep such strings as
/// written; the code generators emit this text.
pub open spec fn ident_text(s: Seq<char>) -> Seq<char> {
    match syn_ident_text(s) {
        Some(t) => t,
        None => s,
    }
}

/// The identifier that a string accepted by [`ident_value`] names.
pub fn ident_string(s: &String) -> (r: String)
    ensures
        r@ == ident_text(s@),
{
    match parse_ident(s.as_str()) {
        Some(t) => t,
        None => s.clone(),
    }
}

/// The string of `= "..."` if it is a path, or the error that reading it reports.
pub open spec fn spec_path_value(args: MetaArgs) -> Result<String, Seq<char>> {
    match spec_str_value(args) {
        Ok(s) => if parses_as_path(s@) {
            Ok(s)
        } else {
            Err(expected_path_msg())
        },
        Err(e) => Err(e),
    }
}

/// The string of `= "..."` if it is a type, or the error that reading it reports.
pub open spec fn spec_type_value(args: MetaArgs) -> Result<String, Seq<char>> {
    match spec_str_value(args) {
        Ok(s) => if parses_as_type(s@) {
            Ok(s)
        } else {
            Err(expected_type_msg())
        },
        Err(e) => Err(e),
    }
}

/// The string of `= "..."` if it is a visibility, or the error that reading it reports.
pub open spec fn spec_vis_value(args: MetaArgs) -> Result<String, Seq<char>> {
    match spec_str_value(args) {
        Ok(s) => if parses_as_visibility(s@) {
            Ok(s)
        } else {
            Err(expected_vis_msg())
        },
        Err(e) => Err(e),
    }
}

/// A string result against its specification.
pub open spec fn same_str_result(r: Result<String, String>, s: Result<String, Seq<char>>) -> bool {
    match (r, s) {
        (Ok(a), Ok(b)) => a == b,
        (Err(a), Err(b)) => a@ == b,
        _ => false,
    }
}

/// Reads `= "..."` whose string must be an identifier.
pub fn ident_value(args: &MetaArgs) -> (r: Result<String, String>)
    ensures
        same_str_result(r, spec_ident_value(*args)),
{
    let s = str_value(args)?;
    if parse_ident(s.as_str()).is_some() {
        Ok(s)
    } else {
        Err(msg("expected identifier"))
    }
}

/// Reads `= "..."` whose string must be a path.
pub fn path_value(args: &MetaArgs) -> (r: Result<String, String>)
    ensures
        same_str_result(r, spec_path_value(*args)),
{
    let s = str_value(args)?;
    if check_path(s.as_str()) {
        Ok(s)
    } else {
        Err(msg("expected path"))
    }
}

/// Reads `= "..."` whose string must be a type.
pub fn type_value(args: &MetaArgs) -> (r: Result<String, String>)
    ensures
        same_str_result(r, spec_type_value(*args)),
{
    let s = str_value(args)?;
    if check_type(s.as_str()) {
        Ok(s)
    } else {
        Err(msg("expected type"))
    }
}

/// Reads `= "..."` whose string must be a visibility.
pub fn vis_value(args: &MetaArgs) -> (r: Result<String, String>)
    ensures
        same_str_result(r, spec_vis_value(*args)),
{
    let s = str_value(args)?;
    if check_visibility(s.as_str()) {
        Ok(s)
    } else {
        Err(msg("expected visibility"))
    }
}

/// The error reported when a boolean literal was expected.
pub open spec fn expected_bool_msg() -> Seq<char> {
    "expected boolean literal"@
}

/// The value of `= true` or `= false` (a boolean literal, not a string), or
/// the error that reading it reports.
pub open spec fn spec_lit_bool_value(args: MetaArgs) -> Result<bool, Seq<char>> {
    match args {
        MetaArgs::Value(Lit::Expr(t)) => spec_bool_from_str(t@),
        MetaArgs::Value(Lit::Str(_)) => Err(expected_bool_msg()),
        _ => Err(expected_eq_msg()),
    }
}

/// Reads `= true` or `= false`.
pub fn lit_bool_value(args: &MetaArgs) -> (r: Result<bool, String>)
    ensures
        match (r, spec_lit_bool_value(*args)) {
            (Ok(a), Ok(b)) => a == b,
            (Err(a), Err(b)) => a@ == b,
            _ => false,
        },
{
    match args {
        MetaArgs::Value(Lit::Expr(t)) => bool_from_str(t.as_str()),
        MetaArgs::Value(Lit::Str(_)) => Err(msg("expected boolean literal")),
        _ => Err(msg("expected `=`")),
    }
}

/// The error for an attribute without the parenthesized arguments it needs.
pub open spec fn attr_args_error(path: Seq<char>, args: MetaArgs) -> Seq<char> {
    match args {
        MetaArgs::Malformed(m) => m@,
        MetaArgs::Value(_) => "expected parentheses: #["@ + path + "(...)]"@,
        _ => "expected attribute arguments in parentheses: #["@ + path + "(...)]"@,
    }
}

/// The error for an attribute without the parenthesized arguments it needs.
pub fn attr_args_error_msg(attr: &Attribute) -> (r: String)
    requires
        !(attr.args is List),
    ensures
        r@ == attr_args_error(attr.path@, attr.args),
{
    match &attr.args {
        MetaArgs::Malformed(m) => m.clone(),
        MetaArgs::Value(_) => {
            let mut out = msg("expected parentheses: #[");
            crate::text::push_str(&mut out, attr.path.as_str());
            crate::text::push_str(&mut out, "(...)]");
            assert(out@ =~= attr_args_error(attr.path@, attr.args));
            out
        },
        _ => {
            let mut out = msg("expected attribute arguments in parentheses: #[");
            crate::text::push_str(&mut out, attr.path.as_str());
            crate::text::push_str(&mut out, "(...)]");
            assert(out@ =~= attr_args_error(attr.path@, attr.args));
            out
        },
    }
}

} // verus!
