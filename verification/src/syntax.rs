//! Checks of user-supplied Rust syntax, delegated to `syn`.
//!
//! Attribute values such as `name = "FooBuilder"` or `vis = "pub(crate)"`
//! carry Rust syntax inside string literals. Whether such a string is a valid
//! identifier, path, type, ... is decided by `syn`; the items below name those decisions
//! so that the option parser can be specified over them.
//!
//! `syn` lexes a string through `proc_macro2`, which uses the compiler's lexer
//! inside a procedural macro and a lexer of its own elsewhere, and the two do
//! not always agree. Each check below therefore makes `proc_macro2` use its own
//! lexer for the duration of the call (`proc_macro2::fallback::force`, then
//! `unforce`), so that the answer depends on the string alone, wherever the
//! library runs. No contract speaks of `syn`'s error messages: the library
//! reports messages of its own for strings that do not parse.
use vstd::prelude::*;

verus! {

/// The text of the identifier `syn` reads from the string, lexed by
/// `proc_macro2`'s own lexer, or `None` where the string is not one identifier.
pub uninterp spec fn syn_ident_text(s: Seq<char>) -> Option<Seq<char>>;

/// Whether `syn` parses the string as a path, lexed by `proc_macro2`'s own lexer.
pub uninterp spec fn parses_as_path(s: Seq<char>) -> bool;

/// Whether `syn` parses the string as a type, lexed by `proc_macro2`'s own lexer.
pub uninterp spec fn parses_as_type(s: Seq<char>) -> bool;

/// Whether `syn` parses the string as a visibility, lexed by `proc_macro2`'s own lexer.
pub uninterp spec fn parses_as_visibility(s: Seq<char>) -> bool;

/// Whether `syn` parses the string as a meta item (the inside of `#[...]`),
/// lexed by `proc_macro2`'s own lexer.
pub uninterp spec fn parses_as_meta(s: Seq<char>) -> bool;

/// The number of statements `syn` reads from the string as the inside of a
/// block, lexed by `proc_macro2`'s own lexer, or `None` where it does not
/// parse as such.
pub uninterp spec fn block_stmt_count(s: Seq<char>) -> Option<nat>;

/// Calls `syn::parse_str::<syn::Ident>` under `proc_macro2`'s own lexer; the
/// contract says that the identifier's text (`Ident::to_string`), or `None`
/// where the call fails, is the one named for `s`. The error is not used.
#[verifier::external_body]
pub fn parse_ident(s: &str) -> (r: Option<String>)
    ensures
        match (r, syn_ident_text(s@)) {
            (Some(a), Some(b)) => a@ == b,
            (None, None) => true,
            _ => false,
        },
{
    proc_macro2::fallback::force();
    let r = match syn::parse_str::<syn::Ident>(s) {
        Ok(ident) => Some(ident.to_string()),
        Err(_) => None,
    };
    proc_macro2::fallback::unforce();
    r
}

/// Calls `syn::parse_str::<syn::Path>` under `proc_macro2`'s own lexer; the
/// contract says only whether it succeeded, as named for `s`.
#[verifier::external_body]
pub fn check_path(s: &str) -> (r: bool)
    ensures
        r == parses_as_path(s@),
{
    proc_macro2::fallback::force();
    let r = syn::parse_str::<syn::Path>(s).is_ok();
    proc_macro2::fallback::unforce();
    r
}

/// Calls `syn::parse_str::<syn::Type>` under `proc_macro2`'s own lexer; the
/// contract says only whether it succeeded, as named for `s`.
#[verifier::external_body]
pub fn check_type(s: &str) -> (r: bool)
    ensures
        r == parses_as_type(s@),
{
    proc_macro2::fallback::force();
    let r = syn::parse_str::<syn::Type>(s).is_ok();
    proc_macro2::fallback::unforce();
    r
}

/// Calls `syn::parse_str::<syn::Visibility>` under `proc_macro2`'s own lexer;
/// the contract says only whether it succeeded, as named for `s`.
#[verifier::external_body]
pub fn check_visibility(s: &str) -> (r: bool)
    ensures
        r == parses_as_visibility(s@),
{
    proc_macro2::fallback::force();
    let r = syn::parse_str::<syn::Visibility>(s).is_ok();
    proc_macro2::fallback::unforce();
    r
}

/// Calls `syn::parse_str::<syn::Meta>` under `proc_macro2`'s own lexer; the
/// contract says only whether it succeeded, as named for `s`.
#[verifier::external_body]
pub fn check_meta(s: &str) -> (r: bool)
    ensures
        r == parses_as_meta(s@),
{
    proc_macro2::fallback::force();
    let r = syn::parse_str::<syn::Meta>(s).is_ok();
    proc_macro2::fallback::unforce();
    r
}

/// Calls `syn::Block::parse_within` on `s` (through `syn::parse::Parser::parse_str`)
/// under `proc_macro2`'s own lexer;
/// the contract says that the number of statements read, or `None` where the
/// call fails, is the one named for `s`. The error is not used.
#[verifier::external_body]
pub fn count_stmts(s: &str) -> (r: Option<usize>)
    ensures
        match (r, block_stmt_count(s@)) {
            (Some(n), Some(m)) => n as nat == m,
            (None, None) => true,
            _ => false,
        },
{
    proc_macro2::fallback::force();
    let r = match syn::parse::Parser::parse_str(syn::Block::parse_within, s) {
        Ok(stmts) => Some(stmts.len()),
        Err(_) => None,
    };
    proc_macro2::fallback::unforce();
    r
}

} // verus!
