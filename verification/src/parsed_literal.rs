//! Syntax read from the contents of a string literal.
use vstd::prelude::*;
use crate::meta::{expected_path_msg, expected_str_msg, msg, Lit};
use crate::syntax::{check_path, parses_as_path};
use crate::text::push_str;

verus! {

/// A wrapper for syntax parsed from a string literal, held by its source text.
#[derive(Debug, Clone)]
pub struct ParsedLiteral<T>(pub T);

/// What reading a path from a literal gives: the path, an error for a string
/// that is not one,
/// or an error for a literal that is not a string.
pub open spec fn spec_path_literal(value: Lit) -> Result<Seq<char>, Seq<char>> {
    match value {
        Lit::Str(s) => if parses_as_path(s@) {
            Ok(s@)
        } else {
            Err(expected_path_msg())
        },
        Lit::Expr(_) => Err(expected_str_msg()),
    }
}

impl ParsedLiteral<String> {
    /// Reads a path from the contents of a string literal.
    pub fn from_value(value: &Lit) -> (r: Result<Self, String>)
        ensures
            match (r, spec_path_literal(*value)) {
                (Ok(p), Ok(s)) => p.0@ == s,
                (Err(e), Err(f)) => e@ == f,
                _ => false,
            },
    {
        match value {
            Lit::Str(s) => if check_path(s.as_str()) {
                Ok(ParsedLiteral(s.clone()))
            } else {
                Err(msg("expected path"))
            },
            Lit::Expr(_) => Err(msg("expected string literal")),
        }
    }

    /// Appends the parsed syntax to `tokens`.
    pub fn to_tokens(&self, tokens: &mut String)
        ensures
            final(tokens)@ == old(tokens)@ + self.0@,
    {
        push_str(tokens, self.0.as_str());
    }
}

} // verus!
