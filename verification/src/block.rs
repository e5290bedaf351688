//! Blocks of user code, given as `build = "..."` or `default = "..."`.
use vstd::prelude::*;
use crate::meta::{expected_eq_msg, msg, Lit, MetaArgs, NestedMeta};
use crate::syntax::{block_stmt_count, count_stmts};
use crate::text::push_str;

verus! {

/// The statements of a block, as written; the braces are added on output.
///
/// The code has full access to the variables of its environment and to its
/// control flow (`return`, `?`, ...).
#[derive(Debug, Clone)]
pub struct BlockContents(pub String);

/// The error for an empty block.
pub open spec fn expected_expression_msg() -> Seq<char> {
    "expected expression"@
}

/// The error for a string that does not hold the statements of a block.
pub open spec fn expected_statements_msg() -> Seq<char> {
    "expected statements"@
}

/// Reading `key = "statements"` or `key = expression`: the block, or the error.
pub open spec fn spec_parse_block(args: MetaArgs) -> Result<BlockContents, Seq<char>> {
    match args {
        MetaArgs::Value(Lit::Str(s)) => match block_stmt_count(s@) {
            Some(n) => if n == 0 {
                Err(expected_expression_msg())
            } else {
                Ok(BlockContents(s))
            },
            None => Err(expected_statements_msg()),
        },
        MetaArgs::Value(Lit::Expr(e)) => Ok(BlockContents(e)),
        _ => Err(expected_eq_msg()),
    }
}

impl BlockContents {
    /// A block of the given statements.
    pub fn new(stmts: String) -> (r: Self)
        ensures
            r.0 == stmts,
    {
        BlockContents(stmts)
    }

    /// The block's source text: the statements between braces.
    pub open spec fn code(&self) -> Seq<char> {
        "{ "@ + self.0@ + " } "@
    }

    /// Reads `key = "statements"` (which must hold at least one statement)
    /// or `key = expression`.
    pub fn parse_nested_meta(meta: &NestedMeta) -> (r: Result<Self, String>)
        ensures
            match (r, spec_parse_block(meta.args)) {
                (Ok(a), Ok(b)) => a == b,
                (Err(a), Err(b)) => a@ == b,
                _ => false,
            },
    {
        match &meta.args {
            MetaArgs::Value(Lit::Str(s)) => match count_stmts(s.as_str()) {
                Some(n) => if n == 0 {
                    Err(msg("expected expression"))
                } else {
                    Ok(BlockContents(s.clone()))
                },
                None => Err(msg("expected statements")),
            },
            MetaArgs::Value(Lit::Expr(e)) => Ok(BlockContents(e.clone())),
            _ => Err(msg("expected `=`")),
        }
    }

    /// Appends the block's source text to `tokens`.
    pub fn to_tokens(&self, tokens: &mut String)
        ensures
            final(tokens)@ == old(tokens)@ + self.code(),
    {
        push_str(tokens, "{ ");
        push_str(tokens, self.0.as_str());
        push_str(tokens, " } ");
        assert(tokens@ =~= old(tokens)@ + self.code());
    }

    /// A copy of this block.
    pub fn duplicate(&self) -> (r: Self)
        ensures
            r == *self,
    {
        BlockContents(self.0.clone())
    }
}

} // verus!
