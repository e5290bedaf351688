//! Default values of fields and of the whole struct.
use vstd::prelude::*;
use crate::block::{spec_parse_block, BlockContents};
use crate::meta::{MetaArgs, NestedMeta};
use crate::text::{push_str, to_owned_string};

verus! {

/// A `DefaultExpression` can be either explicit or refer to the canonical trait.
#[derive(Debug, Clone)]
pub enum DefaultExpression {
    /// `default = "..."`: the given code.
    Explicit(BlockContents),
    /// `default`: the value of `Default::default()`.
    Trait,
}

/// Reading `default` or `default = "..."`.
pub open spec fn spec_parse_default(args: MetaArgs) -> Result<DefaultExpression, Seq<char>> {
    if args is Value {
        match spec_parse_block(args) {
            Ok(b) => Ok(DefaultExpression::Explicit(b)),
            Err(e) => Err(e),
        }
    } else {
        Ok(DefaultExpression::Trait)
    }
}

impl DefaultExpression {
    /// The source text of the default value, with `crate_root` the path of
    /// the support crate.
    pub open spec fn code_with_crate_root(&self, crate_root: Seq<char>) -> Seq<char> {
        match self {
            DefaultExpression::Explicit(b) => b.code(),
            DefaultExpression::Trait => crate_root + "::export::core::default::Default::default() "@,
        }
    }

    /// Reads `default` (the type's `Default`) or `default = "..."` (given code).
    pub fn parse_nested_meta(meta: &NestedMeta) -> (r: Result<Self, String>)
        ensures
            match (r, spec_parse_default(meta.args)) {
                (Ok(a), Ok(b)) => a == b,
                (Err(a), Err(b)) => a@ == b,
                _ => false,
            },
    {
        if let MetaArgs::Value(_) = &meta.args {
            let block_contents = BlockContents::parse_nested_meta(meta)?;
            Ok(DefaultExpression::Explicit(block_contents))
        } else {
            Ok(DefaultExpression::Trait)
        }
    }

    /// Appends the source text of the default value to `tokens`, with
    /// `crate_root` the path of the support crate.
    pub fn with_crate_root(&self, crate_root: &str, tokens: &mut String)
        ensures
            final(tokens)@ == old(tokens)@ + self.code_with_crate_root(crate_root@),
    {
        match self {
            DefaultExpression::Explicit(b) => b.to_tokens(tokens),
            DefaultExpression::Trait => {
                push_str(tokens, crate_root);
                push_str(tokens, "::export::core::default::Default::default() ");
                assert(tokens@ =~= old(tokens)@ + self.code_with_crate_root(crate_root@));
            },
        }
    }

    /// A copy of this expression.
    pub fn duplicate(&self) -> (r: Self)
        ensures
            r == *self,
    {
        match self {
            DefaultExpression::Explicit(b) => DefaultExpression::Explicit(b.duplicate()),
            DefaultExpression::Trait => DefaultExpression::Trait,
        }
    }

    /// The expression as a block: the given code, or the `Default::default()`
    /// of `std`, or of `core` with `no_std`.
    pub fn parse_block(&self, no_std: bool) -> (r: BlockContents)
        requires
            self matches DefaultExpression::Explicit(b) ==> b.0@.len() > 0,
        ensures
            r.0@ == match self {
                DefaultExpression::Explicit(b) => b.0@,
                DefaultExpression::Trait => if no_std {
                    "::core::default::Default::default()"@
                } else {
                    "::std::default::Default::default()"@
                },
            },
    {
        match self {
            DefaultExpression::Explicit(b) => BlockContents::new(b.0.clone()),
            DefaultExpression::Trait => if no_std {
                BlockContents::new(to_owned_string("::core::default::Default::default()"))
            } else {
                BlockContents::new(to_owned_string("::std::default::Default::default()"))
            },
        }
    }
}

} // verus!
