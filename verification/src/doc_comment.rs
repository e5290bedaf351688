//! Doc comments of generated items.
use vstd::prelude::*;
use crate::text::{push_str, string_literal, string_literal_text};

verus! {

broadcast use {crate::text::lemma_concat_assoc, crate::text::lemma_concat_empty};

/// The meta text of the doc attribute for `s`: `doc = "..."`.
pub open spec fn doc_meta_code(s: Seq<char>) -> Seq<char> {
    "doc = "@ + string_literal_text(s)
}

/// The doc attribute for `s`, by its meta text (`#[doc = "..."]` on output).
pub fn doc_comment_from(s: String) -> (r: String)
    ensures
        r@ == doc_meta_code(s@),
{
    let mut out = String::new();
    push_str(&mut out, "doc = ");
    let lit = string_literal(s.as_str());
    push_str(&mut out, lit.as_str());
    out
}

} // verus!
