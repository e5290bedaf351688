//! Attributes copied onto generated items.
use vstd::prelude::*;
use crate::text::{push_str, strings_view};

verus! {

/// The source text of attributes given by their meta text: `#[meta] ` each.
pub open spec fn attrs_code(metas: Seq<Seq<char>>) -> Seq<char>
    decreases metas.len(),
{
    if metas.len() == 0 {
        Seq::empty()
    } else {
        attrs_code(metas.drop_last()) + "#["@ + metas.last() + "] "@
    }
}

/// Appends `#[meta] ` for each meta text of `metas`.
pub fn push_attrs(tokens: &mut String, metas: &Vec<String>)
    ensures
        final(tokens)@ == old(tokens)@ + attrs_code(strings_view(metas@)),
{
    let ghost start = tokens@;
    let mut i: usize = 0;
    while i < metas.len()
        invariant
            i <= metas@.len(),
            tokens@ == start + attrs_code(strings_view(metas@.subrange(0, i as int))),
        decreases metas@.len() - i,
    {
        push_str(tokens, "#[");
        push_str(tokens, metas[i].as_str());
        push_str(tokens, "] ");
        proof {
            assert(strings_view(metas@.subrange(0, i + 1)).drop_last() =~= strings_view(
                metas@.subrange(0, i as int),
            ));
            assert(tokens@ =~= start + attrs_code(strings_view(metas@.subrange(0, i + 1))));
        }
        i = i + 1;
    }
    assert(metas@.subrange(0, metas@.len() as int) =~= metas@);
}

/// A copy of a vector of strings.
pub fn copy_strings(v: &Vec<String>) -> (r: Vec<String>)
    ensures
        r@ == v@,
{
    let mut r: Vec<String> = Vec::new();
    let mut i: usize = 0;
    while i < v.len()
        invariant
            i <= v@.len(),
            r@ == v@.subrange(0, i as int),
        decreases v@.len() - i,
    {
        r.push(v[i].clone());
        assert(r@ =~= v@.subrange(0, i + 1));
        i = i + 1;
    }
    assert(v@.subrange(0, v@.len() as int) =~= v@);
    r
}

} // verus!
