//! Visibility of generated items.
use vstd::prelude::*;
use crate::text::push_str;

verus! {

/// The visibility written in front of a generated item.
#[derive(Debug, Clone, PartialEq, Eq)]
pub enum Visibility {
    /// `pub`
    Public,
    /// No visibility keyword (private to the module).
    Inherited,
    /// Any other visibility, as written, e.g. `pub(crate)`.
    Explicit(String),
}

impl Visibility {
    /// The source text of the visibility, followed by a space unless it is empty.
    pub open spec fn code(&self) -> Seq<char> {
        match self {
            Visibility::Public => "pub "@,
            Visibility::Inherited => Seq::empty(),
            Visibility::Explicit(t) => t@ + " "@,
        }
    }

    /// Appends the visibility's source text to `tokens`.
    pub fn to_tokens(&self, tokens: &mut String)
        ensures
            final(tokens)@ == old(tokens)@ + self.code(),
    {
        match self {
            Visibility::Public => push_str(tokens, "pub "),
            Visibility::Inherited => {
                assert(old(tokens)@ + Seq::<char>::empty() =~= old(tokens)@);
            },
            Visibility::Explicit(t) => {
                push_str(tokens, t.as_str());
                push_str(tokens, " ");
                assert(old(tokens)@ + (t@ + " "@) =~= old(tokens)@ + t@ + " "@);
            },
        }
    }

    /// A copy of this visibility.
    pub fn duplicate(&self) -> (r: Visibility)
        ensures
            r.code() == self.code(),
            r == *self,
    {
        match self {
            Visibility::Public => Visibility::Public,
            Visibility::Inherited => Visibility::Inherited,
            Visibility::Explicit(t) => Visibility::Explicit(t.clone()),
        }
    }
}

} // verus!
