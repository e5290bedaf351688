//! Deprecation notes of the first-generation derive.
use vstd::prelude::*;
use crate::text::{push_str, string_literal, string_literal_text, strings_view};

verus! {

broadcast use {crate::text::lemma_concat_assoc, crate::text::lemma_concat_empty};

/// Deprecation notes we want to emit to the user.
///
/// Each note becomes a block that can be inserted into any function body:
/// it declares and calls a deprecated function, which makes the compiler
/// warn in the downstream crate.
#[derive(Debug, Clone)]
pub struct DeprecationNotes(Vec<String>);

/// The block emitted for one note.
pub open spec fn note_block(note: Seq<char>) -> Seq<char> {
    "{ #[deprecated(note = "@ + string_literal_text(note)
        + ")] fn derive_builder_deprecation_notice() { } derive_builder_deprecation_notice(); } "@
}

/// The blocks emitted for a sequence of notes, in order.
pub open spec fn notes_code(notes: Seq<Seq<char>>) -> Seq<char>
    decreases notes.len(),
{
    if notes.len() == 0 {
        Seq::empty()
    } else {
        notes_code(notes.drop_last()) + note_block(notes.last())
    }
}

impl View for DeprecationNotes {
    type V = Seq<Seq<char>>;

    closed spec fn view(&self) -> Seq<Seq<char>> {
        strings_view(self.0@)
    }
}

impl Default for DeprecationNotes {
    fn default() -> (r: Self)
        ensures
            r@ == Seq::<Seq<char>>::empty(),
    {
        DeprecationNotes(Vec::new())
    }
}

impl DeprecationNotes {
    /// An empty collection.
    pub fn new() -> (r: Self)
        ensures
            r@ == Seq::<Seq<char>>::empty(),
    {
        DeprecationNotes(Vec::new())
    }

    /// Appends a note to the collection.
    pub fn push(&mut self, note: String)
        ensures
            final(self)@ == old(self)@.push(note@),
    {
        self.0.push(note);
        assert(strings_view(self.0@) =~= strings_view(old(self).0@).push(note@));
    }

    /// The notes, in order.
    pub fn notes(&self) -> (r: &Vec<String>)
        ensures
            strings_view(r@) == self@,
    {
        &self.0
    }

    /// A copy of this collection.
    pub fn duplicate(&self) -> (r: DeprecationNotes)
        ensures
            r@ == self@,
    {
        let mut r = DeprecationNotes::new();
        let mut i: usize = 0;
        while i < self.0.len()
            invariant
                i <= self.0@.len(),
                r@ == self@.subrange(0, i as int),
            decreases self.0@.len() - i,
        {
            r.push(self.0[i].clone());
            assert(r@ =~= self@.subrange(0, i + 1));
            i = i + 1;
        }
        assert(self@.subrange(0, self@.len() as int) =~= self@);
        r
    }

    /// The source text of the notes' blocks.
    pub open spec fn code(&self) -> Seq<char> {
        notes_code(self@)
    }

    /// Appends a block for each note: it declares a deprecated function and
    /// calls it.
    pub fn to_tokens(&self, tokens: &mut String)
        ensures
            final(tokens)@ == old(tokens)@ + self.code(),
    {
        let mut i: usize = 0;
        while i < self.0.len()
            invariant
                i <= self.0@.len(),
                tokens@ == old(tokens)@ + notes_code(self@.take(i as int)),
            decreases self.0@.len() - i,
        {
            push_str(tokens, "{ #[deprecated(note = ");
            let lit = string_literal(self.0[i].as_str());
            push_str(tokens, lit.as_str());
            push_str(
                tokens,
                ")] fn derive_builder_deprecation_notice() { } derive_builder_deprecation_notice(); } ",
            );
            assert(self@.take(i + 1).drop_last() =~= self@.take(i as int));
            i = i + 1;
        }
        assert(self@.take(self@.len() as int) =~= self@);
    }
}

} // verus!
