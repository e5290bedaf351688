//! Deprecation notes that the generated code emits to the user.
use vstd::prelude::*;
use crate::text::{push_str, string_literal, string_literal_text, strings_view};

verus! {

/// Deprecation notes we want to emit to the user.
///
/// Can be expanded at every place that accepts statements (e.g. function
/// bodies): each note becomes a block that declares and calls a deprecated
/// function, which makes the compiler warn in the downstream crate.
#[derive(Debug, Clone)]
pub struct DeprecationNotes(Vec<String>);

/// The block emitted for one note.
pub open spec fn note_block(note: Seq<char>) -> Seq<char> {
    "{ #[deprecated(note = "@ + string_literal_text(note)
        + ")] fn derive_builder_core_deprecation_notice() { } derive_builder_core_deprecation_notice(); } "@
}

/// The blocks emitted for a sequence of notes, in order.
pub open spec fn notes_code(notes: Seq<Seq<char>>) -> Seq<char>
    decreases notes.len(),
{
    if notes.len() == 0 {
        Seq::empty()
    } else {
        notes_code(notes.drop_last()) + note_block(notes.last())
    }
}

/// The attribute emitted for one note on a struct.
pub open spec fn struct_note_attr(note: Seq<char>) -> Seq<char> {
    "#[deprecated(note = "@ + string_literal_text(note) + ")] "@
}

/// The attributes emitted for a sequence of notes on a struct, in order.
pub open spec fn struct_notes_code(notes: Seq<Seq<char>>) -> Seq<char>
    decreases notes.len(),
{
    if notes.len() == 0 {
        Seq::empty()
    } else {
        struct_notes_code(notes.drop_last()) + struct_note_attr(notes.last())
    }
}

/// The item emitted into an `impl` block for a sequence of notes: nothing when
/// there is none, else a hidden function whose body holds the notes' blocks.
pub open spec fn notes_item_code(notes: Seq<Seq<char>>) -> Seq<char> {
    if notes.len() == 0 {
        Seq::empty()
    } else {
        "#[doc(hidden)] fn derive_builder_core_deprecation_notes() { "@ + notes_code(notes) + "} "@
    }
}

impl View for DeprecationNotes {
    type V = Seq<Seq<char>>;

    closed spec fn view(&self) -> Seq<Seq<char>> {
        strings_view(self.0@)
    }
}

impl Default for DeprecationNotes {
    fn default() -> (r: Self)
        ensures
            r@ == Seq::<Seq<char>>::empty(),
    {
        DeprecationNotes(Vec::new())
    }
}

impl DeprecationNotes {
    /// An empty collection.
    pub fn new() -> (r: Self)
        ensures
            r@ == Seq::<Seq<char>>::empty(),
    {
        DeprecationNotes(Vec::new())
    }

    /// Appends a note to the collection.
    pub fn push(&mut self, note: String)
        ensures
            final(self)@ == old(self)@.push(note@),
    {
        self.0.push(note);
        assert(strings_view(self.0@) =~= strings_view(old(self).0@).push(note@));
    }

    /// Extend this collection with all values from another collection.
    pub fn extend(&mut self, other: &DeprecationNotes)
        ensures
            final(self)@ == old(self)@ + other@,
    {
        let ghost start = self@;
        let mut i: usize = 0;
        while i < other.0.len()
            invariant
                i <= other.0@.len(),
                self@ == start + other@.subrange(0, i as int),
            decreases other.0@.len() - i,
        {
            let note = other.0[i].clone();
            self.push(note);
            assert(self@ =~= start + other@.subrange(0, i + 1));
            i = i + 1;
        }
        assert(other@.subrange(0, other@.len() as int) =~= other@);
    }

    /// A copy of this collection.
    pub fn duplicate(&self) -> (r: DeprecationNotes)
        ensures
            r@ == self@,
    {
        let mut r = DeprecationNotes::new();
        r.extend(self);
        assert(r@ =~= self@);
        r
    }

    /// Converts this deprecation note set into one that can annotate a struct.
    pub fn for_struct(self) -> (r: StructDeprecationNotes)
        ensures
            r@ == self@,
    {
        StructDeprecationNotes(self.0)
    }

    /// Appends the notes' blocks to `tokens`.
    pub fn to_tokens(&self, tokens: &mut String)
        ensures
            final(tokens)@ == old(tokens)@ + notes_code(self@),
    {
        let ghost start = tokens@;
        let mut i: usize = 0;
        while i < self.0.len()
            invariant
                i <= self.0@.len(),
                tokens@ == start + notes_code(self@.subrange(0, i as int)),
            decreases self.0@.len() - i,
        {
            push_str(tokens, "{ #[deprecated(note = ");
            let lit = string_literal(self.0[i].as_str());
            push_str(tokens, lit.as_str());
            push_str(
                tokens,
                ")] fn derive_builder_core_deprecation_notice() { } derive_builder_core_deprecation_notice(); } ",
            );
            assert(self@.subrange(0, i + 1).drop_last() =~= self@.subrange(0, i as int));
            assert(tokens@ =~= start + notes_code(self@.subrange(0, i + 1)));
            i = i + 1;
        }
        assert(self@.subrange(0, self@.len() as int) =~= self@);
    }

    /// Appends the notes as an item of an `impl` block: nothing when there is
    /// no note, else a hidden function that holds the notes' blocks.
    pub fn as_item(&self, tokens: &mut String)
        ensures
            final(tokens)@ == old(tokens)@ + notes_item_code(self@),
    {
        if self.0.len() == 0 {
            assert(old(tokens)@ + Seq::<char>::empty() =~= old(tokens)@);
        } else {
            push_str(tokens, "#[doc(hidden)] fn derive_builder_core_deprecation_notes() { ");
            self.to_tokens(tokens);
            push_str(tokens, "} ");
            assert(tokens@ =~= old(tokens)@ + notes_item_code(self@));
        }
    }
}

/// Deprecation notes that annotate a struct, as `#[deprecated(note = "...")]`.
#[derive(Debug)]
pub struct StructDeprecationNotes(Vec<String>);

impl View for StructDeprecationNotes {
    type V = Seq<Seq<char>>;

    closed spec fn view(&self) -> Seq<Seq<char>> {
        strings_view(self.0@)
    }
}

impl Default for StructDeprecationNotes {
    fn default() -> (r: Self)
        ensures
            r@ == Seq::<Seq<char>>::empty(),
    {
        StructDeprecationNotes(Vec::new())
    }
}

impl StructDeprecationNotes {
    /// Appends one `#[deprecated(note = "...")]` attribute per note to `tokens`.
    pub fn to_tokens(&self, tokens: &mut String)
        ensures
            final(tokens)@ == old(tokens)@ + struct_notes_code(self@),
    {
        let ghost start = tokens@;
        let mut i: usize = 0;
        while i < self.0.len()
            invariant
                i <= self.0@.len(),
                tokens@ == start + struct_notes_code(self@.subrange(0, i as int)),
            decreases self.0@.len() - i,
        {
            push_str(tokens, "#[deprecated(note = ");
            let lit = string_literal(self.0[i].as_str());
            push_str(tokens, lit.as_str());
            push_str(tokens, ")] ");
            assert(self@.subrange(0, i + 1).drop_last() =~= self@.subrange(0, i as int));
            assert(tokens@ =~= start + struct_notes_code(self@.subrange(0, i + 1)));
            i = i + 1;
        }
        assert(self@.subrange(0, self@.len() as int) =~= self@);
    }
}

} // verus!
