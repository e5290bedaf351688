//! Source text appended as it is.
use vstd::prelude::*;
use crate::text::push_str;

verus! {

/// `RawTokens` can be directly appended to generated code without any parsing.
#[derive(PartialEq, Debug)]
pub struct RawTokens(pub String);

impl RawTokens {
    /// View the underlying data as string.
    pub fn as_str(&self) -> (r: &str)
        ensures
            r@ == self.0@,
    {
        self.0.as_str()
    }

    /// Write `self` to a new instance of generated code.
    pub fn to_tokens(&self) -> (r: String)
        ensures
            r@ == self.0@,
    {
        let mut out = String::new();
        push_str(&mut out, self.0.as_str());
        assert(out@ =~= self.0@);
        out
    }
}

} // verus!
