//! The error of a build method when a required field was never set.
use vstd::prelude::*;

verus! {

/// Runtime error when a `build()` method is called and one or more required
/// fields do not have a value.
#[derive(Debug, Clone, Copy, PartialEq, Eq)]
pub struct UninitializedFieldError(pub &'static str);

impl UninitializedFieldError {
    /// Create a new `UninitializedFieldError` for the specified field name.
    pub fn new(field_name: &'static str) -> (r: Self)
        ensures
            r.0 == field_name,
    {
        UninitializedFieldError(field_name)
    }

    /// Get the name of the first-declared field that wasn't initialized.
    pub fn field_name(&self) -> (r: &'static str)
        ensures
            r == self.0,
    {
        self.0
    }
}

} // verus!
