//! A struct re-exported under another name together with its builder.
use vstd::prelude::*;
use crate::expanded::uninitialized::UninitializedFieldError;
use vstd::std_specs::convert::FromSpecImpl;

pub use self::Foo as Bar;
pub use self::FooBuilder as BarBuilder;

verus! {

/// A struct with a builder.
#[derive(Debug)]
pub struct Foo {
    /// A required field.
    pub a: i32,
}

/// Error type for [`FooBuilder`].
#[derive(Debug)]
#[non_exhaustive]
pub enum FooBuilderError {
    /// Uninitialized field
    UninitializedField(&'static str),
    /// Custom validation error
    ValidationError(String),
}

impl From<UninitializedFieldError> for FooBuilderError {
    fn from(s: UninitializedFieldError) -> (r: Self) {
        Self::UninitializedField(s.field_name())
    }
}

impl FromSpecImpl<UninitializedFieldError> for FooBuilderError {
    open spec fn obeys_from_spec() -> bool {
        true
    }

    open spec fn from_spec(v: UninitializedFieldError) -> FooBuilderError {
        FooBuilderError::UninitializedField(v.0)
    }
}

/// Builder for [`Foo`].
#[derive(Clone, Debug)]
pub struct FooBuilder {
    a: Option<i32>,
}

impl Default for FooBuilder {
    fn default() -> (r: Self)
        ensures
            r.spec_a() is None,
    {
        FooBuilder { a: None }
    }
}

impl FooBuilder {
    /// The value given to `a`, if any.
    pub closed spec fn spec_a(&self) -> Option<i32> {
        self.a
    }

    /// Sets `a`.
    pub fn a(&mut self, value: i32) -> (r: &mut Self)
        ensures
            r.spec_a() == Some(value),
            *final(self) == *final(r),
    {
        let new = self;
        new.a = Some(value);
        new
    }

    /// Builds a new `Foo`; fails if `a` was not set.
    pub fn build(&self) -> (r: Result<Foo, FooBuilderError>)
        ensures
            match self.spec_a() {
                Some(v) => r matches Ok(foo) && foo.a == v,
                None => r matches Err(FooBuilderError::UninitializedField(f)) && f@ == "a"@,
            },
    {
        match self.a {
            Some(value) => Ok(Foo { a: value }),
            None => Err(FooBuilderError::from(UninitializedFieldError::new("a"))),
        }
    }
}

} // verus!
