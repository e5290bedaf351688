//! The builder for a `no_std` crate with an allocator, and its generated
//! error type.
use vstd::prelude::*;
use crate::expanded::uninitialized::UninitializedFieldError;
use crate::text::{push_str, to_owned_string};
use vstd::std_specs::convert::FromSpecImpl;

verus! {

/// A struct with a builder.
#[derive(Debug)]
pub struct Foo {
    /// A required field.
    pub bar: i32,
}

/// Error type for [`FooBuilder`].
#[derive(Debug)]
#[non_exhaustive]
pub enum FooBuilderError {
    /// Uninitialized field
    UninitializedField(&'static str),
    /// Custom validation error
    ValidationError(String),
}

impl From<UninitializedFieldError> for FooBuilderError {
    fn from(s: UninitializedFieldError) -> (r: Self) {
        Self::UninitializedField(s.field_name())
    }
}

impl FromSpecImpl<UninitializedFieldError> for FooBuilderError {
    open spec fn obeys_from_spec() -> bool {
        true
    }

    open spec fn from_spec(v: UninitializedFieldError) -> FooBuilderError {
        FooBuilderError::UninitializedField(v.0)
    }
}

impl From<String> for FooBuilderError {
    fn from(s: String) -> (r: Self) {
        Self::ValidationError(s)
    }
}

impl FromSpecImpl<String> for FooBuilderError {
    open spec fn obeys_from_spec() -> bool {
        true
    }

    open spec fn from_spec(v: String) -> FooBuilderError {
        FooBuilderError::ValidationError(v)
    }
}

/// The message of an error of a build method.
pub open spec fn error_message(e: FooBuilderError) -> Seq<char> {
    match e {
        FooBuilderError::UninitializedField(field) => "`"@ + field@ + "` must be initialized"@,
        FooBuilderError::ValidationError(error) => error@,
    }
}

impl FooBuilderError {
    /// The error's message: which field was not set, or the validation error.
    pub fn message(&self) -> (r: String)
        ensures
            r@ == error_message(*self),
    {
        match self {
            FooBuilderError::UninitializedField(field) => {
                let mut m = to_owned_string("`");
                push_str(&mut m, field);
                push_str(&mut m, "` must be initialized");
                m
            },
            FooBuilderError::ValidationError(error) => error.clone(),
        }
    }
}

/// Builder for [`Foo`].
#[derive(Clone, Debug)]
pub struct FooBuilder {
    bar: Option<i32>,
}

impl Default for FooBuilder {
    fn default() -> (r: Self)
        ensures
            r.spec_bar() is None,
    {
        FooBuilder { bar: None }
    }
}

impl FooBuilder {
    /// The value given to `bar`, if any.
    pub closed spec fn spec_bar(&self) -> Option<i32> {
        self.bar
    }

    /// Sets `bar`.
    pub fn bar(&mut self, value: i32) -> (r: &mut Self)
        ensures
            r.spec_bar() == Some(value),
            *final(self) == *final(r),
    {
        let new = self;
        new.bar = Some(value);
        new
    }

    /// Builds a new `Foo`; fails if `bar` was not set.
    pub fn build(&self) -> (r: Result<Foo, FooBuilderError>)
        ensures
            match self.spec_bar() {
                Some(v) => r matches Ok(foo) && foo.bar == v,
                None => r matches Err(FooBuilderError::UninitializedField(f)) && f@ == "bar"@,
            },
    {
        match self.bar {
            Some(value) => Ok(Foo { bar: value }),
            None => Err(FooBuilderError::from(UninitializedFieldError::new("bar"))),
        }
    }
}

/// A `Foo` built with `bar` set to 42.
pub fn build_foo_ok() -> (r: Foo)
    ensures
        r.bar == 42,
{
    let mut b = FooBuilder::default();
    b.bar(42);
    match b.build() {
        Ok(foo) => foo,
        Err(_) => Foo { bar: 0 },
    }
}

/// The message of the error of building a `Foo` without setting `bar`.
pub fn build_foo_err() -> (r: Option<String>)
    ensures
        r matches Some(m) && m@ == "`bar` must be initialized"@,
{
    let foo = FooBuilder::default().build();
    proof {
        reveal_strlit("`");
        reveal_strlit("bar");
        reveal_strlit("` must be initialized");
        reveal_strlit("`bar` must be initialized");
        assert("`"@ + "bar"@ + "` must be initialized"@ =~= "`bar` must be initialized"@);
    }
    match foo {
        Ok(_) => None,
        Err(err) => Some(err.message()),
    }
}

} // verus!
