//! Builders for a `no_std` crate without an allocator: one whose build
//! method returns an error type of the crate, one whose generated error
//! type has no validation variant.
use vstd::prelude::*;
use crate::expanded::uninitialized::UninitializedFieldError;
use vstd::std_specs::convert::FromSpecImpl;

verus! {

/// The error of `FooBuilder::build`: the name of the field that was not set.
#[derive(Debug, Eq, PartialEq)]
pub struct FooError(pub &'static str);

impl From<UninitializedFieldError> for FooError {
    fn from(err: UninitializedFieldError) -> (r: Self) {
        Self(err.field_name())
    }
}

impl FromSpecImpl<UninitializedFieldError> for FooError {
    open spec fn obeys_from_spec() -> bool {
        true
    }

    open spec fn from_spec(v: UninitializedFieldError) -> FooError {
        FooError(v.0)
    }
}

/// A struct whose builder reports errors as `FooError`.
#[derive(Debug)]
pub struct Foo {
    /// A required field.
    pub bar: i32,
}

/// Builder for [`Foo`].
#[derive(Clone, Debug)]
pub struct FooBuilder {
    bar: Option<i32>,
}

impl Default for FooBuilder {
    fn default() -> (r: Self)
        ensures
            r.spec_bar() is None,
    {
        FooBuilder { bar: None }
    }
}

impl FooBuilder {
    /// The value given to `bar`, if any.
    pub closed spec fn spec_bar(&self) -> Option<i32> {
        self.bar
    }

    /// Sets `bar`.
    pub fn bar(&mut self, value: i32) -> (r: &mut Self)
        ensures
            r.spec_bar() == Some(value),
            *final(self) == *final(r),
    {
        let new = self;
        new.bar = Some(value);
        new
    }

    /// Builds a new `Foo`; fails if `bar` was not set.
    pub fn build(&self) -> (r: Result<Foo, FooError>)
        ensures
            match self.spec_bar() {
                Some(v) => r matches Ok(foo) && foo.bar == v,
                None => r matches Err(e) && e.0@ == "bar"@,
            },
    {
        match self.bar {
            Some(value) => Ok(Foo { bar: value }),
            None => Err(FooError::from(UninitializedFieldError::new("bar"))),
        }
    }
}

/// The error of `FeeBuilder::build`.
#[derive(Debug)]
#[non_exhaustive]
pub enum FeeBuilderError {
    /// Uninitialized field
    UninitializedField(&'static str),
}

impl From<UninitializedFieldError> for FeeBuilderError {
    fn from(s: UninitializedFieldError) -> (r: Self) {
        Self::UninitializedField(s.field_name())
    }
}

impl FromSpecImpl<UninitializedFieldError> for FeeBuilderError {
    open spec fn obeys_from_spec() -> bool {
        true
    }

    open spec fn from_spec(v: UninitializedFieldError) -> FeeBuilderError {
        FeeBuilderError::UninitializedField(v.0)
    }
}

/// A struct whose builder has a generated error type without a validation variant.
#[derive(Debug)]
pub struct Fee {
    /// A required field.
    pub bar: i32,
}

/// Builder for [`Fee`].
#[derive(Clone, Debug)]
pub struct FeeBuilder {
    bar: Option<i32>,
}

impl Default for FeeBuilder {
    fn default() -> (r: Self)
        ensures
            r.spec_bar() is None,
    {
        FeeBuilder { bar: None }
    }
}

impl FeeBuilder {
    /// The value given to `bar`, if any.
    pub closed spec fn spec_bar(&self) -> Option<i32> {
        self.bar
    }

    /// Sets `bar`.
    pub fn bar(&mut self, value: i32) -> (r: &mut Self)
        ensures
            r.spec_bar() == Some(value),
            *final(self) == *final(r),
    {
        let new = self;
        new.bar = Some(value);
        new
    }

    /// Builds a new `Fee`; fails if `bar` was not set.
    pub fn build(&self) -> (r: Result<Fee, FeeBuilderError>)
        ensures
            match self.spec_bar() {
                Some(v) => r matches Ok(fee) && fee.bar == v,
                None => r matches Err(FeeBuilderError::UninitializedField(f)) && f@ == "bar"@,
            },
    {
        match self.bar {
            Some(value) => Ok(Fee { bar: value }),
            None => Err(FeeBuilderError::from(UninitializedFieldError::new("bar"))),
        }
    }
}

/// A `Foo` built with `bar` set to 42.
pub fn build_foo_ok() -> (r: Foo)
    ensures
        r.bar == 42,
{
    let mut b = FooBuilder::default();
    b.bar(42);
    match b.build() {
        Ok(foo) => foo,
        Err(_) => Foo { bar: 0 },
    }
}

/// The error of building a `Foo` without setting `bar`.
pub fn build_foo_err() -> (r: Option<FooError>)
    ensures
        r matches Some(e) && e.0@ == "bar"@,
{
    let foo = FooBuilder::default().build();
    match foo {
        Ok(_) => None,
        Err(e) => Some(e),
    }
}

/// A `Foo` built with `bar` set to 42.
pub fn build_fee_ok() -> (r: Foo)
    ensures
        r.bar == 42,
{
    build_foo_ok()
}

/// The error of building a `Fee` without setting `bar`.
pub fn build_fee_err() -> (r: Option<FeeBuilderError>)
    ensures
        r matches Some(FeeBuilderError::UninitializedField(f)) && f@ == "bar"@,
{
    let fee = FeeBuilder::default().build();
    match fee {
        Ok(_) => None,
        Err(e) => Some(e),
    }
}

} // verus!
