use derive_builder::expanded::no_std::{build_foo_err, build_foo_ok, FooBuilder, FooBuilderError};

#[test]
fn test_builder_ok() {
    assert_eq!(build_foo_ok().bar, 42);
}

#[test]
fn test_builder_err() {
    assert_eq!(
        build_foo_err().as_deref(),
        Some("`bar` must be initialized")
    );
}

#[test]
fn validation_error_message_is_the_error() {
    let e = FooBuilderError::from(String::from("bar is negative"));
    assert_eq!(e.message(), "bar is negative");
}

#[test]
fn builder_clone_is_independent() {
    let mut a = FooBuilder::default();
    a.bar(1);
    let mut b = a.clone();
    b.bar(2);
    assert_eq!(a.build().unwrap().bar, 1);
    assert_eq!(b.build().unwrap().bar, 2);
}
