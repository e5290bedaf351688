use derive_builder::expanded::no_alloc::{
    build_fee_err, build_fee_ok, build_foo_err, build_foo_ok, FeeBuilder, FeeBuilderError,
    FooBuilder, FooError,
};

#[test]
fn test_foo_builder_ok() {
    assert_eq!(build_foo_ok().bar, 42);
}

#[test]
fn test_foo_builder_err() {
    assert_eq!(build_foo_err(), Some(FooError("bar")));
}

#[test]
fn test_fee_builder_ok() {
    assert_eq!(build_fee_ok().bar, 42);
}

#[test]
fn test_fee_builder_err() {
    assert!(matches!(
        build_fee_err(),
        Some(FeeBuilderError::UninitializedField("bar"))
    ));
}

#[test]
fn foo_builder_keeps_last_value() {
    let mut builder = FooBuilder::default();
    builder.bar(1).bar(7);
    assert_eq!(builder.build().unwrap().bar, 7);
}

#[test]
fn fee_builder_builds_after_set() {
    let mut builder = FeeBuilder::default();
    builder.bar(-3);
    assert_eq!(builder.build().unwrap().bar, -3);
}
