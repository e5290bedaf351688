use derive_builder::expanded::dummy::{Bar, BarBuilder, FooBuilderError};

#[test]
fn test() {
    let x: Bar = BarBuilder::default().a(42).build().unwrap();
    assert_eq!(x.a, 42);
}

#[test]
fn missing_field_is_named() {
    let e = BarBuilder::default().build().unwrap_err();
    assert!(matches!(e, FooBuilderError::UninitializedField("a")));
}
