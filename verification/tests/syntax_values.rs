use derive_builder::block::BlockContents;
use derive_builder::derive::builder_for_struct;
use derive_builder::generics::Generics;
use derive_builder::macro_options::darling_opts::{Data, DeriveInput, Options};
use derive_builder::macro_options::field::FieldInput;
use derive_builder::meta::{bool_from_str, ident_string, Attribute, Lit, MetaArgs, NestedMeta};
use derive_builder::visibility::Visibility;

fn item(path: &str, args: MetaArgs) -> NestedMeta {
    NestedMeta { path: path.to_string(), args }
}

fn str_value(s: &str) -> MetaArgs {
    MetaArgs::Value(Lit::Str(s.to_string()))
}

fn builder(items: Vec<NestedMeta>) -> Attribute {
    Attribute {
        path: "builder".to_string(),
        args: MetaArgs::List(items),
        meta_text: "builder(...)".to_string(),
        args_text: "...".to_string(),
    }
}

fn input(attrs: Vec<Attribute>, fields: Vec<FieldInput>) -> DeriveInput {
    DeriveInput {
        ident: "Lorem".to_string(),
        vis: Visibility::Public,
        generics: Generics::empty(),
        attrs,
        data: Data::Struct(fields),
    }
}

fn field(name: &str, ty: &str, attrs: Vec<Attribute>) -> FieldInput {
    FieldInput { ident: Some(name.to_string()), ty: ty.to_string(), attrs }
}

fn error(msg: &str) -> String {
    format!("::core::compile_error! {{ \"{}\" }} ", msg)
}

fn parse_block(s: &str) -> Result<BlockContents, String> {
    BlockContents::parse_nested_meta(&item("build", str_value(s)))
}

#[test]
fn identifier_text_is_the_one_syn_reads() {
    assert_eq!(ident_string(&" Foo ".to_string()), "Foo");
    assert_eq!(ident_string(&"Foo".to_string()), "Foo");
    assert_eq!(ident_string(&"\tFoo\n".to_string()), "Foo");
    assert_eq!(ident_string(&"Foo // note".to_string()), "Foo");
    assert_eq!(ident_string(&"/* note */ Foo".to_string()), "Foo");
    assert_eq!(ident_string(&"a b".to_string()), "a b");
}

#[test]
fn comments_around_a_name_are_not_emitted() {
    let attrs = vec![builder(vec![item("name", str_value("Foo // note"))])];
    let opts = Options::from_derive_input(input(attrs, vec![])).unwrap();
    assert_eq!(opts.builder_ident(), "Foo");
    assert_eq!(opts.builder_error_ident(), "FooError");
}

#[test]
fn syntax_is_read_by_one_lexer() {
    let attrs = vec![builder(vec![item("field", MetaArgs::List(vec![item("ty", str_value("(/*ERROR*/)"))]))])];
    let out = builder_for_struct(input(vec![], vec![field("foo", "u8", attrs)]));
    assert_eq!(out, error("expected type"));
}

#[test]
fn builder_name_is_the_identifier_without_spaces() {
    let attrs = vec![builder(vec![item("name", str_value(" Foo "))])];
    let opts = Options::from_derive_input(input(attrs, vec![])).unwrap();
    assert_eq!(opts.builder_ident(), "Foo");
    assert_eq!(opts.builder_error_ident(), "FooError");
}

#[test]
fn setter_prefix_and_name_are_identifiers_without_spaces() {
    let struct_attrs = vec![builder(vec![item(
        "setter",
        MetaArgs::List(vec![item("prefix", str_value(" x "))]),
    )])];
    let renamed = vec![builder(vec![item(
        "setter",
        MetaArgs::List(vec![item("name", str_value(" renamed "))]),
    )])];
    let out = builder_for_struct(input(
        struct_attrs,
        vec![field("foo", "u8", vec![]), field("bar", "u8", renamed)],
    ));
    assert!(out.contains("x_foo"), "{}", out);
    assert!(out.contains("fn renamed"), "{}", out);
}

#[test]
fn build_fn_name_is_the_identifier_without_spaces() {
    let attrs = vec![builder(vec![item(
        "build_fn",
        MetaArgs::List(vec![item("name", str_value(" make "))]),
    )])];
    let out = builder_for_struct(input(attrs, vec![field("foo", "u8", vec![])]));
    assert!(out.contains("fn make"), "{}", out);
}

#[test]
fn bad_identifier_is_reported() {
    let attrs = vec![builder(vec![item("name", str_value("not an ident"))])];
    assert_eq!(builder_for_struct(input(attrs, vec![])), error("expected identifier"));
}

#[test]
fn bad_path_is_reported() {
    let attrs = vec![builder(vec![item("crate", str_value("not a path!"))])];
    assert_eq!(builder_for_struct(input(attrs, vec![])), error("expected path"));
}

#[test]
fn bad_visibility_is_reported() {
    let attrs = vec![builder(vec![item("vis", str_value("!!!"))])];
    assert_eq!(builder_for_struct(input(attrs, vec![])), error("expected visibility"));
}

#[test]
fn bad_type_is_reported() {
    let attrs = vec![builder(vec![item("field", MetaArgs::List(vec![item("ty", str_value("+++"))]))])];
    let out = builder_for_struct(input(vec![], vec![field("foo", "u8", attrs)]));
    assert_eq!(out, error("expected type"));
}

#[test]
fn bad_meta_is_reported() {
    let attrs = vec![Attribute {
        path: "builder_struct_attr".to_string(),
        args: MetaArgs::List(vec![]),
        meta_text: "builder_struct_attr(= =)".to_string(),
        args_text: "= =".to_string(),
    }];
    assert_eq!(builder_for_struct(input(attrs, vec![])), error("expected meta item"));
}

#[test]
fn bad_and_empty_blocks_are_reported() {
    assert_eq!(parse_block("let x = 2; { x+1").unwrap_err(), "expected statements");
    assert_eq!(parse_block("").unwrap_err(), "expected expression");
    assert_eq!(parse_block("  /* nothing */ ").unwrap_err(), "expected expression");
    assert_eq!(parse_block(";").unwrap().0, ";");
}

#[test]
fn booleans_are_spelled_exactly() {
    assert_eq!(bool_from_str("true"), Ok(true));
    assert_eq!(bool_from_str("false"), Ok(false));
    assert_eq!(bool_from_str(" true"), Err("expected boolean literal".to_string()));
    assert_eq!(bool_from_str("True"), Err("expected boolean literal".to_string()));
    let attrs = vec![builder(vec![item("setter", MetaArgs::List(vec![item("into", str_value("maybe"))]))])];
    let out = builder_for_struct(input(vec![], vec![field("foo", "u8", attrs)]));
    assert_eq!(out, error("expected boolean literal"));
    let attrs = vec![builder(vec![item(
        "setter",
        MetaArgs::List(vec![item("into", MetaArgs::Value(Lit::Expr("true".to_string())))]),
    )])];
    let out = builder_for_struct(input(vec![], vec![field("foo", "u8", attrs)]));
    assert!(out.contains("convert::Into<u8>"), "{}", out);
}

#[test]
fn split_builder_attributes_read_like_one() {
    let joined = vec![builder(vec![
        item("name", str_value("Maker")),
        item("pattern", str_value("owned")),
        item("setter", MetaArgs::List(vec![item("prefix", str_value("with"))])),
    ])];
    let split = vec![
        builder(vec![item("name", str_value("Maker"))]),
        builder(vec![item("pattern", str_value("owned"))]),
        builder(vec![item("setter", MetaArgs::List(vec![item("prefix", str_value("with"))]))]),
    ];
    let a = builder_for_struct(input(joined, vec![field("foo", "u8", vec![])]));
    let b = builder_for_struct(input(split, vec![field("foo", "u8", vec![])]));
    assert_eq!(a, b);
    assert!(a.contains("with_foo"), "{}", a);
    let twice = vec![
        builder(vec![item("no_std", MetaArgs::Word)]),
        builder(vec![item("no_std", MetaArgs::Word)]),
    ];
    assert_eq!(builder_for_struct(input(twice, vec![])), error("duplicate attribute"));
}
