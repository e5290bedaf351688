use derive_builder::derive::{builder_for_struct, checked_builder_for_struct};
use derive_builder::generics::Generics;
use derive_builder::legacy::check::check_input;
use derive_builder::legacy::syntax::{AttrStyle, Attribute as LegacyAttribute, Body, Field, Lit as LegacyLit, MacroInput, MetaItem, NestedMetaItem, StrStyle};
use derive_builder::macro_options::darling_opts::{Data, DeriveInput, Options};
use derive_builder::macro_options::field::FieldInput;
use derive_builder::meta::{Attribute, Lit, MetaArgs, NestedMeta};
use derive_builder::parsed_literal::ParsedLiteral;
use derive_builder::visibility::Visibility;
use proc_macro2::{Delimiter, TokenStream, TokenTree};

fn flatten(ts: TokenStream, out: &mut Vec<String>) {
    for tt in ts {
        match tt {
            TokenTree::Group(g) => {
                let (open, close) = match g.delimiter() {
                    Delimiter::Parenthesis => ("(", ")"),
                    Delimiter::Brace => ("{", "}"),
                    Delimiter::Bracket => ("[", "]"),
                    Delimiter::None => ("", ""),
                };
                out.push(open.to_string());
                flatten(g.stream(), out);
                out.push(close.to_string());
            }
            TokenTree::Ident(i) => out.push(i.to_string()),
            TokenTree::Punct(p) => out.push(p.as_char().to_string()),
            TokenTree::Literal(l) => out.push(l.to_string()),
        }
    }
}

fn tokens(s: &str) -> Vec<String> {
    let ts: TokenStream = s.parse().expect("source text should be tokens");
    let mut out = Vec::new();
    flatten(ts, &mut out);
    out
}

fn has(out: &str, part: &str) -> bool {
    let o = tokens(out);
    let p = tokens(part);
    o.windows(p.len()).any(|w| w == &p[..])
}


fn item(path: &str, args: MetaArgs) -> NestedMeta {
    NestedMeta { path: path.to_string(), args }
}

fn builder(items: Vec<NestedMeta>) -> Attribute {
    Attribute {
        path: "builder".to_string(),
        args: MetaArgs::List(items),
        meta_text: "builder(...)".to_string(),
        args_text: "...".to_string(),
    }
}

fn input(attrs: Vec<Attribute>, fields: Vec<FieldInput>) -> DeriveInput {
    DeriveInput {
        ident: "Lorem".to_string(),
        vis: Visibility::Public,
        generics: Generics::empty(),
        attrs,
        data: Data::Struct(fields),
    }
}

fn field(name: &str, ty: &str, attrs: Vec<Attribute>) -> FieldInput {
    FieldInput { ident: Some(name.to_string()), ty: ty.to_string(), attrs }
}

#[test]
fn derives_builder_setter_build_and_error() {
    let out = builder_for_struct(input(vec![], vec![field("ipsum", "u32", vec![])]));
    assert!(has(&out, "pub struct LoremBuilder"));
    assert!(has(&out, "ipsum: ::derive_builder::export::core::option::Option<u32>,"));
    assert!(has(&out, "pub fn ipsum(&mut self, value: u32) -> &mut Self"), "{}", out);
    assert!(has(&out, "pub fn build(&self)"));
    assert!(has(&out, "pub enum LoremBuilderError"));
    assert!(!out.contains("compile_error"));
}

#[test]
fn reports_every_error_in_order() {
    let attrs = vec![builder(vec![
        item("pattern", MetaArgs::Value(Lit::Str("owned".to_string()))),
        item("pattern", MetaArgs::Value(Lit::Str("owned".to_string()))),
        item("no_such_option", MetaArgs::Word),
    ])];
    let out = builder_for_struct(input(attrs, vec![field("ipsum", "u32", vec![])]));
    assert_eq!(
        out,
        "::core::compile_error! { \"duplicate attribute\" } ::core::compile_error! { \"unrecognized derive_builder attribute\" } "
    );
}

#[test]
fn not_a_struct() {
    let mut ast = input(vec![], vec![]);
    ast.data = Data::Other;
    assert_eq!(
        builder_for_struct(ast),
        "::core::compile_error! { \"this derive macro requires a struct with named fields\" } "
    );
}

#[test]
fn existing_error_type_is_not_generated() {
    let attrs = vec![builder(vec![item(
        "build_fn",
        MetaArgs::List(vec![item("error", MetaArgs::Value(Lit::Str("MyError".to_string())))]),
    )])];
    let out = builder_for_struct(input(attrs, vec![field("ipsum", "u32", vec![])]));
    assert!(out.contains("MyError"));
    assert!(!out.contains("LoremBuilderError"));
}

#[test]
fn options_read_from_input() {
    let attrs = vec![builder(vec![
        item("name", MetaArgs::Value(Lit::Str("LoremMaker".to_string()))),
        item("pattern", MetaArgs::Value(Lit::Str("owned".to_string()))),
    ])];
    let opts = Options::from_derive_input(input(attrs, vec![])).unwrap();
    assert_eq!(opts.builder_ident(), "LoremMaker");
    assert_eq!(opts.builder_error_ident(), "LoremMakerError");
    assert!(!opts.requires_clone());
}

#[test]
fn parsed_literal_reads_paths_only() {
    let p = ParsedLiteral::from_value(&Lit::Str("a::b".to_string())).unwrap();
    let mut out = String::new();
    p.to_tokens(&mut out);
    assert_eq!(out, "a::b");
    assert!(ParsedLiteral::from_value(&Lit::Str("not a path!".to_string())).is_err());
    assert_eq!(
        ParsedLiteral::from_value(&Lit::Expr("42".to_string())).unwrap_err(),
        "expected string literal"
    );
}

fn legacy_builder_attr(items: Vec<NestedMetaItem>) -> LegacyAttribute {
    LegacyAttribute {
        style: AttrStyle::Outer,
        value: MetaItem::List("builder".to_string(), items),
        is_sugared_doc: false,
        tokens: "#[builder(...)]".to_string(),
    }
}

fn legacy_input(attrs: Vec<LegacyAttribute>, fields: Vec<Field>) -> MacroInput {
    MacroInput {
        ident: "Lorem".to_string(),
        vis: Visibility::Inherited,
        attrs,
        generics: Generics::empty(),
        body: Body::Struct(fields),
    }
}

#[test]
fn legacy_check_input_messages() {
    assert_eq!(check_input(&legacy_input(vec![], vec![])), Ok(()));
    let unknown = legacy_input(
        vec![legacy_builder_attr(vec![NestedMetaItem::MetaItem(MetaItem::Word("frobnicate".to_string()))])],
        vec![],
    );
    assert_eq!(check_input(&unknown), Err("Unknown option `Ident(\"frobnicate\")`".to_string()));
    let bad_pattern = legacy_input(
        vec![legacy_builder_attr(vec![NestedMetaItem::MetaItem(MetaItem::NameValue(
            "pattern".to_string(),
            LegacyLit::Str("sideways".to_string(), StrStyle::Cooked),
        ))])],
        vec![],
    );
    assert_eq!(check_input(&bad_pattern), Err("Unknown pattern value `sideways`.".to_string()));
    let named_field = legacy_input(
        vec![],
        vec![Field {
            ident: Some("ipsum".to_string()),
            vis: Visibility::Inherited,
            ty: "u8".to_string(),
            attrs: vec![legacy_builder_attr(vec![NestedMetaItem::MetaItem(MetaItem::NameValue(
                "name".to_string(),
                LegacyLit::Str("X".to_string(), StrStyle::Cooked),
            ))])],
        }],
    );
    assert_eq!(
        check_input(&named_field),
        Err("Builder name can only be set on the stuct level".to_string())
    );
    let mut tuple = legacy_input(vec![], vec![]);
    tuple.body = Body::Other;
    assert_eq!(
        check_input(&tuple),
        Err("#[derive(Builder)] can only be used with braced structs".to_string())
    );
}

fn str_value(s: &str) -> MetaArgs {
    MetaArgs::Value(Lit::Str(s.to_string()))
}

fn only_errors(out: &str) -> bool {
    out.starts_with("::core::compile_error!") && !out.contains("struct")
}

#[test]
fn flag_given_twice_is_a_duplicate() {
    let attrs = vec![builder(vec![item("no_std", MetaArgs::Word), item("no_std", MetaArgs::Word)])];
    let out = builder_for_struct(input(attrs, vec![field("ipsum", "u32", vec![])]));
    assert_eq!(out, "::core::compile_error! { \"duplicate attribute\" } ");
}

#[test]
fn syntax_checks_reject_bad_text() {
    let bad_name = vec![builder(vec![item("name", str_value("not an ident"))])];
    assert!(only_errors(&builder_for_struct(input(bad_name, vec![]))));
    let bad_path = vec![builder(vec![item(
        "build_fn",
        MetaArgs::List(vec![item("error", str_value("not a path!"))]),
    )])];
    assert!(only_errors(&builder_for_struct(input(bad_path, vec![]))));
    let bad_vis = vec![builder(vec![item("vis", str_value("pub(nowhere"))])];
    assert!(only_errors(&builder_for_struct(input(bad_vis, vec![]))));
    let bad_type = vec![builder(vec![item(
        "field",
        MetaArgs::List(vec![item("ty", str_value("+++"))]),
    )])];
    assert!(only_errors(&builder_for_struct(input(vec![], vec![field("ipsum", "u32", bad_type)]))));
    let bad_bool = vec![builder(vec![item(
        "setter",
        MetaArgs::List(vec![item("into", str_value("maybe"))]),
    )])];
    assert!(only_errors(&builder_for_struct(input(vec![], vec![field("ipsum", "u32", bad_bool)]))));
    let bad_meta = vec![Attribute {
        path: "builder_struct_attr".to_string(),
        args: MetaArgs::List(vec![]),
        meta_text: "builder_struct_attr(= =)".to_string(),
        args_text: "= =".to_string(),
    }];
    assert!(only_errors(&builder_for_struct(input(bad_meta, vec![]))));
}

#[test]
fn good_syntax_is_accepted() {
    let attrs = vec![
        builder(vec![
            item("name", str_value("Maker")),
            item("vis", str_value("pub(crate)")),
            item("build_fn", MetaArgs::List(vec![item("error", str_value("crate::Error"))])),
        ]),
        Attribute {
            path: "builder_struct_attr".to_string(),
            args: MetaArgs::List(vec![]),
            meta_text: "builder_struct_attr(doc(hidden))".to_string(),
            args_text: "doc(hidden)".to_string(),
        },
    ];
    let out = builder_for_struct(input(attrs, vec![field("ipsum", "u32", vec![])]));
    assert!(has(&out, "#[doc(hidden)] pub(crate) struct Maker"), "{}", out);
    assert!(has(&out, "crate::Error"));
}

#[test]
fn tuple_struct_without_errors_has_no_builder() {
    let tuple = input(vec![], vec![FieldInput { ident: None, ty: "u32".to_string(), attrs: vec![] }]);
    assert_eq!(checked_builder_for_struct(tuple), None);
    let with_error = input(
        vec![builder(vec![item("no_such_option", MetaArgs::Word)])],
        vec![FieldInput { ident: None, ty: "u32".to_string(), attrs: vec![] }],
    );
    assert_eq!(
        checked_builder_for_struct(with_error),
        Some("::core::compile_error! { \"unrecognized derive_builder attribute\" } ".to_string())
    );
    let named = input(vec![], vec![field("ipsum", "u32", vec![])]);
    assert!(checked_builder_for_struct(named).unwrap().contains("LoremBuilder"));
}

#[test]
fn each_field_reports_its_own_errors_in_order() {
    let struct_attrs = vec![builder(vec![item("frob", MetaArgs::Word)])];
    let first = vec![builder(vec![item("pattern", str_value("sideways"))])];
    let second = vec![builder(vec![item("try_setter", MetaArgs::Word), item("try_setter", MetaArgs::Word)])];
    let out = builder_for_struct(input(
        struct_attrs,
        vec![field("a", "u8", first), field("b", "u8", second)],
    ));
    let errors: Vec<&str> = out.split("::core::compile_error!").filter(|s| !s.is_empty()).collect();
    assert_eq!(errors.len(), 3, "{}", out);
    assert!(errors[0].contains("unrecognized derive_builder attribute"));
    assert!(errors[1].contains("sideways"));
    assert!(errors[2].contains("duplicate attribute"));
}

#[test]
fn field_setting_overrides_struct_setting() {
    let struct_attrs = vec![builder(vec![item(
        "setter",
        MetaArgs::List(vec![item("skip", MetaArgs::Word)]),
    )])];
    let enabled = vec![builder(vec![item("setter", MetaArgs::List(vec![item("skip", str_value("false"))]))])];
    let out = builder_for_struct(input(
        struct_attrs,
        vec![field("a", "u8", vec![]), field("b", "u8", enabled)],
    ));
    assert!(!has(&out, "pub fn a"), "{}", out);
    assert!(has(&out, "pub fn b(&mut self, value: u8) -> &mut Self"), "{}", out);
    assert!(has(&out, "a: ::derive_builder::export::core::marker::PhantomData<u8>,"), "{}", out);
}

#[test]
fn renamed_setter() {
    let attrs = vec![builder(vec![item(
        "setter",
        MetaArgs::List(vec![item("name", str_value("foo"))]),
    )])];
    let out = builder_for_struct(input(
        attrs,
        vec![field("ipsum", "&'static str", vec![]), field("dolor", "&'static str", vec![])],
    ));
    assert_eq!(out, "::core::compile_error! { \"unrecognized derive_builder attribute\" } ");
}

fn generic_input(name: &str, generics: Generics, fields: Vec<FieldInput>) -> DeriveInput {
    DeriveInput {
        ident: name.to_string(),
        vis: Visibility::Inherited,
        generics,
        attrs: vec![],
        data: Data::Struct(fields),
    }
}

#[test]
fn generic_builder() {
    let mut g = Generics::empty();
    g.params.push(derive_builder::generics::GenericParam::Type {
        name: "T".to_string(),
        bounds: vec!["Display".to_string()],
        default: None,
    });
    g.where_predicates.push("T: Clone".to_string());
    let out = builder_for_struct(generic_input(
        "Generic",
        g,
        vec![field("ipsum", "&'static str", vec![]), field("dolor", "T", vec![])],
    ));
    assert!(has(&out, "struct GenericBuilder<T: Display> where T: Clone"), "{}", out);
    assert!(has(&out, "impl<T: Display + ::derive_builder::export::core::clone::Clone> GenericBuilder<T> where T: Clone"), "{}", out);
    assert!(has(&out, "pub fn ipsum(&mut self, value: &'static str) -> &mut Self"), "{}", out);
    assert!(has(&out, "pub fn dolor(&mut self, value: T) -> &mut Self"), "{}", out);
    assert!(has(&out, "-> ::derive_builder::export::core::result::Result<Generic<T>, GenericBuilderError>"), "{}", out);
    assert!(has(&out, "::derive_builder::UninitializedFieldError::from(\"ipsum\")"), "{}", out);
}

#[test]
fn generic_reference_builder() {
    let mut g = Generics::empty();
    g.params.push(derive_builder::generics::GenericParam::Lifetime { name: "'a".to_string(), bounds: vec![] });
    g.params.push(derive_builder::generics::GenericParam::Type {
        name: "T".to_string(),
        bounds: vec!["'a".to_string(), "Default".to_string()],
        default: None,
    });
    g.where_predicates.push("T: Display".to_string());
    let mut ast = generic_input(
        "GenericReference",
        g,
        vec![field("bar", "Option<&'a T>", vec![])],
    );
    ast.vis = Visibility::Public;
    let out = builder_for_struct(ast);
    assert!(has(&out, "pub struct GenericReferenceBuilder<'a, T: 'a + Default> where T: Display"), "{}", out);
    assert!(has(&out, "pub fn bar(&mut self, value: Option<&'a T>) -> &mut Self"), "{}", out);
    assert!(has(&out, "Result<GenericReference<'a, T>, GenericReferenceBuilderError>"), "{}", out);
}

#[test]
fn builder_struct_drops_parameter_defaults() {
    let mut g = Generics::empty();
    g.params.push(derive_builder::generics::GenericParam::Type {
        name: "T".to_string(),
        bounds: vec!["Clone".to_string()],
        default: Some("u8".to_string()),
    });
    let out = builder_for_struct(generic_input("Defaulted", g, vec![field("ipsum", "T", vec![])]));
    assert!(has(&out, "struct DefaultedBuilder<T: Clone>"), "{}", out);
    assert!(!out.contains("= u8"), "{}", out);
}
