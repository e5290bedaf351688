use derive_builder::generics::{GenericParam, Generics};
use derive_builder::legacy::codegen::{builder_for_struct, derive_initializer, derive_setter};
use derive_builder::legacy::deprecation_notes::DeprecationNotes;
use derive_builder::legacy::options::{
    FieldMode, OptionsBuilder, SetterPattern, StructOptions,
};
use derive_builder::legacy::syntax::{
    filter_attr, parse_lit_as_bool, parse_lit_as_cooked_string, AttrStyle, Attribute, Body,
    Field, Lit, MacroInput, MetaItem, NestedMetaItem, StrStyle,
};
use derive_builder::visibility::Visibility;
use proc_macro2::{Delimiter, TokenStream, TokenTree};

fn flatten(ts: TokenStream, out: &mut Vec<String>) {
    for tt in ts {
        match tt {
            TokenTree::Group(g) => {
                let (open, close) = match g.delimiter() {
                    Delimiter::Parenthesis => ("(", ")"),
                    Delimiter::Brace => ("{", "}"),
                    Delimiter::Bracket => ("[", "]"),
                    Delimiter::None => ("", ""),
                };
                out.push(open.to_string());
                flatten(g.stream(), out);
                out.push(close.to_string());
            }
            TokenTree::Ident(i) => out.push(i.to_string()),
            TokenTree::Punct(p) => out.push(p.as_char().to_string()),
            TokenTree::Literal(l) => out.push(l.to_string()),
        }
    }
}

fn tokens(s: &str) -> Vec<String> {
    let ts: TokenStream = s.parse().expect("source text should be tokens");
    let mut out = Vec::new();
    flatten(ts, &mut out);
    out
}

fn cooked(s: &str) -> Lit {
    Lit::Str(s.to_string(), StrStyle::Cooked)
}

fn word(s: &str) -> NestedMetaItem {
    NestedMetaItem::MetaItem(MetaItem::Word(s.to_string()))
}

fn name_value(s: &str, lit: Lit) -> NestedMetaItem {
    NestedMetaItem::MetaItem(MetaItem::NameValue(s.to_string(), lit))
}

fn list(s: &str, items: Vec<NestedMetaItem>) -> NestedMetaItem {
    NestedMetaItem::MetaItem(MetaItem::List(s.to_string(), items))
}

fn outer(value: MetaItem, text: &str) -> Attribute {
    Attribute {
        style: AttrStyle::Outer,
        value,
        is_sugared_doc: false,
        tokens: text.to_string(),
    }
}

fn builder_attr(items: Vec<NestedMetaItem>) -> Attribute {
    outer(MetaItem::List("builder".to_string(), items), "#[builder(...)]")
}

fn doc_comment(text: &str) -> Attribute {
    Attribute {
        style: AttrStyle::Outer,
        value: MetaItem::NameValue("doc".to_string(), cooked(text)),
        is_sugared_doc: true,
        tokens: format!("#[doc = {:?}]", text),
    }
}

fn named(name: &str, ty: &str, attrs: Vec<Attribute>) -> Field {
    Field {
        ident: Some(name.to_string()),
        vis: Visibility::Inherited,
        ty: ty.to_string(),
        attrs,
    }
}

fn input(name: &str, attrs: Vec<Attribute>, fields: Vec<Field>) -> MacroInput {
    MacroInput {
        ident: name.to_string(),
        vis: Visibility::Inherited,
        attrs,
        generics: Generics::empty(),
        body: Body::Struct(fields),
    }
}

#[test]
fn annotations() {
    let ast = input(
        "Lorem",
        vec![
            doc_comment(" This is a doc comment for the struct"),
            outer(
                MetaItem::List("warn".to_string(), vec![word("missing_docs")]),
                "#[warn(missing_docs)]",
            ),
            outer(
                MetaItem::List("allow".to_string(), vec![word("non_snake_case")]),
                "#[allow(non_snake_case)]",
            ),
        ],
        vec![
            named(
                "field_with_doc_comment",
                "String",
                vec![doc_comment(" This is a doc comment for a field")],
            ),
            named(
                "undocumented",
                "String",
                vec![outer(
                    MetaItem::List("allow".to_string(), vec![word("missing_docs")]),
                    "#[allow(missing_docs)]",
                )],
            ),
            named(
                "CamelCase",
                "i32",
                vec![outer(
                    MetaItem::List("allow".to_string(), vec![word("non_snake_case")]),
                    "#[allow(non_snake_case)]",
                )],
            ),
            named(
                "mac_only",
                "()",
                vec![outer(
                    MetaItem::List(
                        "cfg".to_string(),
                        vec![name_value("target_os", cooked("macos"))],
                    ),
                    "#[cfg(target_os = \"macos\")]",
                )],
            ),
        ],
    );
    let expected = r#"
        #[derive(Default, Clone)]
        struct LoremBuilder {
            #[doc = " This is a doc comment for a field"]
            field_with_doc_comment: ::std::option::Option<String>,
            #[allow(missing_docs)]
            undocumented: ::std::option::Option<String>,
            #[allow(non_snake_case)]
            CamelCase: ::std::option::Option<i32>,
            #[cfg(target_os = "macos")]
            mac_only: ::std::option::Option<()>,
        }
        #[allow(dead_code)]
        impl LoremBuilder {
            #[doc = " This is a doc comment for a field"]
            pub fn field_with_doc_comment<VALUE: ::std::convert::Into<String>>(&mut self, value: VALUE) -> &mut Self {
                let mut new = self;
                new.field_with_doc_comment = ::std::option::Option::Some(value.into());
                new
            }
            #[allow(missing_docs)]
            pub fn undocumented<VALUE: ::std::convert::Into<String>>(&mut self, value: VALUE) -> &mut Self {
                let mut new = self;
                new.undocumented = ::std::option::Option::Some(value.into());
                new
            }
            #[allow(non_snake_case)]
            pub fn CamelCase<VALUE: ::std::convert::Into<i32>>(&mut self, value: VALUE) -> &mut Self {
                let mut new = self;
                new.CamelCase = ::std::option::Option::Some(value.into());
                new
            }
            #[cfg(target_os = "macos")]
            pub fn mac_only<VALUE: ::std::convert::Into<()>>(&mut self, value: VALUE) -> &mut Self {
                let mut new = self;
                new.mac_only = ::std::option::Option::Some(value.into());
                new
            }
            fn build(&self) -> ::std::result::Result<Lorem, ::std::string::String> {
                Ok(Lorem {
                    field_with_doc_comment: ::std::clone::Clone::clone(self.field_with_doc_comment.as_ref().ok_or("`field_with_doc_comment` must be initialized")?),
                    undocumented: ::std::clone::Clone::clone(self.undocumented.as_ref().ok_or("`undocumented` must be initialized")?),
                    CamelCase: ::std::clone::Clone::clone(self.CamelCase.as_ref().ok_or("`CamelCase` must be initialized")?),
                    mac_only: ::std::clone::Clone::clone(self.mac_only.as_ref().ok_or("`mac_only` must be initialized")?),
                })
            }
        }
    "#;
    assert_eq!(tokens(&builder_for_struct(&ast)), tokens(expected));
}

#[test]
fn custom_types_empty_struct() {
    let ast = input("IgnoreEmptyStruct", vec![], vec![]);
    let expected = r#"
        #[derive(Default, Clone)] struct IgnoreEmptyStructBuilder { }
        #[allow(dead_code)] impl IgnoreEmptyStructBuilder {
            fn build(&self) -> ::std::result::Result<IgnoreEmptyStruct, ::std::string::String> {
                Ok(IgnoreEmptyStruct { })
            }
        }
    "#;
    let out = builder_for_struct(&ast);
    assert_eq!(tokens(&out), tokens(expected));
    // The builder refers to `Clone`, `Into`, `Option` and `Result` by full
    // path only, so local types of those names do not interfere.
    let toks = tokens(&out);
    let body = toks.iter().position(|t| t == "impl").unwrap();
    for shadowed in ["Clone", "Into", "Option", "Result"] {
        for (i, t) in toks.iter().enumerate().skip(body) {
            if t == shadowed {
                assert_eq!(toks[i - 1], ":");
            }
        }
    }
}

#[test]
fn empty_struct_empty_struct() {
    let mut ast = input("IgnoreEmptyStruct", vec![], vec![]);
    ast.attrs.push(outer(
        MetaItem::List("allow".to_string(), vec![word("dead_code")]),
        "#[allow(dead_code)]",
    ));
    let out = builder_for_struct(&ast);
    assert!(out.contains("struct IgnoreEmptyStructBuilder"));
    assert!(out.contains("Ok(IgnoreEmptyStruct {"));
}

#[test]
fn setter_opt_out() {
    let ast = input(
        "SetterOptOut",
        vec![builder_attr(vec![list(
            "setter",
            vec![name_value("skip", cooked("false"))],
        )])],
        vec![
            named("setter_present_by_explicit_default", "u32", vec![]),
            named(
                "setter_skipped_by_explicit_opt_out",
                "u32",
                vec![builder_attr(vec![list(
                    "setter",
                    vec![name_value("skip", cooked("true"))],
                )])],
            ),
            named(
                "setter_skipped_by_shorthand_opt_out",
                "u32",
                vec![builder_attr(vec![list("setter", vec![word("skip")])])],
            ),
        ],
    );
    let expected = r#"
        #[derive(Default, Clone)]
        struct SetterOptOutBuilder {
            setter_present_by_explicit_default: ::std::option::Option<u32>,
        }
        #[allow(dead_code)]
        impl SetterOptOutBuilder {
            pub fn setter_present_by_explicit_default<VALUE: ::std::convert::Into<u32>>(&mut self, value: VALUE) -> &mut Self {
                let mut new = self;
                new.setter_present_by_explicit_default = ::std::option::Option::Some(value.into());
                new
            }
            fn build(&self) -> ::std::result::Result<SetterOptOut, ::std::string::String> {
                Ok(SetterOptOut {
                    setter_present_by_explicit_default: ::std::clone::Clone::clone(self.setter_present_by_explicit_default.as_ref().ok_or("`setter_present_by_explicit_default` must be initialized")?),
                    setter_skipped_by_explicit_opt_out: ::std::default::Default::default(),
                    setter_skipped_by_shorthand_opt_out: ::std::default::Default::default(),
                })
            }
        }
    "#;
    assert_eq!(tokens(&builder_for_struct(&ast)), tokens(expected));
}

#[test]
fn setter_opt_in() {
    let ast = input(
        "SetterOptIn",
        vec![builder_attr(vec![list("setter", vec![word("skip")])])],
        vec![
            named("setter_skipped_by_shorthand_default", "u32", vec![]),
            named(
                "setter_present_by_explicit_opt_in",
                "u32",
                vec![builder_attr(vec![list(
                    "setter",
                    vec![name_value("skip", cooked("false"))],
                )])],
            ),
            named(
                "setter_present_by_shorthand_opt_in",
                "u32",
                vec![builder_attr(vec![word("setter")])],
            ),
        ],
    );
    let expected = r#"
        #[derive(Default, Clone)]
        struct SetterOptInBuilder {
            setter_present_by_explicit_opt_in: ::std::option::Option<u32>,
            setter_present_by_shorthand_opt_in: ::std::option::Option<u32>,
        }
        #[allow(dead_code)]
        impl SetterOptInBuilder {
            pub fn setter_present_by_explicit_opt_in<VALUE: ::std::convert::Into<u32>>(&mut self, value: VALUE) -> &mut Self {
                let mut new = self;
                new.setter_present_by_explicit_opt_in = ::std::option::Option::Some(value.into());
                new
            }
            pub fn setter_present_by_shorthand_opt_in<VALUE: ::std::convert::Into<u32>>(&mut self, value: VALUE) -> &mut Self {
                let mut new = self;
                new.setter_present_by_shorthand_opt_in = ::std::option::Option::Some(value.into());
                new
            }
            fn build(&self) -> ::std::result::Result<SetterOptIn, ::std::string::String> {
                Ok(SetterOptIn {
                    setter_skipped_by_shorthand_default: ::std::default::Default::default(),
                    setter_present_by_explicit_opt_in: ::std::clone::Clone::clone(self.setter_present_by_explicit_opt_in.as_ref().ok_or("`setter_present_by_explicit_opt_in` must be initialized")?),
                    setter_present_by_shorthand_opt_in: ::std::clone::Clone::clone(self.setter_present_by_shorthand_opt_in.as_ref().ok_or("`setter_present_by_shorthand_opt_in` must be initialized")?),
                })
            }
        }
    "#;
    assert_eq!(tokens(&builder_for_struct(&ast)), tokens(expected));
}

#[test]
fn owned_pattern_and_name_and_prefix() {
    let mut ast = input(
        "Lorem",
        vec![builder_attr(vec![
            name_value("pattern", cooked("owned")),
            name_value("name", cooked("LoremMaker")),
            list("setter", vec![name_value("prefix", cooked("with"))]),
        ])],
        vec![named("ipsum", "String", vec![])],
    );
    ast.vis = Visibility::Public;
    let expected = r#"
        #[derive(Default, Clone)]
        pub struct LoremMaker {
            ipsum: ::std::option::Option<String>,
        }
        #[allow(dead_code)]
        impl LoremMaker {
            pub fn with_ipsum<VALUE: ::std::convert::Into<String>>(self, value: VALUE) -> Self {
                let mut new = self;
                new.ipsum = ::std::option::Option::Some(value.into());
                new
            }
            pub fn build(self) -> ::std::result::Result<Lorem, ::std::string::String> {
                Ok(Lorem {
                    ipsum: self.ipsum.ok_or("`ipsum` must be initialized")?,
                })
            }
        }
    "#;
    assert_eq!(tokens(&builder_for_struct(&ast)), tokens(expected));
}

#[test]
fn generic_struct() {
    let mut ast = input("GenLorem", vec![], vec![named("dolor", "T", vec![])]);
    ast.generics.params.push(GenericParam::Type {
        name: "T".to_string(),
        bounds: vec!["Clone".to_string()],
        default: None,
    });
    let out = builder_for_struct(&ast);
    let expected_head = "#[derive(Default, Clone)] struct GenLoremBuilder<T>";
    assert_eq!(
        tokens(&out)[..tokens(expected_head).len()],
        tokens(expected_head)[..]
    );
    assert!(tokens(&out).windows(10).any(|w| w.join(" ") == "impl < T : Clone > GenLoremBuilder < T >"));
}

#[test]
fn private_setters_and_immutable_field() {
    let field_attrs = vec![builder_attr(vec![
        word("private"),
        name_value("pattern", cooked("immutable")),
    ])];
    let f = named("ipsum", "u8", field_attrs);
    let ast = input("Lorem", vec![], vec![]);
    let struct_opts = StructOptions::from_input(&ast);
    let mut b = OptionsBuilder::<FieldMode>::default();
    b.parse_attributes(&f.attrs);
    let opts = b.build("ipsum", &struct_opts);
    assert_eq!(*opts.setter_pattern(), SetterPattern::Immutable);
    assert_eq!(*opts.setter_visibility(), Visibility::Inherited);
    let expected = r#"
        fn ipsum<VALUE: ::std::convert::Into<u8>>(&self, value: VALUE) -> Self {
            let mut new = ::std::clone::Clone::clone(self);
            new.ipsum = ::std::option::Option::Some(value.into());
            new
        }
    "#;
    assert_eq!(tokens(&derive_setter(&f, &opts)), tokens(expected));
    assert_eq!(
        tokens(&derive_initializer(&f, &opts)),
        tokens(r#"ipsum: ::std::clone::Clone::clone(self.ipsum.as_ref().ok_or("`ipsum` must be initialized")?),"#)
    );
}

#[test]
fn deprecated_setter_prefix_records_note() {
    let ast = input(
        "Lorem",
        vec![builder_attr(vec![name_value("setter_prefix", cooked("with"))])],
        vec![],
    );
    let opts = StructOptions::from_input(&ast);
    assert_eq!(opts.field_defaults().setter_prefix(), "with");
    let mut expected = DeprecationNotes::new();
    expected.push(
        "warning: deprecated syntax `#[builder(setter_prefix=\"with\")]`, please use `#[builder(setter(prefix=\"with\"))]` instead!"
            .to_string(),
    );
    let mut got = String::new();
    opts.field_defaults().deprecation_notes().to_tokens(&mut got);
    let mut want = String::new();
    expected.to_tokens(&mut want);
    assert_eq!(got, want);
    assert_eq!(opts.builder_name(), "LoremBuilder");
}

#[test]
fn struct_defaults() {
    let ast = input("Lorem", vec![doc_comment(" docs")], vec![]);
    let opts = StructOptions::from_input(&ast);
    assert_eq!(opts.builder_name(), "LoremBuilder");
    assert_eq!(*opts.builder_visibility(), Visibility::Inherited);
    assert!(opts.field_defaults().setter_enabled());
    assert_eq!(*opts.field_defaults().setter_pattern(), SetterPattern::Mutable);
    assert_eq!(opts.field_defaults().setter_prefix(), "");
    assert_eq!(*opts.field_defaults().setter_visibility(), Visibility::Public);
    assert_eq!(opts.field_defaults().field_name(), "");
}

#[test]
fn lit_as_bool() {
    assert_eq!(parse_lit_as_bool(&Lit::Bool(true)), Ok(true));
    assert_eq!(parse_lit_as_bool(&cooked("false")), Ok(false));
    assert_eq!(
        parse_lit_as_bool(&cooked("yes")),
        Err("Invalid boolean value `yes`, expected `true` or `false`.".to_string())
    );
    assert_eq!(
        parse_lit_as_bool(&Lit::Other("Int(5, Unsuffixed)".to_string())),
        Err("Value must be a bool or string, but found `Int(5, Unsuffixed)`".to_string())
    );
    assert_eq!(
        parse_lit_as_bool(&Lit::Str("true".to_string(), StrStyle::Raw)),
        Err("Value must be a bool or string, but found `Str(\"true\", Raw)`".to_string())
    );
}

#[test]
fn lit_as_cooked_string() {
    assert_eq!(parse_lit_as_cooked_string(&cooked("with")), Ok(&"with".to_string()));
    assert_eq!(
        parse_lit_as_cooked_string(&Lit::Str("x".to_string(), StrStyle::Raw)),
        Err("Non-standard string found `Str(\"x\", Raw)`".to_string())
    );
    assert_eq!(
        parse_lit_as_cooked_string(&Lit::Bool(false)),
        Err("Unable to interpret as string `Bool(false)`.".to_string())
    );
}

#[test]
fn attributes_kept_on_builder() {
    assert!(filter_attr(&doc_comment(" docs")));
    assert!(filter_attr(&outer(
        MetaItem::NameValue("doc".to_string(), cooked("docs")),
        "#[doc = \"docs\"]"
    )));
    assert!(filter_attr(&outer(
        MetaItem::List("cfg".to_string(), vec![word("test")]),
        "#[cfg(test)]"
    )));
    assert!(!filter_attr(&outer(
        MetaItem::List("serde".to_string(), vec![word("skip")]),
        "#[serde(skip)]"
    )));
    let mut inner = outer(
        MetaItem::List("allow".to_string(), vec![word("x")]),
        "#![allow(x)]",
    );
    inner.style = AttrStyle::Inner;
    assert!(!filter_attr(&inner));
}

#[test]
fn legacy_deprecation_notes_block() {
    let mut notes = DeprecationNotes::default();
    notes.push("Some Warning".to_string());
    let mut out = String::new();
    notes.to_tokens(&mut out);
    let expected = r#"
        {
            #[deprecated(note = "Some Warning")]
            fn derive_builder_deprecation_notice() { }
            derive_builder_deprecation_notice();
        }
    "#;
    assert_eq!(tokens(&out), tokens(expected));
}

#[test]
fn field_options_fall_back_on_defaults() {
    let mut field = OptionsBuilder::<FieldMode>::default();
    field.setter_prefix = Some("with".to_string());
    field.deprecation_notes.push("first".to_string());
    let mut defaults = OptionsBuilder::<FieldMode>::default();
    defaults.setter_prefix = Some("set".to_string());
    defaults.setter_enabled = Some(false);
    defaults.setter_pattern = Some(SetterPattern::Owned);
    defaults.deprecation_notes.push("second".to_string());
    let merged = field.with_defaults(&defaults);
    assert_eq!(merged.setter_prefix, Some("with".to_string()));
    assert_eq!(merged.setter_enabled, Some(false));
    assert_eq!(merged.setter_pattern, Some(SetterPattern::Owned));
    assert!(merged.setter_vis.is_none());
    assert_eq!(merged.deprecation_notes.notes(), &vec!["first".to_string(), "second".to_string()]);
}
