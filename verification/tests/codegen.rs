use derive_builder::bindings::Bindings;
use derive_builder::block::BlockContents;
use derive_builder::build_method::BuildMethod;
use derive_builder::builder::Builder;
use derive_builder::builder_field::{BuilderField, BuilderFieldType};
use derive_builder::default_expression::DefaultExpression;
use derive_builder::deprecation_notes::DeprecationNotes;
use derive_builder::field_default_value::FieldDefaultValue;
use derive_builder::generics::{GenericParam, Generics};
use derive_builder::initializer::{FieldConversion, Initializer};
use derive_builder::meta::{Lit, MetaArgs, NestedMeta};
use derive_builder::options::BuilderPattern;
use derive_builder::setter::Setter;
use derive_builder::try_from::TryFromImpl;
use derive_builder::visibility::Visibility;
use proc_macro2::{Delimiter, TokenStream, TokenTree};

fn flatten(ts: TokenStream, out: &mut Vec<String>) {
    for tt in ts {
        match tt {
            TokenTree::Group(g) => {
                let (open, close) = match g.delimiter() {
                    Delimiter::Parenthesis => ("(", ")"),
                    Delimiter::Brace => ("{", "}"),
                    Delimiter::Bracket => ("[", "]"),
                    Delimiter::None => ("", ""),
                };
                out.push(open.to_string());
                flatten(g.stream(), out);
                out.push(close.to_string());
            }
            TokenTree::Ident(i) => out.push(i.to_string()),
            TokenTree::Punct(p) => out.push(p.as_char().to_string()),
            TokenTree::Literal(l) => out.push(l.to_string()),
        }
    }
}

fn tokens(s: &str) -> Vec<String> {
    let ts: TokenStream = s.parse().expect("source text should be tokens");
    let mut out = Vec::new();
    flatten(ts, &mut out);
    out
}

fn parse_block(s: &str) -> Result<BlockContents, String> {
    BlockContents::parse_nested_meta(&NestedMeta {
        path: "build".to_string(),
        args: MetaArgs::Value(Lit::Str(s.to_string())),
    })
}

#[test]
fn block_delimited_token_tree() {
    let expr = parse_block("let x = 2; { x+1 }").unwrap();
    let mut out = String::new();
    expr.to_tokens(&mut out);
    assert_eq!(tokens(&out), tokens("{ let x = 2; { x + 1 } }"));
}

#[test]
fn block_single_token_tree() {
    let expr = parse_block("42").unwrap();
    let mut out = String::new();
    expr.to_tokens(&mut out);
    assert_eq!(tokens(&out), tokens("{ 42 }"));
}

#[test]
fn block_rejects_unbalanced_and_empty() {
    assert!(parse_block("let x = 2; { x+1").is_err());
    assert!(parse_block("").is_err());
}

fn default_build_method() -> BuildMethod {
    BuildMethod {
        crate_root: "::derive_builder".to_string(),
        enabled: true,
        ident: "build".to_string(),
        visibility: Visibility::Public,
        pattern: BuilderPattern::Mutable,
        target_ty: "Foo".to_string(),
        target_ty_generics: None,
        error_ty: "FooBuilderError".to_string(),
        field_default_values: vec![],
        initializers: vec![],
        doc_comment: None,
        default_struct: None,
        validate_fn: None,
    }
}

fn build_method_code(m: &BuildMethod) -> String {
    let mut out = String::new();
    m.to_tokens(&mut out);
    out
}

#[test]
fn build_method_std() {
    let build_method = default_build_method();
    assert_eq!(
        tokens(&build_method_code(&build_method)),
        tokens("pub fn build(&self) -> ::derive_builder::export::core::result::Result<Foo, FooBuilderError> { Ok(Foo {}) }")
    );
}

#[test]
fn build_method_default_struct() {
    let mut build_method = default_build_method();
    build_method.default_struct = Some(DefaultExpression::Explicit(BlockContents::new(
        "Default::default()".to_string(),
    )));
    assert_eq!(
        tokens(&build_method_code(&build_method)),
        tokens("pub fn build(&self) -> ::derive_builder::export::core::result::Result<Foo, FooBuilderError> { let __default: Foo = { Default::default() }; Ok(Foo {}) }")
    );
}

#[test]
fn skip() {
    let mut build_method = default_build_method();
    build_method.enabled = false;
    assert_eq!(tokens(&build_method_code(&build_method)), tokens(""));
}

#[test]
fn rename() {
    let mut build_method = default_build_method();
    build_method.ident = "finish".to_string();
    assert_eq!(
        tokens(&build_method_code(&build_method)),
        tokens("pub fn finish(&self) -> ::derive_builder::export::core::result::Result<Foo, FooBuilderError> { Ok(Foo {}) }")
    );
}

#[test]
fn validation() {
    let mut build_method = default_build_method();
    build_method.validate_fn = Some("IpsumBuilder::validate".to_string());
    assert_eq!(
        tokens(&build_method_code(&build_method)),
        tokens("pub fn build(&self) -> ::derive_builder::export::core::result::Result<Foo, FooBuilderError> { IpsumBuilder::validate(&self)?; Ok(Foo {}) }")
    );
}

fn default_builder() -> Builder {
    Builder {
        enabled: true,
        ident: "FooBuilder".to_string(),
        derives: vec![],
        generics: None,
        impl_generics: None,
        visibility: Visibility::Public,
        fields: vec!["foo: u32,".to_string()],
        functions: vec!["fn bar() -> { unimplemented!() }".to_string()],
        doc_comment: None,
        deprecation_notes: DeprecationNotes::new(),
        struct_attrs: vec![],
        impl_attrs: vec![],
    }
}

fn builder_code(b: &Builder) -> String {
    let mut out = String::new();
    b.to_tokens(&mut out);
    out
}

fn lorem_generics(bound: &str) -> Generics {
    let mut g = Generics::empty();
    g.params.push(GenericParam::Lifetime { name: "'a".to_string(), bounds: vec![] });
    g.params.push(GenericParam::Type {
        name: "T".to_string(),
        bounds: vec![bound.to_string()],
        default: None,
    });
    g.where_predicates.push("T: PartialEq".to_string());
    g
}

#[test]
fn builder_simple() {
    let builder = default_builder();
    assert_eq!(
        tokens(&builder_code(&builder)),
        tokens("#[derive(Default, Clone)] pub struct FooBuilder { foo: u32, } #[allow(dead_code)] impl FooBuilder { fn bar () -> { unimplemented!() } }")
    );
}

#[test]
fn builder_generic() {
    let generics = lorem_generics("Debug");
    let mut builder = default_builder();
    builder.impl_generics = Some(generics.with_bound("::std::clone::Clone"));
    builder.generics = Some(generics);
    assert_eq!(
        tokens(&builder_code(&builder)),
        tokens("#[derive(Default, Clone)] pub struct FooBuilder<'a, T: Debug> where T: PartialEq { foo: u32, } #[allow(dead_code)] impl<'a, T: Debug + ::std::clone::Clone> FooBuilder<'a, T> where T: PartialEq { fn bar() -> { unimplemented!() } }")
    );
}

#[test]
fn generic_reference() {
    let mut generics = Generics::empty();
    generics.params.push(GenericParam::Lifetime { name: "'a".to_string(), bounds: vec![] });
    generics.params.push(GenericParam::Type {
        name: "T".to_string(),
        bounds: vec!["'a".to_string(), "Default".to_string()],
        default: None,
    });
    generics.where_predicates.push("T: PartialEq".to_string());
    let mut builder = default_builder();
    builder.impl_generics = Some(generics.with_bound("::std::clone::Clone"));
    builder.generics = Some(generics);
    assert_eq!(
        tokens(&builder_code(&builder)),
        tokens("#[derive(Default, Clone)] pub struct FooBuilder<'a, T: 'a + Default> where T: PartialEq { foo: u32, } #[allow(dead_code)] impl<'a, T: 'a + Default + ::std::clone::Clone> FooBuilder<'a, T> where T: PartialEq { fn bar() -> { unimplemented!() } }")
    );
}

#[test]
fn owned_generic() {
    let generics = lorem_generics("Debug");
    let mut builder = default_builder();
    builder.impl_generics = Some(generics.clone());
    builder.generics = Some(generics);
    assert_eq!(
        tokens(&builder_code(&builder)),
        tokens("#[derive(Default, Clone)] pub struct FooBuilder<'a, T: Debug> where T: PartialEq { foo: u32, } #[allow(dead_code)] impl<'a, T: Debug> FooBuilder<'a, T> where T: PartialEq { fn bar() -> { unimplemented!() } }")
    );
}

#[test]
fn builder_disabled() {
    let mut builder = default_builder();
    builder.enabled = false;
    assert_eq!(tokens(&builder_code(&builder)), tokens(""));
}

#[test]
fn add_derives() {
    let mut builder = default_builder();
    builder.derives = vec!["Serialize".to_string()];
    assert_eq!(
        tokens(&builder_code(&builder)),
        tokens("#[derive(Default, Clone, Serialize)] pub struct FooBuilder { foo: u32, } #[allow(dead_code)] impl FooBuilder { fn bar () -> { unimplemented!() } }")
    );
}

fn default_builder_field() -> BuilderField {
    BuilderField {
        field_ident: "foo".to_string(),
        field_type: BuilderFieldType::Optional("String".to_string()),
        field_enabled: true,
        field_visibility: Visibility::Public,
        attrs: vec!["some_attr".to_string()],
    }
}

fn builder_field_code(f: &BuilderField) -> String {
    let mut out = String::new();
    f.to_tokens(&mut out);
    out
}

#[test]
fn setter_enabled() {
    let field = default_builder_field();
    assert_eq!(
        tokens(&builder_field_code(&field)),
        tokens("#[some_attr] pub foo: ::derive_builder::export::core::option::Option<String>,")
    );
}

#[test]
fn builder_field_setter_disabled() {
    let mut field = default_builder_field();
    field.field_enabled = false;
    assert_eq!(
        tokens(&builder_field_code(&field)),
        tokens("#[some_attr] foo: ::derive_builder::export::core::marker::PhantomData<String>,")
    );
}

#[test]
fn private_field() {
    let mut field = default_builder_field();
    field.field_visibility = Visibility::Inherited;
    assert_eq!(
        tokens(&builder_field_code(&field)),
        tokens("#[some_attr] foo: ::derive_builder::export::core::option::Option<String>,")
    );
}

#[test]
fn deprecation_note() {
    let mut note = DeprecationNotes::default();
    note.push(String::from("Some Warning"));
    let mut out = String::new();
    note.to_tokens(&mut out);
    assert_eq!(
        tokens(&out),
        tokens("{ #[deprecated(note=\"Some Warning\")] fn derive_builder_core_deprecation_notice() { } derive_builder_core_deprecation_notice(); }")
    );
}

fn default_field_default_value() -> FieldDefaultValue {
    FieldDefaultValue {
        crate_root: "::db".to_string(),
        field_ident: "foo".to_string(),
        field_type: "usize".to_string(),
        field_enabled: true,
        enabled: true,
        default_value: None,
        use_default_struct: false,
    }
}

fn default_value_code(d: &FieldDefaultValue) -> String {
    let mut out = String::new();
    d.to_tokens(&mut out);
    out
}

fn forty_two() -> DefaultExpression {
    DefaultExpression::Explicit(BlockContents::new("42".to_string()))
}

#[test]
fn field_default_value_disabled() {
    let mut default = default_field_default_value();
    default.enabled = false;
    assert_eq!(tokens(&default_value_code(&default)), tokens(""));
}

#[test]
fn disabled_field() {
    let mut default = default_field_default_value();
    default.field_enabled = false;
    default.default_value = Some(forty_two());
    assert_eq!(
        tokens(&default_value_code(&default)),
        tokens("let __default_foo: usize = { 42 };")
    );
}

#[test]
fn default_value() {
    let mut default = default_field_default_value();
    default.default_value = Some(forty_two());
    assert_eq!(
        tokens(&default_value_code(&default)),
        tokens("let __default_foo: Option<usize> = match self.foo.as_ref() { Some(_) => None, None => Some({ 42 }), };")
    );
}

#[test]
fn field_default_value_default_struct() {
    let mut default = default_field_default_value();
    default.use_default_struct = true;
    assert_eq!(
        tokens(&default_value_code(&default)),
        tokens("let __default_foo: Option<usize> = match self.foo.as_ref() { Some(_) => None, None => Some(__default.foo), };")
    );
}

#[test]
fn no_default() {
    let default = default_field_default_value();
    assert_eq!(
        tokens(&default_value_code(&default)),
        tokens("let __default_foo: Option<usize> = match self.foo.as_ref() { Some(_) => None, None => return ::db::export::core::result::Result::Err(::db::export::core::convert::Into::into(::db::UninitializedFieldError::from(\"foo\"))), };")
    );
}

fn default_initializer() -> Initializer {
    Initializer {
        crate_root: "::db".to_string(),
        field_ident: "foo".to_string(),
        field_enabled: true,
        builder_pattern: BuilderPattern::Mutable,
        conversion: FieldConversion::OptionOrDefault,
    }
}

fn initializer_code(i: &Initializer) -> String {
    let mut out = String::new();
    i.to_tokens(&mut out);
    out
}

const CLONED_OR_DEFAULT: &str = "foo: self.foo.as_ref().map(|value| ::db::export::core::clone::Clone::clone(value)).or(__default_foo).unwrap(),";

#[test]
fn initializer_immutable() {
    let mut initializer = default_initializer();
    initializer.builder_pattern = BuilderPattern::Immutable;
    assert_eq!(tokens(&initializer_code(&initializer)), tokens(CLONED_OR_DEFAULT));
}

#[test]
fn initializer_mutable() {
    let mut initializer = default_initializer();
    initializer.builder_pattern = BuilderPattern::Mutable;
    assert_eq!(tokens(&initializer_code(&initializer)), tokens(CLONED_OR_DEFAULT));
}

#[test]
fn initializer_owned() {
    let mut initializer = default_initializer();
    initializer.builder_pattern = BuilderPattern::Owned;
    assert_eq!(
        tokens(&initializer_code(&initializer)),
        tokens("foo: self.foo.or(__default_foo).unwrap(),")
    );
}

#[test]
fn initializer_setter_disabled() {
    let mut initializer = default_initializer();
    initializer.field_enabled = false;
    assert_eq!(tokens(&initializer_code(&initializer)), tokens("foo: __default_foo,"));
}

#[test]
fn initializer_no_std() {
    let initializer = default_initializer();
    assert_eq!(tokens(&initializer_code(&initializer)), tokens(CLONED_OR_DEFAULT));
}

#[test]
fn initializer_custom_conversions() {
    let mut initializer = default_initializer();
    initializer.conversion = FieldConversion::Move;
    assert_eq!(tokens(&initializer_code(&initializer)), tokens("foo: self.foo,"));
    initializer.conversion = FieldConversion::Block(BlockContents::new("self.foo.len()".to_string()));
    assert_eq!(tokens(&initializer_code(&initializer)), tokens("foo: { self.foo.len() },"));
}

fn default_setter() -> Setter {
    Setter {
        enabled: true,
        try_setter: false,
        visibility: Visibility::Public,
        pattern: BuilderPattern::Mutable,
        attrs: vec![],
        ident: "foo".to_string(),
        field_ident: "foo".to_string(),
        field_type: "Foo".to_string(),
        generic_into: false,
        deprecation_notes: DeprecationNotes::new(),
        bindings: Bindings { no_std: false },
    }
}

fn setter_code(s: &Setter) -> String {
    let mut out = String::new();
    s.to_tokens(&mut out);
    out
}

#[test]
fn setter_immutable() {
    let mut setter = default_setter();
    setter.pattern = BuilderPattern::Immutable;
    assert_eq!(
        tokens(&setter_code(&setter)),
        tokens("#[allow(unused_mut)] pub fn foo(&self, value: Foo) -> Self { let mut new = ::std::clone::Clone::clone(self); new.foo = ::std::option::Option::Some(value); new }")
    );
}

#[test]
fn setter_mutable() {
    let mut setter = default_setter();
    setter.pattern = BuilderPattern::Mutable;
    assert_eq!(
        tokens(&setter_code(&setter)),
        tokens("#[allow(unused_mut)] pub fn foo(&mut self, value: Foo) -> &mut Self { let mut new = self; new.foo = ::std::option::Option::Some(value); new }")
    );
}

#[test]
fn setter_owned() {
    let mut setter = default_setter();
    setter.pattern = BuilderPattern::Owned;
    assert_eq!(
        tokens(&setter_code(&setter)),
        tokens("#[allow(unused_mut)] pub fn foo(self, value: Foo) -> Self { let mut new = self; new.foo = ::std::option::Option::Some(value); new }")
    );
}

#[test]
fn private() {
    let mut setter = default_setter();
    setter.visibility = Visibility::Inherited;
    assert_eq!(
        tokens(&setter_code(&setter)),
        tokens("#[allow(unused_mut)] fn foo(&mut self, value: Foo) -> &mut Self { let mut new = self; new.foo = ::std::option::Option::Some(value); new }")
    );
}

#[test]
fn setter_generic() {
    let mut setter = default_setter();
    setter.generic_into = true;
    assert_eq!(
        tokens(&setter_code(&setter)),
        tokens("#[allow(unused_mut)] pub fn foo <VALUE: ::std::convert::Into<Foo>>(&mut self, value: VALUE) -> &mut Self { let mut new = self; new.foo = ::std::option::Option::Some(value.into()); new }")
    );
}

#[test]
fn full() {
    let mut deprecated = DeprecationNotes::default();
    deprecated.push("Some example.".to_string());
    let mut setter = default_setter();
    setter.attrs = vec!["some_attr".to_string()];
    setter.generic_into = true;
    setter.deprecation_notes = deprecated;
    setter.try_setter = true;
    assert_eq!(
        tokens(&setter_code(&setter)),
        tokens("#[some_attr] #[allow(unused_mut)] pub fn foo <VALUE: ::std::convert::Into<Foo>>(&mut self, value: VALUE) -> &mut Self { { #[deprecated(note=\"Some example.\")] fn derive_builder_core_deprecation_notice() { } derive_builder_core_deprecation_notice(); } let mut new = self; new.foo = ::std::option::Option::Some(value.into()); new } #[some_attr] pub fn try_foo<VALUE: ::std::convert::TryInto<Foo>>(&mut self, value: VALUE) -> ::std::result::Result<&mut Self, VALUE::Error> { let converted : Foo = value.try_into()?; let mut new = self; new.foo = ::std::option::Option::Some(converted); Ok(new) }")
    );
}

#[test]
fn setter_no_std() {
    let mut setter = default_setter();
    setter.bindings.no_std = true;
    setter.pattern = BuilderPattern::Immutable;
    assert_eq!(
        tokens(&setter_code(&setter)),
        tokens("#[allow(unused_mut)] pub fn foo(&self, value: Foo) -> Self { let mut new = ::core::clone::Clone::clone(self); new.foo = ::core::option::Option::Some(value); new }")
    );
}

#[test]
fn no_std_generic() {
    let mut setter = default_setter();
    setter.bindings.no_std = true;
    setter.generic_into = true;
    assert_eq!(
        tokens(&setter_code(&setter)),
        tokens("#[allow(unused_mut)] pub fn foo <VALUE: ::core::convert::Into<Foo>>(&mut self, value: VALUE) -> &mut Self { let mut new = self; new.foo = ::core::option::Option::Some(value.into()); new }")
    );
}

#[test]
fn setter_setter_disabled() {
    let mut setter = default_setter();
    setter.enabled = false;
    assert_eq!(tokens(&setter_code(&setter)), tokens(""));
}

#[test]
fn try_setter() {
    let mut setter = default_setter();
    setter.pattern = BuilderPattern::Mutable;
    setter.try_setter = true;
    assert_eq!(
        tokens(&setter_code(&setter)),
        tokens("#[allow(unused_mut)] pub fn foo(&mut self, value: Foo) -> &mut Self { let mut new = self; new.foo = ::std::option::Option::Some(value); new } pub fn try_foo<VALUE: ::std::convert::TryInto<Foo>>(&mut self, value: VALUE) -> ::std::result::Result<&mut Self, VALUE::Error> { let converted : Foo = value.try_into()?; let mut new = self; new.foo = ::std::option::Option::Some(converted); Ok(new) }")
    );
}

fn default_try_from() -> TryFromImpl {
    TryFromImpl {
        enabled: true,
        builder_ty: "FooBuilder".to_string(),
        target_ty: "Foo".to_string(),
        fn_ident: "build".to_string(),
        pattern: BuilderPattern::Mutable,
        generics: Generics::empty(),
        bindings: Bindings { no_std: false },
    }
}

fn try_from_code(t: &TryFromImpl) -> String {
    let mut out = String::new();
    t.to_tokens(&mut out);
    out
}

#[test]
fn try_from_simple() {
    let tf = default_try_from();
    assert_eq!(
        tokens(&try_from_code(&tf)),
        tokens("impl<'try_from> ::std::convert::TryFrom<&'try_from mut FooBuilder> for Foo { type Error = ::std::string::String; fn try_from(v: &mut FooBuilder) -> ::std::result::Result<Self, Self::Error> { v.build() } }")
    );
}

#[test]
fn try_from_owned() {
    let mut tf = default_try_from();
    tf.pattern = BuilderPattern::Owned;
    assert_eq!(
        tokens(&try_from_code(&tf)),
        tokens("impl ::std::convert::TryFrom<FooBuilder> for Foo { type Error = ::std::string::String; fn try_from(v: FooBuilder) -> ::std::result::Result<Self, Self::Error> { v.build() } }")
    );
}

#[test]
fn lifetime() {
    let mut tf = default_try_from();
    tf.generics.params.push(GenericParam::Lifetime { name: "'a".to_string(), bounds: vec![] });
    assert_eq!(
        tokens(&try_from_code(&tf)),
        tokens("impl<'a, 'try_from> ::std::convert::TryFrom<&'try_from mut FooBuilder<'a> > for Foo<'a> { type Error = ::std::string::String; fn try_from(v: &mut FooBuilder<'a>) -> ::std::result::Result<Self, Self::Error> { v.build() } }")
    );
}
