//! Which inputs the first-generation derive can read, and the message it
//! stops with on any other.
use vstd::prelude::*;
use crate::legacy::codegen::valid_input;
use crate::legacy::options::{
    is_builder_attr, spec_pattern_value, valid_attr, valid_attrs, valid_builder_item,
    valid_setter_item, FieldMode, OptionsBuilderMode, StructMode,
};
use crate::legacy::syntax::{
    lit_debug, lit_debug_text, lit_str_value, meta_name, parse_lit_as_bool,
    parse_lit_as_cooked_string, spec_cooked_string, spec_lit_bool, AttrStyle, Attribute, Body,
    MacroInput, MetaItem, NestedMetaItem,
};
use crate::text::{push_str, str_eq, string_literal, string_literal_text, to_owned_string};

verus! {

broadcast use {crate::text::lemma_concat_assoc, crate::text::lemma_concat_empty};

/// The message of unwrapping a failed result whose error is `e`.
pub open spec fn unwrap_msg(e: Seq<char>) -> Seq<char> {
    "called `Result::unwrap()` on an `Err` value: "@ + string_literal_text(e)
}

/// The debug text of an identifier.
pub open spec fn ident_debug(id: Seq<char>) -> Seq<char> {
    "Ident("@ + string_literal_text(id) + ")"@
}

/// The message for a problem with an item of `setter(...)`, if any.
pub open spec fn setter_item_problem(n: NestedMetaItem) -> Option<Seq<char>> {
    match n {
        NestedMetaItem::Literal(_) => None,
        NestedMetaItem::MetaItem(MetaItem::Word(id)) => if id@ == "public"@ || id@ == "private"@
            || id@ == "skip"@ {
            None
        } else {
            Some("Unknown setter option `"@ + ident_debug(id@) + "`."@)
        },
        NestedMetaItem::MetaItem(MetaItem::NameValue(id, lit)) => if id@ == "prefix"@ {
            match spec_cooked_string(lit) {
                Ok(_) => None,
                Err(e) => Some(unwrap_msg(e)),
            }
        } else if id@ == "skip"@ {
            match spec_lit_bool(lit) {
                Ok(_) => None,
                Err(e) => Some(unwrap_msg(e)),
            }
        } else {
            Some("Unknown setter option `"@ + id@ + "`."@)
        },
        NestedMetaItem::MetaItem(MetaItem::List(id, _)) => Some("Unknown option `"@ + id@ + "`."@),
    }
}

/// The first problem among items of `setter(...)`, if any.
pub open spec fn setter_items_problem(items: Seq<NestedMetaItem>) -> Option<Seq<char>>
    decreases items.len(),
{
    if items.len() == 0 {
        None
    } else {
        match setter_item_problem(items[0]) {
            Some(m) => Some(m),
            None => setter_items_problem(items.drop_first()),
        }
    }
}

/// The message for a problem with an item of `builder(...)`, if any; the
/// builder's name is accepted on the struct only.
pub open spec fn builder_item_problem(n: NestedMetaItem, on_struct: bool) -> Option<Seq<char>> {
    match n {
        NestedMetaItem::Literal(lit) => Some(
            "Could not parse builder option `"@ + lit_debug(lit) + "`."@,
        ),
        NestedMetaItem::MetaItem(MetaItem::Word(id)) => if id@ == "public"@ || id@ == "private"@
            || id@ == "setter"@ {
            None
        } else {
            Some("Unknown option `"@ + ident_debug(id@) + "`"@)
        },
        NestedMetaItem::MetaItem(MetaItem::NameValue(id, lit)) => if id@ == "setter_prefix"@ {
            match spec_cooked_string(lit) {
                Ok(_) => None,
                Err(e) => Some(unwrap_msg(e)),
            }
        } else if id@ == "pattern"@ {
            match spec_cooked_string(lit) {
                Ok(v) => if spec_pattern_value(v@) is Some {
                    None
                } else {
                    Some("Unknown pattern value `"@ + v@ + "`."@)
                },
                Err(e) => Some(unwrap_msg(e)),
            }
        } else if id@ == "name"@ {
            if !on_struct {
                Some("Builder name can only be set on the stuct level"@)
            } else {
                match spec_cooked_string(lit) {
                    Ok(_) => None,
                    Err(e) => Some(unwrap_msg(e)),
                }
            }
        } else {
            Some("Unknown option `"@ + id@ + "`."@)
        },
        NestedMetaItem::MetaItem(MetaItem::List(id, nested)) => if id@ == "setter"@ {
            setter_items_problem(nested@)
        } else {
            Some("Unknown option `"@ + id@ + "`."@)
        },
    }
}

/// The first problem among items of `builder(...)`, if any.
pub open spec fn builder_items_problem(items: Seq<NestedMetaItem>, on_struct: bool) -> Option<Seq<char>>
    decreases items.len(),
{
    if items.len() == 0 {
        None
    } else {
        match builder_item_problem(items[0], on_struct) {
            Some(m) => Some(m),
            None => builder_items_problem(items.drop_first(), on_struct),
        }
    }
}

/// The problem with an attribute, if any: a `builder` attribute must be a
/// list of options.
pub open spec fn attr_problem(attr: Attribute, on_struct: bool) -> Option<Seq<char>> {
    if is_builder_attr(attr) {
        match attr.value {
            MetaItem::List(_, nested) => builder_items_problem(nested@, on_struct),
            _ => Some("Could not parse builder options."@),
        }
    } else {
        None
    }
}

/// The first problem among attributes, if any.
pub open spec fn attrs_problem(attrs: Seq<Attribute>, on_struct: bool) -> Option<Seq<char>>
    decreases attrs.len(),
{
    if attrs.len() == 0 {
        None
    } else {
        match attr_problem(attrs[0], on_struct) {
            Some(m) => Some(m),
            None => attrs_problem(attrs.drop_first(), on_struct),
        }
    }
}

/// The first problem with the fields, if any: each must have a name and
/// readable attributes.
pub open spec fn fields_problem(fields: Seq<crate::legacy::syntax::Field>) -> Option<Seq<char>>
    decreases fields.len(),
{
    if fields.len() == 0 {
        None
    } else if fields[0].ident is None {
        Some("Missing identifier for field of type `"@ + fields[0].ty@ + "`."@)
    } else {
        match attrs_problem(fields[0].attrs@, false) {
            Some(m) => Some(m),
            None => fields_problem(fields.drop_first()),
        }
    }
}

/// The first problem with the input, if any: the struct's attributes, then
/// its shape, then its fields.
pub open spec fn input_problem(ast: MacroInput) -> Option<Seq<char>> {
    match attrs_problem(ast.attrs@, true) {
        Some(m) => Some(m),
        None => match ast.body {
            Body::Struct(fields) => fields_problem(fields@),
            Body::Other => Some("#[derive(Builder)] can only be used with braced structs"@),
        },
    }
}

proof fn lemma_setter_item(n: NestedMetaItem)
    ensures
        setter_item_problem(n) is None <==> valid_setter_item(n),
{
    reveal_strlit("prefix");
    reveal_strlit("skip");
    assert("prefix"@.len() == 6);
    assert("skip"@.len() == 4);
    if let NestedMetaItem::MetaItem(MetaItem::NameValue(id, lit)) = n {
        if id@ == "prefix"@ {
            assert(id@ != "skip"@);
        }
    }
}

proof fn lemma_setter_items(items: Seq<NestedMetaItem>)
    ensures
        setter_items_problem(items) is None <==> forall|i: int| 0 <= i < items.len() ==> valid_setter_item(#[trigger] items[i]),
    decreases items.len(),
{
    if items.len() > 0 {
        lemma_setter_items(items.drop_first());
        assert forall|i: int| 0 <= i < items.len() implies (setter_item_problem(#[trigger] items[i]) is None <==> valid_setter_item(items[i])) by {
            lemma_setter_item(items[i]);
        }
        if setter_items_problem(items) is None {
            assert forall|i: int| 0 <= i < items.len() implies valid_setter_item(#[trigger] items[i]) by {
                if i > 0 {
                    assert(items[i] == items.drop_first()[i - 1]);
                }
            }
        }
        if forall|i: int| 0 <= i < items.len() ==> valid_setter_item(#[trigger] items[i]) {
            assert(valid_setter_item(items[0]));
            assert forall|i: int| 0 <= i < items.drop_first().len() implies valid_setter_item(#[trigger] items.drop_first()[i]) by {
                assert(items.drop_first()[i] == items[i + 1]);
            }
        }
    }
}

proof fn lemma_builder_item<Mode: OptionsBuilderMode>(n: NestedMetaItem, on_struct: bool)
    requires
        on_struct == Mode::accepts_builder_name(),
    ensures
        builder_item_problem(n, on_struct) is None <==> valid_builder_item::<Mode>(n),
{
    reveal_strlit("setter_prefix");
    reveal_strlit("pattern");
    reveal_strlit("name");
    assert("setter_prefix"@.len() == 13);
    assert("pattern"@.len() == 7);
    assert("name"@.len() == 4);
    match n {
        NestedMetaItem::MetaItem(MetaItem::List(id, nested)) => {
            lemma_setter_items(nested@);
        },
        NestedMetaItem::MetaItem(MetaItem::NameValue(id, lit)) => {
            if id@ == "setter_prefix"@ {
                assert(id@ != "pattern"@ && id@ != "name"@);
            } else if id@ == "pattern"@ {
                assert(id@ != "name"@);
            }
        },
        _ => {},
    }
}

proof fn lemma_builder_items<Mode: OptionsBuilderMode>(items: Seq<NestedMetaItem>, on_struct: bool)
    requires
        on_struct == Mode::accepts_builder_name(),
    ensures
        builder_items_problem(items, on_struct) is None <==> forall|i: int| 0 <= i < items.len() ==> valid_builder_item::<Mode>(#[trigger] items[i]),
    decreases items.len(),
{
    if items.len() > 0 {
        lemma_builder_items::<Mode>(items.drop_first(), on_struct);
        assert forall|i: int| 0 <= i < items.len() implies (builder_item_problem(#[trigger] items[i], on_struct) is None <==> valid_builder_item::<Mode>(items[i])) by {
            lemma_builder_item::<Mode>(items[i], on_struct);
        }
        if builder_items_problem(items, on_struct) is None {
            assert forall|i: int| 0 <= i < items.len() implies valid_builder_item::<Mode>(#[trigger] items[i]) by {
                if i > 0 {
                    assert(items[i] == items.drop_first()[i - 1]);
                }
            }
        }
        if forall|i: int| 0 <= i < items.len() ==> valid_builder_item::<Mode>(#[trigger] items[i]) {
            assert(valid_builder_item::<Mode>(items[0]));
            assert forall|i: int| 0 <= i < items.drop_first().len() implies valid_builder_item::<Mode>(#[trigger] items.drop_first()[i]) by {
                assert(items.drop_first()[i] == items[i + 1]);
            }
        }
    }
}

proof fn lemma_attrs<Mode: OptionsBuilderMode>(attrs: Seq<Attribute>, on_struct: bool)
    requires
        on_struct == Mode::accepts_builder_name(),
    ensures
        attrs_problem(attrs, on_struct) is None <==> valid_attrs::<Mode>(attrs),
    decreases attrs.len(),
{
    if attrs.len() > 0 {
        lemma_attrs::<Mode>(attrs.drop_first(), on_struct);
        assert forall|i: int| 0 <= i < attrs.len() implies (attr_problem(#[trigger] attrs[i], on_struct) is None <==> valid_attr::<Mode>(attrs[i])) by {
            if let MetaItem::List(_, nested) = attrs[i].value {
                lemma_builder_items::<Mode>(nested@, on_struct);
            }
        }
        if attrs_problem(attrs, on_struct) is None {
            assert forall|i: int| 0 <= i < attrs.len() implies valid_attr::<Mode>(#[trigger] attrs[i]) by {
                if i > 0 {
                    assert(attrs[i] == attrs.drop_first()[i - 1]);
                }
            }
        }
        if valid_attrs::<Mode>(attrs) {
            assert(valid_attr::<Mode>(attrs[0]));
            assert forall|i: int| 0 <= i < attrs.drop_first().len() implies valid_attr::<Mode>(#[trigger] attrs.drop_first()[i]) by {
                assert(attrs.drop_first()[i] == attrs[i + 1]);
            }
        }
    }
}

proof fn lemma_fields(fields: Seq<crate::legacy::syntax::Field>)
    ensures
        fields_problem(fields) is None <==> forall|i: int| 0 <= i < fields.len() ==> (#[trigger] fields[i]).ident is Some
            && valid_attrs::<FieldMode>(fields[i].attrs@),
    decreases fields.len(),
{
    if fields.len() > 0 {
        lemma_fields(fields.drop_first());
        assert forall|i: int| 0 <= i < fields.len() implies (attrs_problem(#[trigger] fields[i].attrs@, false) is None <==> valid_attrs::<FieldMode>(fields[i].attrs@)) by {
            lemma_attrs::<FieldMode>(fields[i].attrs@, false);
        }
        if fields_problem(fields) is None {
            assert forall|i: int| 0 <= i < fields.len() implies (#[trigger] fields[i]).ident is Some
                && valid_attrs::<FieldMode>(fields[i].attrs@) by {
                if i > 0 {
                    assert(fields[i] == fields.drop_first()[i - 1]);
                }
            }
        }
        if forall|i: int| 0 <= i < fields.len() ==> (#[trigger] fields[i]).ident is Some && valid_attrs::<FieldMode>(fields[i].attrs@) {
            assert(fields[0].ident is Some && valid_attrs::<FieldMode>(fields[0].attrs@));
            assert forall|i: int| 0 <= i < fields.drop_first().len() implies (#[trigger] fields.drop_first()[i]).ident is Some
                && valid_attrs::<FieldMode>(fields.drop_first()[i].attrs@) by {
                assert(fields.drop_first()[i] == fields[i + 1]);
            }
        }
    }
}

/// Whether the input has no problem is whether the derive can read it.
pub proof fn lemma_input_problem(ast: MacroInput)
    ensures
        input_problem(ast) is None <==> valid_input(ast),
{
    lemma_attrs::<StructMode>(ast.attrs@, true);
    if let Body::Struct(fields) = ast.body {
        lemma_fields(fields@);
    }
}

fn unwrap_message(e: &str) -> (r: String)
    ensures
        r@ == unwrap_msg(e@),
{
    let mut m = to_owned_string("called `Result::unwrap()` on an `Err` value: ");
    let l = string_literal(e);
    push_str(&mut m, l.as_str());
    m
}

fn ident_debug_text(id: &str) -> (r: String)
    ensures
        r@ == ident_debug(id@),
{
    let mut m = to_owned_string("Ident(");
    let l = string_literal(id);
    push_str(&mut m, l.as_str());
    push_str(&mut m, ")");
    m
}

/// A message made of three parts.
fn message3(a: &str, b: &str, c: &str) -> (r: String)
    ensures
        r@ == a@ + b@ + c@,
{
    let mut m = to_owned_string(a);
    push_str(&mut m, b);
    push_str(&mut m, c);
    m
}

fn check_setter_item(n: &NestedMetaItem) -> (r: Result<(), String>)
    ensures
        match r {
            Ok(()) => setter_item_problem(*n) is None,
            Err(m) => setter_item_problem(*n) == Some(m@),
        },
{
    match n {
        NestedMetaItem::Literal(_) => Ok(()),
        NestedMetaItem::MetaItem(MetaItem::Word(id)) => {
            if str_eq(id.as_str(), "public") || str_eq(id.as_str(), "private") || str_eq(id.as_str(), "skip") {
                Ok(())
            } else {
                let d = ident_debug_text(id.as_str());
                Err(message3("Unknown setter option `", d.as_str(), "`."))
            }
        },
        NestedMetaItem::MetaItem(MetaItem::NameValue(id, lit)) => {
            if str_eq(id.as_str(), "prefix") {
                match parse_lit_as_cooked_string(lit) {
                    Ok(_) => Ok(()),
                    Err(e) => Err(unwrap_message(e.as_str())),
                }
            } else if str_eq(id.as_str(), "skip") {
                match parse_lit_as_bool(lit) {
                    Ok(_) => Ok(()),
                    Err(e) => Err(unwrap_message(e.as_str())),
                }
            } else {
                Err(message3("Unknown setter option `", id.as_str(), "`."))
            }
        },
        NestedMetaItem::MetaItem(MetaItem::List(id, _)) => Err(message3("Unknown option `", id.as_str(), "`.")),
    }
}

fn check_setter_items(items: &Vec<NestedMetaItem>) -> (r: Result<(), String>)
    ensures
        match r {
            Ok(()) => setter_items_problem(items@) is None,
            Err(m) => setter_items_problem(items@) == Some(m@),
        },
{
    let mut i: usize = 0;
    assert(items@.skip(0) =~= items@);
    while i < items.len()
        invariant
            i <= items@.len(),
            setter_items_problem(items@) == setter_items_problem(items@.skip(i as int)),
        decreases items@.len() - i,
    {
        assert(items@.skip(i as int).drop_first() =~= items@.skip(i + 1));
        match check_setter_item(&items[i]) {
            Ok(()) => {},
            Err(m) => {
                return Err(m);
            },
        }
        i = i + 1;
    }
    assert(items@.skip(i as int) =~= Seq::<NestedMetaItem>::empty());
    Ok(())
}

fn check_builder_item(n: &NestedMetaItem, on_struct: bool) -> (r: Result<(), String>)
    ensures
        match r {
            Ok(()) => builder_item_problem(*n, on_struct) is None,
            Err(m) => builder_item_problem(*n, on_struct) == Some(m@),
        },
{
    match n {
        NestedMetaItem::Literal(lit) => {
            let d = lit_debug_text(lit);
            Err(message3("Could not parse builder option `", d.as_str(), "`."))
        },
        NestedMetaItem::MetaItem(MetaItem::Word(id)) => {
            if str_eq(id.as_str(), "public") || str_eq(id.as_str(), "private") || str_eq(id.as_str(), "setter") {
                Ok(())
            } else {
                let d = ident_debug_text(id.as_str());
                Err(message3("Unknown option `", d.as_str(), "`"))
            }
        },
        NestedMetaItem::MetaItem(MetaItem::NameValue(id, lit)) => {
            if str_eq(id.as_str(), "setter_prefix") {
                match parse_lit_as_cooked_string(lit) {
                    Ok(_) => Ok(()),
                    Err(e) => Err(unwrap_message(e.as_str())),
                }
            } else if str_eq(id.as_str(), "pattern") {
                match parse_lit_as_cooked_string(lit) {
                    Ok(v) => {
                        if str_eq(v.as_str(), "owned") || str_eq(v.as_str(), "mutable") || str_eq(v.as_str(), "immutable") {
                            Ok(())
                        } else {
                            Err(message3("Unknown pattern value `", v.as_str(), "`."))
                        }
                    },
                    Err(e) => Err(unwrap_message(e.as_str())),
                }
            } else if str_eq(id.as_str(), "name") {
                if !on_struct {
                    Err(to_owned_string("Builder name can only be set on the stuct level"))
                } else {
                    match parse_lit_as_cooked_string(lit) {
                        Ok(_) => Ok(()),
                        Err(e) => Err(unwrap_message(e.as_str())),
                    }
                }
            } else {
                Err(message3("Unknown option `", id.as_str(), "`."))
            }
        },
        NestedMetaItem::MetaItem(MetaItem::List(id, nested)) => {
            if str_eq(id.as_str(), "setter") {
                check_setter_items(nested)
            } else {
                Err(message3("Unknown option `", id.as_str(), "`."))
            }
        },
    }
}

fn check_builder_items(items: &Vec<NestedMetaItem>, on_struct: bool) -> (r: Result<(), String>)
    ensures
        match r {
            Ok(()) => builder_items_problem(items@, on_struct) is None,
            Err(m) => builder_items_problem(items@, on_struct) == Some(m@),
        },
{
    let mut i: usize = 0;
    assert(items@.skip(0) =~= items@);
    while i < items.len()
        invariant
            i <= items@.len(),
            builder_items_problem(items@, on_struct) == builder_items_problem(items@.skip(i as int), on_struct),
        decreases items@.len() - i,
    {
        assert(items@.skip(i as int).drop_first() =~= items@.skip(i + 1));
        match check_builder_item(&items[i], on_struct) {
            Ok(()) => {},
            Err(m) => {
                return Err(m);
            },
        }
        i = i + 1;
    }
    assert(items@.skip(i as int) =~= Seq::<NestedMetaItem>::empty());
    Ok(())
}

fn check_attrs(attrs: &Vec<Attribute>, on_struct: bool) -> (r: Result<(), String>)
    ensures
        match r {
            Ok(()) => attrs_problem(attrs@, on_struct) is None,
            Err(m) => attrs_problem(attrs@, on_struct) == Some(m@),
        },
{
    let mut i: usize = 0;
    assert(attrs@.skip(0) =~= attrs@);
    while i < attrs.len()
        invariant
            i <= attrs@.len(),
            attrs_problem(attrs@, on_struct) == attrs_problem(attrs@.skip(i as int), on_struct),
        decreases attrs@.len() - i,
    {
        assert(attrs@.skip(i as int).drop_first() =~= attrs@.skip(i + 1));
        let attr = &attrs[i];
        let is_builder = str_eq(meta_name(&attr.value), "builder") && !attr.is_sugared_doc && match attr.style {
            AttrStyle::Outer => true,
            AttrStyle::Inner => false,
        };
        if is_builder {
            match &attr.value {
                MetaItem::List(_, nested) => {
                    match check_builder_items(nested, on_struct) {
                        Ok(()) => {},
                        Err(m) => {
                            return Err(m);
                        },
                    }
                },
                _ => {
                    return Err(to_owned_string("Could not parse builder options."));
                },
            }
        }
        i = i + 1;
    }
    assert(attrs@.skip(i as int) =~= Seq::<Attribute>::empty());
    Ok(())
}

/// Checks that the derive can read the input: the struct's `builder`
/// attributes, its shape (a struct with braces), and each field's name and
/// `builder` attributes, in this order; the error is the message the derive
/// stops with on the first problem.
pub fn check_input(ast: &MacroInput) -> (r: Result<(), String>)
    ensures
        match r {
            Ok(()) => input_problem(*ast) is None,
            Err(m) => input_problem(*ast) == Some(m@),
        },
        r is Ok <==> valid_input(*ast),
{
    proof {
        lemma_input_problem(*ast);
    }
    match check_attrs(&ast.attrs, true) {
        Ok(()) => {},
        Err(m) => {
            return Err(m);
        },
    }
    let fields = match &ast.body {
        Body::Struct(fields) => fields,
        Body::Other => {
            return Err(to_owned_string("#[derive(Builder)] can only be used with braced structs"));
        },
    };
    let mut i: usize = 0;
    assert(fields@.skip(0) =~= fields@);
    while i < fields.len()
        invariant
            i <= fields@.len(),
            fields_problem(fields@) == fields_problem(fields@.skip(i as int)),
            attrs_problem(ast.attrs@, true) is None,
            ast.body == Body::Struct(*fields),
            input_problem(*ast) is None <==> valid_input(*ast),
        decreases fields@.len() - i,
    {
        assert(fields@.skip(i as int).drop_first() =~= fields@.skip(i + 1));
        let f = &fields[i];
        assert(fields@.skip(i as int)[0] == fields@[i as int]);
        if f.ident.is_none() {
            return Err(message3("Missing identifier for field of type `", f.ty.as_str(), "`."));
        }
        match check_attrs(&f.attrs, false) {
            Ok(()) => {},
            Err(m) => {
                return Err(m);
            },
        }
        i = i + 1;
    }
    assert(fields@.skip(i as int) =~= Seq::<crate::legacy::syntax::Field>::empty());
    Ok(())
}

} // verus!
