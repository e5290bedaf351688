//! What the first-generation derive promises of every input.
use vstd::prelude::*;
use crate::legacy::codegen::{
    builder_field_code, field_ident, initializer_code, setter_code, setter_name,
    uninitialized_msg,
};
use crate::legacy::options::{
    fold_attrs, fold_setter_items, is_builder_attr, prefix_note, spec_field_options_of,
    spec_struct_options, step_attr, step_builder_item, struct_initial, FieldOptionsView,
    OptionsBuilderMode, OptionsBuilderView, SetterPattern,
};
use crate::legacy::syntax::{is_cooked_str, lit_str_value, Attribute, Field, Lit, MacroInput, MetaItem, NestedMetaItem};
use crate::text::string_literal_text;
use crate::visibility::Visibility;

verus! {

broadcast use {crate::text::lemma_concat_assoc, crate::text::lemma_concat_empty};

/// Attributes other than `builder` ones leave the reading state as it is.
proof fn lemma_other_attrs_change_nothing<Mode: OptionsBuilderMode>(
    attrs: Seq<Attribute>,
    st: OptionsBuilderView<Mode>,
)
    requires
        forall|i: int| 0 <= i < attrs.len() ==> !is_builder_attr(#[trigger] attrs[i]),
    ensures
        fold_attrs(attrs, st) == st,
    decreases attrs.len(),
{
    if attrs.len() > 0 {
        assert(!is_builder_attr(attrs[0]));
        assert(step_attr(attrs[0], st) == st);
        assert forall|i: int| 0 <= i < attrs.drop_first().len() implies !is_builder_attr(
            #[trigger] attrs.drop_first()[i],
        ) by {
            assert(attrs.drop_first()[i] == attrs[i + 1]);
        }
        lemma_other_attrs_change_nothing(attrs.drop_first(), st);
    }
}

/// Without `builder` attributes on the struct, the builder is named after
/// the struct with `Builder` appended and has the struct's visibility, and
/// fields fall back on public setters, the mutable pattern, no prefix, and
/// no deprecation note.
pub proof fn law_struct_defaults(ast: MacroInput)
    requires
        forall|i: int| 0 <= i < ast.attrs@.len() ==> !is_builder_attr(#[trigger] ast.attrs@[i]),
    ensures
        spec_struct_options(ast).builder_name == ast.ident@ + "Builder"@,
        spec_struct_options(ast).builder_vis == ast.vis,
        spec_struct_options(ast).field_defaults.setter_enabled,
        spec_struct_options(ast).field_defaults.setter_pattern == SetterPattern::Mutable,
        spec_struct_options(ast).field_defaults.setter_prefix == Seq::<char>::empty(),
        spec_struct_options(ast).field_defaults.setter_vis == Visibility::Public,
        spec_struct_options(ast).field_defaults.deprecation_notes == Seq::<Seq<char>>::empty(),
{
    lemma_other_attrs_change_nothing(ast.attrs@, struct_initial(ast));
}

/// What a field sets for itself wins over the struct's setting; what it
/// leaves unset comes from the struct; its name is its own.
pub proof fn law_field_overrides_struct(
    st: OptionsBuilderView<crate::legacy::options::FieldMode>,
    name: Seq<char>,
    x: FieldOptionsView,
)
    ensures
        spec_field_options_of(st, name, x).setter_enabled == match st.setter_enabled {
            Some(b) => b,
            None => x.setter_enabled,
        },
        spec_field_options_of(st, name, x).setter_pattern == match st.setter_pattern {
            Some(p) => p,
            None => x.setter_pattern,
        },
        spec_field_options_of(st, name, x).setter_vis == match st.setter_vis {
            Some(v) => v,
            None => x.setter_vis,
        },
        spec_field_options_of(st, name, x).setter_prefix == match st.setter_prefix {
            Some(p) => p@,
            None => x.setter_prefix,
        },
        spec_field_options_of(st, name, x).field_name == name,
{
}

/// A field whose setter is skipped has neither a setter nor a builder
/// field, and the build method gives it its default value.
pub proof fn law_skipped_setter(f: Field, o: FieldOptionsView)
    requires
        !o.setter_enabled,
    ensures
        setter_code(f, o) == Seq::<char>::empty(),
        builder_field_code(f, o) == Seq::<char>::empty(),
        initializer_code(f, o) == field_ident(f) + ": ::std::default::Default::default(), "@,
{
}

/// A field with a setter is built from the value that was set, or the
/// build method fails with an error that names the field.
pub proof fn law_unset_field_is_an_error(f: Field, o: FieldOptionsView)
    requires
        o.setter_enabled,
    ensures
        initializer_code(f, o) == field_ident(f) + match o.setter_pattern {
            SetterPattern::Owned => ": self."@ + field_ident(f) + ".ok_or("@
                + string_literal_text(uninitialized_msg(o.field_name)) + ")?, "@,
            _ => ": ::std::clone::Clone::clone(self."@ + field_ident(f) + ".as_ref().ok_or("@
                + string_literal_text(uninitialized_msg(o.field_name)) + ")?), "@,
        },
{
}

/// A setter is named after its field, behind the prefix and `_` when there
/// is a prefix.
pub proof fn law_setter_name(f: Field, o: FieldOptionsView)
    ensures
        o.setter_prefix.len() == 0 ==> setter_name(f, o) == field_ident(f),
        o.setter_prefix.len() > 0 ==> setter_name(f, o) == o.setter_prefix + "_"@ + field_ident(f),
{
}

/// The deprecated `setter_prefix = "..."` sets the same prefix as
/// `setter(prefix = "...")`, and records one deprecation note that names both
/// spellings.
pub proof fn law_deprecated_prefix_spelling<Mode: OptionsBuilderMode>(
    old_name: String,
    new_name: String,
    lit: Lit,
    st: OptionsBuilderView<Mode>,
)
    requires
        old_name@ == "setter_prefix"@,
        new_name@ == "prefix"@,
        is_cooked_str(lit),
    ensures
        step_builder_item(NestedMetaItem::MetaItem(MetaItem::NameValue(old_name, lit)), st).setter_prefix
            == fold_setter_items(
            seq![NestedMetaItem::MetaItem(MetaItem::NameValue(new_name, lit))],
            st,
        ).setter_prefix,
        step_builder_item(NestedMetaItem::MetaItem(MetaItem::NameValue(old_name, lit)), st).setter_prefix
            == Some(lit_str_value(lit)),
        step_builder_item(
            NestedMetaItem::MetaItem(MetaItem::NameValue(old_name, lit)),
            st,
        ).deprecation_notes == st.deprecation_notes.push(prefix_note(lit)),
{
    let items = seq![NestedMetaItem::MetaItem(MetaItem::NameValue(new_name, lit))];
    assert(items.drop_first() =~= Seq::<NestedMetaItem>::empty());
    let after = crate::legacy::options::step_setter_item(items[0], st);
    assert(after.setter_prefix == Some(lit_str_value(lit)));
    assert(fold_setter_items(items, st) == fold_setter_items(items.drop_first(), after));
}

/// Reading `setter(...)` never unsets a decision on setters.
proof fn lemma_setter_items_keep_decision<Mode>(items: Seq<NestedMetaItem>, st: OptionsBuilderView<Mode>)
    requires
        st.setter_enabled is Some,
    ensures
        fold_setter_items(items, st).setter_enabled is Some,
    decreases items.len(),
{
    if items.len() > 0 {
        lemma_setter_items_keep_decision(items.drop_first(), crate::legacy::options::step_setter_item(items[0], st));
    }
}

/// Reading `builder(...)` never unsets a decision on setters.
proof fn lemma_builder_items_keep_decision<Mode: OptionsBuilderMode>(items: Seq<NestedMetaItem>, st: OptionsBuilderView<Mode>)
    requires
        st.setter_enabled is Some,
    ensures
        crate::legacy::options::fold_builder_items(items, st).setter_enabled is Some,
    decreases items.len(),
{
    if items.len() > 0 {
        if let NestedMetaItem::MetaItem(MetaItem::List(_, nested)) = items[0] {
            lemma_setter_items_keep_decision(nested@, st);
        }
        lemma_builder_items_keep_decision(items.drop_first(), step_builder_item(items[0], st));
    }
}

/// Reading attributes never unsets a decision on setters, and a `builder`
/// list attribute makes one.
proof fn lemma_attrs_decide<Mode: OptionsBuilderMode>(attrs: Seq<Attribute>, st: OptionsBuilderView<Mode>, j: int)
    requires
        0 <= j < attrs.len() ==> is_builder_attr(attrs[j]) && attrs[j].value is List,
        j >= attrs.len() ==> st.setter_enabled is Some,
        j >= 0,
    ensures
        fold_attrs(attrs, st).setter_enabled is Some,
    decreases attrs.len(),
{
    if attrs.len() > 0 {
        let next = step_attr(attrs[0], st);
        if j == 0 {
            if let MetaItem::List(_, nested) = attrs[0].value {
                lemma_builder_items_keep_decision(nested@, crate::legacy::options::with_enabled(st, true));
            }
            lemma_attrs_decide(attrs.drop_first(), next, attrs.len() as int);
        } else if j >= attrs.len() {
            if is_builder_attr(attrs[0]) {
                if let MetaItem::List(_, nested) = attrs[0].value {
                    lemma_builder_items_keep_decision(nested@, crate::legacy::options::with_enabled(st, true));
                }
            }
            lemma_attrs_decide(attrs.drop_first(), next, j - 1);
        } else {
            if is_builder_attr(attrs[0]) {
                if let MetaItem::List(_, nested) = attrs[0].value {
                    lemma_builder_items_keep_decision(nested@, crate::legacy::options::with_enabled(st, true));
                }
            }
            assert(attrs.drop_first()[j - 1] == attrs[j]);
            lemma_attrs_decide(attrs.drop_first(), next, j - 1);
        }
    }
}

/// A field with a `#[builder(...)]` attribute of its own decides for itself
/// whether it has a setter: whether setters are enabled for the struct
/// does not apply to it.
pub proof fn law_field_builder_attr_decides_setter(
    attrs: Seq<Attribute>,
    j: int,
    name: Seq<char>,
    x: FieldOptionsView,
)
    requires
        0 <= j < attrs.len(),
        is_builder_attr(attrs[j]),
        attrs[j].value is List,
    ensures
        spec_field_options_of(fold_attrs(attrs, crate::legacy::options::field_initial()), name, x).setter_enabled
            == fold_attrs(attrs, crate::legacy::options::field_initial()).setter_enabled->Some_0,
{
    lemma_attrs_decide(attrs, crate::legacy::options::field_initial(), j);
}

} // verus!
