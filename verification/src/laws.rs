//! What the derive promises of every input.
use vstd::prelude::*;
use crate::build_method::{build_self_param_code, BuildMethodView};
use crate::field_default_value::FieldDefaultValueView;
use crate::initializer::{default_ident_code, InitializerView};
use crate::builder::BuilderView;
use crate::derive::errors_code;
use crate::error_type::BuilderErrorTypeView;
use crate::macro_options::build_fn::BuildFnError;
use crate::macro_options::darling_opts::{spec_struct_item, Options, StructItemState, StructOpts};
use crate::macro_options::visibility_attr::VisibilityAttr;
use crate::macro_options::setter_opts::{spec_field_setter_item, FieldLevelSetter};
use crate::default_expression::DefaultExpression;
use crate::macro_options::field_with_defaults::FieldWithDefaults;
use crate::meta::{ident_text, duplicate_msg, spec_set_once, Lit, MetaArgs, NestedMeta};
use crate::syntax::syn_ident_text;
use crate::options::{spec_parse_pattern, spec_requires_clone, BuilderPattern};
use crate::setter::{return_ty_code, self_into_code, self_param_code, SetterView};
use crate::visibility::Visibility;

verus! {

/// A disabled setter, builder, build method or error type emits nothing.
pub proof fn law_disabled_emits_nothing(
    s: SetterView,
    b: BuilderView,
    m: BuildMethodView,
    e: BuilderErrorTypeView,
)
    ensures
        !s.enabled ==> s.code() == Seq::<char>::empty(),
        !b.enabled ==> b.code() == Seq::<char>::empty(),
        !m.enabled ==> m.code() == Seq::<char>::empty(),
        !e.enabled ==> e.code() == Seq::<char>::empty(),
{
}

/// Setters are emitted unless the field or the struct skips them; what
/// the field says wins over what the struct says.
pub proof fn law_setter_enabled_precedence(f: FieldWithDefaults)
    ensures
        f.field.setter.spec_setter_enabled() matches Some(b) ==> f.spec_setter_enabled() == b,
        f.field.setter.spec_setter_enabled() is None ==> f.spec_setter_enabled() == match f.parent.setter.spec_enabled() {
            Some(b) => b,
            None => true,
        },
        f.field.setter.spec_setter_enabled() is None && f.parent.setter.spec_enabled() is None ==> f.spec_setter_enabled(),
{
}

/// A field's builder pattern is its own, else the struct's, which is
/// mutable unless `pattern = "..."` says otherwise.
pub proof fn law_pattern_precedence(f: FieldWithDefaults)
    ensures
        f.field.pattern matches Some(p) ==> f.spec_pattern() == p,
        f.field.pattern is None ==> f.spec_pattern() == f.parent.pattern,
{
}

/// Setters are public unless the field or the struct gives another
/// visibility; the field's wins.
pub proof fn law_setter_vis_precedence(f: FieldWithDefaults)
    ensures
        f.field.vis.spec_as_expressed_vis() matches Some(v) ==> f.spec_setter_vis() == v,
        f.field.vis.spec_as_expressed_vis() is None && f.parent.builder_vis.spec_as_expressed_vis() is None
            ==> f.spec_setter_vis() == Visibility::Public,
{
}

/// The builder has the struct's visibility unless one is given; the build
/// method has the builder's unless one is given for it.
pub proof fn law_default_visibilities(o: Options)
    ensures
        o.builder_vis.spec_as_expressed_vis() is None ==> o.spec_builder_vis() == o.struct_vis,
        o.build_fn.vis.spec_as_expressed_vis() is None ==> o.spec_build_method_vis() == o.spec_builder_vis(),
{
}

/// The builder needs `Clone` exactly when the struct or one of its fields
/// uses a pattern other than the owned one.
pub proof fn law_requires_clone(o: Options)
    ensures
        o.spec_requires_clone() <==> (o.pattern != BuilderPattern::Owned || exists|i: int|
            0 <= i < o.data@.len() && #[trigger] o.spec_field_pattern(i) != BuilderPattern::Owned),
{
    assert(spec_requires_clone(o.pattern) <==> o.pattern != BuilderPattern::Owned);
    assert forall|i: int| 0 <= i < o.data@.len() implies (spec_requires_clone(#[trigger] o.spec_field_pattern(i))
        <==> o.spec_field_pattern(i) != BuilderPattern::Owned) by {}
}

/// An option given twice keeps its first value and reports one
/// `duplicate attribute` error.
pub proof fn law_set_twice<T>(first: T, second: T, diag: Seq<Seq<char>>)
    ensures
        spec_set_once(spec_set_once(None, first, diag).0, second, spec_set_once(None, first, diag).1)
            == (Some(first), diag.push(duplicate_msg())),
{
}

/// With an existing error type (`build_fn(error = "...")`), no error type
/// is emitted and the build method returns that type; otherwise the
/// builder's error type is emitted.
pub proof fn law_error_type(o: Options)
    ensures
        o.build_fn.error matches Some(BuildFnError::Existing(p)) ==> o.spec_error_type().code()
            == Seq::<char>::empty() && o.spec_full_build_method().error_ty == p@,
        !(o.build_fn.error matches Some(BuildFnError::Existing(_))) ==> o.spec_error_type().enabled,
{
}

/// The derived code is the builder, with one field and one setter for each
/// field of the struct, in order, and the build method after the setters,
/// followed by the error type.
pub proof fn law_derived_layout(o: Options)
    ensures
        o.spec_derived() == o.spec_full_builder().code() + o.spec_error_type().code(),
        o.spec_full_builder().fields.len() == o.data@.len(),
        o.spec_full_builder().functions.len() == o.data@.len() + 1,
        forall|i: int| 0 <= i < o.data@.len() ==> #[trigger] o.spec_full_builder().functions[i]
            == o.spec_field_at(i).spec_setter().code(),
        o.spec_full_builder().functions.last() == o.spec_full_build_method().code(),
{
}

/// The errors are reported one after another, each one as a compile error.
pub proof fn law_errors_in_order(messages: Seq<Seq<char>>, more: Seq<char>)
    ensures
        errors_code(messages.push(more)) == errors_code(messages) + crate::derive::error_code(more),
        errors_code(Seq::empty()) == Seq::<char>::empty(),
{
    assert(messages.push(more).drop_last() =~= messages);
}

/// A setter is generic over `Into` when its field says so; a field that
/// says nothing follows the struct's `setter(into)`, and is not generic when
/// the struct says nothing either.
pub proof fn law_setter_into_precedence(f: FieldWithDefaults)
    ensures
        f.field.setter.into matches Some(b) ==> f.spec_setter().generic_into == b,
        f.field.setter.into is None ==> f.spec_setter().generic_into == (f.parent.setter.into
            == Some(true)),
{
}

/// The build method takes the builder by value exactly for the owned
/// pattern, which is when its initializers move the builder's fields out
/// instead of cloning them, and when the setters take `self` by value too;
/// otherwise it borrows the builder.
pub proof fn law_build_takes_self_by_pattern(m: BuildMethodView, i: InitializerView, value: Seq<char>)
    requires
        i.builder_pattern == m.pattern,
    ensures
        (build_self_param_code(m.pattern) == "self"@) <==> (m.pattern == BuilderPattern::Owned),
        (build_self_param_code(m.pattern) == "self"@) <==> (i.move_or_clone_code(value) == value),
        (build_self_param_code(m.pattern) == "self"@) <==> (self_param_code(m.pattern) == "self"@),
        m.pattern != BuilderPattern::Owned ==> build_self_param_code(m.pattern) == "&self"@,
        m.head_code() == m.doc_code + m.visibility.code() + "fn "@ + m.ident + "("@
            + build_self_param_code(m.pattern) + ") -> "@ + m.crate_root
            + "::export::core::result::Result<"@ + m.target_ty + m.target_ty_generics
            + ", "@ + m.error_ty + ">"@,
{
    reveal_strlit("self");
    reveal_strlit("&self");
    reveal_strlit("&mut self");
    reveal_strlit(".as_ref().map(|value| ");
    assert("self"@.len() == 4);
    assert("&self"@.len() == 5);
    assert("&mut self"@.len() == 9);
    assert(".as_ref().map(|value| "@.len() > 0);
    if m.pattern != BuilderPattern::Owned {
        let t = i.move_or_clone_code(value);
        assert(t.len() > value.len());
    }
}

/// `pattern = "owned"`, `"mutable"` and `"immutable"` each select the pattern
/// they name, and record no error; the immutable and mutable patterns need
/// `Clone`, the owned one does not.
pub proof fn law_pattern_names(s: String, d: Seq<Seq<char>>)
    ensures
        s@ == "owned"@ ==> spec_parse_pattern(MetaArgs::Value(Lit::Str(s)), d) == (
            Ok::<BuilderPattern, Seq<char>>(BuilderPattern::Owned),
            d,
        ),
        s@ == "mutable"@ ==> spec_parse_pattern(MetaArgs::Value(Lit::Str(s)), d) == (
            Ok::<BuilderPattern, Seq<char>>(BuilderPattern::Mutable),
            d,
        ),
        s@ == "immutable"@ ==> spec_parse_pattern(MetaArgs::Value(Lit::Str(s)), d) == (
            Ok::<BuilderPattern, Seq<char>>(BuilderPattern::Immutable),
            d,
        ),
        spec_requires_clone(BuilderPattern::Immutable),
        spec_requires_clone(BuilderPattern::Mutable),
        !spec_requires_clone(BuilderPattern::Owned),
{
    reveal_strlit("owned");
    reveal_strlit("mutable");
    reveal_strlit("immutable");
}

/// A field without a default of its own, in a struct with a default
/// (`#[builder(default = "...")]` on the struct), takes the struct default's
/// value of that field, whether its setter is disabled or was not called; a
/// field with a default of its own takes that one either way.
pub proof fn law_struct_default_fills_fields(v: FieldDefaultValueView)
    ensures
        v.default_value is None && v.use_default_struct ==> v.disabled_code() == "__default."@
            + v.field_ident,
        v.default_value is Some || v.use_default_struct ==> v.calc_code() == "Some("@
            + v.disabled_code() + ")"@,
        v.enabled && !v.field_enabled && v.default_value is None && v.use_default_struct
            ==> v.code() == "let "@ + default_ident_code(v.field_ident) + ": "@ + v.field_type
            + " = __default."@ + v.field_ident + "; "@,
        v.default_value matches Some(e) ==> v.disabled_code() == e.code_with_crate_root(v.crate_root),
        v.default_value is None && !v.use_default_struct ==> v.disabled_code() == v.crate_root
            + "::export::core::default::Default::default()"@,
{
    broadcast use crate::text::lemma_concat_assoc;
    reveal_strlit("Some(__default.");
    reveal_strlit("Some(");
    reveal_strlit("__default.");
    reveal_strlit(" = __default.");
    reveal_strlit(" = ");
    assert("Some(__default."@ =~= "Some("@ + "__default."@);
    assert(" = __default."@ =~= " = "@ + "__default."@);
}

/// Without `build_fn(error(...))`, the generated error type is emitted and
/// has the validation variant (so that `build_fn(validate = "...")` can
/// report through it); `error(validation_error = false)` leaves it out.
pub proof fn law_generated_error_has_validation(o: Options)
    ensures
        o.build_fn.error is None ==> o.spec_error_type().enabled && o.spec_error_type().validation_error,
        o.build_fn.error matches Some(BuildFnError::Generated { validation_error })
            ==> o.spec_error_type().enabled && o.spec_error_type().validation_error == validation_error,
{
}

/// How a setter takes and gives back the builder follows its pattern: only
/// the mutable pattern borrows it mutably and returns `&mut Self`; the owned
/// pattern takes it by value and the immutable one by shared reference, and
/// both return a new builder, which the immutable pattern makes by cloning.
pub proof fn law_setter_pattern(p: BuilderPattern, clone_trait: Seq<char>)
    ensures
        (self_param_code(p) == "&mut self"@) <==> (p == BuilderPattern::Mutable),
        (return_ty_code(p) == "&mut Self"@) <==> (p == BuilderPattern::Mutable),
        (return_ty_code(p) == "Self"@) <==> (p != BuilderPattern::Mutable),
        (self_param_code(p) == "self"@) <==> (p == BuilderPattern::Owned),
        (self_param_code(p) == "&self"@) <==> (p == BuilderPattern::Immutable),
        (self_into_code(p, clone_trait) == "self"@) <==> (p != BuilderPattern::Immutable),
{
    reveal_strlit("self");
    reveal_strlit("&self");
    reveal_strlit("&mut self");
    reveal_strlit("Self");
    reveal_strlit("&mut Self");
    reveal_strlit("::clone(self)");
    assert("self"@.len() == 4);
    assert("&self"@.len() == 5);
    assert("&mut self"@.len() == 9);
    assert("Self"@.len() == 4);
    assert("&mut Self"@.len() == 9);
    assert("::clone(self)"@.len() == 13);
    if p == BuilderPattern::Immutable {
        assert((clone_trait + "::clone(self)"@).len() >= 13);
    }
}

/// A setter generic over `Into` takes any `VALUE` convertible into the
/// field's type and stores `value.into()`; otherwise it takes the field's
/// type and stores the value as it is.
pub proof fn law_setter_into_signature(s: SetterView)
    ensures
        s.generic_into ==> s.param_ty_code() == "VALUE"@ && s.into_value_code() == "value.into()"@
            && s.ty_params_code() == "<VALUE: "@ + s.bindings.spec_into_trait() + "<"@ + s.field_type
            + ">>"@,
        !s.generic_into ==> s.param_ty_code() == s.field_type && s.into_value_code() == "value"@
            && s.ty_params_code() == Seq::<char>::empty(),
{
}

/// The validation variant adds to every part of the generated error type:
/// the variant itself, the conversion from `String`, and its display.
pub proof fn law_validation_variant_adds_code(e: crate::error_type::BuilderErrorTypeView)
    ensures
        ({
            let with = crate::error_type::BuilderErrorTypeView { validation_error: true, ..e };
            let without = crate::error_type::BuilderErrorTypeView { validation_error: false, ..e };
            &&& with.enum_code().len() > without.enum_code().len()
            &&& with.from_code().len() > without.from_code().len()
            &&& with.display_code().len() > without.display_code().len()
        }),
{
    reveal_strlit("ValidationError(");
    reveal_strlit("impl ");
    reveal_strlit("Self::ValidationError(ref error) => write!(f, \"{}\", error), ");
    assert("ValidationError("@.len() > 0);
    assert("impl "@.len() > 0);
}

/// The initializer of a field gives it: the default value computed before
/// (when the setter is disabled); the builder's field moved out (a `Move`
/// conversion); the given block (a `Block` conversion); or the builder's
/// value, falling back on the default value.
pub proof fn law_initializer_value(i: InitializerView)
    ensures
        !i.field_enabled ==> i.rhs_code() == default_ident_code(i.field_ident),
        i.field_enabled && i.conversion is Move ==> i.rhs_code() == "self."@ + i.field_ident,
        i.conversion matches crate::initializer::FieldConversion::Block(b) ==> (i.field_enabled
            ==> i.rhs_code() == b.code()),
        i.field_enabled && i.conversion is OptionOrDefault ==> i.rhs_code() == i.move_or_clone_code(
            "self."@ + i.field_ident,
        ) + ".or("@ + default_ident_code(i.field_ident) + ").unwrap()"@,
        i.code() == i.field_ident + ": "@ + i.rhs_code() + ", "@,
{
}

/// Whether `with_core` is `with_std` with its leading `::std` replaced by `root`.
pub open spec fn same_item(with_core: Seq<char>, with_std: Seq<char>, root: Seq<char>) -> bool {
    &&& with_std.len() >= 5
    &&& with_std.take(5) == "::std"@
    &&& with_core == root + with_std.skip(5)
}

/// The paths of the generated code name the same items with and without
/// `no_std`: under `no_std` they go through `::core` (`::alloc` for
/// `String`) where they otherwise go through `::std`.
pub proof fn law_no_std_paths(core: crate::bindings::Bindings, std: crate::bindings::Bindings)
    requires
        core.no_std,
        !std.no_std,
    ensures
        same_item(core.spec_string_ty(), std.spec_string_ty(), "::alloc"@),
        same_item(core.spec_result_ty(), std.spec_result_ty(), "::core"@),
        same_item(core.spec_option_ty(), std.spec_option_ty(), "::core"@),
        same_item(core.spec_phantom_data_ty(), std.spec_phantom_data_ty(), "::core"@),
        same_item(core.spec_default_trait(), std.spec_default_trait(), "::core"@),
        same_item(core.spec_clone_trait(), std.spec_clone_trait(), "::core"@),
        same_item(core.spec_into_trait(), std.spec_into_trait(), "::core"@),
        same_item(core.spec_try_into_trait(), std.spec_try_into_trait(), "::core"@),
        same_item(core.spec_try_from_trait(), std.spec_try_from_trait(), "::core"@),
{
    reveal_strlit("::std");
    reveal_strlit("::core");
    reveal_strlit("::alloc");
    reveal_strlit("::alloc::string::String");
    reveal_strlit("::std::string::String");
    assert(std.spec_string_ty().take(5) =~= "::std"@);
    assert(core.spec_string_ty() =~= "::alloc"@ + std.spec_string_ty().skip(5));
    reveal_strlit("::core::result::Result");
    reveal_strlit("::std::result::Result");
    assert(std.spec_result_ty().take(5) =~= "::std"@);
    assert(core.spec_result_ty() =~= "::core"@ + std.spec_result_ty().skip(5));
    reveal_strlit("::core::option::Option");
    reveal_strlit("::std::option::Option");
    assert(std.spec_option_ty().take(5) =~= "::std"@);
    assert(core.spec_option_ty() =~= "::core"@ + std.spec_option_ty().skip(5));
    reveal_strlit("::core::marker::PhantomData");
    reveal_strlit("::std::marker::PhantomData");
    assert(std.spec_phantom_data_ty().take(5) =~= "::std"@);
    assert(core.spec_phantom_data_ty() =~= "::core"@ + std.spec_phantom_data_ty().skip(5));
    reveal_strlit("::core::default::Default");
    reveal_strlit("::std::default::Default");
    assert(std.spec_default_trait().take(5) =~= "::std"@);
    assert(core.spec_default_trait() =~= "::core"@ + std.spec_default_trait().skip(5));
    reveal_strlit("::core::clone::Clone");
    reveal_strlit("::std::clone::Clone");
    assert(std.spec_clone_trait().take(5) =~= "::std"@);
    assert(core.spec_clone_trait() =~= "::core"@ + std.spec_clone_trait().skip(5));
    reveal_strlit("::core::convert::Into");
    reveal_strlit("::std::convert::Into");
    assert(std.spec_into_trait().take(5) =~= "::std"@);
    assert(core.spec_into_trait() =~= "::core"@ + std.spec_into_trait().skip(5));
    reveal_strlit("::core::convert::TryInto");
    reveal_strlit("::std::convert::TryInto");
    assert(std.spec_try_into_trait().take(5) =~= "::std"@);
    assert(core.spec_try_into_trait() =~= "::core"@ + std.spec_try_into_trait().skip(5));
    reveal_strlit("::core::convert::TryFrom");
    reveal_strlit("::std::convert::TryFrom");
    assert(std.spec_try_from_trait().take(5) =~= "::std"@);
    assert(core.spec_try_from_trait() =~= "::core"@ + std.spec_try_from_trait().skip(5));
}

/// Each struct-level option, given once in a valid form, stores what it says
/// and reports nothing: `no_std`, `try_setter` and `custom_constructor` turn
/// their flag on; `name = "..."` stores the name; `pattern = "..."` the
/// pattern it names; `default` the `Default` trait's value; `public` and
/// `private` the visibility they name.
pub proof fn law_struct_options_read(item: NestedMeta, st: StructItemState)
    requires
        !(item.args is Malformed),
    ensures
        item.path@ == "no_std"@ && item.args is Word && st.0.no_std is None ==> spec_struct_item(item, st)
            == ((StructOpts { no_std: Some(true), ..st.0 }, st.1, st.2), Option::<Seq<char>>::None),
        item.path@ == "try_setter"@ && item.args is Word && st.0.try_setter is None ==> spec_struct_item(item, st)
            == ((StructOpts { try_setter: Some(true), ..st.0 }, st.1, st.2), Option::<Seq<char>>::None),
        item.path@ == "custom_constructor"@ && item.args is Word && st.0.custom_constructor is None
            ==> spec_struct_item(item, st) == ((StructOpts { custom_constructor: Some(true), ..st.0 }, st.1, st.2),
            Option::<Seq<char>>::None),
        item.args matches MetaArgs::Value(Lit::Str(n)) ==> (item.path@ == "name"@
            && syn_ident_text(n@) is Some && st.0.name is None ==> spec_struct_item(item, st) == (
            (StructOpts { name: Some(n), ..st.0 }, st.1, st.2),
            Option::<Seq<char>>::None,
        )),
        item.args matches MetaArgs::Value(Lit::Str(n)) ==> (item.path@ == "pattern"@
            && n@ == "immutable"@ && st.0.pattern is None ==> spec_struct_item(item, st) == (
            (StructOpts { pattern: Some(BuilderPattern::Immutable), ..st.0 }, st.1, st.2),
            Option::<Seq<char>>::None,
        )),
        item.args matches MetaArgs::Value(Lit::Str(n)) ==> (item.path@ == "pattern"@
            && n@ == "owned"@ && st.0.pattern is None ==> spec_struct_item(item, st) == (
            (StructOpts { pattern: Some(BuilderPattern::Owned), ..st.0 }, st.1, st.2),
            Option::<Seq<char>>::None,
        )),
        item.path@ == "default"@ && item.args is Word && st.0.default is None ==> spec_struct_item(item, st)
            == ((StructOpts { default: Some(DefaultExpression::Trait), ..st.0 }, st.1, st.2),
            Option::<Seq<char>>::None),
        item.path@ == "public"@ && item.args is Word && st.0.builder_vis is Unset ==> spec_struct_item(item, st)
            == ((StructOpts { builder_vis: VisibilityAttr::Public, ..st.0 }, st.1, st.2),
            Option::<Seq<char>>::None),
        item.path@ == "private"@ && item.args is Word && st.0.builder_vis is Unset ==> spec_struct_item(item, st)
            == ((StructOpts { builder_vis: VisibilityAttr::Private, ..st.0 }, st.1, st.2),
            Option::<Seq<char>>::None),
{
    reveal_strlit("name");
    reveal_strlit("crate");
    reveal_strlit("pattern");
    reveal_strlit("build_fn");
    reveal_strlit("derive");
    reveal_strlit("custom_constructor");
    reveal_strlit("create_empty");
    reveal_strlit("setter");
    reveal_strlit("default");
    reveal_strlit("no_std");
    reveal_strlit("try_setter");
    reveal_strlit("field");
    reveal_strlit("public");
    reveal_strlit("private");
    reveal_strlit("vis");
    if item.path@ == "no_std"@ {
        assert("no_std"@.len() != "name"@.len());
        assert("no_std"@.len() != "crate"@.len());
        assert("no_std"@.len() != "pattern"@.len());
        assert("no_std"@.len() != "build_fn"@.len());
        assert("no_std"@[0] != "derive"@[0]);
        assert("no_std"@.len() != "custom_constructor"@.len());
        assert("no_std"@.len() != "create_empty"@.len());
        assert("no_std"@[0] != "setter"@[0]);
        assert("no_std"@.len() != "default"@.len());
        assert("no_std"@.len() != "try_setter"@.len());
        assert("no_std"@.len() != "field"@.len());
        assert("no_std"@[0] != "public"@[0]);
        assert("no_std"@.len() != "private"@.len());
        assert("no_std"@.len() != "vis"@.len());
    }
    if item.path@ == "try_setter"@ {
        assert("try_setter"@.len() != "name"@.len());
        assert("try_setter"@.len() != "crate"@.len());
        assert("try_setter"@.len() != "pattern"@.len());
        assert("try_setter"@.len() != "build_fn"@.len());
        assert("try_setter"@.len() != "derive"@.len());
        assert("try_setter"@.len() != "custom_constructor"@.len());
        assert("try_setter"@.len() != "create_empty"@.len());
        assert("try_setter"@.len() != "setter"@.len());
        assert("try_setter"@.len() != "default"@.len());
        assert("try_setter"@.len() != "no_std"@.len());
        assert("try_setter"@.len() != "field"@.len());
        assert("try_setter"@.len() != "public"@.len());
        assert("try_setter"@.len() != "private"@.len());
        assert("try_setter"@.len() != "vis"@.len());
    }
    if item.path@ == "custom_constructor"@ {
        assert("custom_constructor"@.len() != "name"@.len());
        assert("custom_constructor"@.len() != "crate"@.len());
        assert("custom_constructor"@.len() != "pattern"@.len());
        assert("custom_constructor"@.len() != "build_fn"@.len());
        assert("custom_constructor"@.len() != "derive"@.len());
        assert("custom_constructor"@.len() != "create_empty"@.len());
        assert("custom_constructor"@.len() != "setter"@.len());
        assert("custom_constructor"@.len() != "default"@.len());
        assert("custom_constructor"@.len() != "no_std"@.len());
        assert("custom_constructor"@.len() != "try_setter"@.len());
        assert("custom_constructor"@.len() != "field"@.len());
        assert("custom_constructor"@.len() != "public"@.len());
        assert("custom_constructor"@.len() != "private"@.len());
        assert("custom_constructor"@.len() != "vis"@.len());
    }
    if item.path@ == "name"@ {
        assert("name"@.len() != "crate"@.len());
        assert("name"@.len() != "pattern"@.len());
        assert("name"@.len() != "build_fn"@.len());
        assert("name"@.len() != "derive"@.len());
        assert("name"@.len() != "custom_constructor"@.len());
        assert("name"@.len() != "create_empty"@.len());
        assert("name"@.len() != "setter"@.len());
        assert("name"@.len() != "default"@.len());
        assert("name"@.len() != "no_std"@.len());
        assert("name"@.len() != "try_setter"@.len());
        assert("name"@.len() != "field"@.len());
        assert("name"@.len() != "public"@.len());
        assert("name"@.len() != "private"@.len());
        assert("name"@.len() != "vis"@.len());
    }
    if item.path@ == "pattern"@ {
        assert("pattern"@.len() != "name"@.len());
        assert("pattern"@.len() != "crate"@.len());
        assert("pattern"@.len() != "build_fn"@.len());
        assert("pattern"@.len() != "derive"@.len());
        assert("pattern"@.len() != "custom_constructor"@.len());
        assert("pattern"@.len() != "create_empty"@.len());
        assert("pattern"@.len() != "setter"@.len());
        assert("pattern"@[0] != "default"@[0]);
        assert("pattern"@.len() != "no_std"@.len());
        assert("pattern"@.len() != "try_setter"@.len());
        assert("pattern"@.len() != "field"@.len());
        assert("pattern"@.len() != "public"@.len());
        assert("pattern"@[1] != "private"@[1]);
        assert("pattern"@.len() != "vis"@.len());
    }
    if item.path@ == "default"@ {
        assert("default"@.len() != "name"@.len());
        assert("default"@.len() != "crate"@.len());
        assert("default"@[0] != "pattern"@[0]);
        assert("default"@.len() != "build_fn"@.len());
        assert("default"@.len() != "derive"@.len());
        assert("default"@.len() != "custom_constructor"@.len());
        assert("default"@.len() != "create_empty"@.len());
        assert("default"@.len() != "setter"@.len());
        assert("default"@.len() != "no_std"@.len());
        assert("default"@.len() != "try_setter"@.len());
        assert("default"@.len() != "field"@.len());
        assert("default"@.len() != "public"@.len());
        assert("default"@[0] != "private"@[0]);
        assert("default"@.len() != "vis"@.len());
    }
    if item.path@ == "public"@ {
        assert("public"@.len() != "name"@.len());
        assert("public"@.len() != "crate"@.len());
        assert("public"@.len() != "pattern"@.len());
        assert("public"@.len() != "build_fn"@.len());
        assert("public"@[0] != "derive"@[0]);
        assert("public"@.len() != "custom_constructor"@.len());
        assert("public"@.len() != "create_empty"@.len());
        assert("public"@[0] != "setter"@[0]);
        assert("public"@.len() != "default"@.len());
        assert("public"@[0] != "no_std"@[0]);
        assert("public"@.len() != "try_setter"@.len());
        assert("public"@.len() != "field"@.len());
        assert("public"@.len() != "private"@.len());
        assert("public"@.len() != "vis"@.len());
    }
    if item.path@ == "private"@ {
        assert("private"@.len() != "name"@.len());
        assert("private"@.len() != "crate"@.len());
        assert("private"@[1] != "pattern"@[1]);
        assert("private"@.len() != "build_fn"@.len());
        assert("private"@.len() != "derive"@.len());
        assert("private"@.len() != "custom_constructor"@.len());
        assert("private"@.len() != "create_empty"@.len());
        assert("private"@.len() != "setter"@.len());
        assert("private"@[0] != "default"@[0]);
        assert("private"@.len() != "no_std"@.len());
        assert("private"@.len() != "try_setter"@.len());
        assert("private"@.len() != "field"@.len());
        assert("private"@.len() != "public"@.len());
        assert("private"@.len() != "vis"@.len());
    }
    reveal_strlit("owned");
    reveal_strlit("mutable");
    reveal_strlit("immutable");
    assert("immutable"@.len() != "owned"@.len());
    assert("immutable"@.len() != "mutable"@.len());
}

/// Each option of a field's `setter(...)`, given once in a valid form,
/// stores what it says: a bare `into`, `strip_option`, `skip` or `custom`
/// turns it on, `= "false"` turns it off, and `name` or `prefix` stores the
/// identifier given.
pub proof fn law_field_setter_options_read(item: NestedMeta, acc: FieldLevelSetter, d: Seq<Seq<char>>)
    requires
        !(item.args is Malformed),
    ensures
        item.path@ == "into"@ && item.args is Word && acc.into is None ==> spec_field_setter_item(item, acc, d)
            == (Ok::<FieldLevelSetter, Seq<char>>(FieldLevelSetter { into: Some(true), ..acc }), d),
        item.args matches MetaArgs::Value(Lit::Str(b)) ==> (item.path@ == "into"@ && b@ == "false"@
            && acc.into is None ==> spec_field_setter_item(item, acc, d) == (
            Ok::<FieldLevelSetter, Seq<char>>(FieldLevelSetter { into: Some(false), ..acc }),
            d,
        )),
        item.path@ == "strip_option"@ && item.args is Word && acc.strip_option is None ==> spec_field_setter_item(item, acc, d)
            == (Ok::<FieldLevelSetter, Seq<char>>(FieldLevelSetter { strip_option: Some(true), ..acc }), d),
        item.args matches MetaArgs::Value(Lit::Str(b)) ==> (item.path@ == "strip_option"@ && b@ == "false"@
            && acc.strip_option is None ==> spec_field_setter_item(item, acc, d) == (
            Ok::<FieldLevelSetter, Seq<char>>(FieldLevelSetter { strip_option: Some(false), ..acc }),
            d,
        )),
        item.path@ == "skip"@ && item.args is Word && acc.skip is None ==> spec_field_setter_item(item, acc, d)
            == (Ok::<FieldLevelSetter, Seq<char>>(FieldLevelSetter { skip: Some(true), ..acc }), d),
        item.args matches MetaArgs::Value(Lit::Str(b)) ==> (item.path@ == "skip"@ && b@ == "false"@
            && acc.skip is None ==> spec_field_setter_item(item, acc, d) == (
            Ok::<FieldLevelSetter, Seq<char>>(FieldLevelSetter { skip: Some(false), ..acc }),
            d,
        )),
        item.path@ == "custom"@ && item.args is Word && acc.custom is None ==> spec_field_setter_item(item, acc, d)
            == (Ok::<FieldLevelSetter, Seq<char>>(FieldLevelSetter { custom: Some(true), ..acc }), d),
        item.args matches MetaArgs::Value(Lit::Str(b)) ==> (item.path@ == "custom"@ && b@ == "false"@
            && acc.custom is None ==> spec_field_setter_item(item, acc, d) == (
            Ok::<FieldLevelSetter, Seq<char>>(FieldLevelSetter { custom: Some(false), ..acc }),
            d,
        )),
        item.args matches MetaArgs::Value(Lit::Str(n)) ==> (item.path@ == "name"@
            && syn_ident_text(n@) is Some && acc.name is None ==> spec_field_setter_item(item, acc, d) == (
            Ok::<FieldLevelSetter, Seq<char>>(FieldLevelSetter { name: Some(n), ..acc }),
            d,
        )),
        item.args matches MetaArgs::Value(Lit::Str(n)) ==> (item.path@ == "prefix"@
            && syn_ident_text(n@) is Some && acc.prefix is None ==> spec_field_setter_item(item, acc, d) == (
            Ok::<FieldLevelSetter, Seq<char>>(FieldLevelSetter { prefix: Some(n), ..acc }),
            d,
        )),
{
    reveal_strlit("prefix");
    reveal_strlit("name");
    reveal_strlit("into");
    reveal_strlit("strip_option");
    reveal_strlit("skip");
    reveal_strlit("custom");
    reveal_strlit("each");
    reveal_strlit("true");
    reveal_strlit("false");
    assert("false"@.len() != "true"@.len());
    if item.path@ == "into"@ {
        assert("into"@.len() != "prefix"@.len());
        assert("into"@[0] != "name"@[0]);
        assert("into"@.len() != "strip_option"@.len());
        assert("into"@[0] != "skip"@[0]);
        assert("into"@.len() != "custom"@.len());
        assert("into"@[0] != "each"@[0]);
    }
    if item.path@ == "strip_option"@ {
        assert("strip_option"@.len() != "prefix"@.len());
        assert("strip_option"@.len() != "name"@.len());
        assert("strip_option"@.len() != "into"@.len());
        assert("strip_option"@.len() != "skip"@.len());
        assert("strip_option"@.len() != "custom"@.len());
        assert("strip_option"@.len() != "each"@.len());
    }
    if item.path@ == "skip"@ {
        assert("skip"@.len() != "prefix"@.len());
        assert("skip"@[0] != "name"@[0]);
        assert("skip"@[0] != "into"@[0]);
        assert("skip"@.len() != "strip_option"@.len());
        assert("skip"@.len() != "custom"@.len());
        assert("skip"@[0] != "each"@[0]);
    }
    if item.path@ == "custom"@ {
        assert("custom"@[0] != "prefix"@[0]);
        assert("custom"@.len() != "name"@.len());
        assert("custom"@.len() != "into"@.len());
        assert("custom"@.len() != "strip_option"@.len());
        assert("custom"@.len() != "skip"@.len());
        assert("custom"@.len() != "each"@.len());
    }
    if item.path@ == "name"@ {
        assert("name"@.len() != "prefix"@.len());
        assert("name"@[0] != "into"@[0]);
        assert("name"@.len() != "strip_option"@.len());
        assert("name"@[0] != "skip"@[0]);
        assert("name"@.len() != "custom"@.len());
        assert("name"@[0] != "each"@[0]);
    }
    if item.path@ == "prefix"@ {
        assert("prefix"@.len() != "name"@.len());
        assert("prefix"@.len() != "into"@.len());
        assert("prefix"@.len() != "strip_option"@.len());
        assert("prefix"@.len() != "skip"@.len());
        assert("prefix"@[0] != "custom"@[0]);
        assert("prefix"@.len() != "each"@.len());
    }
}

/// How a field's own options and the struct's combine: the field's own
/// `strip_option` wins over the struct's; a setter name given for the field
/// is used as it is, else the field's prefix (or the struct's) goes before
/// the field's name; a `try_` setter is added when the field or the struct
/// asks for it; `skip` drops setter and field, `custom` only the setter; the
/// field's own default wins over the struct default, which fills a field
/// without one; `field(build = ...)` gives the conversion, else a
/// `field(ty = ...)` moves the builder's field, else the value set is used.
pub proof fn law_field_option_precedence(f: FieldWithDefaults)
    ensures
        f.field.setter.strip_option matches Some(b) ==> f.spec_setter_strip_option() == b,
        f.field.setter.strip_option is None ==> f.spec_setter_strip_option() == (
        f.parent.setter.strip_option == Some(true)),
        f.field.setter.name matches Some(n) ==> f.spec_setter().ident == ident_text(n@),
        f.field.setter.name is None ==> (f.field.setter.prefix matches Some(p) ==> f.spec_setter().ident
            == ident_text(p@) + "_"@ + f.spec_field_ident()),
        f.field.setter.name is None && f.field.setter.prefix is None ==> (
        f.parent.setter.prefix matches Some(p) ==> f.spec_setter().ident == ident_text(p@) + "_"@
            + f.spec_field_ident()),
        f.field.setter.name is None && f.field.setter.prefix is None && f.parent.setter.prefix is None
            ==> f.spec_setter().ident == f.spec_field_ident(),
        f.spec_setter().try_setter == (f.field.try_setter || f.parent.try_setter),
        f.field.setter.skip == Some(true) ==> !f.spec_field_enabled(),
        f.field.setter.skip == Some(true) && f.field.setter.custom is None ==> !f.spec_setter_enabled(),
        f.field.setter.custom == Some(true) ==> !f.spec_setter_enabled(),
        f.field.default is Some ==> f.spec_default_value().default_value == f.field.default
            && !f.spec_default_value().use_default_struct,
        f.field.default is None && f.parent.default is Some ==> f.spec_default_value().use_default_struct,
        f.parent.default is None ==> !f.spec_default_value().use_default_struct,
        f.field.field.build matches Some(b) ==> f.spec_initializer().conversion == crate::initializer::FieldConversion::Block(b),
        f.field.field.build is None && f.field.field.builder_type is Some ==> f.spec_initializer().conversion is Move,
        f.field.field.build is None && f.field.field.builder_type is None
            ==> f.spec_initializer().conversion is OptionOrDefault,
        f.field.field.vis.spec_as_expressed_vis() matches Some(v) ==> f.spec_builder_field().field_visibility == v,
        f.field.field.vis.spec_as_expressed_vis() is None && f.spec_field_enabled() ==> (
        f.parent.field.vis.spec_as_expressed_vis() matches Some(v) ==> f.spec_builder_field().field_visibility == v),
        f.field.field.vis.spec_as_expressed_vis() is None && f.parent.field.vis.spec_as_expressed_vis() is None
            ==> f.spec_builder_field().field_visibility == Visibility::Inherited,
        f.parent.crate_root is None ==> f.spec_initializer().crate_root == "::derive_builder"@,
        f.parent.crate_root matches Some(c) ==> f.spec_initializer().crate_root == c@,
{
}

/// The pieces generated for one field fit together: the build method
/// declares the field's default value exactly where the initializer uses it
/// (a disabled field, or one read from the builder's `Option`), under the name
/// the initializer uses; the builder keeps an `Option` of the field's type
/// exactly where the initializer reads one, unless `field(build = ...)`
/// decides the value.
pub proof fn law_field_pieces_agree(f: FieldWithDefaults)
    ensures
        f.spec_default_value().enabled <==> (!f.spec_initializer().field_enabled
            || f.spec_initializer().conversion is OptionOrDefault),
        f.spec_default_value().field_ident == f.spec_initializer().field_ident,
        f.spec_default_value().field_enabled == f.spec_initializer().field_enabled,
        f.spec_builder_field().field_enabled == f.spec_initializer().field_enabled,
        f.spec_builder_field().field_ident == f.spec_initializer().field_ident,
        f.field.field.build is None ==> (f.spec_builder_field().field_type is Optional
            <==> f.spec_initializer().conversion is OptionOrDefault),
        f.field.field.builder_type is None ==> f.spec_builder_field().field_type == crate::builder_field::BuilderFieldType::Optional(f.field.ty),
{
}

/// The build method follows the struct's options: it is named `build`
/// unless `build_fn(name = ...)` says otherwise, and emitted unless
/// `build_fn(skip)`; it takes the builder by value exactly for the owned
/// pattern; it first calls `build_fn(validate = ...)` on the builder, with
/// `?`, then sets up the struct default given by `default = ...`; it returns
/// the struct, or the generated error type (named after the builder) unless
/// an existing one is given.
pub proof fn law_build_method_from_options(o: Options)
    ensures
        o.build_fn.name is None ==> o.spec_full_build_method().ident == "build"@,
        o.build_fn.skip ==> o.spec_full_build_method().code() == Seq::<char>::empty(),
        (build_self_param_code(o.spec_full_build_method().pattern) == "self"@) <==> (o.pattern
            == BuilderPattern::Owned),
        o.build_fn.validate matches Some(v) ==> o.spec_full_build_method().body_code() == " { "@ + v@
            + "(&self)?; "@ + o.spec_full_build_method().default_struct_code() + crate::text::concat_all(
            o.spec_full_build_method().field_default_values,
        ) + "Ok("@ + o.ident@ + " { "@ + crate::text::concat_all(o.spec_full_build_method().initializers)
            + "}) } "@,
        o.build_fn.validate is None ==> o.spec_full_build_method().validate_code() == Seq::<char>::empty(),
        o.default matches Some(e) ==> o.spec_full_build_method().default_struct_code() == "let __default: "@
            + o.ident@ + o.generics.code(crate::generics::ParamForm::Ty) + " = "@ + e.code_with_crate_root(
            o.spec_crate_root(),
        ) + "; "@,
        o.default is None ==> o.spec_full_build_method().default_struct_code() == Seq::<char>::empty(),
        o.spec_full_build_method().target_ty == o.ident@,
        !(o.build_fn.error matches Some(BuildFnError::Existing(_))) ==> o.spec_full_build_method().error_ty
            == o.spec_error_type().ident,
        o.build_fn.error is None && o.name is None ==> o.spec_error_type().ident == o.ident@ + "BuilderError"@,
{
    reveal_strlit("self");
    reveal_strlit("&self");
    assert("self"@.len() != "&self"@.len());
}

/// A generic parameter is written by its name alone after the type's name;
/// after `impl` and in the builder's declaration with its bounds but never
/// its default; the struct's own declaration adds ` = default`. A type or
/// lifetime parameter without bounds reads the same in every place but the
/// declaration with a default.
pub proof fn law_generic_param_forms(p: crate::generics::GenericParam)
    ensures
        p matches crate::generics::GenericParam::Type { name, bounds, default } ==> {
            &&& crate::generics::param_code(p, crate::generics::ParamForm::Ty) == name@
            &&& crate::generics::param_code(p, crate::generics::ParamForm::Impl) == name@
                + crate::generics::bounds_code(crate::text::strings_view(bounds@))
            &&& (default matches Some(d) ==> crate::generics::param_code(p, crate::generics::ParamForm::Decl)
                == crate::generics::param_code(p, crate::generics::ParamForm::Impl) + " = "@ + d@)
            &&& (default is None ==> crate::generics::param_code(p, crate::generics::ParamForm::Decl)
                == crate::generics::param_code(p, crate::generics::ParamForm::Impl))
            &&& (bounds@.len() == 0 ==> crate::generics::param_code(p, crate::generics::ParamForm::Impl)
                == crate::generics::param_code(p, crate::generics::ParamForm::Ty))
        },
        p matches crate::generics::GenericParam::Lifetime { name, bounds } ==> {
            &&& crate::generics::param_code(p, crate::generics::ParamForm::Ty) == name@
            &&& crate::generics::param_code(p, crate::generics::ParamForm::Impl) == name@
                + crate::generics::bounds_code(crate::text::strings_view(bounds@))
            &&& (bounds@.len() == 0 ==> crate::generics::param_code(p, crate::generics::ParamForm::Impl)
                == name@)
        },
        p matches crate::generics::GenericParam::Const { name, ty, default } ==> {
            &&& crate::generics::param_code(p, crate::generics::ParamForm::Ty) == name@
            &&& crate::generics::param_code(p, crate::generics::ParamForm::Impl) == "const "@ + name@
                + ": "@ + ty@
        },
{
    broadcast use crate::text::lemma_concat_empty;
}

} // verus!
