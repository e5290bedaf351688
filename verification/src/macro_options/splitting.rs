//! Options may be spread over several `#[builder(...)]` attributes: reading
//! `#[builder(a, b)]` is reading `#[builder(a)] #[builder(b)]`.
use vstd::prelude::*;
use crate::macro_options::darling_opts::{
    options_from_input, spec_input_errors, spec_read_struct_attrs, spec_struct_attr,
    spec_struct_attrs, spec_struct_item, spec_struct_items, DeriveInput, Options, StructState,
};
use crate::macro_options::reporting::{keeps, lemma_struct_attrs, law_errors_are_kept};
use crate::meta::{Attribute, MetaArgs, NestedMeta};

verus! {

/// Whether `attr` is `#[builder(...)]` holding exactly `items`.
pub open spec fn is_builder_attr_of(attr: Attribute, items: Seq<NestedMeta>) -> bool {
    &&& attr.path@ == "builder"@
    &&& attr.args matches MetaArgs::List(v) && v@ == items
}

/// Whether `split` holds one `#[builder(item)]` for each of `items`, in order.
pub open spec fn is_split_of(split: Seq<Attribute>, items: Seq<NestedMeta>) -> bool {
    &&& split.len() == items.len()
    &&& forall|i: int| 0 <= i < items.len() ==> is_builder_attr_of(#[trigger] split[i], seq![items[i]])
}

/// Whether reading `items` from the state `st` stops at no error.
pub open spec fn items_read_through(items: Seq<NestedMeta>, st: StructState) -> bool {
    spec_struct_items(items, (st.0, st.1, st.4)).1 is None
}

/// Reading attributes one after another.
proof fn lemma_attrs_concat(a: Seq<Attribute>, b: Seq<Attribute>, st: StructState)
    ensures
        spec_struct_attrs(a + b, st) == spec_struct_attrs(b, spec_struct_attrs(a, st)),
    decreases a.len(),
{
    if a.len() == 0 {
        assert(a + b =~= b);
    } else {
        assert((a + b).drop_first() =~= a.drop_first() + b);
        lemma_attrs_concat(a.drop_first(), b, spec_struct_attr(a[0], st));
    }
}

/// Reading the split attributes is reading the items of the joined one.
proof fn lemma_split_attrs(items: Seq<NestedMeta>, split: Seq<Attribute>, st: StructState)
    requires
        is_split_of(split, items),
        items_read_through(items, st),
    ensures
        ({
            let ((a, dv, d), _) = spec_struct_items(items, (st.0, st.1, st.4));
            spec_struct_attrs(split, st) == (a, dv, st.2, st.3, d)
        }),
    decreases items.len(),
{
    if items.len() == 0 {
    } else {
        let s3 = (st.0, st.1, st.4);
        let (s2, e) = spec_struct_item(items[0], s3);
        assert(e is None);
        assert(is_builder_attr_of(split[0], seq![items[0]]));
        let one = seq![items[0]];
        assert(one[0] == items[0]);
        assert(one.drop_first() =~= Seq::<NestedMeta>::empty());
        assert(spec_struct_items(one.drop_first(), s2) == (s2, Option::<Seq<char>>::None));
        assert(spec_struct_items(one, s3) == (s2, Option::<Seq<char>>::None));
        let st2: StructState = (s2.0, s2.1, st.2, st.3, s2.2);
        assert(spec_struct_attr(split[0], st) == st2);
        assert forall|i: int| 0 <= i < items.drop_first().len() implies is_builder_attr_of(
            #[trigger] split.drop_first()[i],
            seq![items.drop_first()[i]],
        ) by {
            assert(is_builder_attr_of(split[i + 1], seq![items[i + 1]]));
        }
        lemma_split_attrs(items.drop_first(), split.drop_first(), st2);
    }
}

/// Where reading the items stops at an error, the split attributes report an
/// error too: the one of the item where the joined attribute stops.
proof fn lemma_split_attrs_stopped(items: Seq<NestedMeta>, split: Seq<Attribute>, st: StructState)
    requires
        is_split_of(split, items),
        !items_read_through(items, st),
    ensures
        spec_struct_attrs(split, st).4.len() > 0,
    decreases items.len(),
{
    let s3 = (st.0, st.1, st.4);
    let (s2, e) = spec_struct_item(items[0], s3);
    assert(is_builder_attr_of(split[0], seq![items[0]]));
    let one = seq![items[0]];
    assert(one[0] == items[0]);
    assert(one.drop_first() =~= Seq::<NestedMeta>::empty());
    if e is Some {
        assert(spec_struct_items(one, s3) == (s2, e));
        let st2 = spec_struct_attr(split[0], st);
        assert(st2.4.len() > 0);
        lemma_struct_attrs(split.drop_first(), st2);
    } else {
        assert(spec_struct_items(one.drop_first(), s2) == (s2, Option::<Seq<char>>::None));
        assert(spec_struct_items(one, s3) == (s2, Option::<Seq<char>>::None));
        let st2: StructState = (s2.0, s2.1, st.2, st.3, s2.2);
        assert(spec_struct_attr(split[0], st) == st2);
        assert forall|i: int| 0 <= i < items.drop_first().len() implies is_builder_attr_of(
            #[trigger] split.drop_first()[i],
            seq![items.drop_first()[i]],
        ) by {
            assert(is_builder_attr_of(split[i + 1], seq![items[i + 1]]));
        }
        lemma_split_attrs_stopped(items.drop_first(), split.drop_first(), st2);
    }
}

/// Splitting one struct-level `#[builder(k1, .., kn)]` into the attributes
/// `#[builder(k1)] .. #[builder(kn)]` at the same place changes neither
/// whether the input is read without error nor, when it is, the options read
/// (a key repeated across the attributes is still a duplicate).
pub proof fn law_split_attribute_same_outcome(
    ast: DeriveInput,
    split_ast: DeriveInput,
    pre: Seq<Attribute>,
    joined: Attribute,
    post: Seq<Attribute>,
    items: Seq<NestedMeta>,
    split: Seq<Attribute>,
)
    requires
        ast.attrs@ == pre + seq![joined] + post,
        split_ast.attrs@ == pre + split + post,
        split_ast.ident == ast.ident,
        split_ast.vis == ast.vis,
        split_ast.generics == ast.generics,
        split_ast.data == ast.data,
        is_builder_attr_of(joined, items),
        is_split_of(split, items),
    ensures
        (spec_input_errors(split_ast).len() == 0) == (spec_input_errors(ast).len() == 0),
        spec_input_errors(ast).len() == 0 ==> forall|o: Options|
            options_from_input(o, split_ast) <==> options_from_input(o, ast),
{
    let st0: StructState = (crate::macro_options::darling_opts::empty_struct_opts(), Option::None, Seq::empty(), Seq::empty(), Seq::empty());
    let s = spec_struct_attrs(pre, st0);
    if items_read_through(items, s) {
        law_split_attribute(ast, split_ast, pre, joined, post, items, split);
    } else {
        lemma_attrs_concat(pre + seq![joined], post, st0);
        lemma_attrs_concat(pre, seq![joined], st0);
        lemma_attrs_concat(pre + split, post, st0);
        lemma_attrs_concat(pre, split, st0);
        let one = seq![joined];
        assert(one[0] == joined);
        assert(one.drop_first() =~= Seq::<Attribute>::empty());
        assert(spec_struct_attrs(one.drop_first(), spec_struct_attr(joined, s)) == spec_struct_attr(joined, s));
        assert(spec_struct_attrs(one, s) == spec_struct_attr(joined, s));
        let j = spec_struct_attr(joined, s);
        assert(j.4.len() > 0);
        lemma_struct_attrs(post, j);
        lemma_split_attrs_stopped(items, split, s);
        let t = spec_struct_attrs(split, s);
        lemma_struct_attrs(post, t);
        law_errors_are_kept(ast);
        law_errors_are_kept(split_ast);
        assert(spec_read_struct_attrs(ast).4.len() > 0);
        assert(spec_read_struct_attrs(split_ast).4.len() > 0);
    }
}

/// Splitting one struct-level `#[builder(k1, .., kn)]` into the attributes
/// `#[builder(k1)] .. #[builder(kn)]` at the same place changes nothing: the
/// same options are read and the same errors reported (a key repeated across
/// the attributes is still a duplicate). This holds where reading the joined
/// attribute's items stops at no error: an error ends the rest of its own
/// attribute, but not the attributes that follow.
pub proof fn law_split_attribute(
    ast: DeriveInput,
    split_ast: DeriveInput,
    pre: Seq<Attribute>,
    joined: Attribute,
    post: Seq<Attribute>,
    items: Seq<NestedMeta>,
    split: Seq<Attribute>,
)
    requires
        ast.attrs@ == pre + seq![joined] + post,
        split_ast.attrs@ == pre + split + post,
        split_ast.ident == ast.ident,
        split_ast.vis == ast.vis,
        split_ast.generics == ast.generics,
        split_ast.data == ast.data,
        is_builder_attr_of(joined, items),
        is_split_of(split, items),
        items_read_through(
            items,
            spec_struct_attrs(pre, (crate::macro_options::darling_opts::empty_struct_opts(), Option::None, Seq::empty(), Seq::empty(), Seq::empty())),
        ),
    ensures
        spec_read_struct_attrs(split_ast) == spec_read_struct_attrs(ast),
        spec_input_errors(split_ast) == spec_input_errors(ast),
        forall|o: Options| options_from_input(o, split_ast) <==> options_from_input(o, ast),
{
    let st0: StructState = (crate::macro_options::darling_opts::empty_struct_opts(), Option::None, Seq::empty(), Seq::empty(), Seq::empty());
    let s = spec_struct_attrs(pre, st0);
    lemma_attrs_concat(pre + seq![joined], post, st0);
    lemma_attrs_concat(pre, seq![joined], st0);
    lemma_attrs_concat(pre + split, post, st0);
    lemma_attrs_concat(pre, split, st0);
    lemma_split_attrs(items, split, s);
    let one = seq![joined];
    assert(one[0] == joined);
    assert(one.drop_first() =~= Seq::<Attribute>::empty());
    assert(spec_struct_attrs(one.drop_first(), spec_struct_attr(joined, s)) == spec_struct_attr(joined, s));
    assert(spec_struct_attrs(one, s) == spec_struct_attr(joined, s));
    assert(spec_struct_attrs(pre + split, st0) == spec_struct_attrs(pre + seq![joined], st0));
    assert(spec_read_struct_attrs(split_ast) == spec_read_struct_attrs(ast));
}

} // verus!
