//! `TryFrom<FooBuilder>` for the target struct.
use vstd::prelude::*;
use crate::bindings::Bindings;
use crate::generics::{angle_code, param_code, render_param, push_angle, GenericParam, Generics, ParamForm};
use crate::options::BuilderPattern;
use crate::text::{push_str, strings_view, to_owned_string};

verus! {

broadcast use {crate::text::lemma_concat_assoc, crate::text::lemma_concat_empty};

/// The impl-form source text of the lifetimes among `params`, in order.
pub open spec fn lifetime_codes(params: Seq<GenericParam>) -> Seq<Seq<char>>
    decreases params.len(),
{
    if params.len() == 0 {
        Seq::empty()
    } else if params.last() is Lifetime {
        lifetime_codes(params.drop_last()).push(param_code(params.last(), ParamForm::Impl))
    } else {
        lifetime_codes(params.drop_last())
    }
}

/// The impl-form source text of the other parameters among `params`, in order.
pub open spec fn non_lifetime_codes(params: Seq<GenericParam>) -> Seq<Seq<char>>
    decreases params.len(),
{
    if params.len() == 0 {
        Seq::empty()
    } else if params.last() is Lifetime {
        non_lifetime_codes(params.drop_last())
    } else {
        non_lifetime_codes(params.drop_last()).push(param_code(params.last(), ParamForm::Impl))
    }
}

/// The generics after `impl`, with the lifetime `'try_from` after the struct's lifetimes.
pub open spec fn try_from_generics_code(g: Generics) -> Seq<char> {
    angle_code(lifetime_codes(g.params@).push("'try_from"@) + non_lifetime_codes(g.params@))
}

/// Generator for `TryFrom<FooBuilder>`.
#[derive(Debug)]
pub struct TryFromImpl {
    /// Enables code generation for this TryFrom impl.
    pub enabled: bool,
    /// Name of the builder type.
    pub builder_ty: String,
    /// Name of the build fn.
    pub fn_ident: String,
    /// How the build method takes and returns `self` (e.g. mutably).
    pub pattern: BuilderPattern,
    /// Name of the target type.
    pub target_ty: String,
    /// Type parameters and lifetimes attached to the builder struct.
    pub generics: Generics,
    /// Bindings to libstd or libcore.
    pub bindings: Bindings,
}

fn push_try_from_generics(tokens: &mut String, g: &Generics)
    ensures
        final(tokens)@ == old(tokens)@ + try_from_generics_code(*g),
{
    let mut lts: Vec<String> = Vec::new();
    let mut others: Vec<String> = Vec::new();
    let mut i: usize = 0;
    while i < g.params.len()
        invariant
            i <= g.params@.len(),
            strings_view(lts@) == lifetime_codes(g.params@.subrange(0, i as int)),
            strings_view(others@) == non_lifetime_codes(g.params@.subrange(0, i as int)),
        decreases g.params@.len() - i,
    {
        proof {
            assert(g.params@.subrange(0, i + 1).drop_last() =~= g.params@.subrange(0, i as int));
        }
        let s = render_param(&g.params[i], ParamForm::Impl);
        match &g.params[i] {
            GenericParam::Lifetime { .. } => {
                lts.push(s);
                assert(strings_view(lts@) =~= lifetime_codes(g.params@.subrange(0, i + 1)));
            },
            _ => {
                others.push(s);
                assert(strings_view(others@) =~= non_lifetime_codes(g.params@.subrange(0, i + 1)));
            },
        }
        i = i + 1;
    }
    assert(g.params@.subrange(0, g.params@.len() as int) =~= g.params@);
    let ghost lts0 = strings_view(lts@);
    lts.push(to_owned_string("'try_from"));
    let mut k: usize = 0;
    let ghost lts1 = lts@;
    while k < others.len()
        invariant
            k <= others@.len(),
            lts@ == lts1 + others@.subrange(0, k as int),
        decreases others@.len() - k,
    {
        lts.push(others[k].clone());
        assert(lts@ =~= lts1 + others@.subrange(0, k + 1));
        k = k + 1;
    }
    assert(others@.subrange(0, others@.len() as int) =~= others@);
    assert(strings_view(lts@) =~= lts0.push("'try_from"@) + strings_view(others@));
    push_angle(tokens, &lts);
}

impl TryFromImpl {
    /// The `&'try_from ` or `&'try_from mut ` in front of the builder type, by pattern.
    pub open spec fn source_ref_code(&self) -> Seq<char> {
        match self.pattern {
            BuilderPattern::Immutable => "&'try_from "@,
            BuilderPattern::Mutable => "&'try_from mut "@,
            BuilderPattern::Owned => Seq::empty(),
        }
    }

    /// The `&` or `&mut ` in front of the parameter's type, by pattern.
    pub open spec fn param_ref_code(&self) -> Seq<char> {
        match self.pattern {
            BuilderPattern::Immutable => "&"@,
            BuilderPattern::Mutable => "&mut "@,
            BuilderPattern::Owned => Seq::empty(),
        }
    }

    /// The generics after `impl`, by pattern.
    pub open spec fn impl_generics_code(&self) -> Seq<char> {
        match self.pattern {
            BuilderPattern::Owned => self.generics.code(ParamForm::Impl),
            _ => try_from_generics_code(self.generics),
        }
    }

    /// The source text of the impl; nothing if disabled.
    pub open spec fn code(&self) -> Seq<char> {
        if !self.enabled {
            Seq::empty()
        } else {
            "impl"@ + self.impl_generics_code() + " "@ + self.bindings.spec_try_from_trait() + "<"@
                + self.source_ref_code() + self.builder_ty@ + self.generics.code(ParamForm::Ty)
                + "> for "@ + self.target_ty@ + self.generics.code(ParamForm::Ty)
                + self.generics.where_code() + " { type Error = "@
                + self.bindings.spec_string_ty() + "; fn try_from(v: "@ + self.param_ref_code()
                + self.builder_ty@ + self.generics.code(ParamForm::Ty) + ") -> "@
                + self.bindings.spec_result_ty() + "<Self, Self::Error> { v."@ + self.fn_ident@
                + "() } } "@
        }
    }

    /// Appends the impl to `tokens`; nothing if disabled.
    pub fn to_tokens(&self, tokens: &mut String)
        ensures
            final(tokens)@ == old(tokens)@ + self.code(),
    {
        if !self.enabled {
            return;
        }
        let try_from = self.bindings.try_from_trait();
        let result_ty = self.bindings.result_ty();
        let string_ty = self.bindings.string_ty();
        push_str(tokens, "impl");
        match self.pattern {
            BuilderPattern::Owned => self.generics.to_tokens(ParamForm::Impl, tokens),
            _ => push_try_from_generics(tokens, &self.generics),
        }
        push_str(tokens, " ");
        push_str(tokens, try_from.as_str());
        push_str(tokens, "<");
        match self.pattern {
            BuilderPattern::Immutable => push_str(tokens, "&'try_from "),
            BuilderPattern::Mutable => push_str(tokens, "&'try_from mut "),
            BuilderPattern::Owned => {},
        }
        push_str(tokens, self.builder_ty.as_str());
        self.generics.to_tokens(ParamForm::Ty, tokens);
        push_str(tokens, "> for ");
        push_str(tokens, self.target_ty.as_str());
        self.generics.to_tokens(ParamForm::Ty, tokens);
        self.generics.where_to_tokens(tokens);
        push_str(tokens, " { type Error = ");
        push_str(tokens, string_ty.as_str());
        push_str(tokens, "; fn try_from(v: ");
        match self.pattern {
            BuilderPattern::Immutable => push_str(tokens, "&"),
            BuilderPattern::Mutable => push_str(tokens, "&mut "),
            BuilderPattern::Owned => {},
        }
        push_str(tokens, self.builder_ty.as_str());
        self.generics.to_tokens(ParamForm::Ty, tokens);
        push_str(tokens, ") -> ");
        push_str(tokens, result_ty.as_str());
        push_str(tokens, "<Self, Self::Error> { v.");
        push_str(tokens, self.fn_ident.as_str());
        push_str(tokens, "() } } ");
    }
}

} // verus!
