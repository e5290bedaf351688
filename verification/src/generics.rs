//! Generic parameters and where clauses of the input struct.
use vstd::prelude::*;
use crate::attrs::copy_strings;
use crate::text::{join, push_joined, push_str, strings_view, to_owned_string};

verus! {

broadcast use {crate::text::lemma_concat_assoc, crate::text::lemma_concat_empty};

/// One generic parameter of a struct.
#[derive(Debug, Clone)]
pub enum GenericParam {
    /// A lifetime such as `'a`, with its bounds (`'b` in `'a: 'b`).
    Lifetime { name: String, bounds: Vec<String> },
    /// A type parameter such as `T`, with its bounds and its default type.
    Type { name: String, bounds: Vec<String>, default: Option<String> },
    /// A const parameter such as `const N: usize`, with its default value.
    Const { name: String, ty: String, default: Option<String> },
}

/// Generic parameters and where clause of a struct.
#[derive(Debug, Clone)]
pub struct Generics {
    /// The parameters, in order.
    pub params: Vec<GenericParam>,
    /// The predicates of the where clause, e.g. `T: PartialEq`.
    pub where_predicates: Vec<String>,
}

/// Where a parameter is written.
#[derive(Debug, Clone, Copy, PartialEq, Eq, Structural)]
pub enum ParamForm {
    /// In the struct's declaration: with bounds and defaults.
    Decl,
    /// After `impl`: with bounds, without defaults.
    Impl,
    /// After the type's name: the name only.
    Ty,
}

/// The bounds of a parameter, after `: `, if it has any.
pub open spec fn bounds_code(bounds: Seq<Seq<char>>) -> Seq<char> {
    if bounds.len() == 0 {
        Seq::empty()
    } else {
        ": "@ + join(bounds, " + "@)
    }
}

/// The default of a parameter, after ` = `, if it is written.
pub open spec fn default_code(default: Option<String>, form: ParamForm) -> Seq<char> {
    match default {
        Some(d) => if form == ParamForm::Decl {
            " = "@ + d@
        } else {
            Seq::empty()
        },
        None => Seq::empty(),
    }
}

/// The source text of one parameter in the given place.
pub open spec fn param_code(p: GenericParam, form: ParamForm) -> Seq<char> {
    match p {
        GenericParam::Lifetime { name, bounds } => if form == ParamForm::Ty {
            name@
        } else {
            name@ + bounds_code(strings_view(bounds@))
        },
        GenericParam::Type { name, bounds, default } => if form == ParamForm::Ty {
            name@
        } else {
            name@ + bounds_code(strings_view(bounds@)) + default_code(default, form)
        },
        GenericParam::Const { name, ty, default } => if form == ParamForm::Ty {
            name@
        } else {
            "const "@ + name@ + ": "@ + ty@ + default_code(default, form)
        },
    }
}

/// The source text of each parameter in the given place.
pub open spec fn params_codes(params: Seq<GenericParam>, form: ParamForm) -> Seq<Seq<char>> {
    Seq::new(params.len(), |i: int| param_code(params[i], form))
}

/// `<p1, p2, ...>`, or nothing if there is no parameter.
pub open spec fn angle_code(parts: Seq<Seq<char>>) -> Seq<char> {
    if parts.len() == 0 {
        Seq::empty()
    } else {
        "<"@ + join(parts, ", "@) + ">"@
    }
}

fn push_bounds(tokens: &mut String, bounds: &Vec<String>)
    ensures
        final(tokens)@ == old(tokens)@ + bounds_code(strings_view(bounds@)),
{
    if bounds.len() > 0 {
        push_str(tokens, ": ");
        push_joined(tokens, bounds, " + ");
    }
}

fn push_default(tokens: &mut String, default: &Option<String>, form: ParamForm)
    ensures
        final(tokens)@ == old(tokens)@ + default_code(*default, form),
{
    if let Some(d) = default {
        if form == ParamForm::Decl {
            push_str(tokens, " = ");
            push_str(tokens, d.as_str());
        }
    }
}

/// The source text of one parameter in the given place.
pub fn render_param(p: &GenericParam, form: ParamForm) -> (r: String)
    ensures
        r@ == param_code(*p, form),
{
    let mut out = String::new();
    match p {
        GenericParam::Lifetime { name, bounds } => {
            push_str(&mut out, name.as_str());
            if form != ParamForm::Ty {
                push_bounds(&mut out, bounds);
            }
        },
        GenericParam::Type { name, bounds, default } => {
            push_str(&mut out, name.as_str());
            if form != ParamForm::Ty {
                push_bounds(&mut out, bounds);
                push_default(&mut out, default, form);
            }
        },
        GenericParam::Const { name, ty, default } => {
            if form != ParamForm::Ty {
                push_str(&mut out, "const ");
                push_str(&mut out, name.as_str());
                push_str(&mut out, ": ");
                push_str(&mut out, ty.as_str());
                push_default(&mut out, default, form);
            } else {
                push_str(&mut out, name.as_str());
            }
        },
    }
    assert(Seq::<char>::empty() + param_code(*p, form) == param_code(*p, form));
    out
}

/// The source text of each parameter in the given place.
pub fn render_params(params: &Vec<GenericParam>, form: ParamForm) -> (r: Vec<String>)
    ensures
        strings_view(r@) == params_codes(params@, form),
{
    let mut r: Vec<String> = Vec::new();
    let mut i: usize = 0;
    while i < params.len()
        invariant
            i <= params@.len(),
            r@.len() == i,
            strings_view(r@) == params_codes(params@.subrange(0, i as int), form),
        decreases params@.len() - i,
    {
        let s = render_param(&params[i], form);
        let ghost before = r@;
        r.push(s);
        proof {
            let sub = params@.subrange(0, i + 1);
            assert forall|j: int| 0 <= j < i + 1 implies strings_view(r@)[j] == params_codes(sub, form)[j] by {
                if j < i {
                    assert(r@[j] == before[j]);
                    assert(strings_view(before)[j] == params_codes(params@.subrange(0, i as int), form)[j]);
                }
            }
            assert(strings_view(r@) =~= params_codes(sub, form));
        }
        i = i + 1;
    }
    assert(params@.subrange(0, params@.len() as int) =~= params@);
    r
}

/// Appends `<p1, p2, ...>`, or nothing if `parts` is empty.
pub fn push_angle(tokens: &mut String, parts: &Vec<String>)
    ensures
        final(tokens)@ == old(tokens)@ + angle_code(strings_view(parts@)),
{
    if parts.len() > 0 {
        push_str(tokens, "<");
        push_joined(tokens, parts, ", ");
        push_str(tokens, ">");
    }
}

impl Generics {
    /// No parameters and no where clause.
    pub fn empty() -> (r: Self)
        ensures
            r.params@.len() == 0,
            r.where_predicates@.len() == 0,
    {
        Generics { params: Vec::new(), where_predicates: Vec::new() }
    }

    /// The parameters as written in the given place, between angle brackets.
    pub open spec fn code(&self, form: ParamForm) -> Seq<char> {
        angle_code(params_codes(self.params@, form))
    }

    /// The where clause, if it has any predicate.
    pub open spec fn where_code(&self) -> Seq<char> {
        if self.where_predicates@.len() == 0 {
            Seq::empty()
        } else {
            " where "@ + join(strings_view(self.where_predicates@), ", "@)
        }
    }

    /// Appends the parameters as written in the given place.
    pub fn to_tokens(&self, form: ParamForm, tokens: &mut String)
        ensures
            final(tokens)@ == old(tokens)@ + self.code(form),
    {
        let parts = render_params(&self.params, form);
        push_angle(tokens, &parts);
    }

    /// Appends the where clause.
    pub fn where_to_tokens(&self, tokens: &mut String)
        ensures
            final(tokens)@ == old(tokens)@ + self.where_code(),
    {
        if self.where_predicates.len() > 0 {
            push_str(tokens, " where ");
            push_joined(tokens, &self.where_predicates, ", ");
        }
    }

    /// A copy of these generics.
    pub fn duplicate(&self) -> (r: Generics)
        ensures
            forall|form: ParamForm| #[trigger] r.code(form) == self.code(form),
            r.where_code() == self.where_code(),
    {
        let mut params: Vec<GenericParam> = Vec::new();
        let mut i: usize = 0;
        while i < self.params.len()
            invariant
                i <= self.params@.len(),
                params@.len() == i,
                forall|j: int, form: ParamForm| 0 <= j < i ==> #[trigger] param_code(params@[j], form)
                    == param_code(self.params@[j], form),
            decreases self.params@.len() - i,
        {
            let p = match &self.params[i] {
                GenericParam::Lifetime { name, bounds } => GenericParam::Lifetime {
                    name: name.clone(),
                    bounds: copy_strings(bounds),
                },
                GenericParam::Type { name, bounds, default } => GenericParam::Type {
                    name: name.clone(),
                    bounds: copy_strings(bounds),
                    default: default.clone(),
                },
                GenericParam::Const { name, ty, default } => GenericParam::Const {
                    name: name.clone(),
                    ty: ty.clone(),
                    default: default.clone(),
                },
            };
            params.push(p);
            i = i + 1;
        }
        let r = Generics { params, where_predicates: copy_strings(&self.where_predicates) };
        assert forall|form: ParamForm| #[trigger] r.code(form) == self.code(form) by {
            assert(params_codes(r.params@, form) =~= params_codes(self.params@, form));
        }
        r
    }

    /// The same generics with `bound` added to the bounds of every type parameter.
    pub fn with_bound(&self, bound: &str) -> (r: Generics)
        ensures
            r.params@.len() == self.params@.len(),
            r.where_predicates@ == self.where_predicates@,
            forall|i: int, form: ParamForm| 0 <= i < r.params@.len() ==> #[trigger] param_code(r.params@[i], form)
                == bounded_param_code(self.params@[i], form, bound@),
            forall|i: int| 0 <= i < r.params@.len() ==> (#[trigger] r.params@[i] is Lifetime
                <==> self.params@[i] is Lifetime),
            forall|form: ParamForm| #[trigger] r.code(form) == bounded_code(*self, form, bound@),
    {
        let mut params: Vec<GenericParam> = Vec::new();
        let mut i: usize = 0;
        while i < self.params.len()
            invariant
                i <= self.params@.len(),
                params@.len() == i,
                forall|j: int, form: ParamForm| 0 <= j < i ==> #[trigger] param_code(params@[j], form)
                    == bounded_param_code(self.params@[j], form, bound@),
                forall|j: int| 0 <= j < i ==> (#[trigger] params@[j] is Lifetime
                    <==> self.params@[j] is Lifetime),
            decreases self.params@.len() - i,
        {
            let p = match &self.params[i] {
                GenericParam::Lifetime { name, bounds } => GenericParam::Lifetime {
                    name: name.clone(),
                    bounds: copy_strings(bounds),
                },
                GenericParam::Type { name, bounds, default } => {
                    let mut b = copy_strings(bounds);
                    b.push(to_owned_string(bound));
                    proof {
                        assert(strings_view(b@) =~= strings_view(bounds@).push(bound@));
                    }
                    GenericParam::Type { name: name.clone(), bounds: b, default: default.clone() }
                },
                GenericParam::Const { name, ty, default } => GenericParam::Const {
                    name: name.clone(),
                    ty: ty.clone(),
                    default: default.clone(),
                },
            };
            params.push(p);
            i = i + 1;
        }
        let r = Generics { params, where_predicates: copy_strings(&self.where_predicates) };
        assert forall|form: ParamForm| #[trigger] r.code(form) == bounded_code(*self, form, bound@) by {
            assert(params_codes(r.params@, form) =~= Seq::new(
                self.params@.len(),
                |i: int| bounded_param_code(self.params@[i], form, bound@),
            ));
        }
        r
    }
}

/// The parameters, with `bound` added to every type parameter, as written in the given place.
pub open spec fn bounded_code(g: Generics, form: ParamForm, bound: Seq<char>) -> Seq<char> {
    angle_code(Seq::new(g.params@.len(), |i: int| bounded_param_code(g.params@[i], form, bound)))
}

/// The source text of a parameter with `bound` added to it if it is a type parameter.
pub open spec fn bounded_param_code(p: GenericParam, form: ParamForm, bound: Seq<char>) -> Seq<char> {
    match p {
        GenericParam::Type { name, bounds, default } => if form == ParamForm::Ty {
            name@
        } else {
            name@ + bounds_code(strings_view(bounds@).push(bound)) + default_code(default, form)
        },
        _ => param_code(p, form),
    }
}

} // verus!
