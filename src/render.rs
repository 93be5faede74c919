//! Source text of generic parameters and `where` clauses.
use vstd::prelude::*;
use crate::schema::{
    params_view, predicates_view, strings_view, GenericParam, GenericParamModel, LifetimeParamModel,
    PredicateModel, WherePredicate,
};

verus! {

/// The items with `sep` between each two of them.
pub open spec fn join(items: Seq<Seq<char>>, sep: Seq<char>) -> Seq<char>
    decreases items.len(),
{
    if items.len() == 0 {
        Seq::empty()
    } else if items.len() == 1 {
        items[0]
    } else {
        join(items.drop_last(), sep) + sep + items.last()
    }
}

/// `: A + B`, or nothing for no bounds.
pub open spec fn bounds_text(bounds: Seq<Seq<char>>) -> Seq<char> {
    if bounds.len() == 0 {
        Seq::empty()
    } else {
        ": "@ + join(bounds, " + "@)
    }
}

/// ` = D`, or nothing for no default.
pub open spec fn default_text(default: Option<Seq<char>>) -> Seq<char> {
    match default {
        Some(d) => " = "@ + d,
        None => Seq::empty(),
    }
}

pub open spec fn lifetime_text(l: LifetimeParamModel) -> Seq<char> {
    l.lifetime + bounds_text(l.bounds)
}

pub open spec fn param_text(p: GenericParamModel) -> Seq<char> {
    match p {
        GenericParamModel::Lifetime(l) => lifetime_text(l),
        GenericParamModel::Type { ident, bounds, default } => ident + bounds_text(bounds)
            + default_text(default),
        GenericParamModel::Const { ident, ty, default } => "const "@ + ident + ": "@ + ty
            + default_text(default),
    }
}

/// A parameter list without its angle brackets: `'a, T: Clone, const N: usize`.
pub open spec fn params_text(ps: Seq<GenericParamModel>) -> Seq<char> {
    join(ps.map_values(|p: GenericParamModel| param_text(p)), ", "@)
}

pub open spec fn predicate_text(p: PredicateModel) -> Seq<char> {
    match p {
        PredicateModel::Lifetime { lifetime, bounds } => lifetime + ": "@ + join(bounds, " + "@),
        PredicateModel::Type { bounded_ty, bounds } => bounded_ty + ": "@ + join(bounds, " + "@),
    }
}

/// ` where P, Q`, or nothing for no predicates.
pub open spec fn where_text(ps: Seq<PredicateModel>) -> Seq<char> {
    if ps.len() == 0 {
        Seq::empty()
    } else {
        " where "@ + join(ps.map_values(|p: PredicateModel| predicate_text(p)), ", "@)
    }
}

pub fn join_strings(items: &Vec<String>, sep: &str) -> (r: String)
    ensures
        r@ == join(strings_view(items@), sep@),
{
    let ghost xs = strings_view(items@);
    let mut r = String::new();
    let mut i: usize = 0;
    while i < items.len()
        invariant
            i <= items@.len(),
            xs == strings_view(items@),
            r@ == join(xs.take(i as int), sep@),
        decreases items@.len() - i,
    {
        if i > 0 {
            r.append(sep);
        }
        r.append(items[i].as_str());
        proof {
            assert(xs.take(i as int + 1).drop_last() =~= xs.take(i as int));
            if i == 0 {
                assert(r@ =~= xs[0]);
            }
        }
        i = i + 1;
    }
    assert(xs.take(i as int) =~= xs);
    r
}

fn bounds_string(bounds: &Vec<String>) -> (r: String)
    ensures
        r@ == bounds_text(strings_view(bounds@)),
{
    if bounds.len() == 0 {
        String::new()
    } else {
        let r = String::from_str(": ");
        r.concat(join_strings(bounds, " + ").as_str())
    }
}

fn default_string(default: &Option<String>) -> (r: String)
    ensures
        r@ == default_text(crate::schema::opt_view(*default)),
{
    match default {
        Some(d) => String::from_str(" = ").concat(d.as_str()),
        None => String::new(),
    }
}

pub fn param_string(p: &GenericParam) -> (r: String)
    ensures
        r@ == param_text(p@),
{
    match p {
        GenericParam::Lifetime(l) => l.lifetime.clone().concat(bounds_string(&l.bounds).as_str()),
        GenericParam::Type(t) => t.ident.clone().concat(bounds_string(&t.bounds).as_str()).concat(
            default_string(&t.default).as_str(),
        ),
        GenericParam::Const(c) => String::from_str("const ").concat(c.ident.as_str()).concat(
            ": ",
        ).concat(c.ty.as_str()).concat(default_string(&c.default).as_str()),
    }
}

pub fn params_string(ps: &Vec<GenericParam>) -> (r: String)
    ensures
        r@ == params_text(params_view(ps@)),
{
    let ghost pv = params_view(ps@);
    let mut parts: Vec<String> = Vec::new();
    let mut i: usize = 0;
    while i < ps.len()
        invariant
            i <= ps@.len(),
            pv == params_view(ps@),
            parts@.len() == i,
            forall|k: int| 0 <= k < i ==> (#[trigger] parts@[k])@ == param_text(pv[k]),
        decreases ps@.len() - i,
    {
        parts.push(param_string(&ps[i]));
        i = i + 1;
    }
    assert(strings_view(parts@) =~= pv.map_values(|p: GenericParamModel| param_text(p)));
    join_strings(&parts, ", ")
}

fn predicate_string(p: &WherePredicate) -> (r: String)
    ensures
        r@ == predicate_text(p@),
{
    match p {
        WherePredicate::Lifetime { lifetime, bounds } => lifetime.clone().concat(": ").concat(
            join_strings(bounds, " + ").as_str(),
        ),
        WherePredicate::Type { bounded_ty, bounds } => bounded_ty.clone().concat(": ").concat(
            join_strings(bounds, " + ").as_str(),
        ),
    }
}

pub fn where_string(ps: &Vec<WherePredicate>) -> (r: String)
    ensures
        r@ == where_text(predicates_view(ps@)),
{
    let ghost pv = predicates_view(ps@);
    if ps.len() == 0 {
        return String::new();
    }
    let mut parts: Vec<String> = Vec::new();
    let mut i: usize = 0;
    while i < ps.len()
        invariant
            i <= ps@.len(),
            pv == predicates_view(ps@),
            parts@.len() == i,
            forall|k: int| 0 <= k < i ==> (#[trigger] parts@[k])@ == predicate_text(pv[k]),
        decreases ps@.len() - i,
    {
        parts.push(predicate_string(&ps[i]));
        i = i + 1;
    }
    assert(strings_view(parts@) =~= pv.map_values(|p: PredicateModel| predicate_text(p)));
    String::from_str(" where ").concat(join_strings(&parts, ", ").as_str())
}

} // verus!
