//! The generics of the generated implementations: the lifetime they are
//! bound by, the parameters of their headers and their `where` clause.
use vstd::prelude::*;
use crate::error::GenerateError;
use crate::schema::{
    lemma_params_view_push, lemma_predicates_view_push, params_view, predicates_view, strings_view,
    AccountsStruct, GenericParam, GenericParamModel, GenericsModel, LifetimeParam,
    LifetimeParamModel, PredicateModel, TypeParam, WhereClause, WherePredicate,
};

verus! {

/// The declared lifetimes, in order.
pub open spec fn lifetimes_of(ps: Seq<GenericParamModel>) -> Seq<LifetimeParamModel>
    decreases ps.len(),
{
    if ps.len() == 0 {
        Seq::empty()
    } else {
        let rest = lifetimes_of(ps.drop_last());
        match ps.last() {
            GenericParamModel::Lifetime(l) => rest.push(l),
            _ => rest,
        }
    }
}

/// The lifetime made up for a declaration that declares none.
pub const DEFAULT_LIFETIME: &'static str = "'info";

/// What syn reads from `text` as a lifetime parameter: the lifetime and its
/// bounds as they print, or nothing where the text is not one.
pub uninterp spec fn lifetime_param_of(text: Seq<char>) -> Option<LifetimeParamModel>;

/// Relies on syn::parse_str::<syn::LifetimeDef>: the parameter it reads
/// depends on the text alone.
#[verifier::external_body]
fn parse_lifetime_param(text: &str) -> (r: Option<LifetimeParam>)
    ensures
        r is None <==> lifetime_param_of(text@) is None,
        r matches Some(l) ==> lifetime_param_of(text@) == Some(l@),
{
    match syn::parse_str::<syn::LifetimeDef>(text) {
        Ok(def) => Some(
            LifetimeParam {
                lifetime: def.lifetime.to_string(),
                bounds: def.bounds.iter().map(|b| b.to_string()).collect(),
            },
        ),
        Err(_) => None,
    }
}

/// The lifetime that bounds every generated implementation: the first
/// declared one, or `d` where none is declared.
pub open spec fn trait_lifetime(g: GenericsModel, d: LifetimeParamModel) -> LifetimeParamModel {
    let ls = lifetimes_of(g.params);
    if ls.len() > 0 {
        ls[0]
    } else {
        d
    }
}

/// A parameter reduced to the identifier that names it.
pub open spec fn bare(p: GenericParamModel) -> GenericParamModel {
    match p {
        GenericParamModel::Lifetime(l) => GenericParamModel::Lifetime(
            LifetimeParamModel { lifetime: l.lifetime, bounds: Seq::empty() },
        ),
        GenericParamModel::Type { ident, .. } => GenericParamModel::Type {
            ident,
            bounds: Seq::empty(),
            default: None,
        },
        GenericParamModel::Const { ident, .. } => GenericParamModel::Type {
            ident,
            bounds: Seq::empty(),
            default: None,
        },
    }
}

/// The predicate `l: t`.
pub open spec fn outlives(l: Seq<char>, t: Seq<char>) -> PredicateModel {
    PredicateModel::Lifetime { lifetime: l, bounds: seq![t] }
}

pub open spec fn declared_predicates(g: GenericsModel) -> Seq<PredicateModel> {
    match g.where_clause {
        Some(w) => w,
        None => Seq::empty(),
    }
}

pub struct GenericsPlan {
    pub combined_generics: Seq<GenericParamModel>,
    pub trait_generics: Seq<GenericParamModel>,
    pub struct_generics: Seq<GenericParamModel>,
    pub where_predicates: Seq<PredicateModel>,
}

/// The plan for `g`, where `d` is the lifetime to add if `g` declares none.
pub open spec fn plan_with(g: GenericsModel, d: LifetimeParamModel) -> GenericsPlan {
    let t = trait_lifetime(g, d);
    GenericsPlan {
        combined_generics: if lifetimes_of(g.params).len() > 0 {
            g.params
        } else {
            seq![GenericParamModel::Lifetime(d)] + g.params
        },
        trait_generics: seq![GenericParamModel::Lifetime(t)],
        struct_generics: g.params.map_values(|p: GenericParamModel| bare(p)),
        where_predicates: declared_predicates(g) + lifetimes_of(g.params).map_values(
            |l: LifetimeParamModel| outlives(l.lifetime, t.lifetime),
        ),
    }
}

/// The plan for `g`; where `g` declares no lifetime, the lifetime added is
/// the one syn reads from the default name, and an error if it reads none.
pub open spec fn resolve(g: GenericsModel) -> Result<GenericsPlan, GenerateError> {
    let ls = lifetimes_of(g.params);
    if ls.len() > 0 {
        // the lifetime to add is not used here
        Ok(plan_with(g, ls[0]))
    } else {
        match lifetime_param_of(DEFAULT_LIFETIME@) {
            Some(d) => Ok(plan_with(g, d)),
            None => Err(GenerateError::MalformedLifetime),
        }
    }
}

/// The generics of the generated implementations.
pub struct ParsedGenerics {
    pub combined_generics: Vec<GenericParam>,
    pub trait_generics: Vec<GenericParam>,
    pub struct_generics: Vec<GenericParam>,
    pub where_clause: WhereClause,
}

impl View for ParsedGenerics {
    type V = GenericsPlan;

    open spec fn view(&self) -> GenericsPlan {
        GenericsPlan {
            combined_generics: params_view(self.combined_generics@),
            trait_generics: params_view(self.trait_generics@),
            struct_generics: params_view(self.struct_generics@),
            where_predicates: predicates_view(self.where_clause.predicates@),
        }
    }
}

pub proof fn lemma_lifetimes_of_concat(a: Seq<GenericParamModel>, b: Seq<GenericParamModel>)
    ensures
        lifetimes_of(a + b) == lifetimes_of(a) + lifetimes_of(b),
    decreases b.len(),
{
    if b.len() == 0 {
        assert(a + b =~= a);
        assert(lifetimes_of(a) + lifetimes_of(b) =~= lifetimes_of(a));
    } else {
        assert((a + b).drop_last() =~= a + b.drop_last());
        lemma_lifetimes_of_concat(a, b.drop_last());
        match b.last() {
            GenericParamModel::Lifetime(l) => {
                assert(lifetimes_of(a) + lifetimes_of(b) =~= (lifetimes_of(a) + lifetimes_of(
                    b.drop_last(),
                )).push(l));
            },
            _ => {},
        }
    }
}

/// A declaration with a lifetime is bound by its first lifetime, and its
/// parameters are taken as they are, with none added.
pub proof fn lemma_declared_lifetime_is_reused(g: GenericsModel, d: LifetimeParamModel)
    requires
        lifetimes_of(g.params).len() > 0,
    ensures
        plan_with(g, d).trait_generics == seq![
            GenericParamModel::Lifetime(lifetimes_of(g.params)[0]),
        ],
        plan_with(g, d).combined_generics == g.params,
        plan_with(g, d).combined_generics.len() == g.params.len(),
{
}

/// A declaration without a lifetime gets exactly one made-up lifetime, put in
/// front of its parameters.
pub proof fn lemma_missing_lifetime_is_synthesized(g: GenericsModel, d: LifetimeParamModel)
    requires
        lifetimes_of(g.params).len() == 0,
    ensures
        plan_with(g, d).trait_generics == seq![GenericParamModel::Lifetime(d)],
        lifetimes_of(plan_with(g, d).combined_generics) == seq![d],
        plan_with(g, d).combined_generics.len() == g.params.len() + 1,
        plan_with(g, d).combined_generics[0] == GenericParamModel::Lifetime(d),
{
    let head = seq![GenericParamModel::Lifetime(d)];
    lemma_lifetimes_of_concat(head, g.params);
    assert(head.drop_last() =~= Seq::<GenericParamModel>::empty());
    assert(lifetimes_of(head.drop_last()) =~= Seq::<LifetimeParamModel>::empty());
    assert(head.last() == GenericParamModel::Lifetime(d));
    assert(lifetimes_of(head) =~= seq![d]);
    assert(seq![d] + lifetimes_of(g.params) =~= seq![d]);
}

/// Every declared lifetime, not only the first, outlives the lifetime that
/// bounds the generated implementations.
pub proof fn lemma_every_lifetime_outlives_trait_lifetime(g: GenericsModel, d: LifetimeParamModel)
    ensures
        forall|i: int|
            0 <= i < lifetimes_of(g.params).len() ==> plan_with(g, d).where_predicates.contains(
                outlives(
                    #[trigger] lifetimes_of(g.params)[i].lifetime,
                    trait_lifetime(g, d).lifetime,
                ),
            ),
{
    let t = trait_lifetime(g, d).lifetime;
    let decl = declared_predicates(g);
    let ls = lifetimes_of(g.params);
    assert forall|i: int| 0 <= i < ls.len() implies plan_with(g, d).where_predicates.contains(
        outlives(#[trigger] ls[i].lifetime, t),
    ) by {
        assert(plan_with(g, d).where_predicates[decl.len() + i] == outlives(ls[i].lifetime, t));
    }
}

proof fn lemma_lifetimes_of_step(ps: Seq<GenericParamModel>, i: int)
    requires
        0 <= i < ps.len(),
    ensures
        lifetimes_of(ps.take(i + 1)) == match ps[i] {
            GenericParamModel::Lifetime(l) => lifetimes_of(ps.take(i)).push(l),
            _ => lifetimes_of(ps.take(i)),
        },
{
    assert(ps.take(i + 1).drop_last() =~= ps.take(i));
}

/// The first declared lifetime parameter, if any.
fn first_lifetime(params: &Vec<GenericParam>) -> (r: Option<&LifetimeParam>)
    ensures
        r is None <==> lifetimes_of(params_view(params@)).len() == 0,
        r matches Some(l) ==> l@ == lifetimes_of(params_view(params@))[0],
{
    let ghost ps = params_view(params@);
    let mut i: usize = 0;
    while i < params.len()
        invariant
            i <= params@.len(),
            ps == params_view(params@),
            lifetimes_of(ps.take(i as int)).len() == 0,
        decreases params@.len() - i,
    {
        proof {
            lemma_lifetimes_of_step(ps, i as int);
        }
        match &params[i] {
            GenericParam::Lifetime(l) => {
                proof {
                    assert(ps.take(i as int + 1) + ps.skip(i as int + 1) =~= ps);
                    lemma_lifetimes_of_concat(ps.take(i as int + 1), ps.skip(i as int + 1));
                }
                return Some(l);
            },
            _ => {},
        }
        i = i + 1;
    }
    assert(ps.take(i as int) =~= ps);
    None
}

fn bare_param(p: &GenericParam) -> (r: GenericParam)
    ensures
        r@ == bare(p@),
{
    let bounds: Vec<String> = Vec::new();
    assert(strings_view(bounds@) =~= Seq::<Seq<char>>::empty());
    match p {
        GenericParam::Lifetime(l) => GenericParam::Lifetime(
            LifetimeParam { lifetime: l.lifetime.clone(), bounds },
        ),
        GenericParam::Type(t) => GenericParam::Type(
            TypeParam { ident: t.ident.clone(), bounds, default: None },
        ),
        GenericParam::Const(c) => GenericParam::Type(
            TypeParam { ident: c.ident.clone(), bounds, default: None },
        ),
    }
}

/// Appends copies of `params` to `out`.
fn extend_params(out: &mut Vec<GenericParam>, params: &Vec<GenericParam>)
    ensures
        params_view(final(out)@) == params_view(old(out)@) + params_view(params@),
{
    let ghost start = params_view(out@);
    let mut i: usize = 0;
    while i < params.len()
        invariant
            i <= params@.len(),
            params_view(out@) == start + params_view(params@).take(i as int),
        decreases params@.len() - i,
    {
        let ghost prev = out@;
        let c = params[i].copy();
        out.push(c);
        proof {
            lemma_params_view_push(prev, c);
        }
        i = i + 1;
        assert(params_view(out@) =~= start + params_view(params@).take(i as int));
    }
    assert(params_view(params@).take(i as int) =~= params_view(params@));
}

/// The generics of the generated implementations of `accs`, where
/// `default` is the lifetime to add if `accs` declares none.
pub fn generics_with(accs: &AccountsStruct, default: LifetimeParam) -> (r: ParsedGenerics)
    ensures
        r@ == plan_with(accs.generics@, default@),
{
    let params = &accs.generics.params;
    let ghost g = accs.generics@;
    let ghost ps = g.params;
    let declared = first_lifetime(params);
    let tl: LifetimeParam = match declared {
        Some(l) => l.copy(),
        None => default,
    };
    assert(tl@ == trait_lifetime(g, default@));

    let mut predicates: Vec<WherePredicate> = Vec::new();
    match &accs.generics.where_clause {
        Some(w) => {
            let mut j: usize = 0;
            while j < w.predicates.len()
                invariant
                    j <= w.predicates@.len(),
                    predicates_view(predicates@) == predicates_view(w.predicates@).take(j as int),
                decreases w.predicates@.len() - j,
            {
                let ghost prev = predicates@;
                let c = w.predicates[j].copy();
                predicates.push(c);
                proof {
                    lemma_predicates_view_push(prev, c);
                }
                j = j + 1;
                assert(predicates_view(predicates@) =~= predicates_view(w.predicates@).take(
                    j as int,
                ));
            }
            assert(predicates_view(w.predicates@).take(j as int) =~= predicates_view(
                w.predicates@,
            ));
        },
        None => {
            assert(predicates_view(predicates@) =~= Seq::<PredicateModel>::empty());
        },
    }
    let ghost declared_preds = declared_predicates(g);
    let ghost t = tl@.lifetime;
    let mut struct_generics: Vec<GenericParam> = Vec::new();
    let mut i: usize = 0;
    while i < params.len()
        invariant
            i <= params@.len(),
            ps == params_view(params@),
            t == tl@.lifetime,
            predicates_view(predicates@) == declared_preds + lifetimes_of(ps.take(i as int)).map_values(
                |l: LifetimeParamModel| outlives(l.lifetime, t),
            ),
            params_view(struct_generics@) == ps.take(i as int).map_values(
                |p: GenericParamModel| bare(p),
            ),
        decreases params@.len() - i,
    {
        proof {
            lemma_lifetimes_of_step(ps, i as int);
        }
        let ghost before = lifetimes_of(ps.take(i as int));
        match &params[i] {
            GenericParam::Lifetime(l) => {
                let bounds: Vec<String> = vec![tl.lifetime.clone()];
                let ghost prev = predicates@;
                let c = WherePredicate::Lifetime { lifetime: l.lifetime.clone(), bounds: bounds };
                predicates.push(c);
                proof {
                    lemma_predicates_view_push(prev, c);
                }
                assert(strings_view(bounds@) =~= seq![t]);
                assert(before.push(l@).map_values(
                    |l: LifetimeParamModel| outlives(l.lifetime, t),
                ) =~= before.map_values(|l: LifetimeParamModel| outlives(l.lifetime, t)).push(
                    outlives(l@.lifetime, t),
                ));
            },
            _ => {},
        }
        let ghost prev = struct_generics@;
        let b = bare_param(&params[i]);
        struct_generics.push(b);
        proof {
            lemma_params_view_push(prev, b);
            assert(ps.take(i as int + 1).map_values(|p: GenericParamModel| bare(p)) =~= ps.take(
                i as int,
            ).map_values(|p: GenericParamModel| bare(p)).push(bare(ps[i as int])));
        }
        i = i + 1;
        assert(params_view(struct_generics@) =~= ps.take(i as int).map_values(
            |p: GenericParamModel| bare(p),
        ));
        assert(predicates_view(predicates@) =~= declared_preds + lifetimes_of(
            ps.take(i as int),
        ).map_values(|l: LifetimeParamModel| outlives(l.lifetime, t)));
    }
    assert(ps.take(i as int) =~= ps);

    let mut combined_generics: Vec<GenericParam> = Vec::new();
    if declared.is_none() {
        combined_generics.push(GenericParam::Lifetime(tl.copy()));
    }
    extend_params(&mut combined_generics, params);
    assert(params_view(combined_generics@) =~= plan_with(g, default@).combined_generics);

    let trait_generics: Vec<GenericParam> = vec![GenericParam::Lifetime(tl)];
    assert(params_view(trait_generics@) =~= plan_with(g, default@).trait_generics);
    let r = ParsedGenerics {
        combined_generics,
        trait_generics,
        struct_generics,
        where_clause: WhereClause { predicates },
    };
    assert(r@.struct_generics =~= plan_with(g, default@).struct_generics);
    r
}

/// The generics of the generated implementations of `accs`. Where `accs`
/// declares no lifetime, one is read from the default name, and an error
/// is returned if none can be.
pub fn generics(accs: &AccountsStruct) -> (r: Result<ParsedGenerics, GenerateError>)
    ensures
        r matches Ok(p) ==> resolve(accs.generics@) == Ok::<GenericsPlan, GenerateError>(p@),
        r matches Err(e) ==> resolve(accs.generics@) == Err::<GenericsPlan, GenerateError>(e),
{
    match first_lifetime(&accs.generics.params) {
        Some(l) => Ok(generics_with(accs, l.copy())),
        None => match parse_lifetime_param(DEFAULT_LIFETIME) {
            Some(d) => Ok(generics_with(accs, d)),
            None => Err(GenerateError::MalformedLifetime),
        },
    }
}

} // verus!
