//! The schema model: an accounts structure as the generator sees it.
use vstd::prelude::*;

verus! {

/// The characters of each string of a list.
pub open spec fn strings_view(v: Seq<String>) -> Seq<Seq<char>> {
    v.map_values(|s: String| s@)
}

pub open spec fn opt_view(o: Option<String>) -> Option<Seq<char>> {
    match o {
        Some(s) => Some(s@),
        None => None,
    }
}

/// A lifetime parameter `'a: 'b + 'c`.
pub struct LifetimeParam {
    pub lifetime: String,
    pub bounds: Vec<String>,
}

pub struct LifetimeParamModel {
    pub lifetime: Seq<char>,
    pub bounds: Seq<Seq<char>>,
}

impl View for LifetimeParam {
    type V = LifetimeParamModel;

    open spec fn view(&self) -> LifetimeParamModel {
        LifetimeParamModel { lifetime: self.lifetime@, bounds: strings_view(self.bounds@) }
    }
}

/// A type parameter `T: Bound + Other = Default`.
pub struct TypeParam {
    pub ident: String,
    pub bounds: Vec<String>,
    pub default: Option<String>,
}

/// A const parameter `const N: usize = 3`.
pub struct ConstParam {
    pub ident: String,
    pub ty: String,
    pub default: Option<String>,
}

pub enum GenericParam {
    Lifetime(LifetimeParam),
    Type(TypeParam),
    Const(ConstParam),
}

pub enum GenericParamModel {
    Lifetime(LifetimeParamModel),
    Type { ident: Seq<char>, bounds: Seq<Seq<char>>, default: Option<Seq<char>> },
    Const { ident: Seq<char>, ty: Seq<char>, default: Option<Seq<char>> },
}

impl View for GenericParam {
    type V = GenericParamModel;

    open spec fn view(&self) -> GenericParamModel {
        match self {
            GenericParam::Lifetime(l) => GenericParamModel::Lifetime(l@),
            GenericParam::Type(t) => GenericParamModel::Type {
                ident: t.ident@,
                bounds: strings_view(t.bounds@),
                default: opt_view(t.default),
            },
            GenericParam::Const(c) => GenericParamModel::Const {
                ident: c.ident@,
                ty: c.ty@,
                default: opt_view(c.default),
            },
        }
    }
}

pub open spec fn params_view(v: Seq<GenericParam>) -> Seq<GenericParamModel> {
    v.map_values(|p: GenericParam| p@)
}

/// A predicate of a `where` clause: `'a: 'b` or `T: Bound`.
pub enum WherePredicate {
    Lifetime { lifetime: String, bounds: Vec<String> },
    Type { bounded_ty: String, bounds: Vec<String> },
}

pub enum PredicateModel {
    Lifetime { lifetime: Seq<char>, bounds: Seq<Seq<char>> },
    Type { bounded_ty: Seq<char>, bounds: Seq<Seq<char>> },
}

impl View for WherePredicate {
    type V = PredicateModel;

    open spec fn view(&self) -> PredicateModel {
        match self {
            WherePredicate::Lifetime { lifetime, bounds } => PredicateModel::Lifetime {
                lifetime: lifetime@,
                bounds: strings_view(bounds@),
            },
            WherePredicate::Type { bounded_ty, bounds } => PredicateModel::Type {
                bounded_ty: bounded_ty@,
                bounds: strings_view(bounds@),
            },
        }
    }
}

pub open spec fn predicates_view(v: Seq<WherePredicate>) -> Seq<PredicateModel> {
    v.map_values(|p: WherePredicate| p@)
}

pub struct WhereClause {
    pub predicates: Vec<WherePredicate>,
}

/// The generic parameters of a declaration and its optional `where` clause.
pub struct Generics {
    pub params: Vec<GenericParam>,
    pub where_clause: Option<WhereClause>,
}

pub struct GenericsModel {
    pub params: Seq<GenericParamModel>,
    pub where_clause: Option<Seq<PredicateModel>>,
}

impl View for Generics {
    type V = GenericsModel;

    open spec fn view(&self) -> GenericsModel {
        GenericsModel {
            params: params_view(self.params@),
            where_clause: match self.where_clause {
                Some(w) => Some(predicates_view(w.predicates@)),
                None => None,
            },
        }
    }
}

/// A field of an accounts structure: one account, or a nested accounts
/// structure that counts its own accounts.
pub enum AccountField {
    Field { ident: String },
    CompositeField { ident: String },
}

pub enum FieldModel {
    Leaf(Seq<char>),
    Composite(Seq<char>),
}

impl View for AccountField {
    type V = FieldModel;

    open spec fn view(&self) -> FieldModel {
        match self {
            AccountField::Field { ident } => FieldModel::Leaf(ident@),
            AccountField::CompositeField { ident } => FieldModel::Composite(ident@),
        }
    }
}

pub open spec fn fields_view(v: Seq<AccountField>) -> Seq<FieldModel> {
    v.map_values(|f: AccountField| f@)
}

/// An accounts structure: its name, its generics and its fields in order.
pub struct AccountsStruct {
    pub ident: String,
    pub generics: Generics,
    pub fields: Vec<AccountField>,
}

pub struct AccountsModel {
    pub ident: Seq<char>,
    pub generics: GenericsModel,
    pub fields: Seq<FieldModel>,
}

impl View for AccountsStruct {
    type V = AccountsModel;

    open spec fn view(&self) -> AccountsModel {
        AccountsModel {
            ident: self.ident@,
            generics: self.generics@,
            fields: fields_view(self.fields@),
        }
    }
}

pub proof fn lemma_params_view_push(s: Seq<GenericParam>, x: GenericParam)
    ensures
        params_view(s.push(x)) == params_view(s).push(x@),
{
    assert(params_view(s.push(x)) =~= params_view(s).push(x@));
}

pub proof fn lemma_predicates_view_push(s: Seq<WherePredicate>, x: WherePredicate)
    ensures
        predicates_view(s.push(x)) == predicates_view(s).push(x@),
{
    assert(predicates_view(s.push(x)) =~= predicates_view(s).push(x@));
}

pub fn copy_strings(v: &Vec<String>) -> (r: Vec<String>)
    ensures
        r@ == v@,
{
    let mut r: Vec<String> = Vec::new();
    let mut i: usize = 0;
    while i < v.len()
        invariant
            i <= v@.len(),
            r@ == v@.subrange(0, i as int),
        decreases v@.len() - i,
    {
        r.push(v[i].clone());
        i = i + 1;
        assert(r@ =~= v@.subrange(0, i as int));
    }
    assert(r@ =~= v@);
    r
}

pub fn copy_opt_string(o: &Option<String>) -> (r: Option<String>)
    ensures
        r == *o,
{
    match o {
        Some(s) => Some(s.clone()),
        None => None,
    }
}

impl LifetimeParam {
    pub fn copy(&self) -> (r: LifetimeParam)
        ensures
            r@ == self@,
    {
        LifetimeParam { lifetime: self.lifetime.clone(), bounds: copy_strings(&self.bounds) }
    }
}

impl GenericParam {
    pub fn copy(&self) -> (r: GenericParam)
        ensures
            r@ == self@,
    {
        match self {
            GenericParam::Lifetime(l) => GenericParam::Lifetime(l.copy()),
            GenericParam::Type(t) => GenericParam::Type(
                TypeParam {
                    ident: t.ident.clone(),
                    bounds: copy_strings(&t.bounds),
                    default: copy_opt_string(&t.default),
                },
            ),
            GenericParam::Const(c) => GenericParam::Const(
                ConstParam {
                    ident: c.ident.clone(),
                    ty: c.ty.clone(),
                    default: copy_opt_string(&c.default),
                },
            ),
        }
    }
}

impl WherePredicate {
    pub fn copy(&self) -> (r: WherePredicate)
        ensures
            r@ == self@,
    {
        match self {
            WherePredicate::Lifetime { lifetime, bounds } => WherePredicate::Lifetime {
                lifetime: lifetime.clone(),
                bounds: copy_strings(bounds),
            },
            WherePredicate::Type { bounded_ty, bounds } => WherePredicate::Type {
                bounded_ty: bounded_ty.clone(),
                bounds: copy_strings(bounds),
            },
        }
    }
}

} // verus!
