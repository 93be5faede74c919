//! The account-count expression: one term per field, summed.
use vstd::prelude::*;
use crate::render::join;
use crate::schema::{fields_view, AccountField, AccountsStruct, FieldModel};

verus! {

/// What a field adds to the count: one account, or the count that the
/// nested structure in the field reports for itself.
pub enum CountTerm {
    One,
    Delegate(String),
}

pub enum CountTermModel {
    One,
    Delegate(Seq<char>),
}

impl View for CountTerm {
    type V = CountTermModel;

    open spec fn view(&self) -> CountTermModel {
        match self {
            CountTerm::One => CountTermModel::One,
            CountTerm::Delegate(f) => CountTermModel::Delegate(f@),
        }
    }
}

/// The sum of its terms, in field order.
pub struct CountExpr {
    pub terms: Vec<CountTerm>,
}

impl View for CountExpr {
    type V = Seq<CountTermModel>;

    open spec fn view(&self) -> Seq<CountTermModel> {
        self.terms@.map_values(|t: CountTerm| t@)
    }
}

pub open spec fn term_of(f: FieldModel) -> CountTermModel {
    match f {
        FieldModel::Leaf(_) => CountTermModel::One,
        FieldModel::Composite(ident) => CountTermModel::Delegate(ident),
    }
}

pub open spec fn count_terms(fields: Seq<FieldModel>) -> Seq<CountTermModel> {
    fields.map_values(|f: FieldModel| term_of(f))
}

pub open spec fn term_text(t: CountTermModel) -> Seq<char> {
    match t {
        CountTermModel::One => "1"@,
        CountTermModel::Delegate(ident) => "self."@ + ident + ".num_accounts()"@,
    }
}

/// `1 + self.b.num_accounts()`: the terms with ` + ` between them and none
/// after the last.
pub open spec fn count_text(terms: Seq<CountTermModel>) -> Seq<char> {
    join(terms.map_values(|t: CountTermModel| term_text(t)), " + "@)
}

/// The value of the expression on an instance whose `i`-th field reports
/// `nested[i]` accounts of its own (read only for nested structures).
pub open spec fn eval_terms(terms: Seq<CountTermModel>, nested: Seq<usize>) -> nat
    decreases terms.len(),
{
    if terms.len() == 0 {
        0
    } else {
        let last: nat = match terms.last() {
            CountTermModel::One => 1,
            CountTermModel::Delegate(_) => nested[terms.len() - 1] as nat,
        };
        eval_terms(terms.drop_last(), nested) + last
    }
}

/// The number of accounts of an instance, each nested structure expanded
/// into the `nested[i]` accounts it holds.
pub open spec fn slots_of(fields: Seq<FieldModel>, nested: Seq<usize>) -> nat
    decreases fields.len(),
{
    if fields.len() == 0 {
        0
    } else {
        let last: nat = match fields.last() {
            FieldModel::Leaf(_) => 1,
            FieldModel::Composite(_) => nested[fields.len() - 1] as nat,
        };
        slots_of(fields.drop_last(), nested) + last
    }
}

/// The expression built for a structure counts exactly its accounts, with
/// every nested structure expanded.
pub proof fn lemma_count_matches_slots(fields: Seq<FieldModel>, nested: Seq<usize>)
    requires
        nested.len() == fields.len(),
    ensures
        eval_terms(count_terms(fields), nested) == slots_of(fields, nested),
{
    lemma_count_matches_slots_upto(fields, nested, fields.len() as int);
    assert(fields.take(fields.len() as int) =~= fields);
}

proof fn lemma_count_matches_slots_upto(fields: Seq<FieldModel>, nested: Seq<usize>, n: int)
    requires
        0 <= n <= fields.len(),
    ensures
        eval_terms(count_terms(fields.take(n)), nested) == slots_of(fields.take(n), nested),
    decreases n,
{
    if n > 0 {
        lemma_count_matches_slots_upto(fields, nested, n - 1);
        assert(fields.take(n).drop_last() =~= fields.take(n - 1));
        assert(count_terms(fields.take(n)).drop_last() =~= count_terms(fields.take(n - 1)));
    }
}

proof fn lemma_eval_prefix_le(terms: Seq<CountTermModel>, nested: Seq<usize>, i: int)
    requires
        0 <= i <= terms.len(),
    ensures
        eval_terms(terms.take(i), nested) <= eval_terms(terms, nested),
    decreases terms.len() - i,
{
    if i < terms.len() {
        lemma_eval_prefix_le(terms, nested, i + 1);
        assert(terms.take(i + 1).drop_last() =~= terms.take(i));
    } else {
        assert(terms.take(i) =~= terms);
    }
}

/// The count expression of `accs`, one term per field in order.
pub fn build_count_expression(accs: &AccountsStruct) -> (r: CountExpr)
    ensures
        r@ == count_terms(accs@.fields),
{
    let ghost fs = accs@.fields;
    let mut terms: Vec<CountTerm> = Vec::new();
    let mut i: usize = 0;
    while i < accs.fields.len()
        invariant
            i <= accs.fields@.len(),
            fs == fields_view(accs.fields@),
            terms@.len() == i,
            forall|k: int| 0 <= k < i ==> (#[trigger] terms@[k])@ == term_of(fs[k]),
        decreases accs.fields@.len() - i,
    {
        let t = match &accs.fields[i] {
            AccountField::Field { .. } => CountTerm::One,
            AccountField::CompositeField { ident } => CountTerm::Delegate(ident.clone()),
        };
        terms.push(t);
        i = i + 1;
    }
    let r = CountExpr { terms };
    assert(r@ =~= count_terms(fs));
    r
}

impl CountExpr {
    /// The expression as source text.
    pub fn render(&self) -> (r: String)
        ensures
            r@ == count_text(self@),
    {
        let ghost tv = self@;
        let mut parts: Vec<String> = Vec::new();
        let mut i: usize = 0;
        while i < self.terms.len()
            invariant
                i <= self.terms@.len(),
                tv == self@,
                parts@.len() == i,
                forall|k: int| 0 <= k < i ==> (#[trigger] parts@[k])@ == term_text(tv[k]),
            decreases self.terms@.len() - i,
        {
            let s = match &self.terms[i] {
                CountTerm::One => String::from_str("1"),
                CountTerm::Delegate(ident) => String::from_str("self.").concat(
                    ident.as_str(),
                ).concat(".num_accounts()"),
            };
            parts.push(s);
            i = i + 1;
        }
        assert(crate::schema::strings_view(parts@) =~= tv.map_values(
            |t: CountTermModel| term_text(t),
        ));
        crate::render::join_strings(&parts, " + ")
    }

    /// The value of the expression on an instance whose `i`-th field reports
    /// `nested[i]` accounts of its own; `None` where it exceeds `usize::MAX`.
    pub fn evaluate(&self, nested: &Vec<usize>) -> (r: Option<usize>)
        requires
            nested@.len() == self@.len(),
        ensures
            r == (if eval_terms(self@, nested@) <= usize::MAX {
                Some(eval_terms(self@, nested@) as usize)
            } else {
                None::<usize>
            }),
    {
        let ghost tv = self@;
        let mut total: usize = 0;
        let mut i: usize = 0;
        while i < self.terms.len()
            invariant
                i <= self.terms@.len(),
                tv == self@,
                nested@.len() == tv.len(),
                total == eval_terms(tv.take(i as int), nested@),
            decreases self.terms@.len() - i,
        {
            proof {
                lemma_eval_prefix_le(tv, nested@, i as int + 1);
                assert(tv.take(i as int + 1).drop_last() =~= tv.take(i as int));
            }
            let add: usize = match &self.terms[i] {
                CountTerm::One => 1,
                CountTerm::Delegate(_) => nested[i],
            };
            match total.checked_add(add) {
                Some(t) => total = t,
                None => return None,
            }
            i = i + 1;
        }
        assert(tv.take(i as int) =~= tv);
        Some(total)
    }
}

} // verus!
