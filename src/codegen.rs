//! The code unit generated for an accounts structure.
use vstd::prelude::*;
use crate::count::{build_count_expression, count_terms, count_text};
use crate::error::GenerateError;
use crate::generics::{generics, resolve, GenericsPlan, ParsedGenerics};
use crate::render::{params_string, params_text, where_string, where_text};
use crate::schema::{AccountsModel, AccountsStruct};

verus! {

/// Which helper modules to emit beside the implementations.
#[derive(Clone, Copy, Debug, PartialEq, Eq, Structural)]
pub struct GenerateFlags {
    pub generate_client_helpers: bool,
    pub generate_cpi_helpers: bool,
}

/// The code that the other capability generators produced for the same
/// structure, each as source text.
pub struct CapabilityFragments {
    pub try_accounts: String,
    pub to_account_infos: String,
    pub to_account_metas: String,
    pub exit: String,
    pub client_accounts: String,
    pub cpi_client_accounts: String,
}

pub struct FragmentsModel {
    pub try_accounts: Seq<char>,
    pub to_account_infos: Seq<char>,
    pub to_account_metas: Seq<char>,
    pub exit: Seq<char>,
    pub client_accounts: Seq<char>,
    pub cpi_client_accounts: Seq<char>,
}

impl View for CapabilityFragments {
    type V = FragmentsModel;

    open spec fn view(&self) -> FragmentsModel {
        FragmentsModel {
            try_accounts: self.try_accounts@,
            to_account_infos: self.to_account_infos@,
            to_account_metas: self.to_account_metas@,
            exit: self.exit@,
            client_accounts: self.client_accounts@,
            cpi_client_accounts: self.cpi_client_accounts@,
        }
    }
}

/// The generated declarations, in the order they are emitted.
pub struct CodeUnit {
    pub num_accounts: String,
    pub try_accounts: String,
    pub to_account_infos: String,
    pub to_account_metas: String,
    pub exit: String,
    pub client_accounts: Option<String>,
    pub cpi_client_accounts: Option<String>,
}

pub struct CodeUnitModel {
    pub num_accounts: Seq<char>,
    pub try_accounts: Seq<char>,
    pub to_account_infos: Seq<char>,
    pub to_account_metas: Seq<char>,
    pub exit: Seq<char>,
    pub client_accounts: Option<Seq<char>>,
    pub cpi_client_accounts: Option<Seq<char>>,
}

impl View for CodeUnit {
    type V = CodeUnitModel;

    open spec fn view(&self) -> CodeUnitModel {
        CodeUnitModel {
            num_accounts: self.num_accounts@,
            try_accounts: self.try_accounts@,
            to_account_infos: self.to_account_infos@,
            to_account_metas: self.to_account_metas@,
            exit: self.exit@,
            client_accounts: crate::schema::opt_view(self.client_accounts),
            cpi_client_accounts: crate::schema::opt_view(self.cpi_client_accounts),
        }
    }
}

/// The implementation of `NumAccounts` for the structure, with the
/// generics of `plan`.
pub open spec fn num_accounts_text(a: AccountsModel, plan: GenericsPlan) -> Seq<char> {
    "impl<"@ + params_text(plan.combined_generics) + "> anchor_lang::NumAccounts for "@ + a.ident
        + "<"@ + params_text(plan.struct_generics) + ">"@ + where_text(plan.where_predicates)
        + " { fn num_accounts(&self) -> usize { "@ + count_text(count_terms(a.fields))
        + " } }"@
}

pub open spec fn client_guard() -> Seq<char> {
    "#[cfg(not(feature = \"no-client-accounts\"))]\n"@
}

pub open spec fn cpi_guard() -> Seq<char> {
    "#[cfg(not(feature = \"no-cpi-support\"))]\n"@
}

pub open spec fn code_unit_of(
    a: AccountsModel,
    plan: GenericsPlan,
    flags: GenerateFlags,
    f: FragmentsModel,
) -> CodeUnitModel {
    CodeUnitModel {
        num_accounts: num_accounts_text(a, plan),
        try_accounts: f.try_accounts,
        to_account_infos: f.to_account_infos,
        to_account_metas: f.to_account_metas,
        exit: f.exit,
        client_accounts: if flags.generate_client_helpers {
            Some(client_guard() + f.client_accounts)
        } else {
            None
        },
        cpi_client_accounts: if flags.generate_cpi_helpers {
            Some(cpi_guard() + f.cpi_client_accounts)
        } else {
            None
        },
    }
}

/// What generation gives: an error for a structure without fields or
/// whose generics cannot be resolved, else the code unit.
pub open spec fn generate_result(
    a: AccountsModel,
    flags: GenerateFlags,
    f: FragmentsModel,
) -> Result<CodeUnitModel, GenerateError> {
    if a.fields.len() == 0 {
        Err(GenerateError::EmptySchema)
    } else {
        match resolve(a.generics) {
            Ok(plan) => Ok(code_unit_of(a, plan, flags, f)),
            Err(e) => Err(e),
        }
    }
}

pub open spec fn result_view(r: Result<CodeUnit, GenerateError>) -> Result<
    CodeUnitModel,
    GenerateError,
> {
    match r {
        Ok(u) => Ok(u@),
        Err(e) => Err(e),
    }
}

pub open spec fn optional_text(o: Option<Seq<char>>) -> Seq<char> {
    match o {
        Some(t) => "\n"@ + t,
        None => Seq::empty(),
    }
}

/// The whole unit as one text, declarations on lines of their own.
pub open spec fn unit_text(u: CodeUnitModel) -> Seq<char> {
    u.num_accounts + "\n"@ + u.try_accounts + "\n"@ + u.to_account_infos + "\n"@
        + u.to_account_metas + "\n"@ + u.exit + optional_text(u.client_accounts) + optional_text(
        u.cpi_client_accounts,
    )
}

/// Generation depends on its inputs alone: two runs on the same inputs give
/// the same result.
pub proof fn lemma_generate_is_deterministic(
    a: AccountsModel,
    flags: GenerateFlags,
    f: FragmentsModel,
    first: Result<CodeUnitModel, GenerateError>,
    second: Result<CodeUnitModel, GenerateError>,
)
    requires
        first == generate_result(a, flags, f),
        second == generate_result(a, flags, f),
    ensures
        first == second,
        first matches Ok(u1) ==> second matches Ok(u2) && unit_text(u1) == unit_text(u2),
{
}

fn guarded(guard: &str, fragment: &String) -> (r: String)
    ensures
        r@ == guard@ + fragment@,
{
    String::from_str(guard).concat(fragment.as_str())
}

/// The implementation of `NumAccounts` for `accs` with the generics `g`, as
/// source text.
pub fn num_accounts_impl(accs: &AccountsStruct, g: &ParsedGenerics) -> (r: String)
    ensures
        r@ == num_accounts_text(accs@, g@),
{
    let count = build_count_expression(accs);
    String::from_str("impl<").concat(params_string(&g.combined_generics).as_str()).concat(
        "> anchor_lang::NumAccounts for ",
    ).concat(accs.ident.as_str()).concat("<").concat(
        params_string(&g.struct_generics).as_str(),
    ).concat(">").concat(where_string(&g.where_clause.predicates).as_str()).concat(
        " { fn num_accounts(&self) -> usize { ",
    ).concat(count.render().as_str()).concat(" } }")
}

/// The code unit for `accs`: the `NumAccounts` implementation, the other
/// capabilities, and the helper modules that `flags` ask for, each behind
/// its feature guard. A structure without fields is rejected, and so are
/// generics that cannot be resolved.
pub fn generate(accs: &AccountsStruct, flags: GenerateFlags, fragments: &CapabilityFragments) -> (r:
    Result<CodeUnit, GenerateError>)
    ensures
        result_view(r) == generate_result(accs@, flags, fragments@),
        accs@.fields.len() == 0 ==> r == Err::<CodeUnit, GenerateError>(
            GenerateError::EmptySchema,
        ),
{
    if accs.fields.len() == 0 {
        return Err(GenerateError::EmptySchema);
    }
    let g = match generics(accs) {
        Ok(g) => g,
        Err(e) => return Err(e),
    };
    let client_accounts = if flags.generate_client_helpers {
        Some(guarded("#[cfg(not(feature = \"no-client-accounts\"))]\n", &fragments.client_accounts))
    } else {
        None
    };
    let cpi_client_accounts = if flags.generate_cpi_helpers {
        Some(guarded("#[cfg(not(feature = \"no-cpi-support\"))]\n", &fragments.cpi_client_accounts))
    } else {
        None
    };
    let u = CodeUnit {
        num_accounts: num_accounts_impl(accs, &g),
        try_accounts: fragments.try_accounts.clone(),
        to_account_infos: fragments.to_account_infos.clone(),
        to_account_metas: fragments.to_account_metas.clone(),
        exit: fragments.exit.clone(),
        client_accounts,
        cpi_client_accounts,
    };
    Ok(u)
}

fn push_optional(text: String, o: &Option<String>) -> (r: String)
    ensures
        r@ == text@ + optional_text(crate::schema::opt_view(*o)),
{
    match o {
        Some(t) => text.concat("\n").concat(t.as_str()),
        None => {
            assert(text@ + Seq::<char>::empty() =~= text@);
            text
        },
    }
}

impl CodeUnit {
    /// The whole unit as one text, declarations on lines of their own.
    pub fn text(&self) -> (r: String)
        ensures
            r@ == unit_text(self@),
    {
        let head = self.num_accounts.clone().concat("\n").concat(self.try_accounts.as_str()).concat(
            "\n",
        ).concat(self.to_account_infos.as_str()).concat("\n").concat(
            self.to_account_metas.as_str(),
        ).concat("\n").concat(self.exit.as_str());
        let with_client = push_optional(head, &self.client_accounts);
        push_optional(with_client, &self.cpi_client_accounts)
    }
}

} // verus!
