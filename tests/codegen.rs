use accounts_codegen::codegen::{CapabilityFragments, GenerateFlags};
use accounts_codegen::count::build_count_expression;
use accounts_codegen::error::GenerateError;
use accounts_codegen::generics::{generics_with, ParsedGenerics};
use accounts_codegen::render::{params_string, where_string};
use accounts_codegen::schema::{
    AccountField, AccountsStruct, ConstParam, GenericParam, Generics, LifetimeParam, TypeParam,
    WhereClause, WherePredicate,
};
use accounts_codegen::{generate, generics};

fn lifetime(name: &str, bounds: &[&str]) -> GenericParam {
    GenericParam::Lifetime(LifetimeParam {
        lifetime: name.to_string(),
        bounds: bounds.iter().map(|b| b.to_string()).collect(),
    })
}

fn type_param(ident: &str, bounds: &[&str], default: Option<&str>) -> GenericParam {
    GenericParam::Type(TypeParam {
        ident: ident.to_string(),
        bounds: bounds.iter().map(|b| b.to_string()).collect(),
        default: default.map(|d| d.to_string()),
    })
}

fn const_param(ident: &str, ty: &str) -> GenericParam {
    GenericParam::Const(ConstParam { ident: ident.to_string(), ty: ty.to_string(), default: None })
}

fn leaf(ident: &str) -> AccountField {
    AccountField::Field { ident: ident.to_string() }
}

fn composite(ident: &str) -> AccountField {
    AccountField::CompositeField { ident: ident.to_string() }
}

fn accounts(params: Vec<GenericParam>, fields: Vec<AccountField>) -> AccountsStruct {
    AccountsStruct {
        ident: "Foo".to_string(),
        generics: Generics { params, where_clause: None },
        fields,
    }
}

fn fragments() -> CapabilityFragments {
    CapabilityFragments {
        try_accounts: "TRY".to_string(),
        to_account_infos: "INFOS".to_string(),
        to_account_metas: "METAS".to_string(),
        exit: "EXIT".to_string(),
        client_accounts: "CLIENT".to_string(),
        cpi_client_accounts: "CPI".to_string(),
    }
}

fn resolved(accs: &AccountsStruct) -> ParsedGenerics {
    match generics(accs) {
        Ok(g) => g,
        Err(e) => panic!("generics failed: {:?}", e),
    }
}

#[test]
fn declared_lifetime_with_leaf_and_composite() {
    let accs = accounts(vec![lifetime("'info", &[])], vec![leaf("a"), composite("b")]);
    let count = build_count_expression(&accs);
    assert_eq!(count.render(), "1 + self.b.num_accounts()");
    let g = resolved(&accs);
    assert_eq!(params_string(&g.trait_generics), "'info");
    assert_eq!(params_string(&g.combined_generics), "'info");
}

#[test]
fn missing_lifetime_single_leaf() {
    let accs = accounts(vec![], vec![leaf("x")]);
    let g = resolved(&accs);
    assert_eq!(params_string(&g.trait_generics), "'info");
    assert_eq!(g.combined_generics.len(), 1);
    assert_eq!(params_string(&g.combined_generics), "'info");
    assert_eq!(params_string(&g.struct_generics), "");
    assert_eq!(build_count_expression(&accs).render(), "1");
}

#[test]
fn cpi_helpers_without_client_helpers() {
    let accs = accounts(vec![lifetime("'info", &[])], vec![leaf("x")]);
    let flags = GenerateFlags { generate_client_helpers: false, generate_cpi_helpers: true };
    let unit = generate(&accs, flags, &fragments()).unwrap();
    assert!(unit.client_accounts.is_none());
    let cpi = unit.cpi_client_accounts.clone().unwrap();
    assert_eq!(cpi, "#[cfg(not(feature = \"no-cpi-support\"))]\nCPI");
    let text = unit.text();
    assert!(text.contains("CPI"));
    assert!(!text.contains("CLIENT"));
}

#[test]
fn both_helpers_are_guarded() {
    let accs = accounts(vec![lifetime("'info", &[])], vec![leaf("x")]);
    let flags = GenerateFlags { generate_client_helpers: true, generate_cpi_helpers: true };
    let unit = generate(&accs, flags, &fragments()).unwrap();
    assert_eq!(
        unit.client_accounts.clone().unwrap(),
        "#[cfg(not(feature = \"no-client-accounts\"))]\nCLIENT"
    );
    let flags = GenerateFlags { generate_client_helpers: false, generate_cpi_helpers: false };
    let unit = generate(&accs, flags, &fragments()).unwrap();
    assert!(unit.client_accounts.is_none());
    assert!(unit.cpi_client_accounts.is_none());
}

#[test]
fn count_evaluates_to_expanded_slots() {
    let accs = accounts(
        vec![],
        vec![leaf("a"), composite("b"), leaf("c"), composite("d")],
    );
    let count = build_count_expression(&accs);
    assert_eq!(count.evaluate(&vec![0, 3, 0, 2]), Some(7));
    assert_eq!(count.evaluate(&vec![9, 0, 9, 0]), Some(2));
    assert_eq!(
        count.render(),
        "1 + self.b.num_accounts() + 1 + self.d.num_accounts()"
    );
}

#[test]
fn count_overflow_is_reported() {
    let accs = accounts(vec![], vec![leaf("a"), composite("b")]);
    let count = build_count_expression(&accs);
    assert_eq!(count.evaluate(&vec![0, usize::MAX - 1]), Some(usize::MAX));
    assert_eq!(count.evaluate(&vec![0, usize::MAX]), None);
}

#[test]
fn declared_lifetime_is_reused() {
    let accs = accounts(
        vec![type_param("T", &["Clone"], None), lifetime("'a", &[]), lifetime("'b", &[])],
        vec![leaf("x")],
    );
    let g = resolved(&accs);
    assert_eq!(params_string(&g.trait_generics), "'a");
    assert_eq!(g.combined_generics.len(), 3);
    assert_eq!(params_string(&g.combined_generics), "T: Clone, 'a, 'b");
}

#[test]
fn lifetime_is_added_in_front() {
    let accs = accounts(
        vec![type_param("T", &["Clone", "Default"], Some("u8")), const_param("N", "usize")],
        vec![leaf("x")],
    );
    let g = resolved(&accs);
    assert_eq!(g.combined_generics.len(), 3);
    assert_eq!(
        params_string(&g.combined_generics),
        "'info, T: Clone + Default = u8, const N: usize"
    );
    assert_eq!(params_string(&g.struct_generics), "T, N");
    assert_eq!(where_string(&g.where_clause.predicates), "");
}

#[test]
fn every_lifetime_outlives_trait_lifetime() {
    let accs = accounts(vec![lifetime("'a", &[]), lifetime("'b", &["'a"])], vec![leaf("x")]);
    let g = resolved(&accs);
    assert_eq!(where_string(&g.where_clause.predicates), " where 'a: 'a, 'b: 'a");
    assert_eq!(params_string(&g.struct_generics), "'a, 'b");
    assert_eq!(params_string(&g.combined_generics), "'a, 'b: 'a");
}

#[test]
fn declared_predicates_come_first() {
    let mut accs = accounts(vec![lifetime("'a", &[]), type_param("T", &[], None)], vec![leaf("x")]);
    accs.generics.where_clause = Some(WhereClause {
        predicates: vec![WherePredicate::Type {
            bounded_ty: "T".to_string(),
            bounds: vec!["Clone".to_string(), "Send".to_string()],
        }],
    });
    let g = resolved(&accs);
    assert_eq!(where_string(&g.where_clause.predicates), " where T: Clone + Send, 'a: 'a");
}

#[test]
fn generics_with_given_default() {
    let accs = accounts(vec![type_param("T", &[], None)], vec![leaf("x")]);
    let d = LifetimeParam { lifetime: "'z".to_string(), bounds: vec![] };
    let g = generics_with(&accs, d);
    assert_eq!(params_string(&g.combined_generics), "'z, T");
    assert_eq!(params_string(&g.trait_generics), "'z");
    assert_eq!(where_string(&g.where_clause.predicates), "");
}

#[test]
fn generation_is_idempotent() {
    let accs = accounts(vec![lifetime("'info", &[])], vec![leaf("a"), composite("b")]);
    let flags = GenerateFlags { generate_client_helpers: true, generate_cpi_helpers: false };
    let first = generate(&accs, flags, &fragments()).unwrap().text();
    let second = generate(&accs, flags, &fragments()).unwrap().text();
    assert_eq!(first, second);
}

#[test]
fn empty_schema_is_rejected() {
    let accs = accounts(vec![lifetime("'info", &[])], vec![]);
    let flags = GenerateFlags { generate_client_helpers: true, generate_cpi_helpers: true };
    match generate(&accs, flags, &fragments()) {
        Err(e) => assert_eq!(e, GenerateError::EmptySchema),
        Ok(_) => panic!("an empty schema was accepted"),
    }
}

#[test]
fn num_accounts_impl_text() {
    let accs = accounts(vec![type_param("T", &["Clone"], None)], vec![leaf("a"), composite("b")]);
    let flags = GenerateFlags { generate_client_helpers: false, generate_cpi_helpers: false };
    let unit = generate(&accs, flags, &fragments()).unwrap();
    assert_eq!(
        unit.num_accounts,
        "impl<'info, T: Clone> anchor_lang::NumAccounts for Foo<T> \
         { fn num_accounts(&self) -> usize { 1 + self.b.num_accounts() } }"
    );
    assert_eq!(unit.text(), format!("{}\nTRY\nINFOS\nMETAS\nEXIT", unit.num_accounts));
}
