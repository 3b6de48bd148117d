use entitlement_engine::error::EngineError;
use entitlement_engine::promo::{lists_tariff, PromoLedger, PromoRejection};

fn s(text: &str) -> String {
    text.to_string()
}

fn ledger() -> PromoLedger {
    let mut l = PromoLedger::new();
    assert_eq!(l.create(s("SPRING"), 20, vec![s("base"), s("family")], 3), Ok(()));
    assert_eq!(l.create(s("ONCE"), 50, vec![s("base")], 1), Ok(()));
    assert_eq!(l.create(s("NOPLAN"), 10, vec![], 5), Ok(()));
    l
}

fn rows_of(l: &PromoLedger, code: &str, account: i64) -> usize {
    l.usages.iter().filter(|u| u.code == code && u.telegram_id == account).count()
}

#[test]
fn created_code_is_active_and_unused() {
    let l = ledger();
    assert_eq!(l.codes.len(), 3);
    assert_eq!(l.codes[0].code, "SPRING");
    assert_eq!(l.codes[0].discount_percent, 20);
    assert_eq!(l.codes[0].max_uses, 3);
    assert_eq!(l.codes[0].current_uses, 0);
    assert!(l.codes[0].is_active);
    assert!(l.usages.is_empty());
    assert_eq!(l.find_code(&s("ONCE")), Some(1));
    assert_eq!(l.find_code(&s("once")), None);
}

#[test]
fn creating_a_code_twice_is_a_conflict() {
    let mut l = ledger();
    assert_eq!(l.create(s("SPRING"), 99, vec![], 9), Err(EngineError::Conflict));
    assert_eq!(l.codes.len(), 3);
    assert_eq!(l.codes[0].discount_percent, 20);
}

#[test]
fn validate_reports_the_first_failing_check() {
    let mut l = ledger();
    assert_eq!(l.validate(&s("NONE"), &s("base"), 1), Err(PromoRejection::UnknownCode));
    assert_eq!(l.validate(&s("SPRING"), &s("base"), 1), Ok(20));
    assert_eq!(l.validate(&s("SPRING"), &s("family"), 1), Ok(20));
    assert_eq!(l.validate(&s("SPRING"), &s(""), 1), Ok(20));
    assert_eq!(l.validate(&s("SPRING"), &s("trial"), 1), Err(PromoRejection::WrongTariff));
    assert_eq!(l.use_code(&s("SPRING"), 1), Ok(1));
    assert_eq!(l.validate(&s("SPRING"), &s("base"), 1), Err(PromoRejection::AlreadyUsed));
    assert_eq!(l.validate(&s("SPRING"), &s("trial"), 1), Err(PromoRejection::WrongTariff));
    assert_eq!(l.validate(&s("SPRING"), &s("base"), 2), Ok(20));
    assert_eq!(l.deactivate(&s("SPRING")), Ok(()));
    assert_eq!(l.validate(&s("SPRING"), &s("trial"), 1), Err(PromoRejection::Inactive));
    assert_eq!(l.validate(&s("SPRING"), &s("base"), 2), Err(PromoRejection::Inactive));
}

#[test]
fn code_without_plans_applies_only_to_requests_without_plan() {
    let l = ledger();
    assert_eq!(l.validate(&s("NOPLAN"), &s(""), 1), Ok(10));
    assert_eq!(l.validate(&s("NOPLAN"), &s("base"), 1), Err(PromoRejection::WrongTariff));
}

#[test]
fn exhausted_comes_before_tariff_and_usage() {
    let mut l = ledger();
    assert_eq!(l.use_code(&s("ONCE"), 1), Ok(1));
    assert_eq!(l.validate(&s("ONCE"), &s("trial"), 1), Err(PromoRejection::Exhausted));
    assert_eq!(l.validate(&s("ONCE"), &s("base"), 1), Err(PromoRejection::Exhausted));
    assert_eq!(l.validate(&s("ONCE"), &s("base"), 2), Err(PromoRejection::Exhausted));
}

#[test]
fn code_with_one_use_serves_one_of_two_accounts() {
    let mut l = PromoLedger::new();
    assert_eq!(l.create(s("SOLO"), 30, vec![s("base")], 1), Ok(()));
    let first = l.use_code(&s("SOLO"), 100);
    let second = l.use_code(&s("SOLO"), 200);
    assert_eq!(first, Ok(1));
    assert_eq!(second, Err(EngineError::Conflict));
    assert_eq!(l.codes[0].current_uses, 1);
    assert_eq!(l.usages.len(), 1);
    assert_eq!(l.usages[0].telegram_id, 100);
    let verdict = l.validate(&s("SOLO"), &s("base"), 300);
    assert_eq!(verdict, Err(PromoRejection::Exhausted));
    assert_eq!(verdict.unwrap_err().reason(), "exhausted");
}

#[test]
fn same_pair_is_recorded_at_most_once() {
    let mut l = ledger();
    let mut successes = 0;
    for _ in 0..5 {
        if l.use_code(&s("SPRING"), 7).is_ok() {
            successes += 1;
        }
    }
    assert_eq!(successes, 1);
    assert_eq!(rows_of(&l, "SPRING", 7), 1);
    assert_eq!(rows_of(&l, "SPRING", 8), 0);
    assert_eq!(l.codes[0].current_uses, 1);
    assert_eq!(l.use_code(&s("SPRING"), 7), Err(EngineError::Conflict));
    assert!(l.has_usage(&s("SPRING"), 7));
    assert!(!l.has_usage(&s("SPRING"), 8));
    assert!(!l.has_usage(&s("ONCE"), 7));
}

#[test]
fn current_uses_counts_the_usage_rows() {
    let mut l = ledger();
    assert_eq!(l.use_code(&s("SPRING"), 1), Ok(1));
    assert_eq!(l.use_code(&s("NOPLAN"), 1), Ok(1));
    assert_eq!(l.use_code(&s("SPRING"), 2), Ok(2));
    assert_eq!(l.use_code(&s("SPRING"), 3), Ok(3));
    assert_eq!(l.use_code(&s("SPRING"), 4), Err(EngineError::Conflict));
    for promo in l.codes.iter() {
        let rows = l.usages.iter().filter(|u| u.code == promo.code).count();
        assert_eq!(promo.current_uses as usize, rows);
        assert!(promo.current_uses <= promo.max_uses);
    }
    assert_eq!(l.usages.len(), 4);
}

#[test]
fn use_of_missing_or_inactive_code_is_not_found() {
    let mut l = ledger();
    assert_eq!(l.use_code(&s("NONE"), 1), Err(EngineError::NotFound));
    assert_eq!(l.deactivate(&s("ONCE")), Ok(()));
    assert!(!l.codes[1].is_active);
    assert!(l.codes[0].is_active);
    assert_eq!(l.use_code(&s("ONCE"), 1), Err(EngineError::NotFound));
    assert!(l.usages.is_empty());
    assert_eq!(l.codes[1].current_uses, 0);
    assert_eq!(l.deactivate(&s("NONE")), Err(EngineError::NotFound));
    assert_eq!(l.deactivate(&s("ONCE")), Ok(()));
}

#[test]
fn rejection_reasons() {
    assert_eq!(PromoRejection::UnknownCode.reason(), "not_found");
    assert_eq!(PromoRejection::Inactive.reason(), "inactive");
    assert_eq!(PromoRejection::Exhausted.reason(), "exhausted");
    assert_eq!(PromoRejection::WrongTariff.reason(), "wrong_tariff");
    assert_eq!(PromoRejection::AlreadyUsed.reason(), "already_used");
    assert!(lists_tariff(&vec![s("a"), s("b")], &s("b")));
    assert!(!lists_tariff(&vec![s("a"), s("b")], &s("c")));
}

fn code_row(code: &str, max_uses: u32, current_uses: u32) -> entitlement_engine::promo::PromoCode {
    entitlement_engine::promo::PromoCode {
        code: s(code),
        discount_percent: 10,
        applicable_tariffs: vec![],
        max_uses,
        current_uses,
        is_active: true,
    }
}

fn usage_row(code: &str, account: i64) -> entitlement_engine::promo::PromoUsage {
    entitlement_engine::promo::PromoUsage { code: s(code), telegram_id: account }
}

#[test]
fn ledger_from_well_formed_rows() {
    let l = PromoLedger::from_rows(
        vec![code_row("A", 3, 2), code_row("B", 1, 0)],
        vec![usage_row("A", 1), usage_row("A", 2)],
    )
    .unwrap();
    assert_eq!(l.codes.len(), 2);
    assert_eq!(l.usages.len(), 2);
    assert!(PromoLedger::from_rows(vec![], vec![]).is_some());
}

#[test]
fn ledger_from_ill_formed_rows_is_refused() {
    assert!(PromoLedger::from_rows(vec![code_row("A", 3, 0), code_row("A", 3, 0)], vec![]).is_none());
    assert!(PromoLedger::from_rows(
        vec![code_row("A", 3, 2)],
        vec![usage_row("A", 1), usage_row("A", 1)]
    )
    .is_none());
    assert!(PromoLedger::from_rows(vec![code_row("A", 3, 0)], vec![usage_row("B", 1)]).is_none());
    assert!(PromoLedger::from_rows(vec![code_row("A", 3, 1)], vec![]).is_none());
    assert!(PromoLedger::from_rows(vec![code_row("A", 3, 0)], vec![usage_row("A", 1)]).is_none());
    assert!(PromoLedger::from_rows(
        vec![code_row("A", 1, 2)],
        vec![usage_row("A", 1), usage_row("A", 2)]
    )
    .is_none());
}

#[test]
fn usage_rows_are_counted_per_code() {
    let usages = vec![usage_row("A", 1), usage_row("B", 1), usage_row("A", 2)];
    assert_eq!(entitlement_engine::promo::count_usages(&usages, &s("A")), 2);
    assert_eq!(entitlement_engine::promo::count_usages(&usages, &s("B")), 1);
    assert_eq!(entitlement_engine::promo::count_usages(&usages, &s("C")), 0);
    assert!(entitlement_engine::promo::usages_distinct(&usages));
    assert!(entitlement_engine::promo::holds_code(&vec![code_row("A", 1, 0)], &s("A")));
    assert!(!entitlement_engine::promo::holds_code(&vec![code_row("A", 1, 0)], &s("B")));
}
