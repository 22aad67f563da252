use platform2c::ledger::{
    carry_into_allowed, missing_account_error, missing_period_error, next_period, parse_period_key, period_key_of_date,
    state_change_carries_forward, AccountType, AccountingPeriod, LedgerAccount, LedgerEntry, LedgerService,
    OpeningBalanceRow, PeriodOpening, PostInput, PostingLine, SaveOpeningBalanceInput,
};
use platform2c::platform::PlatformError;
use platform2c::json::{JsonNumber, JsonValue};
use platform2c::ledger::{posting_reply, reversal_reply};

fn account(id: &str, code: &str, t: AccountType, active: bool) -> LedgerAccount {
    LedgerAccount {
        id: id.to_string(),
        company_id: "c1".to_string(),
        code: code.to_string(),
        name: format!("Счёт {code}"),
        account_type: t,
        parent_code: None,
        is_active: active,
        created_at: 0,
        updated_at: 0,
    }
}

fn period(opened: bool, closed: bool) -> AccountingPeriod {
    AccountingPeriod {
        id: "p1".to_string(),
        company_id: "c1".to_string(),
        period_key: "2024-03".to_string(),
        year: 2024,
        month: 3,
        opened,
        closed,
        created_at: "2024-03-01T00:00:00Z".to_string(),
    }
}

fn line(d: &str, c: &str, amount: i64) -> PostingLine {
    PostingLine { debit_code: d.to_string(), credit_code: c.to_string(), amount, nomenclature_id: None, description: None }
}

fn input(lines: Vec<PostingLine>) -> PostInput {
    PostInput {
        company_id: "c1".to_string(),
        created_by: "u1".to_string(),
        date: "2024-03-15".to_string(),
        doc_kind: Some("invoice".to_string()),
        doc_id: Some("d1".to_string()),
        lines,
        is_reversal: false,
    }
}

fn chart() -> Vec<LedgerAccount> {
    vec![
        account("a50", "50", AccountType::Asset, true),
        account("a90", "90", AccountType::Revenue, true),
        account("a99", "99", AccountType::Equity, false),
    ]
}

#[test]
fn period_keys() {
    assert_eq!(AccountingPeriod::period_key(2024, 3), "2024-03");
    assert_eq!(AccountingPeriod::period_key(2024, 12), "2024-12");
    assert_eq!(period_key_of_date("2024-03-15"), "2024-03");
    assert_eq!(period_key_of_date("2024"), "0000-00");
    assert_eq!(parse_period_key("2024-03").unwrap(), (2024, 3));
    assert!(matches!(parse_period_key("2024"), Err(PlatformError::Validation(m)) if m == "период \"2024\": месяц"));
    assert!(matches!(parse_period_key("2024-13"), Err(PlatformError::Validation(m)) if m == "период \"2024-13\": месяц должен быть от 01 до 12"));
    assert!(matches!(parse_period_key("1999-01"), Err(PlatformError::Validation(m)) if m == "период \"1999-01\": год должен быть от 2000 до 2100"));
    assert_eq!(next_period(2024, 12), (2025, 1));
    assert_eq!(next_period(2024, 3), (2024, 4));
}

#[test]
fn posting_is_balanced_and_bumps_turnovers() {
    let inp = input(vec![line("50", "90", 1500), line("50", "90", 500)]);
    let ids = vec!["e1".to_string(), "e2".to_string()];
    let plan = LedgerService::plan_posting(&inp, &period(true, false), &chart(), "post1".to_string(), &ids, 7).unwrap();
    assert_eq!(plan.period_key, "2024-03");
    assert_eq!(plan.entries.len(), 2);
    assert_eq!(plan.entries[0].amount, 1500);
    assert_eq!(plan.entries[1].id, "e2");
    assert_eq!(plan.bumps.len(), 4);
    let debit: i64 = plan.bumps.iter().map(|b| b.add_debit).sum();
    let credit: i64 = plan.bumps.iter().map(|b| b.add_credit).sum();
    assert_eq!(debit, 2000);
    assert_eq!(credit, 2000);
    match posting_reply(&plan) {
        JsonValue::Object(m) => {
            let keys: Vec<&str> = m.iter().map(|(k, _)| k.as_str()).collect();
            assert_eq!(keys, vec!["entries_count", "period", "posting_id"]);
            assert!(matches!(m[0].1, JsonValue::Number(JsonNumber::PosInt(2))));
            assert!(matches!(&m[1].1, JsonValue::String(s) if s == "2024-03"));
            assert!(matches!(&m[2].1, JsonValue::String(s) if s == "post1"));
        }
        _ => panic!("reply is not an object"),
    }
}

#[test]
fn posting_refusals() {
    let ids = vec!["e1".to_string()];
    let closed = LedgerService::plan_posting(&input(vec![line("50", "90", 10)]), &period(true, true), &chart(), "p".to_string(), &ids, 0);
    assert!(matches!(closed, Err(PlatformError::Validation(m)) if m == "период 2024-03 закрыт для проводок"));
    let inactive = LedgerService::plan_posting(&input(vec![line("50", "99", 10)]), &period(true, false), &chart(), "p".to_string(), &ids, 0);
    assert!(matches!(inactive, Err(PlatformError::NotFound(_))));
    let bad = LedgerService::plan_posting(&input(vec![line("50", "90", 0)]), &period(true, false), &chart(), "p".to_string(), &ids, 0);
    assert!(matches!(bad, Err(PlatformError::Validation(_))));
}

fn posted(id: &str, d: &str, c: &str, amount: i64) -> LedgerEntry {
    LedgerEntry {
        id: id.to_string(),
        company_id: "c1".to_string(),
        period_key: "2024-03".to_string(),
        date: "2024-03-15".to_string(),
        posting_id: "post1".to_string(),
        doc_kind: Some("invoice".to_string()),
        doc_id: Some("d1".to_string()),
        debit_code: d.to_string(),
        credit_code: c.to_string(),
        amount,
        nomenclature_id: None,
        description: None,
        is_reversal: false,
        reversed_by: None,
        created_by: "u1".to_string(),
        created_at: 0,
    }
}

#[test]
fn reversal_swaps_sides_and_undoes_turnovers() {
    let originals = vec![posted("e1", "50", "90", 1500)];
    let plan = LedgerService::plan_reversal(
        &originals, &chart(), "c1", "u2", "d1", Some("storno"), Some("d2"), "2024-03-20", "2024-03",
        &period(true, false), "post2".to_string(), &vec!["m1".to_string()], 9,
    ).unwrap();
    assert_eq!(plan.mirrors.len(), 1);
    assert_eq!(plan.mirrors[0].debit_code, "90");
    assert_eq!(plan.mirrors[0].credit_code, "50");
    assert!(plan.mirrors[0].is_reversal);
    assert_eq!(plan.marked[0].reversed_by.as_deref(), Some("m1"));
    let net50: i64 = plan.bumps.iter().filter(|b| b.account_code == "50").map(|b| b.add_debit - b.add_credit).sum();
    assert_eq!(net50, -1500);
    let none = LedgerService::plan_reversal(
        &vec![], &chart(), "c1", "u2", "d9", None, None, "2024-03-20", "2024-03", &period(true, false), "p".to_string(), &vec![], 9,
    );
    assert!(matches!(none, Err(PlatformError::NotFound(m)) if m == "проводки документа d9 не найдены (или уже сторнированы)"));
    let closed = LedgerService::plan_reversal(
        &originals, &chart(), "c1", "u2", "d1", None, None, "2024-03-20", "2024-03",
        &period(true, true), "p".to_string(), &vec!["m1".to_string()], 9,
    );
    assert!(matches!(closed, Err(PlatformError::Validation(m)) if m == "период 2024-03 закрыт для проводок"));
    let reply = reversal_reply(&plan);
    match reply {
        JsonValue::Object(m) => {
            assert_eq!(m[0].0, "entries_reversed");
            assert!(matches!(m[0].1, JsonValue::Number(JsonNumber::PosInt(1))));
            assert!(matches!(&m[1].1, JsonValue::String(s) if s == "post2"));
        }
        _ => panic!("reply is not an object"),
    }
}

#[test]
fn closing_balances_are_carried_forward() {
    let rows = vec![OpeningBalanceRow {
        account_id: "a50".to_string(),
        account_code: "50".to_string(),
        account_type: "asset".to_string(),
        opening_balance: 100,
        debit_turnover: 70,
        credit_turnover: 20,
    }];
    let c = LedgerService::carry_forward(&rows);
    assert_eq!(c.len(), 1);
    assert_eq!(c[0].closing_balance, 150);
    assert_eq!(c[0].account_code, "50");
}

#[test]
fn card_opening_is_the_latest_period_not_after_the_start() {
    let rows = vec![
        PeriodOpening { period_key: "2024-01".into(), opening_balance: 10 },
        PeriodOpening { period_key: "2024-03".into(), opening_balance: 30 },
        PeriodOpening { period_key: "2024-02".into(), opening_balance: 20 },
    ];
    assert_eq!(LedgerService::card_opening_balance(&rows, Some("2024-02")), 20);
    assert_eq!(LedgerService::card_opening_balance(&rows, None), 30);
    assert_eq!(LedgerService::card_opening_balance(&rows, Some("2023-12")), 0);
}

#[test]
fn periods_and_chart() {
    let p = LedgerService::ensure_period_record(None, "c1", "2024-05", "p9".into(), "t".into()).unwrap();
    assert_eq!((p.year, p.month, p.opened, p.closed), (2024, 5, true, false));
    assert_eq!(p.period_key, "2024-05");
    let kept = LedgerService::ensure_period_record(Some(period(false, true)), "c1", "2024-03", "x".into(), "t".into()).unwrap();
    assert_eq!(kept.id, "p1");
    assert!(LedgerService::ensure_period_record(None, "c1", "2024-00", "x".into(), "t".into()).is_err());
    assert!(carry_into_allowed(&None));
    assert!(!carry_into_allowed(&Some(period(true, true))));
    assert!(state_change_carries_forward(false, true));
    assert!(!state_change_carries_forward(true, true));
    assert!(LedgerService::chart_needs_seed(&vec![]));
    let chart = LedgerService::default_chart();
    assert_eq!(chart.len(), 8);
    assert_eq!(chart[0].0, "41");
    assert_eq!(chart[6], ("90.1".to_string(), "Выручка".to_string(), AccountType::Revenue));
    assert!(matches!(missing_period_error("2024-09"), platform2c::platform::PlatformError::NotFound(m)
        if m == "Период 2024-09 не существует (создаётся первой проводкой)"));
    assert!(matches!(missing_account_error("77"), PlatformError::NotFound(m) if m == "Счёт 77 не найден"));
}

#[test]
fn accounts_are_created_once_per_code() {
    let a = LedgerService::plan_create_account(&chart(), "c1", "62", "Покупатели", AccountType::Asset, None, "a62".into(), 5).unwrap();
    assert!(a.is_active && a.code == "62" && a.created_at == 5);
    assert!(matches!(LedgerService::plan_create_account(&chart(), "c1", "99", "X", AccountType::Equity, None, "n".into(), 5),
        Err(PlatformError::Validation(m)) if m == "Счёт с кодом 99 уже существует"));
    assert!(matches!(LedgerService::plan_create_account(&chart(), "c1", " ", "X", AccountType::Equity, None, "n".into(), 5),
        Err(PlatformError::Validation(m)) if m == "Код и название обязательны"));
}

#[test]
fn opening_balances_take_the_natural_sign() {
    let rows = vec![
        SaveOpeningBalanceInput { account_code: "50".into(), opening_balance: 700 },
        SaveOpeningBalanceInput { account_code: "90".into(), opening_balance: 300 },
    ];
    let ups = LedgerService::plan_opening_balances(&Some(period(true, false)), "2024-03", &rows, &chart(), "c1").unwrap();
    assert_eq!(ups[0].opening_balance, 700);
    assert_eq!(ups[1].opening_balance, -300);
    assert!(matches!(LedgerService::plan_opening_balances(&Some(period(true, true)), "2024-03", &rows, &chart(), "c1"),
        Err(PlatformError::Validation(m)) if m == "период 2024-03 закрыт — входящие сальдо нельзя изменить"));
    let bad = vec![SaveOpeningBalanceInput { account_code: "99".into(), opening_balance: 1 }];
    assert!(matches!(LedgerService::plan_opening_balances(&None, "2024-03", &bad, &chart(), "c1"), Err(PlatformError::NotFound(_))));
}

#[test]
fn only_unreversed_records_of_the_document_are_reversed() {
    let mut done = posted("e2", "50", "90", 5);
    done.reversed_by = Some("m0".into());
    let mut mirror = posted("e3", "90", "50", 5);
    mirror.is_reversal = true;
    let mut other = posted("e4", "50", "90", 5);
    other.doc_id = Some("d2".into());
    let entries = vec![posted("e1", "50", "90", 5), done, mirror, other];
    let sel = LedgerService::select_reversible(&entries, "c1", "d1");
    assert_eq!(sel.iter().map(|e| e.id.as_str()).collect::<Vec<_>>(), vec!["e1"]);
}

#[test]
fn date_key_parses_back_to_its_period() {
    for (y, m) in [(2000, 1), (2024, 3), (2100, 12)] {
        let date = format!("{:04}-{:02}-15", y, m);
        assert_eq!(parse_period_key(&period_key_of_date(&date)).unwrap(), (y, m));
    }
}
