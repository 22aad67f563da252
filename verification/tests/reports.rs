use platform2c::json::{JsonNumber, JsonValue};
use platform2c::ledger::{AccountType, LedgerEntry};
use platform2c::reports::{
    aggregate_balances, card_lines, card_sign, journal_limit, journal_precedes_exec, journal_query, journal_row, osv_row, osv_rows, report_sign, sort_by_code,
    AccountTotals, BalanceRow, CardEntry, OsvRow,
};

fn row(id: &str, code: &str, period: &str, opening: i64, debit: i64, credit: i64) -> BalanceRow {
    BalanceRow {
        account_id: id.to_string(),
        account_code: code.to_string(),
        period_key: period.to_string(),
        opening_balance: opening,
        debit_turnover: debit,
        credit_turnover: credit,
    }
}

#[test]
fn balances_are_grouped_by_account() {
    // stored openings are cumulative: the report opens with the earliest period's
    let rows = vec![
        row("a1", "50", "2024-02", 1150, 100, 0),
        row("a2", "60", "2024-01", -500, 0, 300),
        row("a1", "50", "2024-01", 1000, 200, 50),
    ];
    let t = aggregate_balances(&rows);
    assert_eq!(t.len(), 2);
    let a1 = t.iter().find(|x| x.account_id == "a1").unwrap();
    assert_eq!((a1.code.as_str(), a1.opening, a1.debit, a1.credit), ("50", 1000, 300, 50));
    assert_eq!(a1.opening_period, "2024-01");
    let a2 = t.iter().find(|x| x.account_id == "a2").unwrap();
    assert_eq!((a2.code.as_str(), a2.opening, a2.debit, a2.credit), ("60", -500, 0, 300));
}

#[test]
fn grouping_keeps_column_sums() {
    let rows = vec![row("x", "1", "2024-01", 5, 7, 11), row("y", "2", "2024-01", 13, 17, 19), row("x", "1", "2024-02", 23, 29, 31)];
    let t = aggregate_balances(&rows);
    let sum = |f: fn(&AccountTotals) -> i64| t.iter().map(f).sum::<i64>();
    assert_eq!(sum(|x| x.opening), 5 + 13);
    assert_eq!(sum(|x| x.debit), 7 + 17 + 29);
    assert_eq!(sum(|x| x.credit), 11 + 19 + 31);
}

#[test]
fn trial_balance_signs_by_account_type() {
    assert_eq!(report_sign("asset"), 1);
    assert_eq!(report_sign("liability"), -1);
    assert_eq!(report_sign("equity"), -1);
    assert_eq!(report_sign("revenue"), -1);
    assert_eq!(report_sign("expense"), 1);
    assert_eq!(report_sign(""), 1);
    let t = AccountTotals { account_id: "a".into(), code: "60".into(), opening: -1000, opening_period: "2024-01".into(), debit: 300, credit: 800 };
    let r = osv_row(&t, "Расчёты".to_string(), "liability".to_string());
    assert_eq!(r.balance, 500);
    assert_eq!(r.closing_balance, -500);
    let r = osv_row(&t, "Касса".to_string(), "asset".to_string());
    assert_eq!(r.balance, -500);
    assert_eq!(r.closing_balance, -1500);
}

fn line(code: &str) -> OsvRow {
    OsvRow {
        code: code.to_string(),
        name: String::new(),
        acc_type: String::new(),
        opening_balance: 0,
        debit_turnover: 0,
        credit_turnover: 0,
        balance: 0,
        closing_balance: 0,
    }
}

#[test]
fn trial_balance_is_ordered_by_code() {
    let sorted = sort_by_code(vec![line("90"), line("10"), line("60.01"), line("60"), line("01")]);
    let codes: Vec<&str> = sorted.iter().map(|r| r.code.as_str()).collect();
    assert_eq!(codes, vec!["01", "10", "60", "60.01", "90"]);
    let totals = vec![
        AccountTotals { account_id: "b".into(), code: "62".into(), opening: 0, opening_period: "2024-01".into(), debit: 10, credit: 0 },
        AccountTotals { account_id: "a".into(), code: "51".into(), opening: 5, opening_period: "2024-01".into(), debit: 0, credit: 10 },
    ];
    let rows = osv_rows(&totals, vec!["Покупатели".into(), "Банк".into()], vec!["asset".into(), "asset".into()]);
    assert_eq!(rows[0].code, "51");
    assert_eq!(rows[0].name, "Банк");
    assert_eq!(rows[0].closing_balance, -5);
    assert_eq!(rows[1].code, "62");
    assert_eq!(rows[1].closing_balance, 10);
}

#[test]
fn journal_limit_is_clamped() {
    assert_eq!(journal_limit(None), 100);
    assert_eq!(journal_limit(Some(0)), 1);
    assert_eq!(journal_limit(Some(-7)), 1);
    assert_eq!(journal_limit(Some(42)), 42);
    assert_eq!(journal_limit(Some(501)), 500);
}

fn entry(d: &str, c: &str, amount: i64) -> CardEntry {
    CardEntry { debit_code: d.to_string(), credit_code: c.to_string(), amount }
}

#[test]
fn account_card_running_balance() {
    assert_eq!(card_sign(Some(AccountType::Asset)), 1);
    assert_eq!(card_sign(Some(AccountType::Revenue)), -1);
    assert_eq!(card_sign(None), 1);
    let es = vec![entry("50", "90", 1000), entry("44", "50", 300), entry("50", "62", 50)];
    let (lines, fin) = card_lines(&es, "50", 1, 200);
    let running: Vec<i64> = lines.iter().map(|l| l.running_balance).collect();
    assert_eq!(running, vec![1200, 900, 950]);
    assert_eq!(lines.iter().map(|l| l.is_debit).collect::<Vec<_>>(), vec![true, false, true]);
    assert_eq!(fin, 950);
    // final = opening + sign × (debits − credits)
    assert_eq!(fin, 200 + (1000 + 50 - 300));
    let (_, fin) = card_lines(&es, "50", -1, 0);
    assert_eq!(fin, -750);
}

fn journal_entry(date: &str, created_at: i64, d: &str, c: &str, doc: Option<&str>) -> LedgerEntry {
    LedgerEntry {
        id: "e1".to_string(),
        company_id: "c1".to_string(),
        period_key: date[..7].to_string(),
        date: date.to_string(),
        posting_id: "p1".to_string(),
        doc_kind: None,
        doc_id: doc.map(|x| x.to_string()),
        debit_code: d.to_string(),
        credit_code: c.to_string(),
        amount: -5,
        nomenclature_id: None,
        description: Some("x".to_string()),
        is_reversal: false,
        reversed_by: None,
        created_by: "u1".to_string(),
        created_at,
    }
}

#[test]
fn journal_query_selects_by_range_account_and_document() {
    let q = journal_query("c1".to_string(), Some("2024-03-01".to_string()), Some("2024-03-31".to_string()),
        Some("62".to_string()), None, Some(1000));
    assert_eq!(q.limit, 500);
    assert!(q.selects(&journal_entry("2024-03-15", 0, "62", "90", None)));
    assert!(q.selects(&journal_entry("2024-03-31", 0, "51", "62", None)));
    assert!(!q.selects(&journal_entry("2024-04-01", 0, "62", "90", None)));
    assert!(!q.selects(&journal_entry("2024-02-29", 0, "62", "90", None)));
    assert!(!q.selects(&journal_entry("2024-03-15", 0, "51", "90", None)));
    let mut other = journal_entry("2024-03-15", 0, "62", "90", None);
    other.company_id = "c2".to_string();
    assert!(!q.selects(&other));
    let by_doc = journal_query("c1".to_string(), None, None, None, Some("d1".to_string()), None);
    assert_eq!(by_doc.limit, 100);
    assert!(by_doc.selects(&journal_entry("2023-01-01", 0, "1", "2", Some("d1"))));
    assert!(!by_doc.selects(&journal_entry("2023-01-01", 0, "1", "2", Some("d2"))));
    assert!(!by_doc.selects(&journal_entry("2023-01-01", 0, "1", "2", None)));
}

#[test]
fn journal_lists_latest_first() {
    let a = journal_entry("2024-03-15", 10, "1", "2", None);
    let b = journal_entry("2024-03-15", 20, "1", "2", None);
    let c = journal_entry("2024-03-16", 0, "1", "2", None);
    assert!(journal_precedes_exec(&b, &a));
    assert!(!journal_precedes_exec(&a, &b));
    assert!(journal_precedes_exec(&c, &b));
    assert!(!journal_precedes_exec(&a, &c));
}

#[test]
fn journal_row_members() {
    let r = journal_row(&journal_entry("2024-03-15", 0, "62", "90", Some("d1")));
    match r {
        JsonValue::Object(m) => {
            let keys: Vec<&str> = m.iter().map(|(k, _)| k.as_str()).collect();
            assert_eq!(keys, vec!["id", "date", "posting_id", "doc_kind", "doc_id", "debit_code", "credit_code",
                "amount", "nomenclature_id", "description", "is_reversal"]);
            assert!(matches!(m[3].1, JsonValue::Null));
            assert!(matches!(&m[4].1, JsonValue::String(s) if s == "d1"));
            assert!(matches!(m[7].1, JsonValue::Number(JsonNumber::NegInt(-5))));
            assert!(matches!(m[10].1, JsonValue::Bool(false)));
        }
        _ => panic!("expected an object"),
    }
}
