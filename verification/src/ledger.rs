//! The double-entry ledger: chart of accounts, accounting periods, postings,
//! reversals, turnovers and carried-forward balances.
//!
//! Invariants kept by the posting logic: every posting is balanced (each line
//! is one debit/credit pair of the same amount); accounts exist and are
//! active; a posting goes only into the open period of its date; a reversal
//! mirrors every line of a document and undoes its turnovers.

use vstd::prelude::*;
use crate::platform::PlatformError;
use crate::json::{JsonValue, JsonNumber, json_member_str};
use crate::text::{
    concat2, concat3, str_eq, owned, push_char, chars_of, string_of_range,
    zero_pad_int, pad_left, nat_dec, int_dec, zero_pad_i64, pad_left_exec, u64_to_dec,
    i64_to_dec, parse_int, parse_i32, parse_u32, split_once, split_once_exec, is_blank,
    is_blank_exec, digits_val, all_digits, is_digit, digit_char, lemma_nat_dec_digits, lemma_zero_padding,
    lemma_no_dash_in_digits,
};
use crate::trusted::{debug_str, spec_debug_str};
use vstd::string::StringSliceAdditionalSpecFns;

verus! {

// ───────────────────────── accounts ─────────────────────────

/// Types of accounts of the chart.
#[derive(PartialEq, Eq, Structural, Clone, Copy, Debug)]
pub enum AccountType {
    Asset,
    Liability,
    Equity,
    Revenue,
    Expense,
    OffBalance,
}

/// The stored code of an account type.
pub open spec fn account_type_code(t: AccountType) -> Seq<char> {
    match t {
        AccountType::Asset => "asset"@,
        AccountType::Liability => "liability"@,
        AccountType::Equity => "equity"@,
        AccountType::Revenue => "revenue"@,
        AccountType::Expense => "expense"@,
        AccountType::OffBalance => "off_balance"@,
    }
}

/// The sign with which an account type turns turnovers into a balance:
/// assets, expenses and off-balance accounts count debit minus credit,
/// the others credit minus debit.
pub open spec fn spec_balance_sign(t: AccountType) -> int {
    match t {
        AccountType::Asset | AccountType::Expense | AccountType::OffBalance => 1,
        _ => -1,
    }
}

impl AccountType {
    /// The stored code of the type (`"asset"`, `"liability"`, …).
    pub fn as_str(&self) -> (s: &'static str)
        ensures
            s@ == account_type_code(*self),
    {
        match self {
            AccountType::Asset => "asset",
            AccountType::Liability => "liability",
            AccountType::Equity => "equity",
            AccountType::Revenue => "revenue",
            AccountType::Expense => "expense",
            AccountType::OffBalance => "off_balance",
        }
    }

    /// Balance sign of the type: 1 for asset/expense/off-balance, -1 otherwise.
    pub fn balance_sign(&self) -> (r: i64)
        ensures
            r == spec_balance_sign(*self),
    {
        match self {
            AccountType::Asset | AccountType::Expense => 1,
            AccountType::OffBalance => 1,
            _ => -1,
        }
    }

    /// The type whose stored code is `code`, if any.
    pub fn from_code(code: &str) -> (r: Option<AccountType>)
        ensures
            r matches Some(t) ==> account_type_code(t) == code@,
            r is None ==> forall|t: AccountType| account_type_code(t) != code@,
    {
        if str_eq(code, "asset") { return Some(AccountType::Asset); }
        if str_eq(code, "liability") { return Some(AccountType::Liability); }
        if str_eq(code, "equity") { return Some(AccountType::Equity); }
        if str_eq(code, "revenue") { return Some(AccountType::Revenue); }
        if str_eq(code, "expense") { return Some(AccountType::Expense); }
        if str_eq(code, "off_balance") { return Some(AccountType::OffBalance); }
        assert forall|t: AccountType| account_type_code(t) != code@ by {
            match t {
                AccountType::Asset => {},
                AccountType::Liability => {},
                AccountType::Equity => {},
                AccountType::Revenue => {},
                AccountType::Expense => {},
                AccountType::OffBalance => {},
            }
        }
        None
    }
}

/// An opening balance as stored: a user enters balances of liability, equity
/// and revenue accounts as positive amounts, and they are stored negated, so
/// that `closing = opening + (debit − credit)` holds for every account type.
pub open spec fn natural_opening(t: AccountType, entered: int) -> int {
    match t {
        AccountType::Liability | AccountType::Equity | AccountType::Revenue => -entered,
        _ => entered,
    }
}

/// The stored form of an entered opening balance.
pub fn natural_opening_exec(t: AccountType, entered: i64) -> (r: i64)
    requires
        entered != i64::MIN,
    ensures
        r == natural_opening(t, entered as int),
{
    match t {
        AccountType::Liability | AccountType::Equity | AccountType::Revenue => -entered,
        _ => entered,
    }
}

/// An account of a company's chart. The code is unique within the company.
pub struct LedgerAccount {
    pub id: String,
    pub company_id: String,
    pub code: String,
    pub name: String,
    pub account_type: AccountType,
    pub parent_code: Option<String>,
    pub is_active: bool,
    /// Milliseconds since the Unix epoch.
    pub created_at: i64,
    /// Milliseconds since the Unix epoch.
    pub updated_at: i64,
}

// ───────────────────────── periods ─────────────────────────

/// The key of a period: the year padded to four digits (sign-aware), a dash,
/// and the month padded to two digits (`format!("{year:04}-{month:02}")`).
pub open spec fn spec_period_key(year: int, month: nat) -> Seq<char> {
    zero_pad_int(year, 4) + seq!['-'] + pad_left(nat_dec(month), 2, '0')
}


/// The period key of a date `"YYYY-MM-DD"` (`date.get(..7)`): its first
/// seven bytes when the date is at least that long and they end on a
/// character boundary, `"0000-00"` otherwise.
pub fn period_key_of_date(date: &str) -> (k: String)
    ensures
        vstd::utf8::encode_utf8(k@) == if date.spec_bytes().len() >= 7 && vstd::utf8::is_char_boundary(date.spec_bytes(), 7) {
            date.spec_bytes().subrange(0, 7)
        } else {
            vstd::utf8::encode_utf8("0000-00"@)
        },
{
    let bytes = date.as_bytes();
    if bytes.len() >= 7 && date.is_char_boundary(7) {
        let (head, _tail) = date.split_at(7);
        let k = head.to_owned();
        assert(head.spec_bytes() =~= date.spec_bytes().subrange(0, 7));
        assert(vstd::utf8::encode_utf8(k@) == head.spec_bytes());
        k
    } else {
        "0000-00".to_owned()
    }
}

/// The first two dash-separated pieces of a key (`key.split('-')`): the text
/// before the first dash, and the text between the first and the second dash
/// (or to the end) when there is a dash at all.
pub open spec fn key_pieces(key: Seq<char>) -> (Seq<char>, Option<Seq<char>>) {
    match split_once(key, '-') {
        Some((a, b)) => (a, Some(match split_once(b, '-') {
            Some((c, _)) => c,
            None => b,
        })),
        None => (key, None),
    }
}

/// What parsing a period key gives: the year and month, or the reason it is
/// refused (the key is quoted as `{:?}` prints it).
pub open spec fn parse_period_key_result(key: Seq<char>) -> Result<(int, int), Seq<char>> {
    let q = "период "@ + spec_debug_str(key);
    let (p0, p1) = key_pieces(key);
    match parse_int(p0, i32::MIN as int, i32::MAX as int) {
        None => Err(q + ": год"@),
        Some(y) => match p1 {
            None => Err(q + ": месяц"@),
            Some(ms) => match parse_int(ms, 0, u32::MAX as int) {
                None => Err(q + ": месяц"@),
                Some(m) => if m < 1 || m > 12 {
                    Err(q + ": месяц должен быть от 01 до 12"@)
                } else if y < 2000 || y > 2100 {
                    Err(q + ": год должен быть от 2000 до 2100"@)
                } else {
                    Ok((y, m))
                },
            },
        },
    }
}

/// Parses a period key `"YYYY-MM"` into year and month. Years outside
/// 2000..=2100 and months outside 1..=12 are refused as `Validation`.
pub fn parse_period_key(key: &str) -> (r: Result<(i32, u32), PlatformError>)
    ensures
        r matches Ok((y, m)) ==> parse_period_key_result(key@) == Ok::<(int, int), Seq<char>>((y as int, m as int)),
        r matches Err(e) ==> e matches PlatformError::Validation(msg)
            && parse_period_key_result(key@) == Err::<(int, int), Seq<char>>(msg@),
{
    let q = concat2("период ", debug_str(key).as_str());
    let (p0, p1): (String, Option<String>) = match split_once_exec(key, '-') {
        Some((a, b)) => {
            let second = match split_once_exec(b.as_str(), '-') {
                Some((c, _)) => c,
                None => b,
            };
            (a, Some(second))
        },
        None => (owned(key), None),
    };
    let y = match parse_i32(p0.as_str()) {
        None => return Err(PlatformError::Validation(concat2(q.as_str(), ": год"))),
        Some(y) => y,
    };
    let ms = match p1 {
        None => return Err(PlatformError::Validation(concat2(q.as_str(), ": месяц"))),
        Some(ms) => ms,
    };
    let m = match parse_u32(ms.as_str()) {
        None => return Err(PlatformError::Validation(concat2(q.as_str(), ": месяц"))),
        Some(m) => m,
    };
    if m < 1 || m > 12 {
        return Err(PlatformError::Validation(concat2(q.as_str(), ": месяц должен быть от 01 до 12")));
    }
    if y < 2000 || y > 2100 {
        return Err(PlatformError::Validation(concat2(q.as_str(), ": год должен быть от 2000 до 2100")));
    }
    Ok((y, m))
}

/// The period after `year`/`month`: the next month, or January of the next year.
pub open spec fn spec_next_period(year: int, month: int) -> (int, int) {
    if month == 12 { (year + 1, 1) } else { (year, month + 1) }
}

/// The period after `year`/`month`.
pub fn next_period(year: i32, month: u32) -> (r: (i32, u32))
    requires
        month == 12 ==> year < i32::MAX,
        month != 12 ==> month < u32::MAX,
    ensures
        (r.0 as int, r.1 as int) == spec_next_period(year as int, month as int),
{
    if month == 12 { (year + 1, 1) } else { (year, month + 1) }
}

/// The key that `period_key_of_date` takes from an ASCII date that begins
/// with a period's key (such as `"2024-03-15"`) is that key, and it parses
/// back to the period's year and month.
pub proof fn lemma_date_key_roundtrip(date: Seq<char>, key: Seq<char>, year: int, month: nat)
    requires
        2000 <= year <= 2100,
        1 <= month <= 12,
        vstd::utf8::is_ascii_chars(date),
        date.len() >= 7,
        date.take(7) == spec_period_key(year, month),
        vstd::utf8::encode_utf8(key) == if vstd::utf8::encode_utf8(date).len() >= 7
            && vstd::utf8::is_char_boundary(vstd::utf8::encode_utf8(date), 7) {
            vstd::utf8::encode_utf8(date).subrange(0, 7)
        } else {
            vstd::utf8::encode_utf8("0000-00"@)
        },
    ensures
        key == spec_period_key(year, month),
        parse_period_key_result(key) == Ok::<(int, int), Seq<char>>((year, month as int)),
{
    let b = vstd::utf8::encode_utf8(date);
    let head = date.take(7);
    vstd::utf8::is_ascii_chars_encode_utf8(date);
    vstd::utf8::encode_utf8_valid_utf8(date);
    if b.len() == 7 {
        vstd::utf8::is_char_boundary_start_end_of_seq(b);
    } else {
        vstd::utf8::is_char_boundary_iff_not_is_continuation_byte(b, 7);
        assert(date[7] as u8 == b[7]);
        assert('\0' <= date[7] <= '\u{7f}');
        vstd::utf8::is_ascii_chars_nat_bound(date);
        assert((date[7] as nat) < 128);
    }
    assert(vstd::utf8::is_ascii_chars(head));
    vstd::utf8::is_ascii_chars_encode_utf8(head);
    assert forall|i: int| 0 <= i < 7 implies #[trigger] vstd::utf8::encode_utf8(head)[i] == b.subrange(0, 7)[i] by {
        assert(head[i] == date[i]);
        assert(head[i] as u8 == vstd::utf8::encode_utf8(head)[i]);
        assert(date[i] as u8 == b[i]);
    }
    assert(vstd::utf8::encode_utf8(head) =~= b.subrange(0, 7));
    vstd::utf8::encode_utf8_decode_utf8(head);
    vstd::utf8::encode_utf8_decode_utf8(key);
    assert(key == head);
    lemma_period_key_roundtrip(year, month);
}

/// Law: a period key parses back into the year and month it was made from,
/// for the years (2000..=2100) and months (1..=12) that parsing accepts.
pub proof fn lemma_period_key_roundtrip(year: int, month: nat)
    requires
        2000 <= year <= 2100,
        1 <= month <= 12,
    ensures
        parse_period_key_result(spec_period_key(year, month)) == Ok::<(int, int), Seq<char>>((year, month as int)),
{
    let ys = zero_pad_int(year, 4);
    let ms = pad_left(nat_dec(month), 2, '0');
    let key = spec_period_key(year, month);
    lemma_nat_dec_digits(year as nat);
    lemma_nat_dec_digits(month);
    reveal_with_fuel(nat_dec, 5);
    assert(nat_dec(year as nat).len() == 4);
    assert(ys == nat_dec(year as nat));
    if month < 10 {
        assert(nat_dec(month).len() == 1);
        lemma_zero_padding(nat_dec(month), 1);
        assert(ms =~= Seq::new(1, |i: int| '0') + nat_dec(month));
    } else {
        assert(nat_dec(month).len() == 2);
        assert(ms == nat_dec(month));
    }
    assert(all_digits(ms) && digits_val(ms) == month);
    assert(all_digits(ys) && digits_val(ys) == year);
    lemma_no_dash_in_digits(ys);
    lemma_no_dash_in_digits(ms);
    assert(key =~= ys + seq!['-'] + ms);
    assert(key[4] == '-');
    // the first dash of the key is the one after the year
    assert(exists|i: int| 0 <= i < key.len() && key[i] == '-');
    let i = choose|i: int| 0 <= i < key.len() && key[i] == '-' && forall|j: int| 0 <= j < i ==> key[j] != '-';
    assert forall|j: int| 0 <= j < 4 implies key[j] != '-' by {
        assert(key[j] == ys[j]);
    }
    if i < 4 {
        assert(key[i] == ys[i]);
    }
    if i > 4 {
        assert(key[4] != '-');
    }
    assert(i == 4);
    assert(key.take(4) =~= ys);
    assert(key.skip(5) =~= ms);
    assert(split_once(key, '-') == Some((ys, ms)));
    assert(!(exists|j: int| 0 <= j < ms.len() && ms[j] == '-'));
    assert(split_once(ms, '-') is None);
    assert(key_pieces(key) == (ys, Some(ms)));
    assert(ys[0] != '+' && ys[0] != '-') by {
        assert(is_digit(ys[0]));
    }
    assert(ms[0] != '+' && ms[0] != '-') by {
        assert(is_digit(ms[0]));
    }
    assert(parse_int(ys, i32::MIN as int, i32::MAX as int) == Some(year));
    assert(parse_int(ms, 0, u32::MAX as int) == Some(month as int));
}

// ───────────────────────── postings ─────────────────────────

/// One debit/credit pair of a posting. Amounts are in minor units (kopecks).
pub struct PostingLine {
    pub debit_code: String,
    pub credit_code: String,
    pub amount: i64,
    pub nomenclature_id: Option<String>,
    pub description: Option<String>,
}

/// What is wrong with a line, if anything: a non-positive amount, or the same
/// account on both sides.
pub open spec fn line_error(l: PostingLine) -> Option<Seq<char>> {
    if l.amount <= 0 {
        Some("сумма должна быть > 0 (получено "@ + int_dec(l.amount as int) + ")"@)
    } else if l.debit_code@ == l.credit_code@ {
        Some("дебет и кредит совпадают ("@ + l.debit_code@ + ")"@)
    } else {
        None
    }
}

/// The error of the first faulty line, if any.
pub open spec fn first_line_error(ls: Seq<PostingLine>) -> Option<Seq<char>>
    decreases ls.len(),
{
    if ls.len() == 0 {
        None
    } else if line_error(ls[0]) is Some {
        line_error(ls[0])
    } else {
        first_line_error(ls.drop_first())
    }
}

/// Why a batch of lines cannot be posted: there are none, or one is faulty.
pub open spec fn lines_error(ls: Seq<PostingLine>) -> Option<Seq<char>> {
    if ls.len() == 0 { Some("нет проводок"@) } else { first_line_error(ls) }
}

proof fn lemma_first_line_error_none(ls: Seq<PostingLine>)
    ensures
        first_line_error(ls) is None
            <==> forall|i: int| 0 <= i < ls.len() ==> (#[trigger] ls[i]).amount > 0 && ls[i].debit_code@ != ls[i].credit_code@,
    decreases ls.len(),
{
    if ls.len() > 0 {
        lemma_first_line_error_none(ls.drop_first());
        assert forall|i: int| 0 < i < ls.len() implies ls[i] == #[trigger] ls.drop_first()[i - 1] by {}
        if forall|i: int| 0 <= i < ls.len() ==> (#[trigger] ls[i]).amount > 0 && ls[i].debit_code@ != ls[i].credit_code@ {
            assert(ls[0].amount > 0 && ls[0].debit_code@ != ls[0].credit_code@);
            assert forall|i: int| 0 <= i < ls.drop_first().len() implies
                (#[trigger] ls.drop_first()[i]).amount > 0 && ls.drop_first()[i].debit_code@ != ls.drop_first()[i].credit_code@ by {
                assert(ls.drop_first()[i] == ls[i + 1]);
            }
        }
        if first_line_error(ls) is None {
            assert(line_error(ls[0]) is None);
            assert forall|i: int| 0 <= i < ls.len() implies (#[trigger] ls[i]).amount > 0 && ls[i].debit_code@ != ls[i].credit_code@ by {
                if i > 0 {
                    assert(ls.drop_first()[i - 1] == ls[i]);
                }
            }
        }
    }
}

/// Law: a batch of lines can be posted only when it has lines and every
/// line moves a positive amount between two different accounts.
pub proof fn lemma_postable_lines(ls: Seq<PostingLine>)
    ensures
        lines_error(ls) is None
            <==> (ls.len() > 0 && forall|i: int| 0 <= i < ls.len() ==> (#[trigger] ls[i]).amount > 0 && ls[i].debit_code@ != ls[i].credit_code@),
{
    lemma_first_line_error_none(ls);
}

proof fn lemma_first_line_error_skip(ls: Seq<PostingLine>, i: int)
    requires
        0 <= i <= ls.len(),
        forall|j: int| 0 <= j < i ==> (#[trigger] line_error(ls[j])) is None,
    ensures
        first_line_error(ls) == first_line_error(ls.skip(i)),
    decreases i,
{
    if i > 0 {
        assert(line_error(ls[0]) is None);
        assert forall|j: int| 0 <= j < i - 1 implies (#[trigger] line_error(ls.drop_first()[j])) is None by {
            assert(ls.drop_first()[j] == ls[j + 1]);
        }
        lemma_first_line_error_skip(ls.drop_first(), i - 1);
        assert(ls.drop_first().skip(i - 1) =~= ls.skip(i));
    } else {
        assert(ls.skip(0) =~= ls);
    }
}

/// An accounting period (a month) of a company.
pub struct AccountingPeriod {
    pub id: String,
    pub company_id: String,
    /// `"YYYY-MM"`
    pub period_key: String,
    pub year: i32,
    pub month: u32,
    pub opened: bool,
    pub closed: bool,
    /// RFC 3339 text.
    pub created_at: String,
}

impl AccountingPeriod {
    /// `"YYYY-MM"` for a year and month.
    pub fn period_key(year: i32, month: u32) -> (k: String)
        ensures
            k@ == spec_period_key(year as int, month as nat),
    {
        let y = zero_pad_i64(year as i64, 4);
        let md = u64_to_dec(month as u64);
        let m = pad_left_exec(md.as_str(), 2, '0');
        let mut k = y;
        push_char(&mut k, '-');
        k.append(m.as_str());
        k
    }
}

/// The period a posting of `key` lands in: the stored one, or a new open one
/// made from the parsed key. A malformed key is refused first.
pub open spec fn ensured_period_ok(existing: Option<AccountingPeriod>, company_id: Seq<char>, key: Seq<char>,
    new_id: Seq<char>, now: Seq<char>, r: AccountingPeriod) -> bool
{
    match parse_period_key_result(key) {
        Err(_) => false,
        Ok((y, m)) => match existing {
            Some(p) => r == p,
            None => r.id@ == new_id && r.company_id@ == company_id && r.period_key@ == key
                && r.year as int == y && r.month as int == m && r.opened && !r.closed
                && r.created_at@ == now,
        },
    }
}

/// Is `a` an active account of `company` with code `code`?
pub open spec fn active_match(a: LedgerAccount, company: Seq<char>, code: Seq<char>) -> bool {
    a.company_id@ == company && a.code@ == code && a.is_active
}

/// The first active account of the company with the given code, if any.
pub open spec fn find_active(accs: Seq<LedgerAccount>, company: Seq<char>, code: Seq<char>) -> Option<LedgerAccount>
    decreases accs.len(),
{
    if accs.len() == 0 {
        None
    } else if active_match(accs[0], company, code) {
        Some(accs[0])
    } else {
        find_active(accs.drop_first(), company, code)
    }
}

proof fn lemma_find_active_skip(accs: Seq<LedgerAccount>, company: Seq<char>, code: Seq<char>, i: int)
    requires
        0 <= i <= accs.len(),
        forall|j: int| 0 <= j < i ==> !active_match(#[trigger] accs[j], company, code),
    ensures
        find_active(accs, company, code) == find_active(accs.skip(i), company, code),
    decreases i,
{
    if i > 0 {
        assert forall|j: int| 0 <= j < i - 1 implies !active_match(#[trigger] accs.drop_first()[j], company, code) by {
            assert(accs.drop_first()[j] == accs[j + 1]);
        }
        lemma_find_active_skip(accs.drop_first(), company, code, i - 1);
        assert(accs.drop_first().skip(i - 1) =~= accs.skip(i));
    } else {
        assert(accs.skip(0) =~= accs);
    }
}

/// The message when an account code does not resolve.
pub open spec fn unresolved_message(code: Seq<char>) -> Seq<char> {
    "Счёт "@ + spec_debug_str(code) + " не найден или неактивен"@
}

/// A copy of an account.
pub fn clone_account(a: &LedgerAccount) -> (r: LedgerAccount)
    ensures
        r == *a,
{
    LedgerAccount {
        id: a.id.clone(),
        company_id: a.company_id.clone(),
        code: a.code.clone(),
        name: a.name.clone(),
        account_type: a.account_type,
        parent_code: clone_opt(&a.parent_code),
        is_active: a.is_active,
        created_at: a.created_at,
        updated_at: a.updated_at,
    }
}

/// A copy of an optional string.
pub fn clone_opt(o: &Option<String>) -> (r: Option<String>)
    ensures
        r == *o,
{
    match o {
        Some(s) => Some(s.clone()),
        None => None,
    }
}

/// A journal record: one debit/credit pair. Records of one posting share a
/// posting id; records of one source document share its doc id.
pub struct LedgerEntry {
    pub id: String,
    pub company_id: String,
    /// `"YYYY-MM"`
    pub period_key: String,
    /// `"YYYY-MM-DD"`
    pub date: String,
    pub posting_id: String,
    pub doc_kind: Option<String>,
    pub doc_id: Option<String>,
    pub debit_code: String,
    pub credit_code: String,
    pub amount: i64,
    pub nomenclature_id: Option<String>,
    pub description: Option<String>,
    pub is_reversal: bool,
    /// The id of the mirror record that reversed this one, once reversed.
    pub reversed_by: Option<String>,
    pub created_by: String,
    /// Milliseconds since the Unix epoch.
    pub created_at: i64,
}

/// An increment of an account's turnovers in a period.
pub struct TurnoverBump {
    pub account_id: String,
    pub account_code: String,
    pub account_type: AccountType,
    pub add_debit: i64,
    pub add_credit: i64,
}

/// A request to post a batch of lines.
pub struct PostInput {
    pub company_id: String,
    pub created_by: String,
    /// `"YYYY-MM-DD"`
    pub date: String,
    pub doc_kind: Option<String>,
    pub doc_id: Option<String>,
    pub lines: Vec<PostingLine>,
    /// A mirror (reversal) posting marks its records as reversals.
    pub is_reversal: bool,
}

/// What a posting writes: its records, in line order, and two turnover
/// increments per line (debit side, then credit side).
pub struct PostingPlan {
    pub posting_id: String,
    pub period_key: String,
    pub entries: Vec<LedgerEntry>,
    pub bumps: Vec<TurnoverBump>,
}

/// The first code of the lines (debit before credit, line by line) that does
/// not resolve to an active account of the company.
pub open spec fn unresolved_code(ls: Seq<PostingLine>, accs: Seq<LedgerAccount>, company: Seq<char>) -> Option<Seq<char>>
    decreases ls.len(),
{
    if ls.len() == 0 {
        None
    } else if find_active(accs, company, ls[0].debit_code@) is None {
        Some(ls[0].debit_code@)
    } else if find_active(accs, company, ls[0].credit_code@) is None {
        Some(ls[0].credit_code@)
    } else {
        unresolved_code(ls.drop_first(), accs, company)
    }
}

proof fn lemma_unresolved_skip(ls: Seq<PostingLine>, accs: Seq<LedgerAccount>, company: Seq<char>, i: int)
    requires
        0 <= i <= ls.len(),
        forall|j: int| 0 <= j < i ==> (#[trigger] find_active(accs, company, ls[j].debit_code@)) is Some
            && find_active(accs, company, ls[j].credit_code@) is Some,
    ensures
        unresolved_code(ls, accs, company) == unresolved_code(ls.skip(i), accs, company),
    decreases i,
{
    if i > 0 {
        assert(find_active(accs, company, ls[0].debit_code@) is Some);
        assert forall|j: int| 0 <= j < i - 1 implies (#[trigger] find_active(accs, company, ls.drop_first()[j].debit_code@)) is Some
            && find_active(accs, company, ls.drop_first()[j].credit_code@) is Some by {
            assert(ls.drop_first()[j] == ls[j + 1]);
        }
        lemma_unresolved_skip(ls.drop_first(), accs, company, i - 1);
        assert(ls.drop_first().skip(i - 1) =~= ls.skip(i));
    } else {
        assert(ls.skip(0) =~= ls);
    }
}

/// The record a line of a posting becomes.
pub open spec fn entry_for(e: LedgerEntry, input: PostInput, l: PostingLine, key: Seq<char>,
    posting_id: Seq<char>, id: Seq<char>, now: i64) -> bool
{
    &&& e.id@ == id
    &&& e.company_id@ == input.company_id@
    &&& e.period_key@ == key
    &&& e.date@ == input.date@
    &&& e.posting_id@ == posting_id
    &&& e.doc_kind == input.doc_kind
    &&& e.doc_id == input.doc_id
    &&& e.debit_code@ == l.debit_code@
    &&& e.credit_code@ == l.credit_code@
    &&& e.amount == l.amount
    &&& e.nomenclature_id == l.nomenclature_id
    &&& e.description == l.description
    &&& e.is_reversal == input.is_reversal
    &&& e.reversed_by is None
    &&& e.created_by@ == input.created_by@
    &&& e.created_at == now
}

/// An increment of `amount` on the debit side of `acc`.
pub open spec fn is_debit_bump(b: TurnoverBump, acc: LedgerAccount, amount: i64) -> bool {
    b.account_id@ == acc.id@ && b.account_code@ == acc.code@ && b.account_type == acc.account_type
        && b.add_debit == amount && b.add_credit == 0
}

/// An increment of `amount` on the credit side of `acc`.
pub open spec fn is_credit_bump(b: TurnoverBump, acc: LedgerAccount, amount: i64) -> bool {
    b.account_id@ == acc.id@ && b.account_code@ == acc.code@ && b.account_type == acc.account_type
        && b.add_debit == 0 && b.add_credit == amount
}

/// The plan of a posting: record `i` is line `i`, and increments `2i`, `2i+1`
/// are its debit and credit sides on the resolved accounts.
pub open spec fn plan_matches(plan: PostingPlan, input: PostInput, key: Seq<char>, accs: Seq<LedgerAccount>,
    posting_id: Seq<char>, ids: Seq<String>, now: i64) -> bool
{
    let ls = input.lines@;
    &&& plan.posting_id@ == posting_id
    &&& plan.period_key@ == key
    &&& plan.entries@.len() == ls.len()
    &&& plan.bumps@.len() == 2 * ls.len()
    &&& forall|i: int| 0 <= i < ls.len() ==> {
        &&& entry_for(#[trigger] plan.entries@[i], input, ls[i], key, posting_id, ids[i]@, now)
        &&& is_debit_bump(plan.bumps@[2 * i], find_active(accs, input.company_id@, ls[i].debit_code@).unwrap(), ls[i].amount)
        &&& is_credit_bump(plan.bumps@[2 * i + 1], find_active(accs, input.company_id@, ls[i].credit_code@).unwrap(), ls[i].amount)
    }
}

/// Sum of the debit increments.
pub open spec fn sum_debit(bs: Seq<TurnoverBump>) -> int
    decreases bs.len(),
{
    if bs.len() == 0 { 0 } else { sum_debit(bs.drop_last()) + bs.last().add_debit }
}

/// Sum of the credit increments.
pub open spec fn sum_credit(bs: Seq<TurnoverBump>) -> int
    decreases bs.len(),
{
    if bs.len() == 0 { 0 } else { sum_credit(bs.drop_last()) + bs.last().add_credit }
}

/// Increments `2j` and `2j+1` are the two sides of one amount.
pub open spec fn pair_balanced(bs: Seq<TurnoverBump>, j: int) -> bool {
    bs[2 * j].add_credit == 0 && bs[2 * j + 1].add_debit == 0 && bs[2 * j].add_debit == bs[2 * j + 1].add_credit
}

proof fn lemma_pairs_balanced(bs: Seq<TurnoverBump>, k: int)
    requires
        0 <= k,
        2 * k <= bs.len(),
        forall|j: int| 0 <= j < k ==> #[trigger] pair_balanced(bs, j),
    ensures
        sum_debit(bs.take(2 * k)) == sum_credit(bs.take(2 * k)),
    decreases k,
{
    if k > 0 {
        lemma_pairs_balanced(bs, k - 1);
        let t = bs.take(2 * k);
        let u = bs.take(2 * k - 1);
        let w = bs.take(2 * (k - 1));
        assert(t.drop_last() =~= u);
        assert(u.drop_last() =~= w);
        assert(pair_balanced(bs, k - 1));
        assert(t.last() == bs[2 * k - 1]);
        assert(u.last() == bs[2 * k - 2]);
        assert(t.len() == 2 * k && u.len() == 2 * k - 1);
        assert(sum_debit(t) == sum_debit(t.drop_last()) + t.last().add_debit);
        assert(sum_debit(u) == sum_debit(u.drop_last()) + u.last().add_debit);
        assert(sum_credit(t) == sum_credit(t.drop_last()) + t.last().add_credit);
        assert(sum_credit(u) == sum_credit(u.drop_last()) + u.last().add_credit);
        assert(sum_debit(t) == sum_debit(w) + bs[2 * k - 2].add_debit + bs[2 * k - 1].add_debit);
        assert(sum_credit(t) == sum_credit(w) + bs[2 * k - 2].add_credit + bs[2 * k - 1].add_credit);
    } else {
        assert(bs.take(0).len() == 0);
    }
}

/// Law: every posting is balanced — the debit turnovers it adds equal the
/// credit turnovers it adds.
pub proof fn lemma_posting_balanced(plan: PostingPlan, input: PostInput, key: Seq<char>, accs: Seq<LedgerAccount>,
    posting_id: Seq<char>, ids: Seq<String>, now: i64)
    requires
        plan_matches(plan, input, key, accs, posting_id, ids, now),
    ensures
        sum_debit(plan.bumps@) == sum_credit(plan.bumps@),
{
    let n = input.lines@.len() as int;
    assert forall|j: int| 0 <= j < n implies #[trigger] pair_balanced(plan.bumps@, j) by {
        assert(entry_for(plan.entries@[j], input, input.lines@[j], key, posting_id, ids[j]@, now));
    }
    lemma_pairs_balanced(plan.bumps@, n);
    assert(plan.bumps@.take(2 * n) =~= plan.bumps@);
}

// ───────────────────────── reversals ─────────────────────────

/// Can this record still be reversed as part of document `target`? It must
/// belong to the company and the document, not be a reversal itself, and not
/// have been reversed already.
pub open spec fn reversible(e: LedgerEntry, company: Seq<char>, target: Seq<char>) -> bool {
    &&& e.company_id@ == company
    &&& e.doc_id matches Some(d) && d@ == target
    &&& !e.is_reversal
    &&& e.reversed_by is None
}

/// The records of `es` that can be reversed for document `target`, in order.
pub open spec fn reversible_of(es: Seq<LedgerEntry>, company: Seq<char>, target: Seq<char>) -> Seq<LedgerEntry>
    decreases es.len(),
{
    if es.len() == 0 {
        Seq::empty()
    } else if reversible(es.last(), company, target) {
        reversible_of(es.drop_last(), company, target).push(es.last())
    } else {
        reversible_of(es.drop_last(), company, target)
    }
}

/// A copy of a journal record.
pub fn clone_entry(e: &LedgerEntry) -> (r: LedgerEntry)
    ensures
        r == *e,
{
    LedgerEntry {
        id: e.id.clone(),
        company_id: e.company_id.clone(),
        period_key: e.period_key.clone(),
        date: e.date.clone(),
        posting_id: e.posting_id.clone(),
        doc_kind: clone_opt(&e.doc_kind),
        doc_id: clone_opt(&e.doc_id),
        debit_code: e.debit_code.clone(),
        credit_code: e.credit_code.clone(),
        amount: e.amount,
        nomenclature_id: clone_opt(&e.nomenclature_id),
        description: clone_opt(&e.description),
        is_reversal: e.is_reversal,
        reversed_by: clone_opt(&e.reversed_by),
        created_by: e.created_by.clone(),
        created_at: e.created_at,
    }
}

/// The description of a mirror record: "Сторно: " and the original's
/// description, or else its document id, or else nothing.
pub open spec fn reversal_description(orig: LedgerEntry) -> Seq<char> {
    "Сторно: "@ + match orig.description {
        Some(d) => d@,
        None => match orig.doc_id {
            Some(d) => d@,
            None => Seq::empty(),
        },
    }
}

/// What a reversal writes: the mirror records, two turnover increments per
/// mirror (debit side, then credit side), and the originals marked as
/// reversed by their mirrors.
pub struct ReversalPlan {
    pub posting_id: String,
    pub mirrors: Vec<LedgerEntry>,
    pub bumps: Vec<TurnoverBump>,
    pub marked: Vec<LedgerEntry>,
}

/// The mirror record of `orig`: same amount and dimension, debit and credit
/// swapped, in the reversal's period, date, posting and document.
pub open spec fn mirror_for(m: LedgerEntry, orig: LedgerEntry, key: Seq<char>, date: Seq<char>, posting_id: Seq<char>,
    new_doc_kind: Option<Seq<char>>, new_doc_id: Option<Seq<char>>, created_by: Seq<char>, id: Seq<char>, now: i64) -> bool
{
    &&& m.id@ == id
    &&& m.company_id == orig.company_id
    &&& m.period_key@ == key
    &&& m.date@ == date
    &&& m.posting_id@ == posting_id
    &&& opt_string_view(m.doc_kind) == new_doc_kind
    &&& opt_string_view(m.doc_id) == new_doc_id
    &&& m.debit_code == orig.credit_code
    &&& m.credit_code == orig.debit_code
    &&& m.amount == orig.amount
    &&& m.nomenclature_id == orig.nomenclature_id
    &&& m.description matches Some(d) && d@ == reversal_description(orig)
    &&& m.is_reversal
    &&& m.reversed_by is None
    &&& m.created_by@ == created_by
    &&& m.created_at == now
}

/// The code of the first mirror side (debit, then credit, record by record)
/// that does not resolve to an active account of the company.
pub open spec fn unresolved_mirror_code(os: Seq<LedgerEntry>, accs: Seq<LedgerAccount>, company: Seq<char>) -> Option<Seq<char>>
    decreases os.len(),
{
    if os.len() == 0 {
        None
    } else if find_active(accs, company, os[0].credit_code@) is None {
        Some(os[0].credit_code@)
    } else if find_active(accs, company, os[0].debit_code@) is None {
        Some(os[0].debit_code@)
    } else {
        unresolved_mirror_code(os.drop_first(), accs, company)
    }
}

proof fn lemma_unresolved_mirror_skip(os: Seq<LedgerEntry>, accs: Seq<LedgerAccount>, company: Seq<char>, i: int)
    requires
        0 <= i <= os.len(),
        forall|j: int| 0 <= j < i ==> (#[trigger] find_active(accs, company, os[j].credit_code@)) is Some
            && find_active(accs, company, os[j].debit_code@) is Some,
    ensures
        unresolved_mirror_code(os, accs, company) == unresolved_mirror_code(os.skip(i), accs, company),
    decreases i,
{
    if i > 0 {
        assert(find_active(accs, company, os[0].credit_code@) is Some);
        assert forall|j: int| 0 <= j < i - 1 implies (#[trigger] find_active(accs, company, os.drop_first()[j].credit_code@)) is Some
            && find_active(accs, company, os.drop_first()[j].debit_code@) is Some by {
            assert(os.drop_first()[j] == os[j + 1]);
        }
        lemma_unresolved_mirror_skip(os.drop_first(), accs, company, i - 1);
        assert(os.drop_first().skip(i - 1) =~= os.skip(i));
    } else {
        assert(os.skip(0) =~= os);
    }
}

/// The plan of a reversal of `originals`.
pub open spec fn reversal_matches(plan: ReversalPlan, originals: Seq<LedgerEntry>, accs: Seq<LedgerAccount>,
    company: Seq<char>, key: Seq<char>, date: Seq<char>, posting_id: Seq<char>,
    new_doc_kind: Option<Seq<char>>, new_doc_id: Option<Seq<char>>, created_by: Seq<char>, ids: Seq<String>, now: i64) -> bool
{
    &&& plan.posting_id@ == posting_id
    &&& plan.mirrors@.len() == originals.len()
    &&& plan.marked@.len() == originals.len()
    &&& plan.bumps@.len() == 2 * originals.len()
    &&& forall|i: int| 0 <= i < originals.len() ==> {
        &&& mirror_for(#[trigger] plan.mirrors@[i], originals[i], key, date, posting_id, new_doc_kind, new_doc_id, created_by, ids[i]@, now)
        &&& is_debit_bump(plan.bumps@[2 * i], find_active(accs, company, originals[i].credit_code@).unwrap(), originals[i].amount)
        &&& is_credit_bump(plan.bumps@[2 * i + 1], find_active(accs, company, originals[i].debit_code@).unwrap(), originals[i].amount)
        &&& plan.marked@[i] == (LedgerEntry { reversed_by: Some(plan.mirrors@[i].id), ..originals[i] })
    }
}

/// The view of an optional string as an optional string slice's view.
pub open spec fn opt_string_view(o: Option<String>) -> Option<Seq<char>> {
    match o {
        Some(s) => Some(s@),
        None => None,
    }
}

/// A copy of an optional string slice as an optional string.
pub fn opt_owned(o: Option<&str>) -> (r: Option<String>)
    ensures
        opt_string_view(r) == crate::permission::opt_str_view(o),
{
    match o {
        Some(s) => Some(owned(s)),
        None => None,
    }
}

proof fn lemma_find_active_sound(accs: Seq<LedgerAccount>, company: Seq<char>, code: Seq<char>)
    ensures
        find_active(accs, company, code) matches Some(a) ==> active_match(a, company, code),
    decreases accs.len(),
{
    if accs.len() > 0 && !active_match(accs[0], company, code) {
        lemma_find_active_sound(accs.drop_first(), company, code);
    }
}

/// The net turnover (debit minus credit) that the increments add to the
/// account with code `code`.
pub open spec fn net_for(bs: Seq<TurnoverBump>, code: Seq<char>) -> int
    decreases bs.len(),
{
    if bs.len() == 0 {
        0
    } else {
        net_for(bs.drop_last(), code) + if bs.last().account_code@ == code {
            bs.last().add_debit - bs.last().add_credit
        } else {
            0
        }
    }
}

/// The net that increments `2j` and `2j+1` add to the account `code`.
pub open spec fn pair_net(bs: Seq<TurnoverBump>, j: int, code: Seq<char>) -> int {
    (if bs[2 * j].account_code@ == code { bs[2 * j].add_debit - bs[2 * j].add_credit } else { 0 })
        + (if bs[2 * j + 1].account_code@ == code { bs[2 * j + 1].add_debit - bs[2 * j + 1].add_credit } else { 0 })
}

proof fn lemma_pairs_cancel(ps: Seq<TurnoverBump>, rs: Seq<TurnoverBump>, k: int, code: Seq<char>)
    requires
        0 <= k,
        2 * k <= ps.len(),
        2 * k <= rs.len(),
        forall|j: int| 0 <= j < k ==> #[trigger] pair_net(ps, j, code) + pair_net(rs, j, code) == 0,
    ensures
        net_for(ps.take(2 * k), code) + net_for(rs.take(2 * k), code) == 0,
    decreases k,
{
    if k > 0 {
        lemma_pairs_cancel(ps, rs, k - 1, code);
        assert(pair_net(ps, k - 1, code) + pair_net(rs, k - 1, code) == 0);
        let pt = ps.take(2 * k);
        let pu = ps.take(2 * k - 1);
        let rt = rs.take(2 * k);
        let ru = rs.take(2 * k - 1);
        assert(pt.drop_last() =~= pu);
        assert(pu.drop_last() =~= ps.take(2 * (k - 1)));
        assert(rt.drop_last() =~= ru);
        assert(ru.drop_last() =~= rs.take(2 * (k - 1)));
        assert(pt.last() == ps[2 * k - 1] && pu.last() == ps[2 * k - 2]);
        assert(rt.last() == rs[2 * k - 1] && ru.last() == rs[2 * k - 2]);
        assert(net_for(pt, code) == net_for(pu, code) + (if pt.last().account_code@ == code { pt.last().add_debit - pt.last().add_credit } else { 0 }));
        assert(net_for(pu, code) == net_for(ps.take(2 * (k - 1)), code) + (if pu.last().account_code@ == code { pu.last().add_debit - pu.last().add_credit } else { 0 }));
        assert(net_for(rt, code) == net_for(ru, code) + (if rt.last().account_code@ == code { rt.last().add_debit - rt.last().add_credit } else { 0 }));
        assert(net_for(ru, code) == net_for(rs.take(2 * (k - 1)), code) + (if ru.last().account_code@ == code { ru.last().add_debit - ru.last().add_credit } else { 0 }));
    } else {
        assert(ps.take(0).len() == 0);
        assert(rs.take(0).len() == 0);
    }
}

/// Law: reversing a posting undoes it. For every account, the net turnover
/// the reversal adds is the negation of what the posting added, so posting
/// and reversal together leave every balance as it was.
pub proof fn lemma_reversal_undoes_posting(post: PostingPlan, input: PostInput, key: Seq<char>, accs: Seq<LedgerAccount>,
    posting_id: Seq<char>, ids: Seq<String>, now: i64,
    rev: ReversalPlan, rkey: Seq<char>, date: Seq<char>, rposting_id: Seq<char>,
    new_doc_kind: Option<Seq<char>>, new_doc_id: Option<Seq<char>>, created_by: Seq<char>, rids: Seq<String>, rnow: i64,
    code: Seq<char>)
    requires
        plan_matches(post, input, key, accs, posting_id, ids, now),
        unresolved_code(input.lines@, accs, input.company_id@) is None,
        reversal_matches(rev, post.entries@, accs, input.company_id@, rkey, date, rposting_id, new_doc_kind, new_doc_id,
            created_by, rids, rnow),
    ensures
        net_for(post.bumps@, code) + net_for(rev.bumps@, code) == 0,
{
    let n = input.lines@.len() as int;
    let company = input.company_id@;
    assert forall|j: int| 0 <= j < n implies #[trigger] pair_net(post.bumps@, j, code) + pair_net(rev.bumps@, j, code) == 0 by {
        let l = input.lines@[j];
        let e = post.entries@[j];
        assert(entry_for(e, input, l, key, posting_id, ids[j]@, now));
        lemma_unresolved_all_found(input.lines@, accs, company, j);
        let da = find_active(accs, company, l.debit_code@);
        let ca = find_active(accs, company, l.credit_code@);
        lemma_find_active_sound(accs, company, l.debit_code@);
        lemma_find_active_sound(accs, company, l.credit_code@);
        lemma_find_active_sound(accs, company, e.credit_code@);
        lemma_find_active_sound(accs, company, e.debit_code@);
        assert(e.debit_code@ == l.debit_code@ && e.credit_code@ == l.credit_code@);
        assert(mirror_for(rev.mirrors@[j], e, rkey, date, rposting_id, new_doc_kind, new_doc_id, created_by, rids[j]@, rnow));
    }
    lemma_pairs_cancel(post.bumps@, rev.bumps@, n, code);
    assert(post.bumps@.take(2 * n) =~= post.bumps@);
    assert(rev.bumps@.take(2 * n) =~= rev.bumps@);
}

proof fn lemma_unresolved_all_found(ls: Seq<PostingLine>, accs: Seq<LedgerAccount>, company: Seq<char>, j: int)
    requires
        unresolved_code(ls, accs, company) is None,
        0 <= j < ls.len(),
    ensures
        find_active(accs, company, ls[j].debit_code@) is Some,
        find_active(accs, company, ls[j].credit_code@) is Some,
    decreases j,
{
    if j > 0 {
        lemma_unresolved_all_found(ls.drop_first(), accs, company, j - 1);
        assert(ls.drop_first()[j - 1] == ls[j]);
    }
}

/// Law: a reversal is balanced, like every posting.
pub proof fn lemma_reversal_balanced(rev: ReversalPlan, originals: Seq<LedgerEntry>, accs: Seq<LedgerAccount>,
    company: Seq<char>, key: Seq<char>, date: Seq<char>, posting_id: Seq<char>,
    new_doc_kind: Option<Seq<char>>, new_doc_id: Option<Seq<char>>, created_by: Seq<char>, ids: Seq<String>, now: i64)
    requires
        reversal_matches(rev, originals, accs, company, key, date, posting_id, new_doc_kind, new_doc_id, created_by, ids, now),
    ensures
        sum_debit(rev.bumps@) == sum_credit(rev.bumps@),
{
    let n = originals.len() as int;
    assert forall|j: int| 0 <= j < n implies #[trigger] pair_balanced(rev.bumps@, j) by {
        assert(mirror_for(rev.mirrors@[j], originals[j], key, date, posting_id, new_doc_kind, new_doc_id, created_by, ids[j]@, now));
    }
    lemma_pairs_balanced(rev.bumps@, n);
    assert(rev.bumps@.take(2 * n) =~= rev.bumps@);
}

proof fn lemma_none_reversible(es: Seq<LedgerEntry>, company: Seq<char>, target: Seq<char>)
    requires
        forall|i: int| 0 <= i < es.len() ==> !reversible(#[trigger] es[i], company, target),
    ensures
        reversible_of(es, company, target).len() == 0,
    decreases es.len(),
{
    if es.len() > 0 {
        assert(!reversible(es[es.len() - 1], company, target));
        lemma_none_reversible(es.drop_last(), company, target);
    }
}

/// Law: a document is reversed at most once. After a reversal, neither the
/// marked originals nor the mirrors can be reversed again for any document.
pub proof fn lemma_no_double_reversal(rev: ReversalPlan, originals: Seq<LedgerEntry>, accs: Seq<LedgerAccount>,
    company: Seq<char>, key: Seq<char>, date: Seq<char>, posting_id: Seq<char>,
    new_doc_kind: Option<Seq<char>>, new_doc_id: Option<Seq<char>>, created_by: Seq<char>, ids: Seq<String>, now: i64,
    any_target: Seq<char>)
    requires
        reversal_matches(rev, originals, accs, company, key, date, posting_id, new_doc_kind, new_doc_id, created_by, ids, now),
    ensures
        reversible_of(rev.marked@ + rev.mirrors@, company, any_target).len() == 0,
{
    let all = rev.marked@ + rev.mirrors@;
    let n = originals.len() as int;
    assert forall|i: int| 0 <= i < all.len() implies !reversible(#[trigger] all[i], company, any_target) by {
        if i < n {
            assert(all[i] == rev.marked@[i]);
            assert(mirror_for(rev.mirrors@[i], originals[i], key, date, posting_id, new_doc_kind, new_doc_id, created_by, ids[i]@, now));
            assert(rev.marked@[i].reversed_by is Some);
        } else {
            assert(all[i] == rev.mirrors@[i - n]);
            assert(mirror_for(rev.mirrors@[i - n], originals[i - n], key, date, posting_id, new_doc_kind, new_doc_id, created_by, ids[i - n]@, now));
        }
    }
    lemma_none_reversible(all, company, any_target);
}

// ───────────────────────── balances and periods ─────────────────────────

/// A stored balance row of an account in a period: the opening balance (in
/// natural sign, see `natural_opening`) and the period's turnovers.
pub struct OpeningBalanceRow {
    pub account_id: String,
    pub account_code: String,
    pub account_type: String,
    pub opening_balance: i64,
    pub debit_turnover: i64,
    pub credit_turnover: i64,
}

/// A closing balance carried into the next period.
pub struct CarryForwardEntry {
    pub account_id: String,
    pub account_code: String,
    pub account_type: String,
    pub closing_balance: i64,
}

/// The closing balance of a row: `opening + (debit − credit)`, uniform for
/// all account types thanks to the natural sign of the opening balance.
pub open spec fn closing_of(r: OpeningBalanceRow) -> int {
    r.opening_balance + (r.debit_turnover - r.credit_turnover)
}

/// Does the closing balance of the row (and its intermediate difference) fit in i64?
pub open spec fn closing_fits(r: OpeningBalanceRow) -> bool {
    i64::MIN <= r.debit_turnover - r.credit_turnover <= i64::MAX && i64::MIN <= closing_of(r) <= i64::MAX
}

/// Law: carrying forward preserves the balance identity — the next period
/// opens with exactly `opening + debit − credit` of the closed one, so a
/// period with no turnovers carries its opening balance unchanged.
pub proof fn lemma_quiet_period_carries_opening(r: OpeningBalanceRow)
    requires
        r.debit_turnover == r.credit_turnover,
    ensures
        closing_of(r) == r.opening_balance,
{
}

/// Law: the closing balance carried forward moves with the turnovers — a
/// further debit of `a` raises it by `a`, a further credit of `a` lowers it by
/// `a` — and a period whose debits equal its credits closes at its opening.
/// Together these make the closing `opening + debit − credit` for every row.
pub proof fn lemma_closing_follows_turnovers(r: OpeningBalanceRow, a: i64)
    requires
        i64::MIN <= r.debit_turnover + a <= i64::MAX,
        i64::MIN <= r.credit_turnover + a <= i64::MAX,
    ensures
        closing_of(OpeningBalanceRow { debit_turnover: (r.debit_turnover + a) as i64, ..r }) == closing_of(r) + a,
        closing_of(OpeningBalanceRow { credit_turnover: (r.credit_turnover + a) as i64, ..r }) == closing_of(r) - a,
        closing_of(OpeningBalanceRow { credit_turnover: r.debit_turnover, ..r }) == r.opening_balance,
{
}

/// Should carrying forward go ahead into the next period? Not when that
/// period exists and is already closed (its opening balances were set by hand).
pub fn carry_into_allowed(next_period: &Option<AccountingPeriod>) -> (r: bool)
    ensures
        r == !(next_period matches Some(p) && p.closed),
{
    match next_period {
        Some(p) => !p.closed,
        None => true,
    }
}

/// Setting a period's state closes it with a carry-forward exactly when it
/// becomes closed and not opened.
pub fn state_change_carries_forward(opened: bool, closed: bool) -> (r: bool)
    ensures
        r == (closed && !opened),
{
    closed && !opened
}

/// The message when a period whose state is set does not exist.
pub fn missing_period_error(key: &str) -> (e: PlatformError)
    ensures
        e matches PlatformError::NotFound(m) && m@ == "Период "@ + key@ + " не существует (создаётся первой проводкой)"@,
{
    PlatformError::NotFound(concat3("Период ", key, " не существует (создаётся первой проводкой)"))
}

/// An opening balance to store for an account.
pub struct SaveOpeningBalanceInput {
    pub account_code: String,
    pub opening_balance: i64,
}

/// What storing an opening balance writes for one account.
pub struct OpeningUpsert {
    pub account_id: String,
    pub account_code: String,
    pub account_type: AccountType,
    pub opening_balance: i64,
}

/// The first entered code that does not resolve to an active account.
pub open spec fn unresolved_opening(rows: Seq<SaveOpeningBalanceInput>, accs: Seq<LedgerAccount>, company: Seq<char>) -> Option<Seq<char>>
    decreases rows.len(),
{
    if rows.len() == 0 {
        None
    } else if find_active(accs, company, rows[0].account_code@) is None {
        Some(rows[0].account_code@)
    } else {
        unresolved_opening(rows.drop_first(), accs, company)
    }
}

proof fn lemma_unresolved_opening_skip(rows: Seq<SaveOpeningBalanceInput>, accs: Seq<LedgerAccount>, company: Seq<char>, i: int)
    requires
        0 <= i <= rows.len(),
        forall|j: int| 0 <= j < i ==> (#[trigger] find_active(accs, company, rows[j].account_code@)) is Some,
    ensures
        unresolved_opening(rows, accs, company) == unresolved_opening(rows.skip(i), accs, company),
    decreases i,
{
    if i > 0 {
        assert(find_active(accs, company, rows[0].account_code@) is Some);
        assert forall|j: int| 0 <= j < i - 1 implies (#[trigger] find_active(accs, company, rows.drop_first()[j].account_code@)) is Some by {
            assert(rows.drop_first()[j] == rows[j + 1]);
        }
        lemma_unresolved_opening_skip(rows.drop_first(), accs, company, i - 1);
        assert(rows.drop_first().skip(i - 1) =~= rows.skip(i));
    } else {
        assert(rows.skip(0) =~= rows);
    }
}

/// Lexicographic order of texts by character code (the order in which the
/// store compares period keys; for UTF-8 it equals byte order).
pub open spec fn text_le(a: Seq<char>, b: Seq<char>) -> bool
    decreases a.len(),
{
    if a.len() == 0 {
        true
    } else if b.len() == 0 {
        false
    } else if a[0] != b[0] {
        (a[0] as u32) < (b[0] as u32)
    } else {
        text_le(a.drop_first(), b.drop_first())
    }
}

/// `a <= b` in text order.
pub fn text_le_exec(a: &str, b: &str) -> (r: bool)
    ensures
        r == text_le(a@, b@),
{
    let va = chars_of(a);
    let vb = chars_of(b);
    let mut i: usize = 0;
    assert(a@.skip(0) =~= a@);
    assert(b@.skip(0) =~= b@);
    while i < va.len()
        invariant
            va@ == a@,
            vb@ == b@,
            i <= va.len(),
            i <= vb.len(),
            va@.take(i as int) == vb@.take(i as int),
            text_le(a@, b@) == text_le(a@.skip(i as int), b@.skip(i as int)),
        decreases va.len() - i,
    {
        if i >= vb.len() {
            return false;
        }
        proof {
            assert(a@.skip(i as int)[0] == va@[i as int]);
            assert(b@.skip(i as int)[0] == vb@[i as int]);
            assert(a@.skip(i as int).drop_first() =~= a@.skip(i + 1));
            assert(b@.skip(i as int).drop_first() =~= b@.skip(i + 1));
        }
        if va[i] != vb[i] {
            return (va[i] as u32) < (vb[i] as u32);
        }
        i = i + 1;
        assert(va@.take(i as int) =~= va@.take(i - 1).push(va@[i - 1]));
        assert(vb@.take(i as int) =~= vb@.take(i - 1).push(vb@[i - 1]));
    }
    assert(a@.skip(i as int).len() == 0);
    true
}

/// A stored opening balance of an account in a period.
pub struct PeriodOpening {
    pub period_key: String,
    pub opening_balance: i64,
}

/// Is row `i` a candidate for the card's opening balance: a stored period not
/// after the bound (no bound: every period)?
pub open spec fn card_eligible(rows: Seq<PeriodOpening>, bound: Option<Seq<char>>, i: int) -> bool {
    0 <= i < rows.len() && match bound {
        Some(k) => text_le(rows[i].period_key@, k),
        None => true,
    }
}

/// The opening balance for an account card starting at a date: the opening
/// balance of the latest stored period not after the date's period (every
/// period already holds the cumulative balance after carry-forward), or 0.
pub open spec fn card_opening_ok(rows: Seq<PeriodOpening>, bound: Option<Seq<char>>, r: i64) -> bool {
    if exists|i: int| #[trigger] card_eligible(rows, bound, i) {
        exists|i: int| #[trigger] card_eligible(rows, bound, i) && r == rows[i].opening_balance
            && forall|j: int| #[trigger] card_eligible(rows, bound, j) ==> text_le(rows[j].period_key@, rows[i].period_key@)
    } else {
        r == 0
    }
}

/// Text order is total.
pub proof fn lemma_text_le_total(a: Seq<char>, b: Seq<char>)
    ensures
        text_le(a, b) || text_le(b, a),
    decreases a.len(),
{
    if a.len() > 0 && b.len() > 0 {
        if a[0] == b[0] {
            lemma_text_le_total(a.drop_first(), b.drop_first());
        } else {
            vstd::utf8::char_u32_cast(a[0], a[0] as u32);
            vstd::utf8::char_u32_cast(b[0], b[0] as u32);
            assert((a[0] as u32) != (b[0] as u32));
        }
    }
}

/// Text order is transitive.
pub proof fn lemma_text_le_trans(a: Seq<char>, b: Seq<char>, c: Seq<char>)
    requires
        text_le(a, b),
        text_le(b, c),
    ensures
        text_le(a, c),
    decreases a.len(),
{
    if a.len() > 0 && b.len() > 0 && c.len() > 0 && a[0] == b[0] && b[0] == c[0] {
        lemma_text_le_trans(a.drop_first(), b.drop_first(), c.drop_first());
    }
}

// ───────────────────────── chart of accounts ─────────────────────────

/// Does any account of the company (active or not) have this code?
pub open spec fn code_taken(accs: Seq<LedgerAccount>, company: Seq<char>, code: Seq<char>) -> bool {
    exists|i: int| 0 <= i < accs.len() && (#[trigger] accs[i]).company_id@ == company && accs[i].code@ == code
}

/// Updating an account that does not exist is refused as `NotFound`.
pub fn missing_account_error(code: &str) -> (e: PlatformError)
    ensures
        e matches PlatformError::NotFound(m) && m@ == "Счёт "@ + code@ + " не найден"@,
{
    PlatformError::NotFound(concat3("Счёт ", code, " не найден"))
}

/// The standard trading chart seeded for a company without accounts:
/// code, name and type of each account, in order.
pub open spec fn default_chart_spec() -> Seq<(Seq<char>, Seq<char>, AccountType)> {
    seq![
        ("41"@, "Товары"@, AccountType::Asset),
        ("44"@, "Расходы на продажу"@, AccountType::Expense),
        ("50"@, "Касса"@, AccountType::Asset),
        ("51"@, "Банковский счёт"@, AccountType::Asset),
        ("60"@, "Расчёты с поставщиками"@, AccountType::Liability),
        ("62"@, "Расчёты с покупателями"@, AccountType::Asset),
        ("90.1"@, "Выручка"@, AccountType::Revenue),
        ("90.2"@, "Себестоимость продаж"@, AccountType::Expense),
    ]
}

/// What a posting answers: `{"entries_count", "period", "posting_id"}` (keys
/// in order), the count being the number of records written.
pub fn posting_reply(plan: &PostingPlan) -> (r: JsonValue)
    ensures
        r matches JsonValue::Object(m) && m@.len() == 3
            && m@[0].0@ == "entries_count"@ && m@[0].1 == JsonValue::Number(JsonNumber::PosInt(plan.entries@.len() as u64))
            && m@[1].0@ == "period"@ && (m@[1].1 matches JsonValue::String(k) && k@ == plan.period_key@)
            && m@[2].0@ == "posting_id"@ && (m@[2].1 matches JsonValue::String(k) && k@ == plan.posting_id@),
{
    let mut m: Vec<(String, JsonValue)> = Vec::new();
    m.push((owned("entries_count"), JsonValue::Number(JsonNumber::PosInt(plan.entries.len() as u64))));
    m.push((owned("period"), JsonValue::String(plan.period_key.clone())));
    m.push((owned("posting_id"), JsonValue::String(plan.posting_id.clone())));
    JsonValue::Object(m)
}

/// What a reversal answers: `{"entries_reversed", "reversal_posting_id"}`
/// (keys in order), the count being the number of mirror records written.
pub fn reversal_reply(plan: &ReversalPlan) -> (r: JsonValue)
    ensures
        r matches JsonValue::Object(m) && m@.len() == 2
            && m@[0].0@ == "entries_reversed"@ && m@[0].1 == JsonValue::Number(JsonNumber::PosInt(plan.mirrors@.len() as u64))
            && m@[1].0@ == "reversal_posting_id"@ && (m@[1].1 matches JsonValue::String(k) && k@ == plan.posting_id@),
{
    let mut m: Vec<(String, JsonValue)> = Vec::new();
    m.push((owned("entries_reversed"), JsonValue::Number(JsonNumber::PosInt(plan.mirrors.len() as u64))));
    m.push((owned("reversal_posting_id"), JsonValue::String(plan.posting_id.clone())));
    JsonValue::Object(m)
}

/// The ledger: accounts, periods, postings and their reversals, opening balances.
pub struct LedgerService;

impl LedgerService {
    /// Checks a batch of lines before posting: there must be lines, every amount
    /// positive, and debit and credit different. Refusals are `Validation`.
    pub fn validate_posting_lines(lines: &Vec<PostingLine>) -> (r: Result<(), PlatformError>)
        ensures
            r is Ok <==> lines_error(lines@) is None,
            r matches Err(e) ==> e matches PlatformError::Validation(m) && lines_error(lines@) == Some(m@),
    {
        if lines.len() == 0 {
            return Err(PlatformError::Validation(owned("нет проводок")));
        }
        let mut i: usize = 0;
        while i < lines.len()
            invariant
                i <= lines.len(),
                lines.len() > 0,
                forall|j: int| 0 <= j < i ==> (#[trigger] line_error(lines@[j])) is None,
            decreases lines.len() - i,
        {
            let l = &lines[i];
            proof {
                lemma_first_line_error_skip(lines@, i as int);
                assert(lines@.skip(i as int)[0] == lines@[i as int]);
            }
            if l.amount <= 0 {
                let a = i64_to_dec(l.amount);
                return Err(PlatformError::Validation(concat3("сумма должна быть > 0 (получено ", a.as_str(), ")")));
            }
            if str_eq(l.debit_code.as_str(), l.credit_code.as_str()) {
                return Err(PlatformError::Validation(concat3("дебет и кредит совпадают (", l.debit_code.as_str(), ")")));
            }
            i = i + 1;
        }
        proof {
            lemma_first_line_error_skip(lines@, lines.len() as int);
            assert(lines@.skip(lines.len() as int).len() == 0);
        }
        Ok(())
    }

    /// Postings are accepted only into an opened period that is not closed.
    pub fn check_period_open(period: &AccountingPeriod, key: &str) -> (r: Result<(), PlatformError>)
        ensures
            r is Ok <==> (period.opened && !period.closed),
            r matches Err(e) ==> e matches PlatformError::Validation(m)
                && m@ == "период "@ + key@ + " закрыт для проводок"@,
    {
        if !period.opened || period.closed {
            Err(PlatformError::Validation(concat3("период ", key, " закрыт для проводок")))
        } else {
            Ok(())
        }
    }

    /// The period record for `key` (insert-if-absent): the existing one, or a new
    /// opened, not closed period with the given id and creation time.
    pub fn ensure_period_record(existing: Option<AccountingPeriod>, company_id: &str, key: &str,
        new_id: String, now: String) -> (r: Result<AccountingPeriod, PlatformError>)
        ensures
            r is Ok <==> parse_period_key_result(key@) is Ok,
            r matches Ok(p) ==> ensured_period_ok(existing, company_id@, key@, new_id@, now@, p),
            r matches Err(e) ==> e matches PlatformError::Validation(m)
                && parse_period_key_result(key@) == Err::<(int, int), Seq<char>>(m@),
    {
        let (year, month) = parse_period_key(key)?;
        match existing {
            Some(p) => Ok(p),
            None => Ok(AccountingPeriod {
                id: new_id,
                company_id: owned(company_id),
                period_key: owned(key),
                year,
                month,
                opened: true,
                closed: false,
                created_at: now,
            }),
        }
    }

    /// Resolves an account code to the company's active account with that code.
    /// Refused as `NotFound` when there is none.
    pub fn resolve_active(accounts: &Vec<LedgerAccount>, company_id: &str, code: &str) -> (r: Result<LedgerAccount, PlatformError>)
        ensures
            r matches Ok(a) ==> find_active(accounts@, company_id@, code@) == Some(a),
            r is Err ==> find_active(accounts@, company_id@, code@) is None,
            r matches Err(e) ==> e matches PlatformError::NotFound(m) && m@ == unresolved_message(code@),
    {
        let mut i: usize = 0;
        while i < accounts.len()
            invariant
                i <= accounts.len(),
                forall|j: int| 0 <= j < i ==> !active_match(#[trigger] accounts@[j], company_id@, code@),
            decreases accounts.len() - i,
        {
            let a = &accounts[i];
            if a.is_active && str_eq(a.company_id.as_str(), company_id) && str_eq(a.code.as_str(), code) {
                proof {
                    lemma_find_active_skip(accounts@, company_id@, code@, i as int);
                    assert(accounts@.skip(i as int)[0] == accounts@[i as int]);
                }
                return Ok(clone_account(a));
            }
            i = i + 1;
        }
        proof {
            lemma_find_active_skip(accounts@, company_id@, code@, accounts.len() as int);
            assert(accounts@.skip(accounts.len() as int).len() == 0);
        }
        Err(PlatformError::NotFound(concat3("Счёт ", debug_str(code).as_str(), " не найден или неактивен")))
    }

    #[verifier::spinoff_prover]
    /// A posting is refused, in this order: faulty lines (`Validation`), a period
    /// that is not open (`Validation`), an account code that does not resolve
    /// (`NotFound`). Otherwise it is planned in full.
    pub fn plan_posting(input: &PostInput, period: &AccountingPeriod, accounts: &Vec<LedgerAccount>,
        posting_id: String, entry_ids: &Vec<String>, now: i64) -> (r: Result<PostingPlan, PlatformError>)
        requires
            entry_ids.len() == input.lines.len(),
        ensures
            lines_error(input.lines@) matches Some(m) ==> r matches Err(PlatformError::Validation(e)) && e@ == m,
            lines_error(input.lines@) is None && !(period.opened && !period.closed) ==>
                (r matches Err(PlatformError::Validation(e))
                && e@ == "период "@ + period.period_key@ + " закрыт для проводок"@),
            (lines_error(input.lines@) is None && period.opened && !period.closed
                && unresolved_code(input.lines@, accounts@, input.company_id@) is Some) ==>
                (r matches Err(PlatformError::NotFound(e))
                && e@ == unresolved_message(unresolved_code(input.lines@, accounts@, input.company_id@).unwrap())),
            r is Ok <==> lines_error(input.lines@) is None && period.opened && !period.closed
                && unresolved_code(input.lines@, accounts@, input.company_id@) is None,
            r matches Ok(plan) ==> plan_matches(plan, *input, period.period_key@, accounts@, posting_id@, entry_ids@, now),
    {
        LedgerService::validate_posting_lines(&input.lines)?;
        LedgerService::check_period_open(period, period.period_key.as_str())?;
        let ghost ls = input.lines@;
        let ghost company = input.company_id@;
        let mut entries: Vec<LedgerEntry> = Vec::new();
        let mut bumps: Vec<TurnoverBump> = Vec::new();
        let mut i: usize = 0;
        while i < input.lines.len()
            invariant
                i <= input.lines.len(),
                ls == input.lines@,
                company == input.company_id@,
                lines_error(input.lines@) is None,
                period.opened && !period.closed,
                entry_ids.len() == input.lines.len(),
                entries@.len() == i,
                bumps@.len() == 2 * i,
                forall|j: int| 0 <= j < i ==> (#[trigger] find_active(accounts@, company, ls[j].debit_code@)) is Some
                    && find_active(accounts@, company, ls[j].credit_code@) is Some,
                forall|j: int| 0 <= j < i ==> {
                    &&& entry_for(#[trigger] entries@[j], *input, ls[j], period.period_key@, posting_id@, entry_ids@[j]@, now)
                    &&& is_debit_bump(bumps@[2 * j], find_active(accounts@, company, ls[j].debit_code@).unwrap(), ls[j].amount)
                    &&& is_credit_bump(bumps@[2 * j + 1], find_active(accounts@, company, ls[j].credit_code@).unwrap(), ls[j].amount)
                },
            decreases input.lines.len() - i,
        {
            let l = &input.lines[i];
            let ghost old_entries = entries@;
            let ghost old_bumps = bumps@;
            proof {
                lemma_unresolved_skip(ls, accounts@, company, i as int);
                assert(ls.skip(i as int)[0] == ls[i as int]);
            }
            let dt = LedgerService::resolve_active(accounts, input.company_id.as_str(), l.debit_code.as_str())?;
            let ct = LedgerService::resolve_active(accounts, input.company_id.as_str(), l.credit_code.as_str())?;
            let e = LedgerEntry {
                id: entry_ids[i].clone(),
                company_id: input.company_id.clone(),
                period_key: period.period_key.clone(),
                date: input.date.clone(),
                posting_id: posting_id.clone(),
                doc_kind: clone_opt(&input.doc_kind),
                doc_id: clone_opt(&input.doc_id),
                debit_code: l.debit_code.clone(),
                credit_code: l.credit_code.clone(),
                amount: l.amount,
                nomenclature_id: clone_opt(&l.nomenclature_id),
                description: clone_opt(&l.description),
                is_reversal: input.is_reversal,
                reversed_by: None,
                created_by: input.created_by.clone(),
                created_at: now,
            };
            entries.push(e);
            bumps.push(TurnoverBump {
                account_id: dt.id.clone(),
                account_code: dt.code.clone(),
                account_type: dt.account_type,
                add_debit: l.amount,
                add_credit: 0,
            });
            bumps.push(TurnoverBump {
                account_id: ct.id.clone(),
                account_code: ct.code.clone(),
                account_type: ct.account_type,
                add_debit: 0,
                add_credit: l.amount,
            });
            i = i + 1;
            proof {
                assert forall|j: int| 0 <= j < i implies {
                    &&& entry_for(#[trigger] entries@[j], *input, ls[j], period.period_key@, posting_id@, entry_ids@[j]@, now)
                    &&& is_debit_bump(bumps@[2 * j], find_active(accounts@, company, ls[j].debit_code@).unwrap(), ls[j].amount)
                    &&& is_credit_bump(bumps@[2 * j + 1], find_active(accounts@, company, ls[j].credit_code@).unwrap(), ls[j].amount)
                } by {
                    if j < i - 1 {
                        assert(entries@[j] == old_entries[j]);
                        assert(bumps@[2 * j] == old_bumps[2 * j]);
                        assert(bumps@[2 * j + 1] == old_bumps[2 * j + 1]);
                    } else {
                        assert(ls[j] == *l);
                        assert(bumps@[2 * j] == bumps@[old_bumps.len() as int]);
                    }
                }
            }
        }
        proof {
            lemma_unresolved_skip(ls, accounts@, company, ls.len() as int);
            assert(ls.skip(ls.len() as int).len() == 0);
        }
        let plan = PostingPlan { posting_id, period_key: period.period_key.clone(), entries, bumps };
        assert(plan.entries@ == entries@ && plan.bumps@ == bumps@);
        assert(plan_matches(plan, *input, period.period_key@, accounts@, plan.posting_id@, entry_ids@, now));
        Ok(plan)
    }

    /// The records of a document that a reversal applies to.
    pub fn select_reversible(entries: &Vec<LedgerEntry>, company_id: &str, target_doc_id: &str) -> (r: Vec<LedgerEntry>)
        ensures
            r@ == reversible_of(entries@, company_id@, target_doc_id@),
    {
        let mut out: Vec<LedgerEntry> = Vec::new();
        let mut i: usize = 0;
        while i < entries.len()
            invariant
                i <= entries.len(),
                out@ == reversible_of(entries@.take(i as int), company_id@, target_doc_id@),
            decreases entries.len() - i,
        {
            let e = &entries[i];
            let ok = match &e.doc_id {
                Some(d) => str_eq(d.as_str(), target_doc_id),
                None => false,
            };
            proof {
                assert(entries@.take(i + 1).drop_last() =~= entries@.take(i as int));
                assert(entries@.take(i + 1).last() == entries@[i as int]);
            }
            if ok && !e.is_reversal && e.reversed_by.is_none() && str_eq(e.company_id.as_str(), company_id) {
                out.push(clone_entry(e));
            }
            i = i + 1;
        }
        assert(entries@.take(entries.len() as int) =~= entries@);
        out
    }

    /// Reverses every still-reversible record of a document with a mirror record
    /// (debit and credit swapped), undoing its turnovers, and marks each original
    /// as reversed. Like any posting, a reversal goes only into the open period
    /// of its date (`Validation` otherwise). With nothing to reverse the request
    /// is refused as `NotFound`; a mirror side whose account does not resolve is
    /// refused as `NotFound`.
    pub fn plan_reversal(originals: &Vec<LedgerEntry>, accounts: &Vec<LedgerAccount>, company_id: &str, created_by: &str,
        target_doc_id: &str, new_doc_kind: Option<&str>, new_doc_id: Option<&str>, date: &str, key: &str,
        period: &AccountingPeriod, posting_id: String, mirror_ids: &Vec<String>, now: i64) -> (r: Result<ReversalPlan, PlatformError>)
        requires
            mirror_ids.len() == originals.len(),
        ensures
            !(period.opened && !period.closed) ==> (r matches Err(PlatformError::Validation(m))
                && m@ == "период "@ + key@ + " закрыт для проводок"@),
            (period.opened && !period.closed && originals.len() == 0) ==> (r matches Err(PlatformError::NotFound(m))
                && m@ == "проводки документа "@ + target_doc_id@ + " не найдены (или уже сторнированы)"@),
            (period.opened && !period.closed && originals.len() > 0
                && unresolved_mirror_code(originals@, accounts@, company_id@) is Some) ==>
                (r matches Err(PlatformError::NotFound(m))
                && m@ == unresolved_message(unresolved_mirror_code(originals@, accounts@, company_id@).unwrap())),
            r is Ok <==> period.opened && !period.closed && originals.len() > 0
                && unresolved_mirror_code(originals@, accounts@, company_id@) is None,
            r matches Ok(plan) ==> reversal_matches(plan, originals@, accounts@, company_id@, key@, date@, posting_id@,
                crate::permission::opt_str_view(new_doc_kind), crate::permission::opt_str_view(new_doc_id),
                created_by@, mirror_ids@, now),
    {
        LedgerService::check_period_open(period, key)?;
        if originals.len() == 0 {
            return Err(PlatformError::NotFound(concat3("проводки документа ", target_doc_id, " не найдены (или уже сторнированы)")));
        }
        let ghost os = originals@;
        let ghost company = company_id@;
        let mut mirrors: Vec<LedgerEntry> = Vec::new();
        let mut bumps: Vec<TurnoverBump> = Vec::new();
        let mut marked: Vec<LedgerEntry> = Vec::new();
        let mut i: usize = 0;
        while i < originals.len()
            invariant
                i <= originals.len(),
                originals.len() > 0,
                period.opened && !period.closed,
                os == originals@,
                company == company_id@,
                mirror_ids.len() == originals.len(),
                mirrors@.len() == i,
                marked@.len() == i,
                bumps@.len() == 2 * i,
                forall|j: int| 0 <= j < i ==> (#[trigger] find_active(accounts@, company, os[j].credit_code@)) is Some
                    && find_active(accounts@, company, os[j].debit_code@) is Some,
                forall|j: int| 0 <= j < i ==> {
                    &&& mirror_for(#[trigger] mirrors@[j], os[j], key@, date@, posting_id@, crate::permission::opt_str_view(new_doc_kind),
                        crate::permission::opt_str_view(new_doc_id), created_by@, mirror_ids@[j]@, now)
                    &&& is_debit_bump(bumps@[2 * j], find_active(accounts@, company, os[j].credit_code@).unwrap(), os[j].amount)
                    &&& is_credit_bump(bumps@[2 * j + 1], find_active(accounts@, company, os[j].debit_code@).unwrap(), os[j].amount)
                    &&& marked@[j] == (LedgerEntry { reversed_by: Some(mirrors@[j].id), ..os[j] })
                },
            decreases originals.len() - i,
        {
            let o = &originals[i];
            let ghost old_mirrors = mirrors@;
            let ghost old_bumps = bumps@;
            let ghost old_marked = marked@;
            proof {
                lemma_unresolved_mirror_skip(os, accounts@, company, i as int);
                assert(os.skip(i as int)[0] == os[i as int]);
            }
            let dt = LedgerService::resolve_active(accounts, company_id, o.credit_code.as_str())?;
            let ct = LedgerService::resolve_active(accounts, company_id, o.debit_code.as_str())?;
            let tail: String = match &o.description {
                Some(d) => d.clone(),
                None => match &o.doc_id {
                    Some(d) => d.clone(),
                    None => String::new(),
                },
            };
            let desc = concat2("Сторно: ", tail.as_str());
            let mid = mirror_ids[i].clone();
            let m = LedgerEntry {
                id: mid.clone(),
                company_id: o.company_id.clone(),
                period_key: owned(key),
                date: owned(date),
                posting_id: posting_id.clone(),
                doc_kind: opt_owned(new_doc_kind),
                doc_id: opt_owned(new_doc_id),
                debit_code: o.credit_code.clone(),
                credit_code: o.debit_code.clone(),
                amount: o.amount,
                nomenclature_id: clone_opt(&o.nomenclature_id),
                description: Some(desc),
                is_reversal: true,
                reversed_by: None,
                created_by: owned(created_by),
                created_at: now,
            };
            let mut mk = clone_entry(o);
            mk.reversed_by = Some(mid);
            mirrors.push(m);
            marked.push(mk);
            bumps.push(TurnoverBump {
                account_id: dt.id.clone(),
                account_code: dt.code.clone(),
                account_type: dt.account_type,
                add_debit: o.amount,
                add_credit: 0,
            });
            bumps.push(TurnoverBump {
                account_id: ct.id.clone(),
                account_code: ct.code.clone(),
                account_type: ct.account_type,
                add_debit: 0,
                add_credit: o.amount,
            });
            i = i + 1;
            proof {
                assert forall|j: int| 0 <= j < i implies {
                    &&& mirror_for(#[trigger] mirrors@[j], os[j], key@, date@, posting_id@, crate::permission::opt_str_view(new_doc_kind),
                        crate::permission::opt_str_view(new_doc_id), created_by@, mirror_ids@[j]@, now)
                    &&& is_debit_bump(bumps@[2 * j], find_active(accounts@, company, os[j].credit_code@).unwrap(), os[j].amount)
                    &&& is_credit_bump(bumps@[2 * j + 1], find_active(accounts@, company, os[j].debit_code@).unwrap(), os[j].amount)
                    &&& marked@[j] == (LedgerEntry { reversed_by: Some(mirrors@[j].id), ..os[j] })
                } by {
                    if j < i - 1 {
                        assert(mirrors@[j] == old_mirrors[j]);
                        assert(marked@[j] == old_marked[j]);
                        assert(bumps@[2 * j] == old_bumps[2 * j]);
                        assert(bumps@[2 * j + 1] == old_bumps[2 * j + 1]);
                    } else {
                        assert(os[j] == *o);
                    }
                }
            }
        }
        proof {
            lemma_unresolved_mirror_skip(os, accounts@, company, os.len() as int);
            assert(os.skip(os.len() as int).len() == 0);
        }
        Ok(ReversalPlan { posting_id, mirrors, bumps, marked })
    }

    /// The closing balances of a period, one per row, in row order.
    pub fn carry_forward(rows: &Vec<OpeningBalanceRow>) -> (r: Vec<CarryForwardEntry>)
        requires
            forall|i: int| 0 <= i < rows.len() ==> closing_fits(#[trigger] rows@[i]),
        ensures
            r@.len() == rows@.len(),
            forall|i: int| 0 <= i < rows.len() ==> {
                &&& (#[trigger] r@[i]).account_id == rows@[i].account_id
                &&& r@[i].account_code == rows@[i].account_code
                &&& r@[i].account_type == rows@[i].account_type
                &&& r@[i].closing_balance == closing_of(rows@[i])
            },
    {
        let mut out: Vec<CarryForwardEntry> = Vec::new();
        let mut i: usize = 0;
        while i < rows.len()
            invariant
                i <= rows.len(),
                forall|j: int| 0 <= j < rows.len() ==> closing_fits(#[trigger] rows@[j]),
                out@.len() == i,
                forall|j: int| 0 <= j < i ==> {
                    &&& (#[trigger] out@[j]).account_id == rows@[j].account_id
                    &&& out@[j].account_code == rows@[j].account_code
                    &&& out@[j].account_type == rows@[j].account_type
                    &&& out@[j].closing_balance == closing_of(rows@[j])
                },
            decreases rows.len() - i,
        {
            let row = &rows[i];
            assert(closing_fits(rows@[i as int]));
            let closing = row.opening_balance + (row.debit_turnover - row.credit_turnover);
            out.push(CarryForwardEntry {
                account_id: row.account_id.clone(),
                account_code: row.account_code.clone(),
                account_type: row.account_type.clone(),
                closing_balance: closing,
            });
            i = i + 1;
        }
        out
    }

    /// Plans storing entered opening balances of a period: refused as
    /// `Validation` when the period exists and is closed, as `NotFound` when a
    /// code does not resolve; otherwise one write per row, in natural sign.
    pub fn plan_opening_balances(period: &Option<AccountingPeriod>, key: &str, rows: &Vec<SaveOpeningBalanceInput>,
        accounts: &Vec<LedgerAccount>, company_id: &str) -> (r: Result<Vec<OpeningUpsert>, PlatformError>)
        requires
            forall|i: int| 0 <= i < rows.len() ==> (#[trigger] rows@[i]).opening_balance != i64::MIN,
        ensures
            (period matches Some(p) && p.closed) ==> (r matches Err(PlatformError::Validation(m))
                && m@ == "период "@ + key@ + " закрыт — входящие сальдо нельзя изменить"@),
            (!(period matches Some(p) && p.closed) && unresolved_opening(rows@, accounts@, company_id@) is Some) ==>
                (r matches Err(PlatformError::NotFound(m))
                && m@ == unresolved_message(unresolved_opening(rows@, accounts@, company_id@).unwrap())),
            r is Ok <==> !(period matches Some(p) && p.closed) && unresolved_opening(rows@, accounts@, company_id@) is None,
            r matches Ok(ups) ==> ups@.len() == rows@.len() && forall|i: int| 0 <= i < rows.len() ==> {
                let a = find_active(accounts@, company_id@, rows@[i].account_code@).unwrap();
                &&& (#[trigger] ups@[i]).account_id@ == a.id@
                &&& ups@[i].account_code@ == a.code@
                &&& ups@[i].account_type == a.account_type
                &&& ups@[i].opening_balance == natural_opening(a.account_type, rows@[i].opening_balance as int)
            },
    {
        if let Some(p) = period {
            if p.closed {
                return Err(PlatformError::Validation(concat3("период ", key, " закрыт — входящие сальдо нельзя изменить")));
            }
        }
        let mut out: Vec<OpeningUpsert> = Vec::new();
        let mut i: usize = 0;
        while i < rows.len()
            invariant
                i <= rows.len(),
                !(period matches Some(p) && p.closed),
                forall|j: int| 0 <= j < rows.len() ==> (#[trigger] rows@[j]).opening_balance != i64::MIN,
                forall|j: int| 0 <= j < i ==> (#[trigger] find_active(accounts@, company_id@, rows@[j].account_code@)) is Some,
                out@.len() == i,
                forall|j: int| 0 <= j < i ==> {
                    let a = find_active(accounts@, company_id@, rows@[j].account_code@).unwrap();
                    &&& (#[trigger] out@[j]).account_id@ == a.id@
                    &&& out@[j].account_code@ == a.code@
                    &&& out@[j].account_type == a.account_type
                    &&& out@[j].opening_balance == natural_opening(a.account_type, rows@[j].opening_balance as int)
                },
            decreases rows.len() - i,
        {
            proof {
                lemma_unresolved_opening_skip(rows@, accounts@, company_id@, i as int);
                assert(rows@.skip(i as int)[0] == rows@[i as int]);
            }
            let acc = LedgerService::resolve_active(accounts, company_id, rows[i].account_code.as_str())?;
            assert(rows@[i as int].opening_balance != i64::MIN);
            let natural = natural_opening_exec(acc.account_type, rows[i].opening_balance);
            out.push(OpeningUpsert {
                account_id: acc.id.clone(),
                account_code: acc.code.clone(),
                account_type: acc.account_type,
                opening_balance: natural,
            });
            i = i + 1;
        }
        proof {
            lemma_unresolved_opening_skip(rows@, accounts@, company_id@, rows.len() as int);
            assert(rows@.skip(rows.len() as int).len() == 0);
        }
        Ok(out)
    }

    /// The opening balance for an account card: the opening of the latest stored
    /// period not after `bound` (the period key of the card's start date, if any).
    pub fn card_opening_balance(rows: &Vec<PeriodOpening>, bound: Option<&str>) -> (r: i64)
        ensures
            card_opening_ok(rows@, crate::permission::opt_str_view(bound), r),
    {
        let ghost b = crate::permission::opt_str_view(bound);
        let mut best: Option<usize> = None;
        let mut i: usize = 0;
        while i < rows.len()
            invariant
                i <= rows.len(),
                b == crate::permission::opt_str_view(bound),
                best matches Some(k) ==> k < i && card_eligible(rows@, b, k as int)
                    && forall|j: int| 0 <= j < i && #[trigger] card_eligible(rows@, b, j) ==> text_le(rows@[j].period_key@, rows@[k as int].period_key@),
                best is None ==> forall|j: int| 0 <= j < i ==> !#[trigger] card_eligible(rows@, b, j),
            decreases rows.len() - i,
        {
            let ok = match bound {
                Some(k) => text_le_exec(rows[i].period_key.as_str(), k),
                None => true,
            };
            if ok {
                match best {
                    None => {
                        best = Some(i);
                    },
                    Some(k) => {
                        if text_le_exec(rows[k].period_key.as_str(), rows[i].period_key.as_str()) {
                            proof {
                                assert forall|j: int| 0 <= j < i + 1 && #[trigger] card_eligible(rows@, b, j)
                                    implies text_le(rows@[j].period_key@, rows@[i as int].period_key@) by {
                                    if j < i {
                                        lemma_text_le_trans(rows@[j].period_key@, rows@[k as int].period_key@, rows@[i as int].period_key@);
                                    } else {
                                        lemma_text_le_total(rows@[j].period_key@, rows@[j].period_key@);
                                    }
                                }
                            }
                            best = Some(i);
                        } else {
                            proof {
                                lemma_text_le_total(rows@[k as int].period_key@, rows@[i as int].period_key@);
                            }
                        }
                    },
                }
            }
            proof {
                if let Some(k) = best {
                    if k == i {
                        lemma_text_le_total(rows@[i as int].period_key@, rows@[i as int].period_key@);
                    }
                }
            }
            i = i + 1;
        }
        match best {
            Some(k) => rows[k].opening_balance,
            None => 0,
        }
    }

    /// Creating an account: code and name must not be blank (`Validation`), and
    /// the code must be new in the company (`Validation`). The new account is
    /// active, with the given id and timestamps.
    pub fn plan_create_account(accounts: &Vec<LedgerAccount>, company_id: &str, code: &str, name: &str,
        account_type: AccountType, parent_code: Option<&str>, new_id: String, now: i64) -> (r: Result<LedgerAccount, PlatformError>)
        ensures
            (is_blank(code@) || is_blank(name@)) ==> (r matches Err(PlatformError::Validation(m))
                && m@ == "Код и название обязательны"@),
            (!is_blank(code@) && !is_blank(name@) && code_taken(accounts@, company_id@, code@)) ==>
                (r matches Err(PlatformError::Validation(m)) && m@ == "Счёт с кодом "@ + code@ + " уже существует"@),
            r is Ok <==> !is_blank(code@) && !is_blank(name@) && !code_taken(accounts@, company_id@, code@),
            r matches Ok(a) ==> a.id@ == new_id@ && a.company_id@ == company_id@ && a.code@ == code@ && a.name@ == name@
                && a.account_type == account_type && opt_string_view(a.parent_code) == crate::permission::opt_str_view(parent_code)
                && a.is_active && a.created_at == now && a.updated_at == now,
    {
        if is_blank_exec(code) || is_blank_exec(name) {
            return Err(PlatformError::Validation(owned("Код и название обязательны")));
        }
        let mut i: usize = 0;
        while i < accounts.len()
            invariant
                i <= accounts.len(),
                !is_blank(code@) && !is_blank(name@),
                forall|j: int| 0 <= j < i ==> !((#[trigger] accounts@[j]).company_id@ == company_id@ && accounts@[j].code@ == code@),
            decreases accounts.len() - i,
        {
            if str_eq(accounts[i].company_id.as_str(), company_id) && str_eq(accounts[i].code.as_str(), code) {
                return Err(PlatformError::Validation(concat3("Счёт с кодом ", code, " уже существует")));
            }
            i = i + 1;
        }
        Ok(LedgerAccount {
            id: new_id,
            company_id: owned(company_id),
            code: owned(code),
            name: owned(name),
            account_type,
            parent_code: opt_owned(parent_code),
            is_active: true,
            created_at: now,
            updated_at: now,
        })
    }

    /// The standard trading chart: code, name and type of each account.
    pub fn default_chart() -> (r: Vec<(String, String, AccountType)>)
        ensures
            r@.len() == default_chart_spec().len(),
            forall|i: int| 0 <= i < r@.len() ==> (#[trigger] r@[i]).0@ == default_chart_spec()[i].0
                && r@[i].1@ == default_chart_spec()[i].1 && r@[i].2 == default_chart_spec()[i].2,
    {
        let mut r: Vec<(String, String, AccountType)> = Vec::new();
        r.push((owned("41"), owned("Товары"), AccountType::Asset));
        r.push((owned("44"), owned("Расходы на продажу"), AccountType::Expense));
        r.push((owned("50"), owned("Касса"), AccountType::Asset));
        r.push((owned("51"), owned("Банковский счёт"), AccountType::Asset));
        r.push((owned("60"), owned("Расчёты с поставщиками"), AccountType::Liability));
        r.push((owned("62"), owned("Расчёты с покупателями"), AccountType::Asset));
        r.push((owned("90.1"), owned("Выручка"), AccountType::Revenue));
        r.push((owned("90.2"), owned("Себестоимость продаж"), AccountType::Expense));
        r
    }

    /// The chart is seeded only for a company that has no accounts yet.
    pub fn chart_needs_seed(existing: &Vec<LedgerAccount>) -> (r: bool)
        ensures
            r == (existing@.len() == 0),
    {
        existing.len() == 0
    }
}

/// The posting operation of the transaction executor (`accounting.post`):
/// params `{date, doc_kind?, doc_id?, lines}`.
pub struct AccountingPostHandler;

impl AccountingPostHandler {
    /// The permission the operation needs.
    pub fn permission(&self) -> (r: &'static str)
        ensures
            r@ == "accounting.post"@,
    {
        "accounting.post"
    }

    /// The date, document kind and document id of a posting request; the
    /// date is required.
    pub fn request_head(params: &JsonValue) -> (r: Result<(String, Option<String>, Option<String>), PlatformError>)
        ensures
            json_member_str(*params, "date"@) is None ==> (r matches Err(PlatformError::Validation(m))
                && m@ == "требуется date (YYYY-MM-DD)"@),
            json_member_str(*params, "date"@) matches Some(d) ==> (r matches Ok((rd, kind, id)) && rd@ == d
                && opt_string_view(kind) == json_member_str(*params, "doc_kind"@)
                && opt_string_view(id) == json_member_str(*params, "doc_id"@)),
    {
        let date = match params.member_str("date") {
            Some(d) => owned(d),
            None => { return Err(PlatformError::Validation(owned("требуется date (YYYY-MM-DD)"))); },
        };
        Ok((date, opt_owned(params.member_str("doc_kind")), opt_owned(params.member_str("doc_id"))))
    }
}

/// The reversal operation of the transaction executor
/// (`accounting.reverse_by_doc`): params `{target_doc_id, date?, new_doc_kind?, new_doc_id?}`.
pub struct AccountingReverseHandler;

impl AccountingReverseHandler {
    /// The permission the operation needs.
    pub fn permission(&self) -> (r: &'static str)
        ensures
            r@ == "accounting.post"@,
    {
        "accounting.post"
    }

    /// The target document, the date (`today` when missing) and the new
    /// document's kind and id of a reversal request; the target is required.
    pub fn request_head(params: &JsonValue, today: String) -> (r: Result<(String, String, Option<String>, Option<String>), PlatformError>)
        ensures
            json_member_str(*params, "target_doc_id"@) is None ==> (r matches Err(PlatformError::Validation(m))
                && m@ == "требуется target_doc_id"@),
            json_member_str(*params, "target_doc_id"@) matches Some(t) ==> (r matches Ok((rt, rd, kind, id)) && rt@ == t
                && rd@ == (match json_member_str(*params, "date"@) { Some(d) => d, None => today@ })
                && opt_string_view(kind) == json_member_str(*params, "new_doc_kind"@)
                && opt_string_view(id) == json_member_str(*params, "new_doc_id"@)),
    {
        let target = match params.member_str("target_doc_id") {
            Some(t) => owned(t),
            None => { return Err(PlatformError::Validation(owned("требуется target_doc_id"))); },
        };
        let date = match params.member_str("date") {
            Some(d) => owned(d),
            None => today,
        };
        Ok((target, date, opt_owned(params.member_str("new_doc_kind")), opt_owned(params.member_str("new_doc_id"))))
    }
}

} // verus!
