//! Validation of object data against the fields of its entity type.

use vstd::prelude::*;
use crate::platform::{PlatformError, FieldKind};
use crate::json::{JsonValue, JsonNumber, json_get, member_get};
use crate::text::{
    concat2, concat3, owned, str_eq, chars_of, is_digit, all_digits, ascii_lower, eq_ignore_ascii_case,
    parse_int, parse_i64, u64_to_dec, nat_dec,
};
use crate::trusted::{uuid_syntax, uuid_parses, spec_naive_date_parses, naive_date_parses, spec_rfc3339_parses, rfc3339_parses};

verus! {

// ───────────────────────── decimal floating-point syntax ─────────────────────────

/// A mantissa: digits, optionally with one decimal point, and at least one digit.
pub open spec fn float_mantissa(m: Seq<char>) -> bool {
    ||| (m.len() > 0 && all_digits(m))
    ||| (m.len() > 1 && exists|i: int| 0 <= i < m.len() && m[i] == '.' && all_digits(#[trigger] m.take(i)) && all_digits(m.skip(i + 1)))
}

/// An exponent: `e` (any case), an optional sign, and at least one digit.
pub open spec fn float_exponent(e: Seq<char>) -> bool {
    e.len() >= 2 && ascii_lower(e[0]) == 'e' && {
        let r = e.skip(1);
        let d = if r[0] == '+' || r[0] == '-' { r.skip(1) } else { r };
        d.len() > 0 && all_digits(d)
    }
}

/// A number: a mantissa, optionally followed by an exponent.
pub open spec fn float_number(n: Seq<char>) -> bool {
    ||| float_mantissa(n)
    ||| exists|k: int| 0 < k < n.len() && ascii_lower(n[k]) == 'e' && float_mantissa(#[trigger] n.take(k)) && float_exponent(n.skip(k))
}

/// The texts `f64::from_str` accepts (its documented grammar, case-insensitive):
/// an optional sign, then `inf`, `infinity`, `nan` or a number.
pub open spec fn float_syntax(s: Seq<char>) -> bool {
    let b = if s.len() > 0 && (s[0] == '+' || s[0] == '-') { s.skip(1) } else { s };
    ||| eq_ignore_ascii_case(b, "inf"@)
    ||| eq_ignore_ascii_case(b, "infinity"@)
    ||| eq_ignore_ascii_case(b, "nan"@)
    ||| float_number(b)
}

/// ASCII lower case of a character.
pub fn ascii_lower_exec(c: char) -> (r: char)
    ensures
        r == ascii_lower(c),
{
    if 'A' <= c && c <= 'Z' { (((c as u32) + 32) as u8) as char } else { c }
}

/// Equality ignoring ASCII case of `v[a..b]` and `w`.
pub fn eq_ignore_case_range(v: &Vec<char>, a: usize, b: usize, w: &str) -> (r: bool)
    requires
        a <= b <= v.len(),
    ensures
        r == eq_ignore_ascii_case(v@.subrange(a as int, b as int), w@),
{
    let wv = chars_of(w);
    if b - a != wv.len() {
        return false;
    }
    let mut i: usize = 0;
    while i < wv.len()
        invariant
            a <= b <= v.len(),
            b - a == wv.len(),
            wv@ == w@,
            i <= wv.len(),
            forall|j: int| 0 <= j < i ==> ascii_lower(v@[a + j]) == ascii_lower(wv@[j]),
        decreases wv.len() - i,
    {
        if ascii_lower_exec(v[a + i]) != ascii_lower_exec(wv[i]) {
            assert(v@.subrange(a as int, b as int)[i as int] == v@[a + i]);
            return false;
        }
        i = i + 1;
    }
    assert forall|j: int| 0 <= j < wv.len() implies ascii_lower(v@.subrange(a as int, b as int)[j]) == ascii_lower(w@[j]) by {
        assert(v@.subrange(a as int, b as int)[j] == v@[a + j]);
    }
    true
}

/// Are `v[a..b]` all digits?
pub fn digits_range(v: &Vec<char>, a: usize, b: usize) -> (r: bool)
    requires
        a <= b <= v.len(),
    ensures
        r == all_digits(v@.subrange(a as int, b as int)),
{
    let mut i: usize = a;
    while i < b
        invariant
            a <= i <= b <= v.len(),
            forall|j: int| a <= j < i ==> is_digit(v@[j]),
        decreases b - i,
    {
        if !('0' <= v[i] && v[i] <= '9') {
            assert(v@.subrange(a as int, b as int)[i - a] == v@[i as int]);
            return false;
        }
        i = i + 1;
    }
    assert forall|j: int| 0 <= j < b - a implies is_digit(#[trigger] v@.subrange(a as int, b as int)[j]) by {
        assert(v@.subrange(a as int, b as int)[j] == v@[a + j]);
    }
    true
}

/// Is `v[a..b]` a mantissa?
pub fn mantissa_range(v: &Vec<char>, a: usize, b: usize) -> (r: bool)
    requires
        a <= b <= v.len(),
    ensures
        r == float_mantissa(v@.subrange(a as int, b as int)),
{
    let ghost m = v@.subrange(a as int, b as int);
    if b == a {
        return false;
    }
    if digits_range(v, a, b) {
        return true;
    }
    // find the first dot
    let mut i: usize = a;
    while i < b && v[i] != '.'
        invariant
            a <= i <= b <= v.len(),
            forall|j: int| a <= j < i ==> v@[j] != '.',
        decreases b - i,
    {
        i = i + 1;
    }
    if i == b || b - a < 2 {
        proof {
            if b - a >= 2 {
                assert forall|k: int| 0 <= k < m.len() && m[k] == '.' implies !(all_digits(#[trigger] m.take(k)) && all_digits(m.skip(k + 1))) by {
                    assert(m[k] == v@[a + k]);
                }
            }
        }
        return false;
    }
    let left = digits_range(v, a, i);
    let right = digits_range(v, i + 1, b);
    proof {
        let k0 = (i - a) as int;
        assert(m.take(k0) =~= v@.subrange(a as int, i as int));
        assert(m.skip(k0 + 1) =~= v@.subrange(i + 1, b as int));
        assert(m[k0] == '.');
        if !(left && right) {
            assert forall|k: int| 0 <= k < m.len() && m[k] == '.' implies !(all_digits(#[trigger] m.take(k)) && all_digits(m.skip(k + 1))) by {
                if k < k0 {
                    assert(m[k] == v@[a + k]);
                } else if k > k0 {
                    // the first dot lies inside the right part, which then is not all digits
                    assert(m.skip(k + 1).len() >= 0);
                    assert(m.take(k)[k0] == '.');
                    assert(!crate::text::is_digit(m.take(k)[k0]));
                }
            }
        }
    }
    left && right
}

/// Is `v[a..b]` an exponent?
pub fn exponent_range(v: &Vec<char>, a: usize, b: usize) -> (r: bool)
    requires
        a <= b <= v.len(),
    ensures
        r == float_exponent(v@.subrange(a as int, b as int)),
{
    let ghost e = v@.subrange(a as int, b as int);
    if b - a < 2 {
        return false;
    }
    if ascii_lower_exec(v[a]) != 'e' {
        return false;
    }
    let s: usize = if v[a + 1] == '+' || v[a + 1] == '-' { a + 2 } else { a + 1 };
    proof {
        let r = e.skip(1);
        assert(r[0] == v@[a + 1]);
        let d = if r[0] == '+' || r[0] == '-' { r.skip(1) } else { r };
        assert(d =~= v@.subrange(s as int, b as int));
    }
    s < b && digits_range(v, s, b)
}

/// Is `v[a..b]` a number (mantissa with optional exponent)?
pub fn number_range(v: &Vec<char>, a: usize, b: usize) -> (r: bool)
    requires
        a <= b <= v.len(),
    ensures
        r == float_number(v@.subrange(a as int, b as int)),
{
    let ghost n = v@.subrange(a as int, b as int);
    let mut k: usize = a;
    while k < b && ascii_lower_exec(v[k]) != 'e'
        invariant
            a <= k <= b <= v.len(),
            forall|j: int| a <= j < k ==> ascii_lower(v@[j]) != 'e',
        decreases b - k,
    {
        k = k + 1;
    }
    if k == b {
        proof {
            assert forall|j: int| 0 < j < n.len() implies ascii_lower(#[trigger] n[j]) != 'e' by {
                assert(n[j] == v@[a + j]);
            }
        }
        return mantissa_range(v, a, b);
    }
    // the first `e` splits mantissa and exponent; a mantissa holds no `e`
    let ghost k0 = (k - a) as int;
    let m = mantissa_range(v, a, b);
    let mk = mantissa_range(v, a, k);
    let ex = exponent_range(v, k, b);
    proof {
        assert(n.take(k0) =~= v@.subrange(a as int, k as int));
        assert(n.skip(k0) =~= v@.subrange(k as int, b as int));
        assert(n[k0] == v@[k as int]);
        lemma_mantissa_no_e(n);
        if k0 > 0 && mk && ex {
            assert(float_mantissa(n.take(k0)));
        }
        assert forall|j: int| 0 < j < n.len() && ascii_lower(n[j]) == 'e' && float_mantissa(#[trigger] n.take(j)) && float_exponent(n.skip(j))
            implies j == k0 by {
            if j < k0 {
                assert(n[j] == v@[a + j]);
            }
            if j > k0 {
                lemma_mantissa_no_e(n.take(j));
                assert(n.take(j)[k0] == n[k0]);
            }
        }
    }
    m || (k > a && mk && ex)
}

proof fn lemma_mantissa_no_e(m: Seq<char>)
    ensures
        float_mantissa(m) ==> forall|j: int| 0 <= j < m.len() ==> ascii_lower(#[trigger] m[j]) != 'e',
{
    if float_mantissa(m) {
        if m.len() > 0 && all_digits(m) {
            assert forall|j: int| 0 <= j < m.len() implies ascii_lower(#[trigger] m[j]) != 'e' by {
                assert(is_digit(m[j]));
            }
        } else {
            let i = choose|i: int| 0 <= i < m.len() && m[i] == '.' && all_digits(#[trigger] m.take(i)) && all_digits(m.skip(i + 1));
            assert forall|j: int| 0 <= j < m.len() implies ascii_lower(#[trigger] m[j]) != 'e' by {
                if j < i {
                    assert(m.take(i)[j] == m[j]);
                    assert(is_digit(m.take(i)[j]));
                } else if j > i {
                    assert(m.skip(i + 1)[j - i - 1] == m[j]);
                    assert(is_digit(m.skip(i + 1)[j - i - 1]));
                }
            }
        }
    }
}

/// Does the text parse as `f64` (`s.parse::<f64>().is_ok()`)?
pub fn float_parses(s: &str) -> (r: bool)
    ensures
        r == float_syntax(s@),
{
    let v = chars_of(s);
    let a: usize = if v.len() > 0 && (v[0] == '+' || v[0] == '-') { 1 } else { 0 };
    let b: usize = v.len();
    proof {
        let bb = if s@.len() > 0 && (s@[0] == '+' || s@[0] == '-') { s@.skip(1) } else { s@ };
        assert(bb =~= v@.subrange(a as int, b as int));
    }
    eq_ignore_case_range(&v, a, b, "inf") || eq_ignore_case_range(&v, a, b, "infinity")
        || eq_ignore_case_range(&v, a, b, "nan") || number_range(&v, a, b)
}


// ───────────────────────── fields and their values ─────────────────────────

/// A field of an entity type.
pub struct EntityField {
    pub id: String,
    pub entity_type_id: String,
    pub code: String,
    pub name: String,
    pub field_kind: FieldKind,
    pub is_required: bool,
    pub is_readonly: bool,
    pub default_value: Option<JsonValue>,
    pub enum_values: Option<Vec<String>>,
    pub reference_entity: Option<String>,
    pub order: i32,
    pub group_name: Option<String>,
    /// Milliseconds since the Unix epoch.
    pub created_at: i64,
    /// Milliseconds since the Unix epoch.
    pub updated_at: i64,
}

/// `values.join(sep)`.
pub open spec fn seq_join(values: Seq<Seq<char>>, sep: Seq<char>) -> Seq<char>
    decreases values.len(),
{
    if values.len() == 0 {
        Seq::empty()
    } else if values.len() == 1 {
        values[0]
    } else {
        seq_join(values.drop_last(), sep) + sep + values.last()
    }
}

/// Joins texts with a separator.
pub fn join_strings(values: &Vec<String>, sep: &str) -> (r: String)
    ensures
        r@ == seq_join(values@.map_values(|v: String| v@), sep@),
{
    let ghost vs = values@.map_values(|v: String| v@);
    let mut r = String::new();
    let mut i: usize = 0;
    while i < values.len()
        invariant
            i <= values.len(),
            vs == values@.map_values(|v: String| v@),
            r@ == seq_join(vs.take(i as int), sep@),
        decreases values.len() - i,
    {
        proof {
            assert(vs.take(i + 1).drop_last() =~= vs.take(i as int));
            assert(vs.take(i + 1).last() == values@[i as int]@);
        }
        if i > 0 {
            r.append(sep);
        } else {
            assert(vs.take(1) =~= seq![values@[0]@]);
        }
        r.append(values[i].as_str());
        i = i + 1;
    }
    assert(vs.take(values.len() as int) =~= vs);
    r
}

/// Does the list hold the text `s`?
pub open spec fn list_contains(l: Seq<String>, s: Seq<char>) -> bool {
    exists|i: int| 0 <= i < l.len() && (#[trigger] l[i])@ == s
}

/// Is `s` in the list?
pub fn list_contains_exec(l: &Vec<String>, s: &str) -> (r: bool)
    ensures
        r == list_contains(l@, s@),
{
    let mut i: usize = 0;
    while i < l.len()
        invariant
            i <= l.len(),
            forall|j: int| 0 <= j < i ==> (#[trigger] l@[j])@ != s@,
        decreases l.len() - i,
    {
        if str_eq(l[i].as_str(), s) {
            return true;
        }
        i = i + 1;
    }
    false
}

/// The index (1-based, as text) of the first table row that is not an object.
pub open spec fn first_non_object(rows: Seq<JsonValue>) -> Option<int>
    decreases rows.len(),
{
    if rows.len() == 0 {
        None
    } else if !(rows[0] is Object) {
        Some(0)
    } else {
        match first_non_object(rows.drop_first()) {
            Some(i) => Some(i + 1),
            None => None,
        }
    }
}

/// A Date value: ten bytes of UTF-8, whose fifth and eighth characters are
/// dashes, that chrono parses as a date.
pub open spec fn date_error(s: Seq<char>) -> Option<Seq<char>> {
    if vstd::utf8::encode_utf8(s).len() != 10 || s.len() < 8 || s[4] != '-' || s[7] != '-' {
        Some("ожидается формат даты YYYY-MM-DD"@)
    } else if !spec_naive_date_parses(s) {
        Some("невалидная дата"@)
    } else {
        None
    }
}

/// What is wrong with a (present, non-null) value of a field, if anything.
pub open spec fn field_value_error(v: JsonValue, kind: FieldKind, enum_values: Option<Seq<String>>) -> Option<Seq<char>> {
    match kind {
        FieldKind::String => if !(v is String) && !(v is Number) && !(v is Bool) {
            Some("ожидается строка или число"@) } else { None },
        FieldKind::Text => if !(v is String) { Some("ожидается строка"@) } else { None },
        FieldKind::Integer => match v {
            JsonValue::Number(JsonNumber::PosInt(_)) | JsonValue::Number(JsonNumber::NegInt(_)) => None,
            JsonValue::String(s) => if parse_int(s@, i64::MIN as int, i64::MAX as int) is Some { None }
                else { Some("ожидается целое число"@) },
            JsonValue::Number(JsonNumber::Float(_)) => None,
            _ => Some("ожидается целое число"@),
        },
        FieldKind::Money => match v {
            JsonValue::Number(_) => None,
            JsonValue::String(s) => if float_syntax(s@) { None } else { Some("невалидное денежное значение"@) },
            _ => Some("ожидается денежная сумма (число или строка)"@),
        },
        FieldKind::Date => match v {
            JsonValue::String(s) => date_error(s@),
            _ => Some("ожидается строка даты"@),
        },
        FieldKind::DateTime => match v {
            JsonValue::String(s) => if spec_rfc3339_parses(s@) { None } else { Some("ожидается формат ISO 8601 (DateTime)"@) },
            _ => Some("ожидается строка даты/времени"@),
        },
        FieldKind::Boolean => if !(v is Bool) { Some("ожидается boolean"@) } else { None },
        FieldKind::Enum => match v {
            JsonValue::String(s) => match enum_values {
                Some(allowed) => if list_contains(allowed, s@) { None } else {
                    Some("допустимые значения: "@ + seq_join(allowed.map_values(|a: String| a@), ", "@))
                },
                None => None,
            },
            _ => Some("ожидается строковое значение перечисления"@),
        },
        FieldKind::Reference => match v {
            JsonValue::String(s) => if uuid_syntax(s@) { None } else { Some("ожидается UUID ссылки"@) },
            JsonValue::Null => None,
            _ => Some("ожидается UUID или null"@),
        },
        FieldKind::Array => if !(v is Array) { Some("ожидается массив"@) } else { None },
        FieldKind::Table => match v {
            JsonValue::Array(rows) => match first_non_object(rows@) {
                Some(i) => Some("таблица: строка "@ + nat_dec((i + 1) as nat) + " — ожидается объект"@),
                None => None,
            },
            _ => Some("ожидается массив объектов (таблица)"@),
        },
        FieldKind::Json => None,
        FieldKind::File => if !(v is Null) && !(v is Object) { Some("ожидается объект файла или null"@) } else { None },
        FieldKind::User => match v {
            JsonValue::String(s) => if uuid_syntax(s@) { None } else { Some("ожидается UUID пользователя"@) },
            JsonValue::Null => None,
            _ => Some("ожидается UUID пользователя или null"@),
        },
        FieldKind::Company => match v {
            JsonValue::String(s) => if uuid_syntax(s@) { None } else { Some("ожидается UUID компании"@) },
            JsonValue::Null => None,
            _ => Some("ожидается UUID компании или null"@),
        },
        FieldKind::Formula | FieldKind::Computed => None,
    }
}

/// The enum values of a field, as a sequence.
pub open spec fn field_enum_values(f: EntityField) -> Option<Seq<String>> {
    match f.enum_values {
        Some(v) => Some(v@),
        None => None,
    }
}

proof fn lemma_first_non_object_skip(rows: Seq<JsonValue>, i: int)
    requires
        0 <= i <= rows.len(),
        forall|j: int| 0 <= j < i ==> (#[trigger] rows[j]) is Object,
    ensures
        first_non_object(rows) == match first_non_object(rows.skip(i)) { Some(k) => Some(k + i), None => None },
    decreases i,
{
    if i > 0 {
        assert forall|j: int| 0 <= j < i - 1 implies (#[trigger] rows.drop_first()[j]) is Object by {
            assert(rows.drop_first()[j] == rows[j + 1]);
        }
        lemma_first_non_object_skip(rows.drop_first(), i - 1);
        assert(rows.drop_first().skip(i - 1) =~= rows.skip(i));
    } else {
        assert(rows.skip(0) =~= rows);
    }
}

/// Checks one present, non-null value against its field's kind and rules.
pub fn validate_field_value(v: &JsonValue, field: &EntityField) -> (r: Result<(), String>)
    ensures
        match field_value_error(*v, field.field_kind, field_enum_values(*field)) {
            Some(m) => r matches Err(e) && e@ == m,
            None => r is Ok,
        },
{
    match field.field_kind {
        FieldKind::String => {
            if !v.is_string() && !v.is_number() && !v.is_boolean() {
                return Err(owned("ожидается строка или число"));
            }
        },
        FieldKind::Text => {
            if !v.is_string() {
                return Err(owned("ожидается строка"));
            }
        },
        FieldKind::Integer => {
            if !v.is_i64() && !v.is_u64() {
                if let Some(s) = v.as_str() {
                    if parse_i64(s).is_none() {
                        return Err(owned("ожидается целое число"));
                    }
                } else if v.is_f64() {
                } else {
                    return Err(owned("ожидается целое число"));
                }
            }
        },
        FieldKind::Money => {
            if !v.is_number() && !v.is_string() {
                return Err(owned("ожидается денежная сумма (число или строка)"));
            }
            if let Some(s) = v.as_str() {
                if !float_parses(s) {
                    return Err(owned("невалидное денежное значение"));
                }
            }
        },
        FieldKind::Date => {
            if let Some(s) = v.as_str() {
                let c = chars_of(s);
                if s.as_bytes().len() != 10 || c.len() < 8 || c[4] != '-' || c[7] != '-' {
                    return Err(owned("ожидается формат даты YYYY-MM-DD"));
                }
                if !naive_date_parses(s) {
                    return Err(owned("невалидная дата"));
                }
            } else {
                return Err(owned("ожидается строка даты"));
            }
        },
        FieldKind::DateTime => {
            if let Some(s) = v.as_str() {
                if !rfc3339_parses(s) {
                    return Err(owned("ожидается формат ISO 8601 (DateTime)"));
                }
            } else {
                return Err(owned("ожидается строка даты/времени"));
            }
        },
        FieldKind::Boolean => {
            if !v.is_boolean() {
                return Err(owned("ожидается boolean"));
            }
        },
        FieldKind::Enum => {
            if let Some(s) = v.as_str() {
                if let Some(allowed) = &field.enum_values {
                    if !list_contains_exec(allowed, s) {
                        let joined = join_strings(allowed, ", ");
                        return Err(concat2("допустимые значения: ", joined.as_str()));
                    }
                }
            } else {
                return Err(owned("ожидается строковое значение перечисления"));
            }
        },
        FieldKind::Reference => {
            if let Some(s) = v.as_str() {
                if !uuid_parses(s) {
                    return Err(owned("ожидается UUID ссылки"));
                }
            } else if !v.is_null() {
                return Err(owned("ожидается UUID или null"));
            }
        },
        FieldKind::Array => {
            if !v.is_array() {
                return Err(owned("ожидается массив"));
            }
        },
        FieldKind::Table => {
            match v {
                JsonValue::Array(rows) => {
                    let mut i: usize = 0;
                    while i < rows.len()
                        invariant
                            i <= rows.len(),
                            *v == JsonValue::Array(*rows),
                            field.field_kind == FieldKind::Table,
                            forall|j: int| 0 <= j < i ==> (#[trigger] rows@[j]) is Object,
                        decreases rows.len() - i,
                    {
                        if !rows[i].is_object() {
                            proof {
                                lemma_first_non_object_skip(rows@, i as int);
                                assert(rows@.skip(i as int)[0] == rows@[i as int]);
                                assert(first_non_object(rows@.skip(i as int)) == Some(0int));
                                assert(first_non_object(rows@) == Some(i as int));
                            }
                            let n = u64_to_dec((i as u64) + 1);
                            return Err(concat3("таблица: строка ", n.as_str(), " — ожидается объект"));
                        }
                        i = i + 1;
                    }
                    proof {
                        lemma_first_non_object_skip(rows@, rows.len() as int);
                        assert(rows@.skip(rows.len() as int).len() == 0);
                    }
                },
                _ => {
                    return Err(owned("ожидается массив объектов (таблица)"));
                },
            }
        },
        FieldKind::Json => {},
        FieldKind::File => {
            if !v.is_null() && !v.is_object() {
                return Err(owned("ожидается объект файла или null"));
            }
        },
        FieldKind::User => {
            if let Some(s) = v.as_str() {
                if !uuid_parses(s) {
                    return Err(owned("ожидается UUID пользователя"));
                }
            } else if !v.is_null() {
                return Err(owned("ожидается UUID пользователя или null"));
            }
        },
        FieldKind::Company => {
            if let Some(s) = v.as_str() {
                if !uuid_parses(s) {
                    return Err(owned("ожидается UUID компании"));
                }
            } else if !v.is_null() {
                return Err(owned("ожидается UUID компании или null"));
            }
        },
        FieldKind::Formula | FieldKind::Computed => {},
    }
    Ok(())
}

// ───────────────────────── whole objects ─────────────────────────

/// What is wrong with the value of one field in `data`, if anything: a
/// missing required value, a read-only field written by an update, or a
/// value that its kind refuses.
pub open spec fn field_error(data: JsonValue, f: EntityField, is_update: bool) -> Option<Seq<char>> {
    let value = json_get(data, f.code@);
    if f.is_required && (value is None || value matches Some(JsonValue::Null)) {
        Some("обязательное поле"@)
    } else if is_update && f.is_readonly && value is Some {
        Some("поле только для чтения"@)
    } else {
        match value {
            Some(v) => if v is Null { None } else { field_value_error(v, f.field_kind, field_enum_values(f)) },
            None => None,
        }
    }
}

/// The line that reports one field's error.
pub open spec fn field_error_line(name: Seq<char>, message: Seq<char>) -> Seq<char> {
    "Поле '"@ + name + "': "@ + message
}

/// The error lines of `data` against `fields`, in the order of the fields.
pub open spec fn data_errors(data: JsonValue, fields: Seq<EntityField>, is_update: bool) -> Seq<Seq<char>>
    decreases fields.len(),
{
    if fields.len() == 0 {
        Seq::empty()
    } else {
        let prev = data_errors(data, fields.drop_last(), is_update);
        match field_error(data, fields.last(), is_update) {
            Some(m) => prev.push(field_error_line(fields.last().name@, m)),
            None => prev,
        }
    }
}

/// Why `data` is refused against `fields`, if it is: it is not an object, or
/// some field has an error (all such errors, joined by `"; "`).
pub open spec fn data_failure(data: JsonValue, fields: Seq<EntityField>, is_update: bool) -> Option<Seq<char>> {
    if !(data is Object) {
        Some("Data должен быть объектом"@)
    } else if data_errors(data, fields, is_update).len() > 0 {
        Some(seq_join(data_errors(data, fields, is_update), "; "@))
    } else {
        None
    }
}

/// Checks the data of an object against the fields of its entity type. On an
/// update, read-only fields may not be written. All errors are reported
/// together, one per field, joined by `"; "`.
pub fn validate_data(data: &JsonValue, fields: &[EntityField], is_update: bool) -> (r: Result<(), PlatformError>)
    ensures
        match data_failure(*data, fields@, is_update) {
            Some(m) => r matches Err(PlatformError::Validation(e)) && e@ == m,
            None => r is Ok,
        },
{
    if !data.is_object() {
        return Err(PlatformError::Validation(owned("Data должен быть объектом")));
    }
    let mut errors: Vec<String> = Vec::new();
    let mut i: usize = 0;
    while i < fields.len()
        invariant
            i <= fields.len(),
            errors@.map_values(|e: String| e@) == data_errors(*data, fields@.take(i as int), is_update),
        decreases fields.len() - i,
    {
        let field = &fields[i];
        proof {
            assert(fields@.take(i + 1).drop_last() =~= fields@.take(i as int));
            assert(fields@.take(i + 1).last() == fields@[i as int]);
        }
        let ghost before = errors@;
        let value = data.get(field.code.as_str());
        let mut message: Option<String> = None;
        let absent_or_null = match value {
            None => true,
            Some(v) => v.is_null(),
        };
        if field.is_required && absent_or_null {
            message = Some(owned("обязательное поле"));
        } else if is_update && field.is_readonly && value.is_some() {
            message = Some(owned("поле только для чтения"));
        } else {
            match value {
                Some(v) => {
                    if !v.is_null() {
                        match validate_field_value(v, field) {
                            Err(m) => { message = Some(m); },
                            Ok(()) => {},
                        }
                    }
                },
                None => {},
            }
        }
        assert(match message {
            Some(m) => field_error(*data, *field, is_update) == Some(m@),
            None => field_error(*data, *field, is_update) is None,
        });
        match message {
            Some(m) => {
                let line = concat3("Поле '", field.name.as_str(), "': ");
                let mut line = line;
                line.append(m.as_str());
                errors.push(line);
                proof {
                    assert(errors@.map_values(|e: String| e@) =~= before.map_values(|e: String| e@).push(
                        field_error_line(field.name@, m@)));
                }
            },
            None => {},
        }
        i = i + 1;
    }
    assert(fields@.take(fields.len() as int) =~= fields@);
    if errors.len() == 0 {
        Ok(())
    } else {
        Err(PlatformError::Validation(join_strings(&errors, "; ")))
    }
}

/// The error of one field of an object's data.
pub struct FieldValidationError {
    pub field_code: String,
    pub field_name: String,
    pub message: String,
}

impl FieldValidationError {
    /// The line that reports the error: `Поле '{name}': {message}`.
    pub fn to_line(&self) -> (r: String)
        ensures
            r@ == field_error_line(self.field_name@, self.message@),
    {
        let mut l = concat3("Поле '", self.field_name.as_str(), "': ");
        l.append(self.message.as_str());
        l
    }
}

/// A Boolean field takes exactly the JSON booleans: `true` and `false` pass,
/// every other value is refused.
pub proof fn lemma_boolean_field_takes_booleans(v: JsonValue, enum_values: Option<Seq<String>>)
    ensures
        field_value_error(v, FieldKind::Boolean, enum_values) is None <==> (v is Bool),
        field_value_error(JsonValue::Bool(true), FieldKind::Boolean, enum_values) is None,
        field_value_error(JsonValue::Bool(false), FieldKind::Boolean, enum_values) is None,
{
}

/// What each kind of field takes, by the shape of the JSON value: text
/// fields take strings (a `String` field also numbers and booleans); integer
/// and money fields take every JSON number; date and time fields refuse
/// anything but strings; array and table fields take arrays only (a table's
/// rows all objects); file fields take objects and `null`; references to
/// objects, users and companies take canonical UUID strings and `null`;
/// `Json`, `Formula` and `Computed` take anything.
pub proof fn lemma_field_kinds_take(v: JsonValue, enum_values: Option<Seq<String>>)
    ensures
        field_value_error(v, FieldKind::Text, enum_values) is None <==> (v is String),
        field_value_error(v, FieldKind::String, enum_values) is None <==> (v is String || v is Number || v is Bool),
        (v is Number) ==> field_value_error(v, FieldKind::Integer, enum_values) is None,
        (v is Null || v is Bool || v is Array || v is Object) ==> field_value_error(v, FieldKind::Integer, enum_values) is Some,
        (v is Number) ==> field_value_error(v, FieldKind::Money, enum_values) is None,
        (v is Null || v is Bool || v is Array || v is Object) ==> field_value_error(v, FieldKind::Money, enum_values) is Some,
        !(v is String) ==> field_value_error(v, FieldKind::Date, enum_values) is Some,
        !(v is String) ==> field_value_error(v, FieldKind::DateTime, enum_values) is Some,
        !(v is String) ==> field_value_error(v, FieldKind::Enum, enum_values) is Some,
        (v matches JsonValue::String(t) && enum_values is None) ==> field_value_error(v, FieldKind::Enum, enum_values) is None,
        (v matches JsonValue::String(t) && enum_values matches Some(l)
            && exists|i: int| 0 <= i < l.len() && (#[trigger] l[i])@ == t@) ==> field_value_error(v, FieldKind::Enum, enum_values) is None,
        (v matches JsonValue::String(t) && enum_values matches Some(l)
            && forall|i: int| 0 <= i < l.len() ==> (#[trigger] l[i])@ != t@) ==> field_value_error(v, FieldKind::Enum, enum_values) is Some,
        field_value_error(v, FieldKind::Array, enum_values) is None <==> (v is Array),
        !(v is Array) ==> field_value_error(v, FieldKind::Table, enum_values) is Some,
        (v matches JsonValue::Array(rows) && forall|i: int| 0 <= i < rows@.len() ==> (#[trigger] rows@[i]) is Object)
            ==> field_value_error(v, FieldKind::Table, enum_values) is None,
        (v matches JsonValue::Array(rows) && exists|i: int| 0 <= i < rows@.len() && !((#[trigger] rows@[i]) is Object))
            ==> field_value_error(v, FieldKind::Table, enum_values) is Some,
        field_value_error(v, FieldKind::File, enum_values) is None <==> (v is Null || v is Object),
        field_value_error(v, FieldKind::Reference, enum_values) is None <==> (v is Null || (v matches JsonValue::String(t) && uuid_syntax(t@))),
        field_value_error(v, FieldKind::User, enum_values) is None <==> (v is Null || (v matches JsonValue::String(t) && uuid_syntax(t@))),
        field_value_error(v, FieldKind::Company, enum_values) is None <==> (v is Null || (v matches JsonValue::String(t) && uuid_syntax(t@))),
        field_value_error(v, FieldKind::Json, enum_values) is None,
        field_value_error(v, FieldKind::Formula, enum_values) is None,
        field_value_error(v, FieldKind::Computed, enum_values) is None,
{
    if let JsonValue::Array(rows) = v {
        lemma_first_non_object(rows@);
    }
}

proof fn lemma_first_non_object(rows: Seq<JsonValue>)
    ensures
        first_non_object(rows) is None <==> forall|i: int| 0 <= i < rows.len() ==> (#[trigger] rows[i]) is Object,
    decreases rows.len(),
{
    if rows.len() > 0 {
        lemma_first_non_object(rows.drop_first());
        assert forall|i: int| 0 < i < rows.len() implies rows[i] == #[trigger] rows.drop_first()[i - 1] by {}
        if forall|i: int| 0 <= i < rows.drop_first().len() ==> (#[trigger] rows.drop_first()[i]) is Object {
            assert forall|i: int| 1 <= i < rows.len() implies (#[trigger] rows[i]) is Object by {
                assert(rows.drop_first()[i - 1] is Object);
            }
        }
    }
}

proof fn lemma_data_errors_empty(data: JsonValue, fields: Seq<EntityField>, is_update: bool)
    ensures
        data_errors(data, fields, is_update).len() == 0
            <==> forall|i: int| 0 <= i < fields.len() ==> field_error(data, #[trigger] fields[i], is_update) is None,
    decreases fields.len(),
{
    if fields.len() > 0 {
        lemma_data_errors_empty(data, fields.drop_last(), is_update);
        assert forall|i: int| 0 <= i < fields.len() - 1 implies fields[i] == #[trigger] fields.drop_last()[i] by {}
        if data_errors(data, fields, is_update).len() == 0 {
            assert forall|i: int| 0 <= i < fields.len() implies field_error(data, #[trigger] fields[i], is_update) is None by {
                if i < fields.len() - 1 {
                    assert(fields.drop_last()[i] == fields[i]);
                }
            }
        }
        if forall|i: int| 0 <= i < fields.len() ==> field_error(data, #[trigger] fields[i], is_update) is None {
            assert(field_error(data, fields[fields.len() - 1], is_update) is None);
            assert forall|i: int| 0 <= i < fields.drop_last().len() implies field_error(data, #[trigger] fields.drop_last()[i], is_update) is None by {
                assert(fields.drop_last()[i] == fields[i]);
            }
        }
    }
}

/// Data passes a type's fields exactly when it is an object and no field
/// has an error; a field has an error when it is required and missing or
/// null, when an update writes it though it is read-only, or when its value
/// (present and not null) is refused by its kind; a missing optional field
/// is never an error.
pub proof fn lemma_data_passes_field_by_field(data: JsonValue, fields: Seq<EntityField>, is_update: bool, f: EntityField)
    ensures
        data_failure(data, fields, is_update) is None
            <==> (data is Object && forall|i: int| 0 <= i < fields.len() ==> field_error(data, #[trigger] fields[i], is_update) is None),
        (f.is_required && (json_get(data, f.code@) is None || json_get(data, f.code@) == Some(JsonValue::Null)))
            ==> field_error(data, f, is_update) == Some("обязательное поле"@),
        (!f.is_required && is_update && f.is_readonly && json_get(data, f.code@) is Some)
            ==> field_error(data, f, is_update) == Some("поле только для чтения"@),
        (!f.is_required && json_get(data, f.code@) is None) ==> field_error(data, f, is_update) is None,
        forall|v: JsonValue| json_get(data, f.code@) == Some(v) && !(v is Null) && !(is_update && f.is_readonly)
            ==> field_error(data, f, is_update) == #[trigger] field_value_error(v, f.field_kind, field_enum_values(f)),
{
    lemma_data_errors_empty(data, fields, is_update);
    if data_errors(data, fields, is_update).len() > 0 {
        assert(data_failure(data, fields, is_update) is Some);
    }
}

} // verus!
