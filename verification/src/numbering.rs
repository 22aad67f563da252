//! Document numbering: per company and entity type, a counter and a format
//! (prefix, zero-padded counter, suffix).

use vstd::prelude::*;
use crate::platform::PlatformError;
use crate::text::{
    concat2, concat3, owned, int_dec, pad_left, nat_dec, pad_left_exec, i64_to_dec,
    lemma_nat_dec_digits, lemma_zero_padding, digits_val, all_digits,
};

verus! {

/// The format of numbers of an entity type.
pub struct NumberFormat {
    pub prefix: String,
    pub padding: i32,
    pub suffix: String,
}

impl NumberFormat {
    /// The default format: no prefix or suffix, counter padded to six digits.
    pub fn default_format() -> (f: NumberFormat)
        ensures
            f.prefix@.len() == 0 && f.padding == 6 && f.suffix@.len() == 0,
    {
        NumberFormat { prefix: String::new(), padding: 6, suffix: String::new() }
    }
}

/// The numbering sequence of an entity type within a company.
pub struct NumberSequence {
    /// `"{company_id}:{entity_type_id}"`
    pub id: String,
    pub company_id: String,
    pub entity_type_id: String,
    pub entity_type_name: String,
    pub prefix: String,
    pub padding: i32,
    pub suffix: String,
    pub current_value: i64,
    /// Milliseconds since the Unix epoch.
    pub updated_at: i64,
}

/// The key of a sequence: company id, a colon, entity type id.
pub open spec fn spec_sequence_key(company_id: Seq<char>, entity_type_id: Seq<char>) -> Seq<char> {
    company_id + ":"@ + entity_type_id
}

/// The key of the sequence of an entity type within a company.
pub fn sequence_key(company_id: &str, entity_type_id: &str) -> (k: String)
    ensures
        k@ == spec_sequence_key(company_id@, entity_type_id@),
{
    concat3(company_id, ":", entity_type_id)
}

/// A number as printed: prefix, the counter zero-filled on the left to the
/// padding width (`format!("{}{:0>w$}{}", prefix, value, suffix)`), suffix.
pub open spec fn spec_format_number(prefix: Seq<char>, value: int, padding: nat, suffix: Seq<char>) -> Seq<char> {
    prefix + pad_left(int_dec(value), padding, '0') + suffix
}

/// Prints a number in the given format.
pub fn format_number(prefix: &str, value: i64, padding: i32, suffix: &str) -> (s: String)
    requires
        padding >= 0,
    ensures
        s@ == spec_format_number(prefix@, value as int, padding as nat, suffix@),
{
    let d = i64_to_dec(value);
    let p = pad_left_exec(d.as_str(), padding as usize, '0');
    concat3(prefix, p.as_str(), suffix)
}

/// A change of a sequence's format; absent parts stay as they are.
pub struct UpdateNumberFormatInput {
    pub prefix: Option<String>,
    pub padding: Option<i32>,
    pub suffix: Option<String>,
}

/// Law: numbers are unique. Two non-negative counter values printed in the
/// same format give the same number only when they are equal.
pub proof fn lemma_numbers_unique(prefix: Seq<char>, v1: nat, v2: nat, padding: nat, suffix: Seq<char>)
    requires
        spec_format_number(prefix, v1 as int, padding, suffix) == spec_format_number(prefix, v2 as int, padding, suffix),
    ensures
        v1 == v2,
{
    let a = pad_left(nat_dec(v1), padding, '0');
    let b = pad_left(nat_dec(v2), padding, '0');
    let x = spec_format_number(prefix, v1 as int, padding, suffix);
    assert(x =~= prefix + a + suffix);
    assert((prefix + a + suffix).subrange(prefix.len() as int, (prefix.len() + a.len()) as int) =~= a);
    assert((prefix + b + suffix).subrange(prefix.len() as int, (prefix.len() + b.len()) as int) =~= b);
    assert(a.len() == b.len());
    assert(a =~= b);
    lemma_nat_dec_digits(v1);
    lemma_nat_dec_digits(v2);
    if nat_dec(v1).len() < padding {
        lemma_zero_padding(nat_dec(v1), (padding - nat_dec(v1).len()) as nat);
    }
    if nat_dec(v2).len() < padding {
        lemma_zero_padding(nat_dec(v2), (padding - nat_dec(v2).len()) as nat);
    }
    assert(digits_val(a) == v1);
    assert(digits_val(b) == v2);
}

/// Law: each issued number is the next counter value, so numbers issued one
/// after another for the same sequence are increasing.
pub proof fn lemma_next_number_increases(s: NumberSequence, next: NumberSequence, now: i64)
    requires
        s.current_value < i64::MAX,
        next == (NumberSequence { current_value: (s.current_value + 1) as i64, updated_at: now, ..s }),
    ensures
        next.current_value > s.current_value,
{
}

/// Law: the numbers that successive issues from one sequence give differ
/// pairwise. The `k`-th issue after state `s` prints counter value
/// `s.current_value + k` in the sequence's format, and two different issues
/// never print the same text.
pub proof fn lemma_successive_numbers_differ(s: NumberSequence, k: nat, l: nat)
    requires
        s.current_value >= 0,
        s.padding >= 0,
        k != l,
    ensures
        spec_format_number(s.prefix@, s.current_value + k, s.padding as nat, s.suffix@)
            != spec_format_number(s.prefix@, s.current_value + l, s.padding as nat, s.suffix@),
{
    if spec_format_number(s.prefix@, s.current_value + k, s.padding as nat, s.suffix@)
        == spec_format_number(s.prefix@, s.current_value + l, s.padding as nat, s.suffix@) {
        lemma_numbers_unique(s.prefix@, (s.current_value + k) as nat, (s.current_value + l) as nat, s.padding as nat, s.suffix@);
    }
}

/// Law: a fresh sequence (no prefix, padding 6, no suffix) issues
/// `000001` first and `000002` second.
pub proof fn lemma_fresh_sequence_numbers()
    ensures
        spec_format_number(Seq::empty(), 1, 6, Seq::empty()) == "000001"@,
        spec_format_number(Seq::empty(), 2, 6, Seq::empty()) == "000002"@,
{
    reveal_strlit("000001");
    reveal_strlit("000002");
    assert(spec_format_number(Seq::empty(), 1, 6, Seq::empty()) =~= "000001"@);
    assert(spec_format_number(Seq::empty(), 2, 6, Seq::empty()) =~= "000002"@);
}

/// Document numbering: one counter per company and entity type.
pub struct NumberingService;

impl NumberingService {
    /// The service.
    pub fn new() -> (r: NumberingService)
        ensures
            r == NumberingService,
    {
        NumberingService
    }

    /// Issues the next number of a sequence: the counter goes up by one (a new
    /// sequence starts with the default format and counter 1), and the new value
    /// is printed in the sequence's format. Returns the updated sequence and the number.
    pub fn next_number(existing: Option<NumberSequence>, company_id: &str, entity_type_id: &str, entity_type_name: &str,
        now: i64) -> (r: (NumberSequence, String))
        requires
            existing matches Some(s) ==> s.current_value < i64::MAX && s.padding >= 0,
        ensures
            match existing {
                Some(s) => r.0 == NumberSequence { current_value: (s.current_value + 1) as i64, updated_at: now, ..s },
                None => r.0.id@ == spec_sequence_key(company_id@, entity_type_id@) && r.0.company_id@ == company_id@
                    && r.0.entity_type_id@ == entity_type_id@ && r.0.entity_type_name@ == entity_type_name@
                    && r.0.prefix@.len() == 0 && r.0.padding == 6 && r.0.suffix@.len() == 0
                    && r.0.current_value == 1 && r.0.updated_at == now,
            },
            r.1@ == spec_format_number(r.0.prefix@, r.0.current_value as int, r.0.padding as nat, r.0.suffix@),
    {
        let seq = match existing {
            Some(s) => NumberSequence { current_value: s.current_value + 1, updated_at: now, ..s },
            None => NumberSequence {
                id: sequence_key(company_id, entity_type_id),
                company_id: owned(company_id),
                entity_type_id: owned(entity_type_id),
                entity_type_name: owned(entity_type_name),
                prefix: String::new(),
                padding: 6,
                suffix: String::new(),
                current_value: 1,
                updated_at: now,
            },
        };
        let n = format_number(seq.prefix.as_str(), seq.current_value, seq.padding, seq.suffix.as_str());
        (seq, n)
    }

    /// Resets a sequence's counter (to 0 when no value is given). A sequence that
    /// does not exist yet is created holding only its key, counter and time.
    pub fn reset_sequence(existing: Option<NumberSequence>, company_id: &str, entity_type_id: &str,
        new_value: Option<i64>, now: i64) -> (r: NumberSequence)
        ensures
            r.current_value == match new_value { Some(v) => v, None => 0 },
            r.updated_at == now,
            match existing {
                Some(s) => r == NumberSequence { current_value: r.current_value, updated_at: now, ..s },
                None => r.id@ == spec_sequence_key(company_id@, entity_type_id@) && r.company_id@.len() == 0
                    && r.entity_type_id@.len() == 0 && r.entity_type_name@.len() == 0
                    && r.prefix@.len() == 0 && r.padding == 6 && r.suffix@.len() == 0,
            },
    {
        let v = match new_value { Some(v) => v, None => 0 };
        match existing {
            Some(s) => NumberSequence { current_value: v, updated_at: now, ..s },
            None => NumberSequence {
                id: sequence_key(company_id, entity_type_id),
                company_id: String::new(),
                entity_type_id: String::new(),
                entity_type_name: String::new(),
                prefix: String::new(),
                padding: 6,
                suffix: String::new(),
                current_value: v,
                updated_at: now,
            },
        }
    }

    /// Applies a format change. A sequence that does not exist yet is created
    /// with counter 0 and, for the parts not given, the defaults.
    pub fn update_format(existing: Option<NumberSequence>, company_id: &str, entity_type_id: &str, entity_type_name: &str,
        input: UpdateNumberFormatInput, now: i64) -> (r: NumberSequence)
        ensures
            r.updated_at == now,
            r.prefix@ == match input.prefix { Some(p) => p@, None => match existing { Some(s) => s.prefix@, None => Seq::empty() } },
            r.padding == match input.padding { Some(p) => p, None => match existing { Some(s) => s.padding, None => 6 } },
            r.suffix@ == match input.suffix { Some(p) => p@, None => match existing { Some(s) => s.suffix@, None => Seq::empty() } },
            match existing {
                Some(s) => r.id == s.id && r.company_id == s.company_id && r.entity_type_id == s.entity_type_id
                    && r.entity_type_name == s.entity_type_name && r.current_value == s.current_value,
                None => r.id@ == spec_sequence_key(company_id@, entity_type_id@) && r.company_id@ == company_id@
                    && r.entity_type_id@ == entity_type_id@ && r.entity_type_name@ == entity_type_name@
                    && r.current_value == 0,
            },
    {
        let base = match existing {
            Some(s) => s,
            None => NumberSequence {
                id: sequence_key(company_id, entity_type_id),
                company_id: owned(company_id),
                entity_type_id: owned(entity_type_id),
                entity_type_name: owned(entity_type_name),
                prefix: String::new(),
                padding: 6,
                suffix: String::new(),
                current_value: 0,
                updated_at: now,
            },
        };
        let prefix = match input.prefix { Some(p) => p, None => base.prefix };
        let padding = match input.padding { Some(p) => p, None => base.padding };
        let suffix = match input.suffix { Some(p) => p, None => base.suffix };
        NumberSequence { prefix, padding, suffix, updated_at: now, ..base }
    }
}

} // verus!
