//! Verified text helpers: building strings, rendering and parsing decimals,
//! searching and replacing.

use vstd::prelude::*;
use vstd::string::*;

verus! {

// ───────────────────────── building strings ─────────────────────────

/// Appends one character to a string (`String::push`).
#[verifier::external_body]
pub fn push_char(s: &mut String, c: char)
    ensures
        final(s)@ == old(s)@.push(c),
{
    s.push(c)
}

/// The characters of `s`, in order.
pub fn chars_of(s: &str) -> (v: Vec<char>)
    ensures
        v@ == s@,
{
    let mut v: Vec<char> = Vec::new();
    for c in it: s.chars()
        invariant
            v@ == it.seq().take(it.index() as int),
            it.seq() == s@,
    {
        v.push(c);
    }
    v
}

/// A string holding exactly the given characters.
pub fn string_of(v: &[char]) -> (s: String)
    ensures
        s@ == v@,
{
    let mut s = String::new();
    let mut i: usize = 0;
    while i < v.len()
        invariant
            i <= v.len(),
            s@ == v@.take(i as int),
        decreases v.len() - i,
    {
        push_char(&mut s, v[i]);
        i = i + 1;
        assert(v@.take(i as int) =~= v@.take((i - 1) as int).push(v@[i - 1]));
    }
    assert(v@.take(v.len() as int) =~= v@);
    s
}

/// A string holding the characters `v[a..b]`.
pub fn string_of_range(v: &Vec<char>, a: usize, b: usize) -> (s: String)
    requires
        a <= b <= v.len(),
    ensures
        s@ == v@.subrange(a as int, b as int),
{
    let mut s = String::new();
    let mut i: usize = a;
    while i < b
        invariant
            a <= i <= b <= v.len(),
            s@ == v@.subrange(a as int, i as int),
        decreases b - i,
    {
        push_char(&mut s, v[i]);
        i = i + 1;
        assert(v@.subrange(a as int, i as int) =~= v@.subrange(a as int, (i - 1) as int).push(v@[i - 1]));
    }
    s
}

/// A copy of a string slice as an owned string.
pub fn owned(s: &str) -> (r: String)
    ensures
        r@ == s@,
{
    s.to_owned()
}

/// Concatenation of two string slices.
pub fn concat2(a: &str, b: &str) -> (r: String)
    ensures
        r@ == a@ + b@,
{
    let mut r = a.to_owned();
    r.append(b);
    r
}

/// Concatenation of three string slices.
pub fn concat3(a: &str, b: &str, c: &str) -> (r: String)
    ensures
        r@ == a@ + b@ + c@,
{
    let mut r = a.to_owned();
    r.append(b);
    r.append(c);
    r
}

/// Equality of two string slices, character by character.
pub fn str_eq(a: &str, b: &str) -> (r: bool)
    ensures
        r == (a@ == b@),
{
    let va = chars_of(a);
    let vb = chars_of(b);
    if va.len() != vb.len() {
        return false;
    }
    let mut i: usize = 0;
    while i < va.len()
        invariant
            va@ == a@,
            vb@ == b@,
            va.len() == vb.len(),
            i <= va.len(),
            forall|j: int| 0 <= j < i ==> va@[j] == vb@[j],
        decreases va.len() - i,
    {
        if va[i] != vb[i] {
            return false;
        }
        i = i + 1;
    }
    assert(va@ =~= vb@);
    true
}

// ───────────────────────── decimal rendering ─────────────────────────

/// The ASCII digit for `d` (0..=9).
pub open spec fn digit_char(d: int) -> char {
    (48 + d) as char
}

/// The decimal numeral of a natural number, without leading zeros.
pub open spec fn nat_dec(n: nat) -> Seq<char>
    decreases n,
{
    if n < 10 {
        seq![digit_char(n as int)]
    } else {
        nat_dec(n / 10).push(digit_char((n % 10) as int))
    }
}

/// The decimal numeral of an integer, with a leading `-` when negative
/// (what `Display` prints for Rust integers).
pub open spec fn int_dec(n: int) -> Seq<char> {
    if n < 0 {
        seq!['-'] + nat_dec((-n) as nat)
    } else {
        nat_dec(n as nat)
    }
}

/// `s` padded on the left with `fill` up to `width` characters.
pub open spec fn pad_left(s: Seq<char>, width: nat, fill: char) -> Seq<char> {
    if s.len() >= width {
        s
    } else {
        Seq::new((width - s.len()) as nat, |i: int| fill) + s
    }
}

/// Sign-aware zero padding of an integer to `width` characters, as
/// `format!("{:0width$}", n)` does: the sign counts in the width and
/// the zeros go after it.
pub open spec fn zero_pad_int(n: int, width: nat) -> Seq<char> {
    if n < 0 {
        seq!['-'] + pad_left(nat_dec((-n) as nat), if width >= 1 { (width - 1) as nat } else { 0 }, '0')
    } else {
        pad_left(nat_dec(n as nat), width, '0')
    }
}

/// The decimal numeral of `n`.
pub fn u64_to_dec(n: u64) -> (s: String)
    ensures
        s@ == nat_dec(n as nat),
{
    let mut digits: Vec<char> = Vec::new();
    let mut m: u64 = n;
    // digits are collected least significant first
    while m >= 10
        invariant
            nat_dec(n as nat) == nat_dec(m as nat) + digits@.reverse(),
        decreases m,
    {
        let d = (m % 10) as u32;
        let c = char_of_digit(d);
        proof {
            assert(nat_dec(m as nat) == nat_dec((m / 10) as nat).push(c));
            assert(digits@.push(c).reverse() =~= seq![c] + digits@.reverse());
            assert(nat_dec((m / 10) as nat).push(c) + digits@.reverse()
                =~= nat_dec((m / 10) as nat) + (seq![c] + digits@.reverse()));
        }
        digits.push(c);
        m = m / 10;
    }
    let c = char_of_digit(m as u32);
    proof {
        assert(digits@.push(c).reverse() =~= seq![c] + digits@.reverse());
    }
    digits.push(c);
    let mut out: Vec<char> = Vec::new();
    let mut i: usize = digits.len();
    while i > 0
        invariant
            i <= digits.len(),
            out@ == digits@.skip(i as int).reverse(),
        decreases i,
    {
        i = i - 1;
        proof {
            assert(digits@.skip(i as int).reverse() =~= digits@.skip(i + 1).reverse().push(digits@[i as int]));
        }
        out.push(digits[i]);
    }
    assert(digits@.skip(0) =~= digits@);
    string_of(&out)
}

/// The ASCII digit character for `d`.
pub fn char_of_digit(d: u32) -> (c: char)
    requires
        d < 10,
    ensures
        c == digit_char(d as int),
{
    if d == 0 { '0' } else if d == 1 { '1' } else if d == 2 { '2' } else if d == 3 { '3' }
    else if d == 4 { '4' } else if d == 5 { '5' } else if d == 6 { '6' } else if d == 7 { '7' }
    else if d == 8 { '8' } else { '9' }
}

/// The decimal numeral of `n`, with `-` when negative.
pub fn i64_to_dec(n: i64) -> (s: String)
    ensures
        s@ == int_dec(n as int),
{
    if n < 0 {
        let m: u64 = (0i128 - (n as i128)) as u64;
        let d = u64_to_dec(m);
        let mut s = String::new();
        push_char(&mut s, '-');
        s.append(d.as_str());
        s
    } else {
        u64_to_dec(n as u64)
    }
}

/// `s` padded on the left with `fill` up to `width` characters.
pub fn pad_left_exec(s: &str, width: usize, fill: char) -> (r: String)
    ensures
        r@ == pad_left(s@, width as nat, fill),
{
    let v = chars_of(s);
    if v.len() >= width {
        return s.to_owned();
    }
    let mut r = String::new();
    let mut i: usize = 0;
    let k: usize = width - v.len();
    while i < k
        invariant
            i <= k,
            r@ == Seq::new(i as nat, |j: int| fill),
        decreases k - i,
    {
        push_char(&mut r, fill);
        i = i + 1;
        assert(r@ =~= Seq::new(i as nat, |j: int| fill));
    }
    r.append(s);
    r
}

/// Sign-aware zero padding of `n` to `width` characters (`format!("{:0w$}", n)`).
pub fn zero_pad_i64(n: i64, width: usize) -> (r: String)
    ensures
        r@ == zero_pad_int(n as int, width as nat),
{
    if n < 0 {
        let m: u64 = (0i128 - (n as i128)) as u64;
        let d = u64_to_dec(m);
        let w: usize = if width >= 1 { width - 1 } else { 0 };
        let p = pad_left_exec(d.as_str(), w, '0');
        let mut s = String::new();
        push_char(&mut s, '-');
        s.append(p.as_str());
        s
    } else {
        let d = u64_to_dec(n as u64);
        pad_left_exec(d.as_str(), width, '0')
    }
}


// ───────────────────────── decimal parsing ─────────────────────────

/// Is `c` an ASCII decimal digit?
pub open spec fn is_digit(c: char) -> bool {
    '0' <= c <= '9'
}

/// Are all characters ASCII decimal digits?
pub open spec fn all_digits(s: Seq<char>) -> bool {
    forall|i: int| 0 <= i < s.len() ==> is_digit(#[trigger] s[i])
}

/// The value of a string of decimal digits (leading zeros allowed).
pub open spec fn digits_val(s: Seq<char>) -> nat
    decreases s.len(),
{
    if s.len() == 0 {
        0
    } else {
        (digits_val(s.drop_last()) * 10 + (s.last() as int - 48)) as nat
    }
}

/// What Rust's `FromStr` gives for an integer type whose range is `lo..=hi`:
/// an optional `+` (or `-` when the type is signed) and then one or more ASCII
/// digits whose value lies in range; anything else is an error (`None`).
pub open spec fn parse_int(s: Seq<char>, lo: int, hi: int) -> Option<int> {
    if s.len() == 0 {
        None
    } else {
        let neg = s[0] == '-' && lo < 0;
        let d = if s[0] == '+' || neg { s.drop_first() } else { s };
        if d.len() == 0 || !all_digits(d) {
            None
        } else {
            let v: int = if neg { -(digits_val(d) as int) } else { digits_val(d) as int };
            if lo <= v && v <= hi { Some(v) } else { None }
        }
    }
}

proof fn lemma_digits_val_grows(s: Seq<char>, k: int)
    requires
        0 <= k <= s.len(),
        all_digits(s),
    ensures
        digits_val(s.take(k)) <= digits_val(s),
    decreases s.len() - k,
{
    if k < s.len() {
        lemma_digits_val_grows(s, k + 1);
        assert(s.take(k + 1).drop_last() =~= s.take(k));
        assert(is_digit(s[k]));
    } else {
        assert(s.take(k) =~= s);
    }
}

/// Parses a decimal integer the way Rust's `FromStr` does for a type whose
/// range is `lo..=hi`.
pub fn parse_int_in(s: &str, lo: i128, hi: i128) -> (r: Option<i128>)
    requires
        -0x1_0000_0000_0000_0000 <= lo <= 0 < hi <= 0x1_0000_0000_0000_0000,
    ensures
        r matches Some(v) ==> parse_int(s@, lo as int, hi as int) == Some(v as int),
        r is None ==> parse_int(s@, lo as int, hi as int) is None,
{
    let v = chars_of(s);
    if v.len() == 0 {
        return None;
    }
    let neg = v[0] == '-' && lo < 0;
    let start: usize = if v[0] == '+' || neg { 1 } else { 0 };
    let ghost d = if v@[0] == '+' || neg { v@.drop_first() } else { v@ };
    assert(d =~= v@.skip(start as int));
    if start >= v.len() {
        return None;
    }
    let bound: i128 = if neg { 0 - lo } else { hi };
    let mut acc: i128 = 0;
    let mut i: usize = start;
    while i < v.len()
        invariant
            start <= i <= v.len(),
            v@ == s@,
            v@.len() > 0,
            neg == (s@[0] == '-' && lo < 0),
            d == (if s@[0] == '+' || neg { s@.drop_first() } else { s@ }),
            bound == (if neg { -lo } else { hi as int }),
            -0x1_0000_0000_0000_0000 <= lo <= 0 < hi <= 0x1_0000_0000_0000_0000,
            d =~= v@.skip(start as int),
            0 < bound <= 0x1_0000_0000_0000_0000,
            0 <= acc <= bound,
            all_digits(v@.subrange(start as int, i as int)),
            acc == digits_val(v@.subrange(start as int, i as int)),
        decreases v.len() - i,
    {
        let c = v[i];
        if !('0' <= c && c <= '9') {
            proof {
                assert(d[i - start] == c);
                assert(!is_digit(d[i - start]));
                assert(!all_digits(d));
            }
            return None;
        }
        let dv: i128 = (c as u32 - 48) as i128;
        proof {
            assert(v@.subrange(start as int, i + 1).drop_last() =~= v@.subrange(start as int, i as int));
        }
        let next: i128 = acc * 10 + dv;
        if next > bound {
            proof {
                let t = v@.subrange(start as int, i + 1);
                assert(digits_val(t) == next);
                // once the prefix is beyond the bound, so is the whole numeral,
                // unless a later character is not a digit
                if all_digits(d) {
                    assert(t =~= d.take((i + 1 - start) as int));
                    lemma_digits_val_grows(d, (i + 1 - start) as int);
                    assert(digits_val(d) > bound);
                    if neg {
                        assert(-(digits_val(d) as int) < lo);
                    } else {
                        assert(digits_val(d) as int > hi);
                    }
                }
            }
            return None;
        }
        acc = next;
        i = i + 1;
    }
    assert(v@.subrange(start as int, v.len() as int) =~= d);
    if neg { Some(0 - acc) } else { Some(acc) }
}

/// `i64::from_str`.
pub fn parse_i64(s: &str) -> (r: Option<i64>)
    ensures
        r matches Some(v) ==> parse_int(s@, i64::MIN as int, i64::MAX as int) == Some(v as int),
        r is None ==> parse_int(s@, i64::MIN as int, i64::MAX as int) is None,
{
    match parse_int_in(s, i64::MIN as i128, i64::MAX as i128) {
        Some(v) => Some(v as i64),
        None => None,
    }
}

/// `i32::from_str`.
pub fn parse_i32(s: &str) -> (r: Option<i32>)
    ensures
        r matches Some(v) ==> parse_int(s@, i32::MIN as int, i32::MAX as int) == Some(v as int),
        r is None ==> parse_int(s@, i32::MIN as int, i32::MAX as int) is None,
{
    match parse_int_in(s, i32::MIN as i128, i32::MAX as i128) {
        Some(v) => Some(v as i32),
        None => None,
    }
}

/// `u32::from_str`.
pub fn parse_u32(s: &str) -> (r: Option<u32>)
    ensures
        r matches Some(v) ==> parse_int(s@, 0, u32::MAX as int) == Some(v as int),
        r is None ==> parse_int(s@, 0, u32::MAX as int) is None,
{
    match parse_int_in(s, 0, u32::MAX as i128) {
        Some(v) => Some(v as u32),
        None => None,
    }
}


// ───────────────────────── searching ─────────────────────────

/// Does `pat` occur in `s` at position `i`?
pub open spec fn occurs_at(s: Seq<char>, pat: Seq<char>, i: int) -> bool {
    0 <= i && i + pat.len() <= s.len() && s.subrange(i, i + pat.len()) == pat
}

/// Does `pat` occur anywhere in `s` (`str::contains`)?
pub open spec fn contains(s: Seq<char>, pat: Seq<char>) -> bool {
    exists|i: int| occurs_at(s, pat, i)
}

/// Does `s` begin with `pat`?
pub open spec fn starts_with(s: Seq<char>, pat: Seq<char>) -> bool {
    occurs_at(s, pat, 0)
}

/// Does `s` end with `pat`?
pub open spec fn ends_with(s: Seq<char>, pat: Seq<char>) -> bool {
    occurs_at(s, pat, s.len() - pat.len())
}

/// Does `pat` occur in `v` at position `i` (executable check)?
pub fn occurs_at_exec(v: &Vec<char>, pat: &Vec<char>, i: usize) -> (r: bool)
    ensures
        r == occurs_at(v@, pat@, i as int),
{
    if i > v.len() || pat.len() > v.len() - i {
        return false;
    }
    let mut k: usize = 0;
    while k < pat.len()
        invariant
            i + pat.len() <= v.len(),
            k <= pat.len(),
            forall|j: int| 0 <= j < k ==> v@[i + j] == pat@[j],
        decreases pat.len() - k,
    {
        if v[i + k] != pat[k] {
            assert(v@.subrange(i as int, i + pat.len())[k as int] != pat@[k as int]);
            return false;
        }
        k = k + 1;
    }
    assert(v@.subrange(i as int, i + pat.len()) =~= pat@);
    true
}

/// `str::contains` for a string pattern.
pub fn contains_exec(s: &str, pat: &str) -> (r: bool)
    ensures
        r == contains(s@, pat@),
{
    let v = chars_of(s);
    let p = chars_of(pat);
    if p.len() > v.len() {
        assert forall|i: int| !occurs_at(s@, pat@, i) by {}
        return false;
    }
    let last: usize = v.len() - p.len();
    let mut i: usize = 0;
    while i < last
        invariant
            v@ == s@,
            p@ == pat@,
            p.len() <= v.len(),
            last == v.len() - p.len(),
            i <= last,
            forall|j: int| 0 <= j < i ==> !occurs_at(s@, pat@, j),
        decreases last - i,
    {
        if occurs_at_exec(&v, &p, i) {
            return true;
        }
        i = i + 1;
    }
    if occurs_at_exec(&v, &p, last) {
        return true;
    }
    assert forall|j: int| !occurs_at(s@, pat@, j) by {
        if 0 <= j < i {
        }
    }
    false
}

/// `str::starts_with` for a string pattern.
pub fn starts_with_exec(s: &str, pat: &str) -> (r: bool)
    ensures
        r == starts_with(s@, pat@),
{
    let v = chars_of(s);
    let p = chars_of(pat);
    occurs_at_exec(&v, &p, 0)
}

/// `str::ends_with` for a string pattern.
pub fn ends_with_exec(s: &str, pat: &str) -> (r: bool)
    ensures
        r == ends_with(s@, pat@),
{
    let v = chars_of(s);
    let p = chars_of(pat);
    if p.len() > v.len() {
        return false;
    }
    occurs_at_exec(&v, &p, v.len() - p.len())
}

// ───────────────────────── replacing ─────────────────────────

/// `str::replace` for a non-empty pattern: every occurrence of `from`,
/// found left to right without overlap, is replaced by `to`.
pub open spec fn replace_all(s: Seq<char>, from: Seq<char>, to: Seq<char>) -> Seq<char>
    recommends
        from.len() > 0,
    decreases s.len(),
{
    if from.len() == 0 || s.len() < from.len() {
        s
    } else if s.subrange(0, from.len() as int) == from {
        to + replace_all(s.skip(from.len() as int), from, to)
    } else {
        seq![s[0]] + replace_all(s.drop_first(), from, to)
    }
}

/// Replacing a pattern that does not occur leaves the text as it is.
pub proof fn lemma_replace_absent(s: Seq<char>, from: Seq<char>, to: Seq<char>)
    requires
        !contains(s, from),
    ensures
        replace_all(s, from, to) == s,
    decreases s.len(),
{
    if from.len() > 0 && s.len() >= from.len() {
        assert(!occurs_at(s, from, 0));
        let rest = s.drop_first();
        assert(!contains(rest, from)) by {
            if contains(rest, from) {
                let i = choose|i: int| occurs_at(rest, from, i);
                assert(s.subrange(i + 1, i + 1 + from.len()) =~= rest.subrange(i, i + from.len()));
                assert(occurs_at(s, from, i + 1));
            }
        }
        lemma_replace_absent(rest, from, to);
        assert(seq![s[0]] + rest =~= s);
    }
}

/// `str::replace` for a non-empty pattern.
pub fn replace_exec(s: &str, from: &str, to: &str) -> (r: String)
    requires
        from@.len() > 0,
    ensures
        r@ == replace_all(s@, from@, to@),
{
    let v = chars_of(s);
    let f = chars_of(from);
    let mut out = String::new();
    let mut i: usize = 0;
    assert(s@.skip(0) =~= s@);
    while i < v.len()
        invariant
            v@ == s@,
            f@ == from@,
            f.len() > 0,
            i <= v.len(),
            replace_all(s@, from@, to@) == out@ + replace_all(s@.skip(i as int), from@, to@),
        decreases v.len() - i,
    {
        let ghost rest = s@.skip(i as int);
        if occurs_at_exec(&v, &f, i) {
            proof {
                assert(rest.subrange(0, f.len() as int) =~= v@.subrange(i as int, i + f.len()));
                assert(rest.skip(f.len() as int) =~= s@.skip(i + f.len()));
                assert(rest.len() >= f.len());
            }
            out.append(to);
            proof {
                assert(out@ + replace_all(s@.skip(i + f.len()), from@, to@)
                    =~= (out@.subrange(0, out@.len() - to@.len()) + (to@ + replace_all(rest.skip(f.len() as int), from@, to@))));
            }
            i = i + f.len();
        } else {
            proof {
                if rest.len() >= f.len() {
                    assert(rest.subrange(0, f.len() as int) =~= v@.subrange(i as int, i + f.len()));
                }
                assert(rest.drop_first() =~= s@.skip(i + 1));
                assert(rest[0] == v@[i as int]);
                if rest.len() < f.len() {
                    // the tail is too short to hold the pattern: it is kept as is
                    lemma_replace_short(rest, from@, to@);
                    lemma_replace_short(rest.drop_first(), from@, to@);
                    assert(rest =~= seq![rest[0]] + rest.drop_first());
                }
            }
            let c = v[i];
            push_char(&mut out, c);
            proof {
                assert(out@ + replace_all(s@.skip(i + 1), from@, to@)
                    =~= out@.drop_last() + (seq![c] + replace_all(rest.drop_first(), from@, to@)));
            }
            i = i + 1;
        }
    }
    proof {
        assert(s@.skip(i as int).len() == 0);
        assert(out@ + replace_all(s@.skip(i as int), from@, to@) =~= out@);
    }
    out
}

proof fn lemma_replace_short(s: Seq<char>, from: Seq<char>, to: Seq<char>)
    requires
        s.len() < from.len(),
    ensures
        replace_all(s, from, to) == s,
{
}

/// Splits at the first occurrence of `c` (`str::split_once` with a char).
pub open spec fn split_once(s: Seq<char>, c: char) -> Option<(Seq<char>, Seq<char>)> {
    if exists|i: int| 0 <= i < s.len() && s[i] == c {
        let i = choose|i: int| 0 <= i < s.len() && s[i] == c && forall|j: int| 0 <= j < i ==> s[j] != c;
        Some((s.take(i), s.skip(i + 1)))
    } else {
        None
    }
}

/// The position of the first occurrence of `c` in `v`, if any.
pub fn find_char(v: &Vec<char>, c: char) -> (r: Option<usize>)
    ensures
        r matches Some(i) ==> i < v.len() && v@[i as int] == c && forall|j: int| 0 <= j < i ==> v@[j] != c,
        r is None ==> forall|j: int| 0 <= j < v.len() ==> v@[j] != c,
{
    let mut i: usize = 0;
    while i < v.len()
        invariant
            i <= v.len(),
            forall|j: int| 0 <= j < i ==> v@[j] != c,
        decreases v.len() - i,
    {
        if v[i] == c {
            return Some(i);
        }
        i = i + 1;
    }
    None
}

/// `str::split_once` with a char pattern.
pub fn split_once_exec(s: &str, c: char) -> (r: Option<(String, String)>)
    ensures
        r matches Some(p) ==> split_once(s@, c) == Some((p.0@, p.1@)),
        r is None ==> split_once(s@, c) is None,
{
    let v = chars_of(s);
    match find_char(&v, c) {
        Some(i) => {
            let ghost k = choose|k: int| 0 <= k < s@.len() && s@[k] == c && forall|j: int| 0 <= j < k ==> s@[j] != c;
            proof {
                assert(0 <= i < s@.len() && s@[i as int] == c && forall|j: int| 0 <= j < i ==> s@[j] != c);
                if k < i { assert(s@[k] != c); }
                if i < k { assert(s@[i as int] != c); }
                assert(k == i);
            }
            let a = string_of_range(&v, 0, i);
            let b = string_of_range(&v, i + 1, v.len());
            assert(v@.subrange(0, i as int) =~= s@.take(i as int));
            assert(v@.subrange(i + 1, v.len() as int) =~= s@.skip(i + 1));
            Some((a, b))
        },
        None => None,
    }
}

// ───────────────────────── whitespace ─────────────────────────

/// `char::is_whitespace`: the Unicode `White_Space` property.
pub open spec fn is_unicode_whitespace(c: char) -> bool {
    let u = c as u32;
    (0x09 <= u <= 0x0D) || u == 0x20 || u == 0x85 || u == 0xA0 || u == 0x1680
        || (0x2000 <= u <= 0x200A) || u == 0x2028 || u == 0x2029 || u == 0x202F
        || u == 0x205F || u == 0x3000
}

/// `char::is_whitespace`.
pub fn is_whitespace_exec(c: char) -> (r: bool)
    ensures
        r == is_unicode_whitespace(c),
{
    let u = c as u32;
    (0x09 <= u && u <= 0x0D) || u == 0x20 || u == 0x85 || u == 0xA0 || u == 0x1680
        || (0x2000 <= u && u <= 0x200A) || u == 0x2028 || u == 0x2029 || u == 0x202F
        || u == 0x205F || u == 0x3000
}

/// Does `s.trim()` come out empty, i.e. is every character whitespace?
pub open spec fn is_blank(s: Seq<char>) -> bool {
    forall|i: int| 0 <= i < s.len() ==> is_unicode_whitespace(#[trigger] s[i])
}

/// `s.trim().is_empty()`.
pub fn is_blank_exec(s: &str) -> (r: bool)
    ensures
        r == is_blank(s@),
{
    let v = chars_of(s);
    let mut i: usize = 0;
    while i < v.len()
        invariant
            v@ == s@,
            i <= v.len(),
            forall|j: int| 0 <= j < i ==> is_unicode_whitespace(#[trigger] v@[j]),
        decreases v.len() - i,
    {
        if !is_whitespace_exec(v[i]) {
            return false;
        }
        i = i + 1;
    }
    true
}

/// The index of the first non-whitespace character (or `s.len()`).
pub open spec fn trim_start_index(s: Seq<char>) -> int
    decreases s.len(),
{
    if s.len() > 0 && is_unicode_whitespace(s[0]) { 1 + trim_start_index(s.drop_first()) } else { 0 }
}

/// The index one past the last non-whitespace character (or 0).
pub open spec fn trim_end_index(s: Seq<char>) -> int
    decreases s.len(),
{
    if s.len() > 0 && is_unicode_whitespace(s.last()) { trim_end_index(s.drop_last()) } else { s.len() as int }
}

/// `str::trim`: leading and trailing Unicode whitespace removed.
pub open spec fn trim(s: Seq<char>) -> Seq<char> {
    let a = trim_start_index(s);
    let b = trim_end_index(s);
    if a >= b { Seq::empty() } else { s.subrange(a, b) }
}

proof fn lemma_trim_start(s: Seq<char>, i: int)
    requires
        0 <= i <= s.len(),
        forall|j: int| 0 <= j < i ==> is_unicode_whitespace(s[j]),
    ensures
        trim_start_index(s) == i + trim_start_index(s.skip(i)),
    decreases i,
{
    if i > 0 {
        lemma_trim_start(s.drop_first(), i - 1);
        assert(s.drop_first().skip(i - 1) =~= s.skip(i));
    } else {
        assert(s.skip(0) =~= s);
    }
}

proof fn lemma_trim_end(s: Seq<char>, k: int)
    requires
        0 <= k <= s.len(),
        forall|j: int| k <= j < s.len() ==> is_unicode_whitespace(s[j]),
    ensures
        trim_end_index(s) == trim_end_index(s.take(k)),
    decreases s.len() - k,
{
    if k < s.len() {
        assert(s.drop_last().take(k) =~= s.take(k));
        lemma_trim_end(s.drop_last(), k);
    } else {
        assert(s.take(k) =~= s);
    }
}

proof fn lemma_trim_start_bound(s: Seq<char>)
    ensures
        0 <= trim_start_index(s) <= s.len(),
        trim_start_index(s) < s.len() ==> !is_unicode_whitespace(s[trim_start_index(s)]),
        forall|j: int| 0 <= j < trim_start_index(s) ==> is_unicode_whitespace(s[j]),
    decreases s.len(),
{
    if s.len() > 0 && is_unicode_whitespace(s[0]) {
        lemma_trim_start_bound(s.drop_first());
        assert forall|j: int| 0 <= j < trim_start_index(s) implies is_unicode_whitespace(s[j]) by {
            if j > 0 {
                assert(s[j] == s.drop_first()[j - 1]);
            }
        }
    }
}

proof fn lemma_trim_end_bound(s: Seq<char>)
    ensures
        0 <= trim_end_index(s) <= s.len(),
        trim_end_index(s) > 0 ==> !is_unicode_whitespace(s[trim_end_index(s) - 1]),
        forall|j: int| trim_end_index(s) <= j < s.len() ==> is_unicode_whitespace(s[j]),
    decreases s.len(),
{
    if s.len() > 0 && is_unicode_whitespace(s.last()) {
        lemma_trim_end_bound(s.drop_last());
        assert forall|j: int| trim_end_index(s) <= j < s.len() implies is_unicode_whitespace(s[j]) by {
            if j < s.len() - 1 {
                assert(s[j] == s.drop_last()[j]);
            }
        }
    }
}

/// `str::trim`.
pub fn trim_exec(s: &str) -> (r: String)
    ensures
        r@ == trim(s@),
{
    let v = chars_of(s);
    let mut a: usize = 0;
    while a < v.len() && is_whitespace_exec(v[a])
        invariant
            v@ == s@,
            a <= v.len(),
            forall|j: int| 0 <= j < a ==> is_unicode_whitespace(v@[j]),
        decreases v.len() - a,
    {
        a = a + 1;
    }
    let mut b: usize = v.len();
    while b > a && is_whitespace_exec(v[b - 1])
        invariant
            v@ == s@,
            a <= b <= v.len(),
            forall|j: int| b <= j < v.len() ==> is_unicode_whitespace(v@[j]),
        decreases b,
    {
        b = b - 1;
    }
    proof {
        lemma_trim_start(s@, a as int);
        if a < v.len() {
            assert(s@.skip(a as int)[0] == s@[a as int]);
            assert(trim_start_index(s@.skip(a as int)) == 0);
        } else {
            assert(s@.skip(a as int).len() == 0);
        }
        lemma_trim_end(s@, b as int);
        if b > a {
            assert(s@.take(b as int).last() == s@[b - 1]);
            assert(trim_end_index(s@.take(b as int)) == b);
        } else {
            // every character is whitespace from a on
            lemma_trim_end_bound(s@);
            lemma_trim_start_bound(s@);
            assert(a == s@.len() || b == a);
            if a < s@.len() {
                // b == a and s[a] is not whitespace, yet every char from b is
                assert(!is_unicode_whitespace(s@[a as int]));
                assert(false);
            }
            assert(trim_start_index(s@) == s@.len());
        }
    }
    string_of_range(&v, a, b)
}

/// ASCII lower-case of a character.
pub open spec fn ascii_lower(c: char) -> char {
    if 'A' <= c <= 'Z' { ((c as u32) + 32) as char } else { c }
}

/// Equal ignoring ASCII case.
pub open spec fn eq_ignore_ascii_case(a: Seq<char>, b: Seq<char>) -> bool {
    a.len() == b.len() && forall|i: int| 0 <= i < a.len() ==> ascii_lower(a[i]) == ascii_lower(b[i])
}

/// Appending a digit to a numeral multiplies its value by ten and adds the digit.
pub proof fn lemma_digits_val_push_digit(s: Seq<char>, c: char)
    requires
        is_digit(c),
    ensures
        digits_val(s.push(c)) == digits_val(s) * 10 + (c as int - 48),
{
    assert(s.push(c).drop_last() =~= s);
}

/// A rendered numeral consists of digits and has the value it renders.
pub proof fn lemma_nat_dec_digits(n: nat)
    ensures
        all_digits(nat_dec(n)),
        digits_val(nat_dec(n)) == n,
        nat_dec(n).len() >= 1,
    decreases n,
{
    if n < 10 {
        lemma_digits_val_push_digit(Seq::<char>::empty(), digit_char(n as int));
        assert(seq![digit_char(n as int)] =~= Seq::<char>::empty().push(digit_char(n as int)));
    } else {
        lemma_nat_dec_digits(n / 10);
        lemma_digits_val_push_digit(nat_dec(n / 10), digit_char((n % 10) as int));
        let t = nat_dec(n);
        assert forall|i: int| 0 <= i < t.len() implies is_digit(#[trigger] t[i]) by {
            if i < t.len() - 1 {
                assert(t[i] == nat_dec(n / 10)[i]);
            }
        }
    }
}

/// A leading zero does not change the value of a numeral.
pub proof fn lemma_leading_zero(s: Seq<char>)
    requires
        all_digits(s),
    ensures
        digits_val(seq!['0'] + s) == digits_val(s),
    decreases s.len(),
{
    if s.len() == 0 {
        assert((seq!['0'] + s).drop_last() =~= Seq::<char>::empty());
        assert(('0' as int) == 48);
        assert(digits_val(seq!['0'] + s) == (digits_val(Seq::<char>::empty()) * 10 + (('0' as int) - 48)) as nat);
    } else {
        assert(is_digit(s.last()));
        assert(all_digits(s.drop_last()));
        lemma_leading_zero(s.drop_last());
        assert((seq!['0'] + s).drop_last() =~= seq!['0'] + s.drop_last());
        assert((seq!['0'] + s).last() == s.last());
        assert(digits_val(seq!['0'] + s) == (digits_val(seq!['0'] + s.drop_last()) * 10 + (s.last() as int - 48)) as nat);
        assert(digits_val(s) == (digits_val(s.drop_last()) * 10 + (s.last() as int - 48)) as nat);
    }
}

/// Zero padding on the left does not change the value of a numeral.
pub proof fn lemma_zero_padding(s: Seq<char>, k: nat)
    requires
        all_digits(s),
    ensures
        digits_val(Seq::new(k, |i: int| '0') + s) == digits_val(s),
        all_digits(Seq::new(k, |i: int| '0') + s),
    decreases k,
{
    if k > 0 {
        lemma_zero_padding(s, (k - 1) as nat);
        let t = Seq::new((k - 1) as nat, |i: int| '0') + s;
        assert(Seq::new(k, |i: int| '0') + s =~= seq!['0'] + t);
        assert forall|i: int| 0 <= i < k + s.len() implies is_digit(#[trigger] (seq!['0'] + t)[i]) by {
            if i > 0 { assert((seq!['0'] + t)[i] == t[i - 1]); }
        }
        lemma_leading_zero(t);
    } else {
        assert(Seq::new(k, |i: int| '0') + s =~= s);
    }
}

/// A numeral holds no dash.
pub proof fn lemma_no_dash_in_digits(s: Seq<char>)
    requires
        all_digits(s),
    ensures
        forall|i: int| 0 <= i < s.len() ==> s[i] != '-',
{
    assert forall|i: int| 0 <= i < s.len() implies s[i] != '-' by {
        assert(is_digit(s[i]));
    }
}

} // verus!
