//! Calls into code whose behaviour Verus takes on trust: std functions that
//! vstd does not specify and the outside crates of the platform. Each item
//! says what its contract claims of the function it calls.

use vstd::prelude::*;
use sha2::Digest;
use crate::json::{JsonValue, JsonNumber};
use serde_json::Value;
use crate::json::JsonNumber::{PosInt, NegInt, Float};

verus! {

/// What `format!("{:?}", s)` gives for a string slice: `s` in double quotes
/// with `"`, `\` and non-printable characters escaped (`str::escape_debug`).
pub uninterp spec fn spec_debug_str(s: Seq<char>) -> Seq<char>;

/// `format!("{:?}", s)` for a string slice (std's `Debug for str`). The
/// contract names the result after the argument's characters alone.
#[verifier::external_body]
pub fn debug_str(s: &str) -> (r: String)
    ensures
        r@ == spec_debug_str(s@),
{
    format!("{:?}", s)
}


/// Is `c` an ASCII hexadecimal digit (either case)?
pub open spec fn is_hex_char(c: char) -> bool {
    ('0' <= c <= '9') || ('a' <= c <= 'f') || ('A' <= c <= 'F')
}

/// The hyphenated form: 36 characters, dashes at 8, 13, 18 and 23, hex elsewhere.
pub open spec fn uuid_hyphenated(s: Seq<char>) -> bool {
    s.len() == 36 && forall|i: int| 0 <= i < 36 ==> if i == 8 || i == 13 || i == 18 || i == 23 {
        #[trigger] s[i] == '-'
    } else {
        is_hex_char(s[i])
    }
}

/// The texts `uuid::Uuid::parse_str` accepts: 32 hex digits; the hyphenated
/// form; the hyphenated form in braces; or `urn:uuid:` (any ASCII case)
/// followed by the hyphenated form.
pub open spec fn uuid_syntax(s: Seq<char>) -> bool {
    ||| (s.len() == 32 && forall|i: int| 0 <= i < 32 ==> is_hex_char(#[trigger] s[i]))
    ||| uuid_hyphenated(s)
    ||| (s.len() == 38 && s[0] == '{' && s[37] == '}' && uuid_hyphenated(s.subrange(1, 37)))
    ||| (s.len() == 45 && crate::text::eq_ignore_ascii_case(s.take(9), "urn:uuid:"@) && uuid_hyphenated(s.skip(9)))
}

/// `uuid::Uuid::parse_str(s).is_ok()`: does the text parse as a UUID?
/// The contract states the formats the parser accepts (see `uuid_syntax`).
#[verifier::external_body]
pub fn uuid_parses(s: &str) -> (r: bool)
    ensures
        r == uuid_syntax(s@),
{
    uuid::Uuid::parse_str(s).is_ok()
}

/// Does chrono parse the text as a calendar date (`NaiveDate::from_str`)?
pub uninterp spec fn spec_naive_date_parses(s: Seq<char>) -> bool;

/// `s.parse::<chrono::NaiveDate>().is_ok()`. The contract names the result
/// after the text alone; which texts chrono accepts is not restated here.
#[verifier::external_body]
pub fn naive_date_parses(s: &str) -> (r: bool)
    ensures
        r == spec_naive_date_parses(s@),
{
    s.parse::<chrono::NaiveDate>().is_ok()
}

/// Does chrono parse the text as an RFC 3339 date-time?
pub uninterp spec fn spec_rfc3339_parses(s: Seq<char>) -> bool;

/// `chrono::DateTime::parse_from_rfc3339(s).is_ok()`. The contract names the
/// result after the text alone; the grammar is not restated here.
#[verifier::external_body]
pub fn rfc3339_parses(s: &str) -> (r: bool)
    ensures
        r == spec_rfc3339_parses(s@),
{
    chrono::DateTime::parse_from_rfc3339(s).is_ok()
}

/// The text of the error that `uuid::Uuid::parse_str` gives for a text it
/// refuses (`uuid::Error`'s `Display`).
pub uninterp spec fn spec_uuid_error_text(s: Seq<char>) -> Seq<char>;

/// `uuid::Uuid::parse_str(s).err().map(|e| e.to_string())`. Which texts are
/// refused is stated (`uuid_syntax`); the wording of the error is named after
/// the text alone.
#[verifier::external_body]
pub fn uuid_error_text(s: &str) -> (r: Option<String>)
    ensures
        r is None <==> uuid_syntax(s@),
        r matches Some(m) ==> m@ == spec_uuid_error_text(s@),
{
    match uuid::Uuid::parse_str(s) {
        Ok(_) => None,
        Err(e) => Some(e.to_string()),
    }
}

/// Is the text a UUID in the form that `Uuid`'s `Display` writes: hyphenated,
/// with lower-case hex digits?
pub open spec fn uuid_lower_hyphenated(s: Seq<char>) -> bool {
    uuid_hyphenated(s) && forall|i: int| 0 <= i < s.len() ==> !('A' <= #[trigger] s[i] <= 'F')
}

/// The 32 hex digits of a hyphenated UUID text, in order.
pub open spec fn hyphenated_digits(h: Seq<char>) -> Seq<char> {
    h.subrange(0, 8) + h.subrange(9, 13) + h.subrange(14, 18) + h.subrange(19, 23) + h.subrange(24, 36)
}

/// The 32 hex digits of a text in one of the forms of `uuid_syntax`.
pub open spec fn uuid_digits(s: Seq<char>) -> Seq<char> {
    if s.len() == 32 {
        s
    } else if s.len() == 36 {
        hyphenated_digits(s)
    } else if s.len() == 38 {
        hyphenated_digits(s.subrange(1, 37))
    } else {
        hyphenated_digits(s.skip(9))
    }
}

/// A hex digit in lower case.
pub open spec fn lower_hex(c: char) -> char {
    if 'A' <= c <= 'F' { ((c as u32) + 32) as char } else { c }
}

/// The text that `Uuid`'s `Display` writes for the UUID that a text denotes:
/// its 32 digits in lower case, grouped 8-4-4-4-12 with dashes.
pub open spec fn spec_uuid_canonical(s: Seq<char>) -> Seq<char> {
    let d = uuid_digits(s).map_values(|c: char| lower_hex(c));
    d.subrange(0, 8) + seq!['-'] + d.subrange(8, 12) + seq!['-'] + d.subrange(12, 16) + seq!['-']
        + d.subrange(16, 20) + seq!['-'] + d.subrange(20, 32)
}

/// `uuid::Uuid::parse_str(s).ok().map(|u| u.to_string())`: the UUID that a
/// text denotes, written as `Uuid`'s `Display` writes it (`spec_uuid_canonical`:
/// hyphenated, lower case). A text already in that form comes back unchanged.
#[verifier::external_body]
pub fn uuid_canonical(s: &str) -> (r: Option<String>)
    ensures
        r is None <==> !uuid_syntax(s@),
        r matches Some(m) ==> m@ == spec_uuid_canonical(s@) && uuid_lower_hyphenated(m@)
            && (uuid_lower_hyphenated(s@) ==> m@ == s@),
{
    match uuid::Uuid::parse_str(s) {
        Ok(u) => Some(u.to_string()),
        Err(_) => None,
    }
}

/// The lower-case hex digit of a value below 16.
pub open spec fn hex_digit(n: int) -> char {
    if n < 10 { (48 + n) as char } else { (87 + n) as char }
}

/// Bytes written as lower-case hex, two digits per byte, high nibble first.
pub open spec fn hex_of(b: Seq<u8>) -> Seq<char>
    decreases b.len(),
{
    if b.len() == 0 {
        Seq::empty()
    } else {
        hex_of(b.drop_last()) + seq![hex_digit(b.last() as int / 16), hex_digit(b.last() as int % 16)]
    }
}

/// Two hex digits per byte.
pub proof fn lemma_hex_len(b: Seq<u8>)
    ensures
        hex_of(b).len() == 2 * b.len(),
    decreases b.len(),
{
    if b.len() > 0 {
        lemma_hex_len(b.drop_last());
    }
}

/// `hex::encode(bytes)`: the bytes in lower-case hex, two digits per byte.
#[verifier::external_body]
pub fn hex_encode(bytes: &[u8]) -> (r: String)
    ensures
        r@ == hex_of(bytes@),
{
    hex::encode(bytes)
}

/// The SHA-256 digest of a byte sequence.
pub uninterp spec fn spec_sha256(data: Seq<u8>) -> Seq<u8>;

/// `sha2::Sha256::digest(data)`: the 32-byte SHA-256 digest, named after the
/// input bytes alone.
#[verifier::external_body]
pub fn sha256_digest(data: &[u8]) -> (r: Vec<u8>)
    ensures
        r@ == spec_sha256(data@),
        r@.len() == 32,
{
    sha2::Sha256::digest(data).to_vec()
}

/// The lower-case hex SHA-256 of the bytes.
pub open spec fn spec_sha256_hex(data: Seq<u8>) -> Seq<char> {
    hex_of(spec_sha256(data))
}

/// The lower-case hex SHA-256 of the bytes (64 characters).
pub fn sha256_hex(data: &[u8]) -> (r: String)
    ensures
        r@ == spec_sha256_hex(data@),
        r@.len() == 64,
{
    let d = sha256_digest(data);
    proof { lemma_hex_len(d@); }
    hex_encode(d.as_slice())
}

/// The text that `String::from_utf8_lossy` makes of a byte sequence.
pub uninterp spec fn spec_utf8_lossy(bytes: Seq<u8>) -> Seq<char>;

/// `String::from_utf8_lossy(bytes).into_owned()`: the bytes decoded as UTF-8,
/// invalid sequences replaced by U+FFFD. Valid UTF-8 decodes exactly, as std
/// documents; other input is named after the bytes alone.
#[verifier::external_body]
pub fn utf8_lossy(bytes: &[u8]) -> (r: String)
    ensures
        r@ == spec_utf8_lossy(bytes@),
        vstd::utf8::valid_utf8(bytes@) ==> r@ == vstd::utf8::decode_utf8(bytes@),
{
    String::from_utf8_lossy(bytes).into_owned()
}

/// The text of the error that `regex::Regex::new` gives for a pattern it refuses.
pub uninterp spec fn spec_regex_error(pattern: Seq<char>) -> Seq<char>;

/// Does `regex::Regex::new` accept the pattern?
pub uninterp spec fn spec_regex_compiles(pattern: Seq<char>) -> bool;

/// `regex::Regex::new(pattern).err().map(|e| e.to_string())`: whether the
/// pattern compiles and, if not, the error's text, both named after the
/// pattern alone.
#[verifier::external_body]
pub fn regex_error(pattern: &str) -> (r: Option<String>)
    ensures
        r is None <==> spec_regex_compiles(pattern@),
        r matches Some(m) ==> m@ == spec_regex_error(pattern@),
{
    match regex::Regex::new(pattern) {
        Ok(_) => None,
        Err(e) => Some(e.to_string()),
    }
}

/// The text of capture group 1 of the first match of a pattern in a text,
/// when the pattern matches there and group 1 takes part in the match.
pub uninterp spec fn spec_regex_capture1(pattern: Seq<char>, text: Seq<char>) -> Option<Seq<char>>;

/// `Regex::new(pattern)?.captures(text)?.get(1)`, as text: group 1 of the
/// leftmost-first match of a pattern that compiles. Named after pattern and
/// text.
#[verifier::external_body]
pub(crate) fn regex_capture1(pattern: &str, text: &str) -> (r: Option<String>)
    requires
        spec_regex_compiles(pattern@),
    ensures
        match r {
            Some(c) => spec_regex_capture1(pattern@, text@) == Some(c@),
            None => spec_regex_capture1(pattern@, text@) is None,
        },
{
    regex::Regex::new(pattern).ok().and_then(|re| re.captures(text).and_then(|c| c.get(1)).map(|m| m.as_str().to_string()))
}

/// `SaltString::generate(&mut OsRng)`: a fresh random salt of 16 bytes in
/// unpadded B64, which is 22 characters. The bytes are random, so only the
/// length is stated.
#[verifier::external_body]
pub fn fresh_salt() -> (r: String)
    ensures
        r@.len() == 22,
{
    argon2::password_hash::SaltString::generate(&mut rand::rngs::OsRng).as_str().to_string()
}

/// What Argon2 with its default parameters makes of a password and a B64
/// salt: the PHC string, or the error's text.
pub uninterp spec fn spec_argon2_hash(password: Seq<char>, salt: Seq<char>) -> Result<Seq<char>, Seq<char>>;

/// `Argon2::default().hash_password(password, &SaltString::from_b64(salt)?)`:
/// the PHC string of the password under the salt, or the error's text (the
/// salt is read from its B64 text first). The result is named after password
/// and salt; a PHC string it makes parses again, and the password verifies
/// against it (the crate's hash/verify round trip).
#[verifier::external_body]
pub fn argon2_hash_with_salt(password: &str, salt: &str) -> (r: Result<String, String>)
    ensures
        match r {
            Ok(h) => spec_argon2_hash(password@, salt@) == Ok::<Seq<char>, Seq<char>>(h@)
                && spec_phc_error(h@) is None && spec_argon2_accepts(password@, h@),
            Err(e) => spec_argon2_hash(password@, salt@) == Err::<Seq<char>, Seq<char>>(e@),
        },
{
    let salt = argon2::password_hash::SaltString::from_b64(salt).map_err(|e| e.to_string())?;
    argon2::password_hash::PasswordHasher::hash_password(&argon2::Argon2::default(), password.as_bytes(), &salt)
        .map(|h| h.to_string())
        .map_err(|e| e.to_string())
}

/// The text of the error that `PasswordHash::new` gives for a hash it refuses.
pub uninterp spec fn spec_phc_error(hash: Seq<char>) -> Option<Seq<char>>;

/// Does Argon2 (default parameters) accept the password against the hash?
pub uninterp spec fn spec_argon2_accepts(password: Seq<char>, hash: Seq<char>) -> bool;

/// `PasswordHash::new(hash).err().map(|e| e.to_string())`: the error of a
/// hash text that is no PHC string, named after the text.
#[verifier::external_body]
pub fn phc_parse_error(hash: &str) -> (r: Option<String>)
    ensures
        match r {
            Some(e) => spec_phc_error(hash@) == Some(e@),
            None => spec_phc_error(hash@) is None,
        },
{
    argon2::password_hash::PasswordHash::new(hash).err().map(|e| e.to_string())
}

/// `Argon2::default().verify_password(password, &PasswordHash::new(hash)?).is_ok()`
/// for a hash text that parses: does the password match it? Named after the
/// password and the hash.
#[verifier::external_body]
pub fn argon2_accepts(password: &str, hash: &str) -> (r: bool)
    requires
        spec_phc_error(hash@) is None,
    ensures
        r == spec_argon2_accepts(password@, hash@),
{
    match argon2::password_hash::PasswordHash::new(hash) {
        Ok(parsed) => argon2::password_hash::PasswordVerifier::verify_password(
            &argon2::Argon2::default(), password.as_bytes(), &parsed).is_ok(),
        Err(_) => false,
    }
}

/// A JSON value as `serde_json` holds it: the claims of a decoded token
/// before they are turned into the library's `JsonValue`.
#[verifier::external_type_specification]
#[verifier::external_body]
pub struct ExSerdeJsonValue(serde_json::Value);

/// The token that `jsonwebtoken::encode` makes (default header, HS256) of a
/// JSON payload text under a secret, or the error's text.
pub uninterp spec fn spec_jwt_encode(payload: Seq<char>, secret: Seq<char>) -> Result<Seq<char>, Seq<char>>;

/// `jsonwebtoken::encode(&Header::default(), &RawValue::from_string(payload)?, &EncodingKey::from_secret(secret))`:
/// the signed token whose claims part is the payload text as it stands (a
/// raw JSON value is written verbatim), or the error's text (also when the
/// payload is not JSON). Both outcomes are named after payload and secret.
#[verifier::external_body]
pub fn jwt_encode(payload: &str, secret: &str) -> (r: Result<String, String>)
    ensures
        match r {
            Ok(t) => spec_jwt_encode(payload@, secret@) == Ok::<Seq<char>, Seq<char>>(t@),
            Err(e) => spec_jwt_encode(payload@, secret@) == Err::<Seq<char>, Seq<char>>(e@),
        },
{
    let raw = serde_json::value::RawValue::from_string(payload.to_string()).map_err(|e| e.to_string())?;
    let key = jsonwebtoken::EncodingKey::from_secret(secret.as_bytes());
    jsonwebtoken::encode(&jsonwebtoken::Header::default(), &raw, &key).map_err(|e| e.to_string())
}

/// Does a token pass `jsonwebtoken`'s signature check under a secret with
/// the default validation: three parts, a header naming HS256, and an HMAC
/// over the first two parts that matches under the secret?
pub uninterp spec fn spec_jwt_verifies(token: Seq<char>, secret: Seq<char>) -> bool;

/// The claims a token carries: its middle part, base64url-decoded and read
/// as JSON.
pub uninterp spec fn spec_jwt_claims(token: Seq<char>) -> JsonValue;

/// `jsonwebtoken::decode(token, &DecodingKey::from_secret(secret), &Validation::default())`,
/// its claims taken as JSON: a token is decoded only when it passes the
/// signature check under the secret, and the claims handed back are the
/// token's own. Whether it has expired depends on the clock, so success is
/// not promised.
#[verifier::external_body]
pub fn jwt_decode(token: &str, secret: &str) -> (r: Result<JsonValue, String>)
    ensures
        r is Ok ==> spec_jwt_verifies(token@, secret@),
        r matches Ok(v) ==> v == spec_jwt_claims(token@),
{
    let key = jsonwebtoken::DecodingKey::from_secret(secret.as_bytes());
    jsonwebtoken::decode::<serde_json::Value>(token, &key, &jsonwebtoken::Validation::default())
        .map(|data| json_of_serde(&data.claims))
        .map_err(|e| e.to_string())
}

/// A `serde_json` value in the library's form, variant by variant; a number
/// keeps the representation `serde_json` read it into (non-negative integer,
/// negative integer, or the bit pattern of a float).
#[verifier::external_body]
fn json_of_serde(v: &Value) -> JsonValue {
    match v {
        Value::Null => JsonValue::Null,
        Value::Bool(b) => JsonValue::Bool(*b),
        Value::Number(n) => JsonValue::Number(match (n.as_u64(), n.as_i64()) {
            (Some(u), _) => PosInt(u),
            (None, Some(i)) => NegInt(i),
            _ => Float(n.as_f64().unwrap_or_default().to_bits()),
        }),
        Value::String(s) => JsonValue::String(s.clone()),
        Value::Array(a) => JsonValue::Array(a.iter().map(json_of_serde).collect()),
        Value::Object(m) => JsonValue::Object(m.iter().map(|(k, x)| (k.clone(), json_of_serde(x))).collect()),
    }
}

} // verus!
