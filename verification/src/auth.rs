//! Authentication: the claims of a session token and password hashing.

use vstd::prelude::*;
use crate::platform::PlatformError;
use crate::json::{JsonValue, JsonNumber, json_get, json_string_text, json_string_exec};
use crate::text::{owned, concat2, concat3, str_eq, nat_dec, u64_to_dec};
use crate::trusted::{
    jwt_encode, jwt_decode, spec_jwt_encode, spec_jwt_verifies, spec_jwt_claims,
    argon2_hash_with_salt, fresh_salt, phc_parse_error, argon2_accepts, spec_phc_error, spec_argon2_accepts, uuid_canonical, uuid_error_text,
    uuid_syntax, spec_uuid_canonical, spec_uuid_error_text,
};

verus! {

/// The claims of a session token. Times are seconds since the Unix epoch.
pub struct Claims {
    pub sub: String,
    pub company_id: String,
    pub role_id: String,
    pub exp: usize,
    pub iat: usize,
}

/// Issues and checks session tokens and password hashes.
pub struct AuthService {
    jwt_secret: String,
    token_ttl_hours: i64,
}

impl AuthService {
    /// The secret the tokens are signed with.
    pub closed spec fn secret(&self) -> Seq<char> {
        self.jwt_secret@
    }

    /// How long a token lives, in hours.
    pub closed spec fn ttl_hours(&self) -> i64 {
        self.token_ttl_hours
    }

    /// The service with a signing secret; tokens live 24 hours.
    pub fn new(jwt_secret: &str) -> (r: AuthService)
        ensures
            r.secret() == jwt_secret@,
            r.ttl_hours() == 24,
    {
        AuthService { jwt_secret: owned(jwt_secret), token_ttl_hours: 24 }
    }

    /// The signing secret.
    pub fn jwt_secret(&self) -> (r: &str)
        ensures
            r@ == self.secret(),
    {
        self.jwt_secret.as_str()
    }

    /// The claims of a token issued at `now` (seconds) for a user in a
    /// company under a role: it expires after the service's lifetime.
    pub fn claims_for(&self, user_id: String, company_id: String, role_id: String, now: i64) -> (r: Claims)
        requires
            i64::MIN <= now + self.ttl_hours() * 3600 <= i64::MAX,
            0 <= self.ttl_hours() <= 1_000_000,
        ensures
            r.sub == user_id,
            r.company_id == company_id,
            r.role_id == role_id,
            r.exp == (now + self.ttl_hours() * 3600) as usize,
            r.iat == now as usize,
    {
        let exp = now + self.token_ttl_hours * 3600;
        Claims { sub: user_id, company_id, role_id, exp: exp as usize, iat: now as usize }
    }

    /// How long a token lives, in hours.
    pub fn token_ttl_hours(&self) -> (r: i64)
        ensures
            r == self.ttl_hours(),
    {
        self.token_ttl_hours
    }

    /// A signed token for a user in a company under a role, issued at `now`
    /// (seconds since the Unix epoch) and expiring after the service's
    /// lifetime: its claims are the JSON text `claims_payload` writes; a token
    /// that cannot be made is refused.
    pub fn create_token(&self, user_id: String, company_id: String, role_id: String, now: i64) -> (r: Result<String, PlatformError>)
        requires
            i64::MIN <= now + self.ttl_hours() * 3600 <= i64::MAX,
            0 <= self.ttl_hours() <= 1_000_000,
        ensures
            match spec_jwt_encode(
                spec_claims_payload(user_id@, company_id@, role_id@, (now + self.ttl_hours() * 3600) as usize, now as usize),
                self.secret(),
            ) {
                Ok(t) => r matches Ok(s) && s@ == t,
                Err(e) => r matches Err(PlatformError::Auth(m)) && m@ == "Ошибка создания токена: "@ + e,
            },
    {
        let claims = self.claims_for(user_id, company_id, role_id, now);
        let payload = claims_payload(&claims);
        match jwt_encode(payload.as_str(), self.jwt_secret.as_str()) {
            Ok(t) => Ok(t),
            Err(e) => Err(Self::token_error(e.as_str())),
        }
    }

    /// The claims of a token that verifies under the service's secret and has
    /// not expired. The decoder sees the token and this service's secret; a
    /// token it accepts gives exactly what `claims_from_json` reads from the
    /// token's own claims. Any other token is refused with `Невалидный токен: `
    /// and the reason.
    pub fn verify_token(&self, token: &str) -> (r: Result<Claims, PlatformError>)
        ensures
            r is Ok ==> spec_jwt_verifies(token@, self.secret()),
            r matches Ok(c) ==> spec_claims_from_json(spec_jwt_claims(token@)) == Ok::<Claims, Seq<char>>(c),
            spec_claims_from_json(spec_jwt_claims(token@)) is Err ==> r is Err,
            r matches Err(e) ==> (e matches PlatformError::Auth(m) && crate::text::starts_with(m@, "Невалидный токен: "@)),
    {
        let v = match jwt_decode(token, self.jwt_secret.as_str()) {
            Ok(v) => v,
            Err(e) => return Err(Self::refused_token(e.as_str())),
        };
        proof {
            lemma_bad_claim_prefix("sub"@);
            lemma_bad_claim_prefix("company_id"@);
            lemma_bad_claim_prefix("role_id"@);
            lemma_bad_claim_prefix("exp"@);
            lemma_bad_claim_prefix("iat"@);
        }
        claims_from_json(&v)
    }

    /// `invalid_token`, with the fact that its text begins with the prefix.
    fn refused_token(detail: &str) -> (r: PlatformError)
        ensures
            r matches PlatformError::Auth(m) && m@ == "Невалидный токен: "@ + detail@
                && crate::text::starts_with(m@, "Невалидный токен: "@),
    {
        let r = Self::invalid_token(detail);
        proof {
            let m = "Невалидный токен: "@ + detail@;
            assert(m.subrange(0, "Невалидный токен: "@.len() as int) =~= "Невалидный токен: "@);
        }
        r
    }

    /// The refusal of a token that could not be made.
    pub fn token_error(detail: &str) -> (r: PlatformError)
        ensures
            r matches PlatformError::Auth(m) && m@ == "Ошибка создания токена: "@ + detail@,
    {
        PlatformError::Auth(concat2("Ошибка создания токена: ", detail))
    }

    /// The refusal of a token that does not verify.
    pub fn invalid_token(detail: &str) -> (r: PlatformError)
        ensures
            r matches PlatformError::Auth(m) && m@ == "Невалидный токен: "@ + detail@,
    {
        PlatformError::Auth(concat2("Невалидный токен: ", detail))
    }

    /// The Argon2 hash of a password under a fresh salt. A password verifies
    /// against the hash made of it.
    pub fn hash_password(&self, password: &str) -> (r: Result<String, PlatformError>)
        ensures
            r matches Err(e) ==> e matches PlatformError::Auth(m) && crate::text::starts_with(m@, "Ошибка хеширования: "@),
            r matches Ok(h) ==> spec_phc_error(h@) is None && spec_argon2_accepts(password@, h@),
    {
        let salt = fresh_salt();
        match argon2_hash_with_salt(password, salt.as_str()) {
            Ok(h) => Ok(h),
            Err(e) => {
                let m = concat2("Ошибка хеширования: ", e.as_str());
                assert(m@.subrange(0, "Ошибка хеширования: "@.len() as int) =~= "Ошибка хеширования: "@);
                Err(PlatformError::Auth(m))
            },
        }
    }

    /// Does the password match the stored hash? A hash that does not parse is
    /// refused.
    pub fn verify_password(&self, password: &str, hash: &str) -> (r: Result<bool, PlatformError>)
        ensures
            match spec_phc_error(hash@) {
                Some(e) => r matches Err(PlatformError::Auth(m)) && m@ == "Невалидный хеш: "@ + e,
                None => r == Ok::<bool, PlatformError>(spec_argon2_accepts(password@, hash@)),
            },
    {
        match phc_parse_error(hash) {
            Some(e) => Err(PlatformError::Auth(concat2("Невалидный хеш: ", e.as_str()))),
            None => Ok(argon2_accepts(password, hash)),
        }
    }
}

/// Is this the first sign-in of a fresh installation: no user exists yet and
/// the built-in `admin`/`admin` credentials are given? Such a sign-in seeds
/// the policies, the main company, its roles and the administrator.
pub fn is_bootstrap_sign_in(has_users: bool, login: &str, password: &str) -> (r: bool)
    ensures
        r == (!has_users && login@ == "admin"@ && password@ == "admin"@),
{
    !has_users && str_eq(login, "admin") && str_eq(password, "admin")
}

/// Does any of the codes read `SUPERADMIN`?
pub open spec fn has_superadmin(codes: Seq<String>) -> bool {
    exists|k: int| 0 <= k < codes.len() && #[trigger] codes[k]@ == "SUPERADMIN"@
}

/// The role the bootstrap administrator gets, by the codes of the company's
/// roles: the first `SUPERADMIN` role, or else the first role; a company
/// without roles is refused.
pub fn bootstrap_role(codes: &Vec<String>) -> (r: Result<usize, String>)
    ensures
        match r {
            Ok(i) => i < codes.len() && if has_superadmin(codes@) {
                codes@[i as int]@ == "SUPERADMIN"@ && forall|k: int| 0 <= k < i ==> #[trigger] codes@[k]@ != "SUPERADMIN"@
            } else {
                i == 0
            },
            Err(m) => codes.len() == 0 && m@ == "Нет ролей"@,
        },
{
    let mut k: usize = 0;
    while k < codes.len()
        invariant
            k <= codes.len(),
            forall|j: int| 0 <= j < k ==> #[trigger] codes@[j]@ != "SUPERADMIN"@,
        decreases codes.len() - k,
    {
        if str_eq(codes[k].as_str(), "SUPERADMIN") {
            return Ok(k);
        }
        k = k + 1;
    }
    if codes.len() == 0 {
        Err(owned("Нет ролей"))
    } else {
        Ok(0)
    }
}

/// The company and the role a session starts in, from the company and role
/// ids of the user's first profile (none: empty texts): both written as
/// canonical UUIDs, or the parser's error for the first that is no UUID.
pub open spec fn session_ids_result(first: Option<(Seq<char>, Seq<char>)>) -> Result<(Seq<char>, Seq<char>), Seq<char>> {
    let c = match first { Some(p) => p.0, None => Seq::empty() };
    let r = match first { Some(p) => p.1, None => Seq::empty() };
    if !uuid_syntax(c) {
        Err(spec_uuid_error_text(c))
    } else if !uuid_syntax(r) {
        Err(spec_uuid_error_text(r))
    } else {
        Ok((spec_uuid_canonical(c), spec_uuid_canonical(r)))
    }
}

fn canonical_or_error(s: &str) -> (r: Result<String, String>)
    ensures
        match r {
            Ok(c) => uuid_syntax(s@) && c@ == spec_uuid_canonical(s@),
            Err(m) => !uuid_syntax(s@) && m@ == spec_uuid_error_text(s@),
        },
{
    match uuid_canonical(s) {
        Some(c) => Ok(c),
        None => match uuid_error_text(s) {
            Some(m) => Err(m),
            None => {
                proof { assert(false); }
                Err(String::new())
            },
        },
    }
}

/// The company and role ids a session starts in (see `session_ids_result`).
pub fn session_ids(first: Option<(&str, &str)>) -> (r: Result<(String, String), String>)
    ensures
        match (r, session_ids_result(match first { Some(p) => Some((p.0@, p.1@)), None => None })) {
            (Ok(ids), Ok(expected)) => ids.0@ == expected.0 && ids.1@ == expected.1,
            (Err(m), Err(e)) => m@ == e,
            _ => false,
        },
{
    let (c, rl) = match first {
        Some(p) => (p.0, p.1),
        None => ("", ""),
    };
    proof {
        reveal_strlit("");
        assert(""@ =~= Seq::<char>::empty());
    }
    let company = match canonical_or_error(c) {
        Ok(v) => v,
        Err(m) => return Err(m),
    };
    let role = match canonical_or_error(rl) {
        Ok(v) => v,
        Err(m) => return Err(m),
    };
    Ok((company, role))
}

/// What signing in answers: the session token, the user, the user's
/// companies, and the role the session starts in (its code and name when
/// the role was found).
pub struct AuthResultWithCompanies<U, C> {
    pub token: String,
    pub user: U,
    pub companies: Vec<C>,
    pub role_code: Option<String>,
    pub role_name: Option<String>,
    pub role_id: Option<String>,
}

impl<U, C> AuthResultWithCompanies<U, C> {
    /// The answer of a sign-in in role `role_id`; `role` is the code and name
    /// of that role when it was found.
    pub fn new(token: String, user: U, companies: Vec<C>, role_id: String, role: Option<(String, String)>) -> (r: Self)
        ensures
            r.token == token,
            r.user == user,
            r.companies == companies,
            r.role_id == Some(role_id),
            match role {
                Some((code, name)) => r.role_code == Some(code) && r.role_name == Some(name),
                None => r.role_code is None && r.role_name is None,
            },
    {
        let (role_code, role_name) = match role {
            Some((code, name)) => (Some(code), Some(name)),
            None => (None, None),
        };
        AuthResultWithCompanies { token, user, companies, role_code, role_name, role_id: Some(role_id) }
    }
}

/// What a claim that must be text holds: the string, when the member is one.
pub open spec fn claim_text(v: JsonValue, key: Seq<char>) -> Option<String> {
    match json_get(v, key) {
        Some(JsonValue::String(t)) => Some(t),
        _ => None,
    }
}

/// What a claim that must be a count of seconds holds: the number, when the
/// member is a non-negative integer that fits in `usize`.
pub open spec fn claim_count(v: JsonValue, key: Seq<char>) -> Option<usize> {
    match json_get(v, key) {
        Some(JsonValue::Number(JsonNumber::PosInt(u))) => if u <= usize::MAX { Some(u as usize) } else { None },
        _ => None,
    }
}

/// The refusal of a token whose claim `key` is missing or of the wrong type.
pub open spec fn bad_claim_text(key: Seq<char>) -> Seq<char> {
    "Невалидный токен: "@ + ("missing or invalid claim `"@ + key + "`"@)
}

/// The claims that decoded token claims hold: `sub`, `company_id` and
/// `role_id` as strings, `exp` and `iat` as non-negative integers; the first
/// of them (in that order) that is missing or of another type is refused.
pub open spec fn spec_claims_from_json(v: JsonValue) -> Result<Claims, Seq<char>> {
    if claim_text(v, "sub"@) is None {
        Err(bad_claim_text("sub"@))
    } else if claim_text(v, "company_id"@) is None {
        Err(bad_claim_text("company_id"@))
    } else if claim_text(v, "role_id"@) is None {
        Err(bad_claim_text("role_id"@))
    } else if claim_count(v, "exp"@) is None {
        Err(bad_claim_text("exp"@))
    } else if claim_count(v, "iat"@) is None {
        Err(bad_claim_text("iat"@))
    } else {
        Ok(Claims {
            sub: claim_text(v, "sub"@)->0,
            company_id: claim_text(v, "company_id"@)->0,
            role_id: claim_text(v, "role_id"@)->0,
            exp: claim_count(v, "exp"@)->0,
            iat: claim_count(v, "iat"@)->0,
        })
    }
}

proof fn lemma_bad_claim_prefix(key: Seq<char>)
    ensures
        crate::text::starts_with(bad_claim_text(key), "Невалидный токен: "@),
{
    let p = "Невалидный токен: "@;
    let m = bad_claim_text(key);
    assert(m.subrange(0, p.len() as int) =~= p);
}

fn claim_text_exec(v: &JsonValue, key: &str) -> (r: Option<String>)
    ensures
        r == claim_text(*v, key@),
{
    match v.get(key) {
        Some(JsonValue::String(t)) => Some(t.clone()),
        _ => None,
    }
}

fn claim_count_exec(v: &JsonValue, key: &str) -> (r: Option<usize>)
    ensures
        r == claim_count(*v, key@),
{
    match v.get(key) {
        Some(JsonValue::Number(JsonNumber::PosInt(u))) => {
            if *u <= usize::MAX as u64 { Some(*u as usize) } else { None }
        },
        _ => None,
    }
}

fn bad_claim(key: &str) -> (r: PlatformError)
    ensures
        r matches PlatformError::Auth(m) && m@ == bad_claim_text(key@),
{
    let detail = concat3("missing or invalid claim `", key, "`");
    AuthService::invalid_token(detail.as_str())
}

/// The claims that decoded token claims hold (see `spec_claims_from_json`).
pub fn claims_from_json(v: &JsonValue) -> (r: Result<Claims, PlatformError>)
    ensures
        match spec_claims_from_json(*v) {
            Ok(c) => r == Ok::<Claims, PlatformError>(c),
            Err(m) => r matches Err(PlatformError::Auth(e)) && e@ == m,
        },
{
    let sub = match claim_text_exec(v, "sub") { Some(x) => x, None => return Err(bad_claim("sub")) };
    let company_id = match claim_text_exec(v, "company_id") { Some(x) => x, None => return Err(bad_claim("company_id")) };
    let role_id = match claim_text_exec(v, "role_id") { Some(x) => x, None => return Err(bad_claim("role_id")) };
    let exp = match claim_count_exec(v, "exp") { Some(x) => x, None => return Err(bad_claim("exp")) };
    let iat = match claim_count_exec(v, "iat") { Some(x) => x, None => return Err(bad_claim("iat")) };
    Ok(Claims { sub, company_id, role_id, exp, iat })
}

/// The JSON text of a token's claims, members in the order of `Claims`:
/// `{"sub":…,"company_id":…,"role_id":…,"exp":…,"iat":…}`, strings written
/// as `serde_json` writes them.
pub open spec fn spec_claims_payload(sub: Seq<char>, company_id: Seq<char>, role_id: Seq<char>, exp: usize, iat: usize) -> Seq<char> {
    "{\"sub\":"@ + json_string_text(sub) + ",\"company_id\":"@ + json_string_text(company_id)
        + ",\"role_id\":"@ + json_string_text(role_id) + ",\"exp\":"@ + nat_dec(exp as nat)
        + ",\"iat\":"@ + nat_dec(iat as nat) + "}"@
}

/// The JSON text of a token's claims (see `spec_claims_payload`).
pub fn claims_payload(c: &Claims) -> (r: String)
    ensures
        r@ == spec_claims_payload(c.sub@, c.company_id@, c.role_id@, c.exp, c.iat),
{
    let mut r = owned("{\"sub\":");
    r.append(json_string_exec(c.sub.as_str()).as_str());
    r.append(",\"company_id\":");
    r.append(json_string_exec(c.company_id.as_str()).as_str());
    r.append(",\"role_id\":");
    r.append(json_string_exec(c.role_id.as_str()).as_str());
    r.append(",\"exp\":");
    r.append(u64_to_dec(c.exp as u64).as_str());
    r.append(",\"iat\":");
    r.append(u64_to_dec(c.iat as u64).as_str());
    r.append("}");
    r
}

} // verus!
