use platform2c::auth::{bootstrap_role, claims_from_json, claims_payload, Claims, is_bootstrap_sign_in, session_ids, AuthResultWithCompanies, AuthService};
use platform2c::json::{JsonNumber, JsonValue};
use platform2c::platform::PlatformError;

#[test]
fn bootstrap_sign_in_only_without_users() {
    assert!(is_bootstrap_sign_in(false, "admin", "admin"));
    assert!(!is_bootstrap_sign_in(true, "admin", "admin"));
    assert!(!is_bootstrap_sign_in(false, "admin", "secret"));
}

#[test]
fn bootstrap_role_prefers_superadmin() {
    let codes = vec!["USER".to_string(), "SUPERADMIN".to_string(), "SUPERADMIN".to_string()];
    assert_eq!(bootstrap_role(&codes).unwrap(), 1);
    assert_eq!(bootstrap_role(&vec!["USER".to_string()]).unwrap(), 0);
    assert_eq!(bootstrap_role(&vec![]).err().unwrap(), "Нет ролей");
}

#[test]
fn session_ids_are_canonical() {
    let c = "6F1C2A3B-4D5E-4F60-8A7B-9C0D1E2F3A4B";
    let r = "{00000000-0000-0000-0000-000000000001}";
    let (ci, ri) = session_ids(Some((c, r))).unwrap();
    assert_eq!(ci, "6f1c2a3b-4d5e-4f60-8a7b-9c0d1e2f3a4b");
    assert_eq!(ri, "00000000-0000-0000-0000-000000000001");
    assert_eq!(session_ids(None).err().unwrap(), uuid::Uuid::parse_str("").unwrap_err().to_string());
    assert!(session_ids(Some((c, "nope"))).is_err());
}

#[test]
fn password_hash_round_trip() {
    let auth = AuthService::new("secret");
    assert_eq!(auth.jwt_secret(), "secret");
    let h = auth.hash_password("p@ss").unwrap();
    assert_eq!(auth.verify_password("p@ss", &h).unwrap(), true);
    assert_eq!(auth.verify_password("other", &h).unwrap(), false);
    assert!(auth.verify_password("p@ss", "not a hash").is_err());
    let claims = auth.claims_for("u".into(), "c".into(), "r".into(), 1_000);
    assert_eq!(claims.exp, 1_000 + 24 * 3600);
    assert_eq!(claims.iat, 1_000);
}

#[test]
fn auth_result_carries_the_role_found() {
    let r: AuthResultWithCompanies<&str, u32> = AuthResultWithCompanies::new(
        "tok".to_string(), "admin", vec![1, 2], "r1".to_string(), Some(("SUPERADMIN".to_string(), "Суперадмин".to_string())));
    assert_eq!(r.token, "tok");
    assert_eq!(r.user, "admin");
    assert_eq!(r.companies, vec![1, 2]);
    assert_eq!(r.role_id.as_deref(), Some("r1"));
    assert_eq!(r.role_code.as_deref(), Some("SUPERADMIN"));
    assert_eq!(r.role_name.as_deref(), Some("Суперадмин"));
    let none: AuthResultWithCompanies<&str, u32> = AuthResultWithCompanies::new("t".to_string(), "u", vec![], "r2".to_string(), None);
    assert!(none.role_code.is_none() && none.role_name.is_none());
    assert_eq!(none.role_id.as_deref(), Some("r2"));
}

#[test]
fn session_ids_from_simple_and_urn_forms() {
    let (ci, ri) = session_ids(Some(("6F1C2A3B4D5E4F608A7B9C0D1E2F3A4B", "URN:uuid:00000000-0000-0000-0000-00000000000A"))).unwrap();
    assert_eq!(ci, "6f1c2a3b-4d5e-4f60-8a7b-9c0d1e2f3a4b");
    assert_eq!(ri, "00000000-0000-0000-0000-00000000000a");
}

fn now_secs() -> i64 {
    std::time::SystemTime::now().duration_since(std::time::UNIX_EPOCH).unwrap().as_secs() as i64
}

#[test]
fn token_round_trip() {
    let auth = AuthService::new("secret");
    let now = now_secs();
    let t = auth.create_token("u1".to_string(), "c1".to_string(), "r1".to_string(), now).unwrap();
    assert!(t.starts_with("eyJ"));
    assert_eq!(t.split('.').count(), 3);
    let c = auth.verify_token(&t).unwrap();
    assert_eq!(c.sub, "u1");
    assert_eq!(c.company_id, "c1");
    assert_eq!(c.role_id, "r1");
    assert_eq!(c.iat, now as usize);
    assert_eq!(c.exp, (now + 24 * 3600) as usize);
    assert_eq!(auth.token_ttl_hours(), 24);
}

#[test]
fn tokens_refused() {
    let auth = AuthService::new("secret");
    let now = now_secs();
    let t = auth.create_token("u1".to_string(), "c1".to_string(), "r1".to_string(), now).unwrap();
    let other = AuthService::new("other");
    match other.verify_token(&t) {
        Err(PlatformError::Auth(m)) => assert!(m.starts_with("Невалидный токен: ")),
        _ => panic!("a token under another secret must be refused"),
    }
    match auth.verify_token("not a token") {
        Err(PlatformError::Auth(m)) => assert!(m.starts_with("Невалидный токен: ")),
        _ => panic!("garbage must be refused"),
    }
    let old = auth.create_token("u1".to_string(), "c1".to_string(), "r1".to_string(), 1_000_000).unwrap();
    match auth.verify_token(&old) {
        Err(PlatformError::Auth(m)) => assert!(m.starts_with("Невалидный токен: ")),
        _ => panic!("an expired token must be refused"),
    }
}

fn claims_json(members: Vec<(&str, JsonValue)>) -> JsonValue {
    JsonValue::Object(members.into_iter().map(|(k, v)| (k.to_string(), v)).collect())
}

fn text(t: &str) -> JsonValue {
    JsonValue::String(t.to_string())
}

#[test]
fn claims_read_from_json() {
    let full = claims_json(vec![
        ("sub", text("u1")), ("company_id", text("c1")), ("role_id", text("r1")),
        ("exp", JsonValue::Number(JsonNumber::PosInt(200))), ("iat", JsonValue::Number(JsonNumber::PosInt(100))),
        ("extra", JsonValue::Null),
    ]);
    let c = claims_from_json(&full).unwrap();
    assert_eq!((c.sub.as_str(), c.company_id.as_str(), c.role_id.as_str(), c.exp, c.iat), ("u1", "c1", "r1", 200, 100));
    let no_sub = claims_json(vec![("company_id", text("c1"))]);
    match claims_from_json(&no_sub) {
        Err(PlatformError::Auth(m)) => assert_eq!(m, "Невалидный токен: missing or invalid claim `sub`"),
        _ => panic!("a missing sub is refused"),
    }
    let bad_exp = claims_json(vec![
        ("sub", text("u1")), ("company_id", text("c1")), ("role_id", text("r1")),
        ("exp", JsonValue::Number(JsonNumber::NegInt(-1))), ("iat", JsonValue::Number(JsonNumber::PosInt(1))),
    ]);
    match claims_from_json(&bad_exp) {
        Err(PlatformError::Auth(m)) => assert_eq!(m, "Невалидный токен: missing or invalid claim `exp`"),
        _ => panic!("a negative exp is refused"),
    }
    let numeric_role = claims_json(vec![
        ("sub", text("u1")), ("company_id", text("c1")), ("role_id", JsonValue::Number(JsonNumber::PosInt(3))),
    ]);
    match claims_from_json(&numeric_role) {
        Err(PlatformError::Auth(m)) => assert_eq!(m, "Невалидный токен: missing or invalid claim `role_id`"),
        _ => panic!("a numeric role is refused"),
    }
}

fn b64url(bytes: &[u8]) -> String {
    const A: &[u8; 64] = b"ABCDEFGHIJKLMNOPQRSTUVWXYZabcdefghijklmnopqrstuvwxyz0123456789-_";
    let mut out = String::new();
    for chunk in bytes.chunks(3) {
        let b = [chunk[0], *chunk.get(1).unwrap_or(&0), *chunk.get(2).unwrap_or(&0)];
        let n = ((b[0] as u32) << 16) | ((b[1] as u32) << 8) | b[2] as u32;
        for k in 0..(chunk.len() + 1) {
            out.push(A[((n >> (18 - 6 * k)) & 63) as usize] as char);
        }
    }
    out
}

#[test]
fn claims_payload_text() {
    let c = Claims { sub: "u1".to_string(), company_id: "c\"1".to_string(), role_id: "r\n\u{1}é".to_string(), exp: 200, iat: 100 };
    assert_eq!(claims_payload(&c), "{\"sub\":\"u1\",\"company_id\":\"c\\\"1\",\"role_id\":\"r\\n\\u0001é\",\"exp\":200,\"iat\":100}");
}

#[test]
fn token_carries_the_claims_payload() {
    let auth = AuthService::new("secret");
    let now = now_secs();
    let t = auth.create_token("u1".to_string(), "c1".to_string(), "r1".to_string(), now).unwrap();
    let claims = Claims { sub: "u1".to_string(), company_id: "c1".to_string(), role_id: "r1".to_string(),
        exp: (now + 24 * 3600) as usize, iat: now as usize };
    let middle = t.split('.').nth(1).unwrap();
    assert_eq!(middle, b64url(claims_payload(&claims).as_bytes()));
    // the header is jsonwebtoken's default: {"typ":"JWT","alg":"HS256"}
    assert_eq!(t.split('.').next().unwrap(), b64url(b"{\"typ\":\"JWT\",\"alg\":\"HS256\"}"));
}
