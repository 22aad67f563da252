use platform2c::json::JsonValue;
use platform2c::plugin::{
    build_actor, check_capability, check_envelope, check_plugin_envelope, error_envelope, find_document_orchestrator, kv_full_key, kv_namespace,
    ok_envelope, regex_escape,
};
use platform2c::middleware::SessionUser;

fn member<'a>(v: &'a JsonValue, key: &str) -> &'a JsonValue {
    match v {
        JsonValue::Object(m) => &m.iter().find(|(k, _)| k == key).unwrap().1,
        _ => panic!("not an object"),
    }
}

#[test]
fn regex_special_characters_are_escaped() {
    assert_eq!(regex_escape("a.b*c"), "a\\.b\\*c");
    assert_eq!(regex_escape("x(1)|[2]{3}^$+?\\"), "x\\(1\\)\\|\\[2\\]\\{3\\}\\^\\$\\+\\?\\\\");
    assert_eq!(regex_escape("plain"), "plain");
}

#[test]
fn capability_refusal_envelope() {
    let caps = vec!["logging".to_string()];
    assert!(check_capability(Some("crm"), &caps, "log_message").is_ok());
    assert!(check_capability(Some("crm"), &caps, "whoami").is_ok());
    let e = check_capability(None, &caps, "kv_get").err().unwrap();
    assert!(matches!(member(&e, "ok"), JsonValue::Bool(false)));
    let err = member(&e, "error");
    assert!(matches!(member(err, "code"), JsonValue::String(c) if c == "CAPABILITY_DENIED"));
    assert!(matches!(member(err, "message"), JsonValue::String(m) if m == "Модуль 'unknown' не имеет capability 'storage' для вызова 'kv_get'"));
}

#[test]
fn envelopes_are_read_back() {
    assert!(check_envelope(&ok_envelope(JsonValue::Null)).is_ok());
    assert_eq!(check_envelope(&error_envelope("NOT_FOUND", "нет")).err().unwrap(), "NOT_FOUND: нет");
    assert_eq!(check_envelope(&JsonValue::Null).err().unwrap(), "PLUGIN_ERROR: ");
}

#[test]
fn keys_are_namespaced_by_company_and_module() {
    let ns = kv_namespace(Some("c1"), Some("crm")).unwrap();
    assert_eq!(ns, "c1:crm:");
    assert_eq!(kv_full_key(&ns, "k"), "c1:crm:k");
    assert!(kv_namespace(None, Some("crm")).is_err());
    assert!(kv_namespace(Some("c1"), None).is_err());
    assert_ne!(kv_full_key("c1:crm:", "x"), kv_full_key("c1:cr:", "mx"));
}

#[test]
fn orchestrator_is_the_first_module_handling_the_type() {
    let mods = vec![("m1".to_string(), vec!["order".to_string()]), ("m2".to_string(), vec!["invoice".to_string()]),
        ("m3".to_string(), vec!["invoice".to_string()])];
    assert_eq!(find_document_orchestrator(&mods, "invoice"), Some("m2".to_string()));
    assert_eq!(find_document_orchestrator(&mods, "act"), None);
}

#[test]
fn actor_defaults_to_nil() {
    let a = build_actor(None, None);
    assert_eq!(a.user_id, "00000000-0000-0000-0000-000000000000");
    assert_eq!(a.company_id, "00000000-0000-0000-0000-000000000000");
    let u = SessionUser { id: "u".into(), login: "l".into(), display_name: "Имя".into() };
    let a = build_actor(Some(&u), Some("67E55044-10B1-426F-9247-BB680E5FE0C8"));
    assert_eq!(a.full_name.as_deref(), Some("Имя"));
    assert_eq!(a.company_id, "67e55044-10b1-426f-9247-bb680e5fe0c8");
}

use platform2c::plugin::{
    call_result, check_enabled, lazy_load_company, preload_company, preload_plan, preload_tally, PluginCallOutcome,
};

#[test]
fn plugin_call_outcomes() {
    assert_eq!(call_result("f", PluginCallOutcome::Returned("{}".into())).unwrap(), "{}");
    assert_eq!(call_result("f", PluginCallOutcome::Failed("boom".into())).err().unwrap(), "boom");
    assert_eq!(call_result("f", PluginCallOutcome::Panicked("task 3".into())).err().unwrap(), "Паника в плагине: task 3");
    assert_eq!(call_result("convert", PluginCallOutcome::TimedOut).err().unwrap(), "Плагин 'convert' таймаут 30000ms");
}

#[test]
fn lazy_load_checks() {
    assert_eq!(lazy_load_company("6F1C2A3B-4D5E-4F60-8A7B-9C0D1E2F3A4B").unwrap(), "6f1c2a3b-4d5e-4f60-8a7b-9c0d1e2f3a4b");
    assert!(lazy_load_company("x").err().unwrap().starts_with("Невалидная компания: "));
    assert!(preload_company("x").err().unwrap().starts_with("Невалидный company_id: "));
    let enabled = vec![("id1".to_string(), "crm".to_string())];
    assert!(check_enabled(&enabled, "id1", "other").is_ok());
    assert!(check_enabled(&enabled, "id9", "crm").is_ok());
    assert_eq!(check_enabled(&enabled, "id9", "stock").err().unwrap(), "Модуль stock отключён для компании");
}

#[test]
fn preload_report() {
    let enabled = vec!["crm".to_string(), "stock".to_string(), "hr".to_string()];
    let loaded = vec!["stock".to_string()];
    let (to_load, already) = preload_plan(&enabled, &loaded);
    assert_eq!(to_load, vec![0, 2]);
    assert_eq!(already, 1);
    let r = preload_tally(already, vec![("crm".into(), None), ("hr".into(), Some("bad wasm".into()))], 12);
    assert_eq!(r.loaded, 2);
    assert_eq!(r.errors.len(), 1);
    assert_eq!(r.errors[0].code, "hr");
    assert_eq!(r.errors[0].error, "bad wasm");
    assert_eq!(r.elapsed_ms, 12);
}

#[test]
fn plugin_reply_that_is_not_json_is_refused() {
    let e = check_plugin_envelope(Err("expected value at line 1 column 1".to_string())).unwrap_err();
    assert_eq!(e, "ответ плагина невалиден: expected value at line 1 column 1");
    assert!(e.starts_with("ответ плагина невалиден"));
    let ok = JsonValue::Object(vec![("ok".to_string(), JsonValue::Bool(true))]);
    assert!(check_plugin_envelope(Ok(ok)).is_ok());
    assert_eq!(check_plugin_envelope(Ok(error_envelope("E1", "bad"))).unwrap_err(), "E1: bad");
    let bare = JsonValue::Object(vec![("ok".to_string(), JsonValue::Bool(false))]);
    assert_eq!(check_plugin_envelope(Ok(bare)).unwrap_err(), "PLUGIN_ERROR: ");
}
