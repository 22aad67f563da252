use platform2c::company::{Company, CompanyService, CreateCompanyInput};
use platform2c::crypto::{CryptoProviderKind, CryptoService};
use platform2c::devices::{device_notice, DeviceEvent};
use platform2c::json::JsonValue;
use platform2c::meta::{CreateEntityTypeInput, EntityTypeService};
use platform2c::middleware::{scope_target, Scope};
use platform2c::modules::not_enabled;
use platform2c::objects::{created_payload, creation_reason, version_not_found};
use platform2c::permission::check_access_cached;
use platform2c::platform::{EntityKind, PlatformError};
use platform2c::plugin::{host_company, host_user};

fn company_input(code: &str) -> CreateCompanyInput {
    CreateCompanyInput {
        code: code.into(), name: "ООО Ромашка".into(), inn: Some("7701".into()), kpp: None, ogrn: None, okved: None,
        legal_address: None, postal_address: None, phone: None, email: None, website: None, bank_name: None,
        bank_bik: None, bank_account: None, bank_correspondent_account: None, director_name: None,
        director_position: None, accountant_name: None, tax_regime_usn: true,
    }
}

#[test]
fn companies() {
    let c = Company::new(company_input("MAIN"), "c1".into(), 10);
    assert!(c.active && c.tax_regime_usn && c.created_at == 10 && c.updated_at == 10);
    let ch = CompanyService::creation_changes(&c);
    assert_eq!(ch.fields.len(), 2);
    assert_eq!(ch.fields[0].0, "code");
    assert_eq!(ch.fields[0].1.new.as_deref(), Some("MAIN"));
    assert!(matches!(CompanyService::creation_error("MAIN", "E11000 duplicate key error"),
        PlatformError::Validation(m) if m == "Компания с кодом 'MAIN' уже существует"));
    assert!(matches!(CompanyService::creation_error("MAIN", "timeout"), PlatformError::Database(m) if m == "timeout"));
    assert_eq!(CompanyService::not_found("c9").message(), "Сущность не найдена: Компания c9 не найдена");
}

#[test]
fn small_services() {
    assert_eq!(CryptoService::new().provider_name(&CryptoProviderKind::CryptoproCsp), "КриптоПро CSP");
    let t = EntityTypeService::new_type(CreateEntityTypeInput {
        code: "invoice".into(), name: "Счёт".into(), kind: EntityKind::Document, description: None, icon: None,
    }, Some("c1".into()), "t1".into(), 3);
    assert!(t.is_active && t.code == "invoice" && t.created_at == 3);
    assert_eq!(scope_target(&Scope::Object("o1".into())), Some("o1".to_string()));
    assert_eq!(scope_target(&Scope::Company), None);
    assert!(matches!(not_enabled("crm"), PlatformError::Validation(m) if m == "Модуль 'crm' не активирован для текущей компании"));
    assert!(!check_access_cached(&None, "objects", None, "read"));
    assert!(!check_access_cached(&Some(vec![]), "objects", None, "read"));
}

#[test]
fn object_payloads_and_errors() {
    assert_eq!(creation_reason(), "Создание объекта");
    assert!(matches!(version_not_found(7), PlatformError::NotFound(m) if m == "Версия 7 не найдена"));
    match created_payload(JsonValue::Null, "t1".into(), "document".into()) {
        JsonValue::Object(m) => {
            let keys: Vec<&str> = m.iter().map(|(k, _)| k.as_str()).collect();
            assert_eq!(keys, vec!["data", "entity_type_id", "kind", "state"]);
            assert!(matches!(&m[3].1, JsonValue::String(s) if s == "draft"));
        }
        _ => panic!("payload is not an object"),
    }
}

#[test]
fn device_notices() {
    let n = device_notice(&DeviceEvent::Error { device_id: "/dev/ttyUSB0".into(), message: "x".into() });
    assert_eq!(n, Some(("warning".to_string(), "Устройство /dev/ttyUSB0".to_string())));
    let n = device_notice(&DeviceEvent::Connected { device_id: "d".into() });
    assert_eq!(n, Some(("info".to_string(), "Устройство d".to_string())));
    assert_eq!(device_notice(&DeviceEvent::Scanned { device_id: "d".into(), code: "1234".into() }), None);
}

#[test]
fn host_context() {
    assert_eq!(host_company(Some("6F1C2A3B-4D5E-4F60-8A7B-9C0D1E2F3A4B")).unwrap(), "6f1c2a3b-4d5e-4f60-8a7b-9c0d1e2f3a4b");
    assert!(host_company(None).is_err());
    assert!(host_user(Some("nope")).is_err());
    assert_eq!(host_user(Some("00000000-0000-0000-0000-000000000000")).unwrap(), "00000000-0000-0000-0000-000000000000");
}
