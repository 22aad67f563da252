use platform2c::modules::{
    api_version_mismatch, capability_denied, required_capability, ModuleManifest, ModuleService, ModuleStatus,
    InstalledModule, WasmModuleInfo,
};
use platform2c::json::JsonValue;
use platform2c::platform::PlatformError;

fn manifest(code: &str, api: &str, caps: &[&str]) -> ModuleManifest {
    ModuleManifest {
        code: code.into(),
        name: "Модуль".into(),
        version: "1.0.0".into(),
        api_version: api.into(),
        author: "a".into(),
        description: "d".into(),
        capabilities: caps.iter().map(|c| c.to_string()).collect(),
        permissions: vec![],
        handles_documents: vec![],
        functions: vec![],
    }
}

fn validation(e: PlatformError) -> String {
    match e {
        PlatformError::Validation(m) => m,
        _ => panic!("not a validation error"),
    }
}

#[test]
fn capabilities_of_host_functions() {
    assert_eq!(required_capability("kv_put"), Some("storage"));
    assert_eq!(required_capability("transition_object"), Some("objects.update"));
    assert_eq!(required_capability("users_by_role"), Some("notifications"));
    assert_eq!(required_capability("whoami"), None);
}

#[test]
fn installation_checks_in_order() {
    let m = manifest("crm", "1.0", &["storage", "logging"]);
    assert!(ModuleService::validate_install(&m, 0).is_ok());
    assert_eq!(validation(ModuleService::validate_install(&m, 1).err().unwrap()), "Модуль 'crm' уже установлен");
    let m = manifest("crm", "2.0", &["storage"]);
    assert_eq!(
        validation(ModuleService::validate_install(&m, 0).err().unwrap()),
        "Несовместимая версия API: требуется 1.0, модуль предоставляет 2.0"
    );
    let m = manifest("crm", "1.0", &["storage", "rockets"]);
    assert_eq!(
        validation(ModuleService::validate_install(&m, 0).err().unwrap()),
        "Невалидный манифест модуля: Неизвестная capability: 'rockets'. Допустимые: objects.create, objects.read, objects.update, objects.delete, metadata.read, events.emit, numbering.next, logging, notifications, storage, scripts, transactions, signature"
    );
    let m = manifest("", "1.0", &[]);
    assert_eq!(
        validation(ModuleService::validate_install(&m, 0).err().unwrap()),
        "Невалидный манифест модуля: code и name обязательны"
    );
}

#[test]
fn error_helpers() {
    match capability_denied("crm", "kv_put", "storage") {
        PlatformError::PermissionDenied(m) => assert_eq!(m, "Модуль 'crm' не имеет capability 'storage' для вызова 'kv_put'"),
        _ => panic!(),
    }
    assert_eq!(validation(api_version_mismatch("1.0", "0.9")), "Несовместимая версия API: требуется 1.0, модуль предоставляет 0.9");
}

#[test]
fn manifest_defaults_from_module_info() {
    let info = WasmModuleInfo {
        code: None,
        name: "stock".into(),
        version: "0.3".into(),
        api_version: None,
        author: None,
        description: None,
        capabilities: vec!["storage".into()],
        permissions: vec![],
        handled_documents: vec!["invoice".into()],
        functions: vec![],
    };
    let m = ModuleService::manifest_from_info(info);
    assert_eq!(m.code, "stock");
    assert_eq!(m.api_version, "1.0");
    assert_eq!(m.author, "Unknown");
    assert_eq!(m.description, "WASM модуль stock v0.3");
    assert_eq!(m.handles_documents, vec!["invoice".to_string()]);
}

#[test]
fn sha256_and_cache_names() {
    let h = ModuleService::sha256_hex(b"");
    assert_eq!(h, "e3b0c44298fc1c149afbf4c8996fb92427ae41e4649b934ca495991b7852b855");
    let h = ModuleService::sha256_hex(b"abc");
    assert_eq!(h, "ba7816bf8f01cfea414140de5dae2223b00361a396177a9cb410ff61f20015ad");
    assert_eq!(ModuleService::cache_file_name("my mod/1", &h), "my_mod_1-ba7816bf8f01cfea.wasm");
    assert_eq!(ModuleService::cache_file_name("a-b_c", "12ab"), "a-b_c-12ab.wasm");
}

#[test]
fn seeding_takes_subsystem_action_pairs() {
    let c = ModuleService::seed_candidates(&vec!["requests.approve".into(), "bad".into(), "a.b.c".into()]);
    assert_eq!(c.len(), 2);
    assert_eq!(c[0], ("requests.approve".to_string(), "requests".to_string(), "approve".to_string()));
    assert_eq!(c[1], ("a.b.c".to_string(), "a".to_string(), "b.c".to_string()));
    let p = ModuleService::seed_policy("requests.approve".into(), "requests".into(), "approve".into(), "Заявки", "id".into(), 3);
    assert_eq!(p.name, "Заявки — approve");
    assert_eq!(p.record_scope, "company");
    assert_eq!(p.actions, vec!["approve".to_string()]);
}

fn installed(id: &str) -> InstalledModule {
    InstalledModule {
        id: id.into(),
        code: id.into(),
        name: "n".into(),
        description: "d".into(),
        version: "1".into(),
        author: "a".into(),
        api_version: "1.0".into(),
        capabilities: vec![],
        functions: vec![],
        status: ModuleStatus::Installed,
        wasm_bytes: vec![],
        wasm_sha256: None,
        manifest: JsonValue::Null,
        installed_at: 0,
        updated_at: 0,
    }
}

#[test]
fn company_bindings_decide_status() {
    let mods = vec![installed("a"), installed("b"), installed("c")];
    let bindings = vec![("a".to_string(), true), ("b".to_string(), true), ("b".to_string(), false)];
    let r = ModuleService::merge_status(mods, &bindings);
    assert_eq!(r[0].status, ModuleStatus::Enabled);
    assert_eq!(r[1].status, ModuleStatus::Disabled);
    assert_eq!(r[2].status, ModuleStatus::Disabled);
    assert!(ModuleService::lookup_id("nope").is_err());
    assert!(ModuleService::lookup_id("67e55044-10b1-426f-9247-bb680e5fe0c8").is_ok());
}

#[test]
fn cache_name_takes_sixteen_bytes() {
    // the sixteenth byte ends the second of two-byte letters
    assert_eq!(ModuleService::cache_file_name("m", "ééééééééé"), "m-éééééééé.wasm");
}

#[test]
fn stale_cache_files_are_other_versions_of_the_code() {
    let keep = ModuleService::cache_file_name("trade", "ba7816bf8f01cfea414140de5dae2223");
    assert_eq!(keep, "trade-ba7816bf8f01cfea.wasm");
    assert!(!ModuleService::is_stale_cache_file(&keep, "trade", &keep));
    assert!(ModuleService::is_stale_cache_file("trade-e3b0c44298fc1c14.wasm", "trade", &keep));
    assert!(!ModuleService::is_stale_cache_file("trade-ext-e3b0c44298fc1c14.wasm", "trade", &keep));
    assert!(!ModuleService::is_stale_cache_file("trade-e3b0c44298fc1c14.tmp", "trade", &keep));
    assert!(!ModuleService::is_stale_cache_file("tradex-e3b0c44298fc1c14.wasm", "trade", &keep));
    assert!(!ModuleService::is_stale_cache_file("trade-.wasm", "trade", &keep));
    assert!(ModuleService::is_stale_cache_file("my_mod_1-0123abcd.wasm", "my mod/1", "x"));
}
