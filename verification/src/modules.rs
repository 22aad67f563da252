//! Installable WASM modules: their manifests, the capabilities a module may
//! ask for, the checks of an installation, the permission policies a module
//! seeds, and the per-company enabling of modules.

use vstd::prelude::*;
use vstd::string::StringSliceAdditionalSpecFns;
use crate::platform::PlatformError;
use crate::json::JsonValue;
use crate::text::{owned, concat2, concat3, str_eq, split_once, split_once_exec, chars_of, string_of, push_char};
use crate::validation::seq_join;
use crate::permission::PermissionPolicy;
use crate::trusted::{uuid_syntax, spec_sha256_hex, sha256_hex, hex_of};

verus! {

/// The version of the host-function API that modules are built against.
pub const CURRENT_API_VERSION: &'static str = "1.0";

/// The capabilities a module may ask for, in the order they are listed.
pub open spec fn capability_codes() -> Seq<Seq<char>> {
    seq![
        "objects.create"@, "objects.read"@, "objects.update"@, "objects.delete"@, "metadata.read"@,
        "events.emit"@, "numbering.next"@, "logging"@, "notifications"@, "storage"@, "scripts"@,
        "transactions"@, "signature"@,
    ]
}

/// Is `c` a capability that a module may ask for?
pub open spec fn capability_known(c: Seq<char>) -> bool {
    exists|i: int| 0 <= i < capability_codes().len() && capability_codes()[i] == c
}

/// The capabilities a module may ask for.
pub fn valid_capabilities() -> (r: Vec<&'static str>)
    ensures
        r@.len() == capability_codes().len(),
        forall|i: int| 0 <= i < r@.len() ==> (#[trigger] r@[i])@ == capability_codes()[i],
{
    vec![
        "objects.create", "objects.read", "objects.update", "objects.delete", "metadata.read",
        "events.emit", "numbering.next", "logging", "notifications", "storage", "scripts",
        "transactions", "signature",
    ]
}

/// The capability that a host function needs, if it needs one.
pub open spec fn capability_of(f: Seq<char>) -> Option<Seq<char>> {
    if f == "create_object"@ { Some("objects.create"@) }
    else if f == "get_object"@ || f == "list_objects"@ { Some("objects.read"@) }
    else if f == "update_object"@ || f == "transition_object"@ { Some("objects.update"@) }
    else if f == "delete_object"@ { Some("objects.delete"@) }
    else if f == "get_entity_type"@ || f == "list_entity_fields"@ { Some("metadata.read"@) }
    else if f == "emit_event"@ { Some("events.emit"@) }
    else if f == "next_number"@ { Some("numbering.next"@) }
    else if f == "log_message"@ { Some("logging"@) }
    else if f == "notify_user"@ || f == "users_by_role"@ { Some("notifications"@) }
    else if f == "kv_put"@ || f == "kv_get"@ || f == "kv_list"@ || f == "kv_delete"@ || f == "kv_put_if_absent"@ { Some("storage"@) }
    else if f == "run_script"@ { Some("scripts"@) }
    else if f == "tx_begin"@ || f == "tx_add_op"@ || f == "tx_commit"@ { Some("transactions"@) }
    else if f == "signature_required"@ || f == "cms_verify"@ { Some("signature"@) }
    else { None }
}

/// The capability that the host function `function_name` needs.
pub fn required_capability(function_name: &str) -> (r: Option<&'static str>)
    ensures
        match capability_of(function_name@) {
            Some(c) => r matches Some(x) && x@ == c,
            None => r is None,
        },
{
    let f = function_name;
    if str_eq(f, "create_object") { Some("objects.create") }
    else if str_eq(f, "get_object") || str_eq(f, "list_objects") { Some("objects.read") }
    else if str_eq(f, "update_object") || str_eq(f, "transition_object") { Some("objects.update") }
    else if str_eq(f, "delete_object") { Some("objects.delete") }
    else if str_eq(f, "get_entity_type") || str_eq(f, "list_entity_fields") { Some("metadata.read") }
    else if str_eq(f, "emit_event") { Some("events.emit") }
    else if str_eq(f, "next_number") { Some("numbering.next") }
    else if str_eq(f, "log_message") { Some("logging") }
    else if str_eq(f, "notify_user") || str_eq(f, "users_by_role") { Some("notifications") }
    else if str_eq(f, "kv_put") || str_eq(f, "kv_get") || str_eq(f, "kv_list") || str_eq(f, "kv_delete")
        || str_eq(f, "kv_put_if_absent") { Some("storage") }
    else if str_eq(f, "run_script") { Some("scripts") }
    else if str_eq(f, "tx_begin") || str_eq(f, "tx_add_op") || str_eq(f, "tx_commit") { Some("transactions") }
    else if str_eq(f, "signature_required") || str_eq(f, "cms_verify") { Some("signature") }
    else { None }
}

/// Every capability that a host function needs is one a module may ask for.
pub proof fn lemma_required_capabilities_are_known(f: Seq<char>)
    ensures
        capability_of(f) matches Some(c) ==> capability_known(c),
{
    let cs = capability_codes();
    if let Some(c) = capability_of(f) {
        assert(cs[0] == "objects.create"@);
        assert(cs[1] == "objects.read"@);
        assert(cs[2] == "objects.update"@);
        assert(cs[3] == "objects.delete"@);
        assert(cs[4] == "metadata.read"@);
        assert(cs[5] == "events.emit"@);
        assert(cs[6] == "numbering.next"@);
        assert(cs[7] == "logging"@);
        assert(cs[8] == "notifications"@);
        assert(cs[9] == "storage"@);
        assert(cs[10] == "scripts"@);
        assert(cs[11] == "transactions"@);
        assert(cs[12] == "signature"@);
    }
}

// ───────────────────────── types ─────────────────────────

/// The state of an installed module.
#[derive(PartialEq, Eq, Structural, Clone, Copy, Debug)]
pub enum ModuleStatus {
    Installed,
    Enabled,
    Disabled,
}

/// A function that a module exports.
pub struct ModuleFunction {
    pub name: String,
    pub label: String,
    pub description: String,
    pub input_schema: JsonValue,
}

/// What a module says of itself when asked (`get_info`).
pub struct WasmModuleInfo {
    pub code: Option<String>,
    pub name: String,
    pub version: String,
    pub api_version: Option<String>,
    pub author: Option<String>,
    pub description: Option<String>,
    pub capabilities: Vec<String>,
    pub permissions: Vec<String>,
    pub handled_documents: Vec<String>,
    pub functions: Vec<ModuleFunction>,
}

/// A module's manifest.
pub struct ModuleManifest {
    pub code: String,
    pub name: String,
    pub version: String,
    pub api_version: String,
    pub author: String,
    pub description: String,
    pub capabilities: Vec<String>,
    /// Policies the module needs, each `"subsystem.action"`.
    pub permissions: Vec<String>,
    /// Codes of the entity types whose posting the module orchestrates.
    pub handles_documents: Vec<String>,
    pub functions: Vec<ModuleFunction>,
}

/// An installed module. Times are milliseconds since the Unix epoch.
pub struct InstalledModule {
    pub id: String,
    pub code: String,
    pub name: String,
    pub description: String,
    pub version: String,
    pub author: String,
    pub api_version: String,
    pub capabilities: Vec<String>,
    pub functions: Vec<ModuleFunction>,
    pub status: ModuleStatus,
    pub wasm_bytes: Vec<u8>,
    pub wasm_sha256: Option<String>,
    pub manifest: JsonValue,
    pub installed_at: i64,
    pub updated_at: i64,
}

/// The binding of a module to a company: enabled or not, and its settings.
pub struct CompanyModule {
    pub id: String,
    pub company_id: String,
    pub module_id: String,
    pub enabled: bool,
    pub settings: JsonValue,
    pub installed_at: i64,
}

/// A request to install a module from its bytes.
pub struct InstallModuleInput {
    pub wasm_bytes: Vec<u8>,
}

/// New settings of a module for a company.
pub struct UpdateModuleSettingsInput {
    pub settings: JsonValue,
}

// ───────────────────────── errors ─────────────────────────

/// `NotFound`: no module with that id or code.
pub fn module_not_found(code: &str) -> (r: PlatformError)
    ensures
        r matches PlatformError::NotFound(m) && m@ == "Модуль '"@ + code@ + "' не найден"@,
{
    PlatformError::NotFound(concat3("Модуль '", code, "' не найден"))
}

/// `Validation`: a module with that code is installed already.
pub fn already_installed(code: &str) -> (r: PlatformError)
    ensures
        r matches PlatformError::Validation(m) && m@ == "Модуль '"@ + code@ + "' уже установлен"@,
{
    PlatformError::Validation(concat3("Модуль '", code, "' уже установлен"))
}

/// `PermissionDenied`: the module lacks the capability that a call needs.
pub fn capability_denied(module_code: &str, function: &str, capability: &str) -> (r: PlatformError)
    ensures
        r matches PlatformError::PermissionDenied(m)
            && m@ == "Модуль '"@ + module_code@ + "' не имеет capability '"@ + capability@ + "' для вызова '"@ + function@ + "'"@,
{
    let mut m = concat3("Модуль '", module_code, "' не имеет capability '");
    m.append(capability);
    m.append("' для вызова '");
    m.append(function);
    m.append("'");
    PlatformError::PermissionDenied(m)
}

/// `Validation`: the module was built against another API version.
pub fn api_version_mismatch(required: &str, actual: &str) -> (r: PlatformError)
    ensures
        r matches PlatformError::Validation(m)
            && m@ == "Несовместимая версия API: требуется "@ + required@ + ", модуль предоставляет "@ + actual@,
{
    let mut m = concat3("Несовместимая версия API: требуется ", required, ", модуль предоставляет ");
    m.append(actual);
    PlatformError::Validation(m)
}

/// `Validation`: the manifest is not acceptable.
pub fn invalid_manifest(details: &str) -> (r: PlatformError)
    ensures
        r matches PlatformError::Validation(m) && m@ == "Невалидный манифест модуля: "@ + details@,
{
    PlatformError::Validation(concat2("Невалидный манифест модуля: ", details))
}

/// `Validation`: the module is not enabled for the current company.
pub fn not_enabled(module_code: &str) -> (r: PlatformError)
    ensures
        r matches PlatformError::Validation(m) && m@ == "Модуль '"@ + module_code@ + "' не активирован для текущей компании"@,
{
    PlatformError::Validation(concat3("Модуль '", module_code, "' не активирован для текущей компании"))
}

// ───────────────────────── installing ─────────────────────────

/// The first capability of a manifest that modules may not ask for.
pub open spec fn first_unknown_capability(caps: Seq<String>) -> Option<int>
    decreases caps.len(),
{
    if caps.len() == 0 {
        None
    } else {
        match first_unknown_capability(caps.drop_last()) {
            Some(i) => Some(i),
            None => if capability_known(caps.last()@) { None } else { Some(caps.len() - 1) },
        }
    }
}

/// The detail text of an unknown capability.
pub open spec fn unknown_capability_detail(cap: Seq<char>) -> Seq<char> {
    "Неизвестная capability: '"@ + cap + "'. Допустимые: "@ + seq_join(capability_codes(), ", "@)
}

/// Why an installation is refused, if it is, in the order of the checks: a
/// module with the code exists (`existing` of them), the API version is not
/// the current one, a capability is unknown, or the code or name is empty.
pub open spec fn install_failure(m: ModuleManifest, existing: u64) -> Option<PlatformError> {
    if existing > 0 {
        Some(PlatformError::Validation(arbitrary()))
    } else if m.api_version@ != "1.0"@ {
        Some(PlatformError::Validation(arbitrary()))
    } else if first_unknown_capability(m.capabilities@) is Some {
        Some(PlatformError::Validation(arbitrary()))
    } else if m.code@.len() == 0 || m.name@.len() == 0 {
        Some(PlatformError::Validation(arbitrary()))
    } else {
        None
    }
}

/// The message of each refusal of `install_failure`, in the same order.
pub open spec fn install_failure_text(m: ModuleManifest, existing: u64) -> Seq<char> {
    if existing > 0 {
        "Модуль '"@ + m.code@ + "' уже установлен"@
    } else if m.api_version@ != "1.0"@ {
        "Несовместимая версия API: требуется "@ + "1.0"@ + ", модуль предоставляет "@ + m.api_version@
    } else if first_unknown_capability(m.capabilities@) is Some {
        "Невалидный манифест модуля: "@ + unknown_capability_detail(
            m.capabilities@[first_unknown_capability(m.capabilities@).unwrap()]@)
    } else {
        "Невалидный манифест модуля: "@ + "code и name обязательны"@
    }
}

/// Is `c` among the capabilities a module may ask for?
pub fn is_valid_capability(c: &str) -> (r: bool)
    ensures
        r == capability_known(c@),
{
    let all = valid_capabilities();
    let mut i: usize = 0;
    while i < all.len()
        invariant
            i <= all.len(),
            all@.len() == capability_codes().len(),
            forall|k: int| 0 <= k < all@.len() ==> (#[trigger] all@[k])@ == capability_codes()[k],
            forall|k: int| 0 <= k < i ==> capability_codes()[k] != c@,
        decreases all.len() - i,
    {
        if str_eq(all[i], c) {
            assert(capability_codes()[i as int] == c@);
            return true;
        }
        i = i + 1;
    }
    false
}

/// The capabilities a module may ask for, joined by `", "`.
fn capability_list_text() -> (r: String)
    ensures
        r@ == seq_join(capability_codes(), ", "@),
{
    let all = valid_capabilities();
    let mut r = String::new();
    let mut i: usize = 0;
    while i < all.len()
        invariant
            i <= all.len(),
            all@.len() == capability_codes().len(),
            forall|k: int| 0 <= k < all@.len() ==> (#[trigger] all@[k])@ == capability_codes()[k],
            r@ == seq_join(capability_codes().take(i as int), ", "@),
        decreases all.len() - i,
    {
        proof {
            assert(capability_codes().take(i + 1).drop_last() =~= capability_codes().take(i as int));
            assert(capability_codes().take(i + 1).last() == capability_codes()[i as int]);
        }
        if i > 0 {
            r.append(", ");
        } else {
            assert(capability_codes().take(1) =~= seq![capability_codes()[0]]);
        }
        r.append(all[i]);
        i = i + 1;
    }
    assert(capability_codes().take(all.len() as int) =~= capability_codes());
    r
}

proof fn lemma_first_unknown_prefix(caps: Seq<String>, i: int)
    requires
        0 <= i < caps.len(),
        first_unknown_capability(caps.take(i)) is None,
    ensures
        capability_known(caps[i]@) ==> first_unknown_capability(caps.take(i + 1)) is None,
        !capability_known(caps[i]@) ==> first_unknown_capability(caps.take(i + 1)) == Some(i),
{
    assert(caps.take(i + 1).drop_last() =~= caps.take(i));
}

proof fn lemma_first_unknown_extends(caps: Seq<String>, i: int, j: int)
    requires
        0 <= i <= j <= caps.len(),
        first_unknown_capability(caps.take(i)) is Some,
    ensures
        first_unknown_capability(caps.take(j)) == first_unknown_capability(caps.take(i)),
    decreases j - i,
{
    if j > i {
        lemma_first_unknown_extends(caps, i, j - 1);
        assert(caps.take(j).drop_last() =~= caps.take(j - 1));
    }
}

/// The modules of the platform.
pub struct ModuleService;

impl ModuleService {
    /// Checks a manifest for installation, given how many installed modules
    /// have its code already.
    pub fn validate_install(m: &ModuleManifest, existing: u64) -> (r: Result<(), PlatformError>)
        ensures
            match install_failure(*m, existing) {
                Some(f) => r matches Err(e) && e is Validation && crate::platform::error_detail(e) == install_failure_text(*m, existing),
                None => r is Ok,
            },
    {
        if existing > 0 {
            return Err(already_installed(m.code.as_str()));
        }
        if !str_eq(m.api_version.as_str(), CURRENT_API_VERSION) {
            return Err(api_version_mismatch(CURRENT_API_VERSION, m.api_version.as_str()));
        }
        assert(m.api_version@ == "1.0"@);
        let mut i: usize = 0;
        while i < m.capabilities.len()
            invariant
                i <= m.capabilities@.len(),
                existing == 0,
                m.api_version@ == "1.0"@,
                first_unknown_capability(m.capabilities@.take(i as int)) is None,
            decreases m.capabilities.len() - i,
        {
            proof { lemma_first_unknown_prefix(m.capabilities@, i as int); }
            if !is_valid_capability(m.capabilities[i].as_str()) {
                proof {
                    lemma_first_unknown_extends(m.capabilities@, i + 1, m.capabilities@.len() as int);
                    assert(m.capabilities@.take(m.capabilities@.len() as int) =~= m.capabilities@);
                }
                let list = capability_list_text();
                let mut d = concat3("Неизвестная capability: '", m.capabilities[i].as_str(), "'. Допустимые: ");
                d.append(list.as_str());
                assert(d@ =~= unknown_capability_detail(m.capabilities@[i as int]@));
                let e = invalid_manifest(d.as_str());
                assert(first_unknown_capability(m.capabilities@) == Some(i as int));
                return Err(e);
            }
            i = i + 1;
        }
        assert(m.capabilities@.take(m.capabilities@.len() as int) =~= m.capabilities@);
        if m.code.as_str().is_empty() || m.name.as_str().is_empty() {
            return Err(invalid_manifest("code и name обязательны"));
        }
        Ok(())
    }

    /// The manifest of a module, built from what the module says of itself
    /// alone: its code defaults to its name, its API version to the current
    /// one, its author to `"Unknown"`, its description to a generic one.
    pub fn manifest_from_info(info: WasmModuleInfo) -> (r: ModuleManifest)
        ensures
            r.code@ == (match info.code { Some(c) => c@, None => info.name@ }),
            r.name == info.name,
            r.version == info.version,
            r.api_version@ == (match info.api_version { Some(a) => a@, None => "1.0"@ }),
            r.author@ == (match info.author { Some(a) => a@, None => "Unknown"@ }),
            r.description@ == (match info.description {
                Some(d) => d@,
                None => "WASM модуль "@ + info.name@ + " v"@ + info.version@,
            }),
            r.capabilities == info.capabilities,
            r.permissions == info.permissions,
            r.handles_documents == info.handled_documents,
            r.functions == info.functions,
    {
        let code = match info.code { Some(c) => c, None => info.name.clone() };
        let api_version = match info.api_version { Some(a) => a, None => owned(CURRENT_API_VERSION) };
        let author = match info.author { Some(a) => a, None => owned("Unknown") };
        let description = match info.description {
            Some(d) => d,
            None => {
                let mut d = concat3("WASM модуль ", info.name.as_str(), " v");
                d.append(info.version.as_str());
                d
            },
        };
        ModuleManifest {
            code,
            name: info.name,
            version: info.version,
            api_version,
            author,
            description,
            capabilities: info.capabilities,
            permissions: info.permissions,
            handles_documents: info.handled_documents,
            functions: info.functions,
        }
    }

    /// The lower-case hex SHA-256 of a module's bytes.
    pub fn sha256_hex(data: &[u8]) -> (r: String)
        ensures
            r@ == spec_sha256_hex(data@),
            r@.len() == 64,
    {
        sha256_hex(data)
    }

    /// The file name under which a module's bytes are cached: its code with
    /// every character but ASCII letters, digits, `-` and `_` replaced by `_`,
    /// a dash, the first 16 bytes of the hash, and `.wasm`.
    pub fn cache_file_name(code: &str, hash: &str) -> (r: String)
        requires
            hash.spec_bytes().len() <= 16 || vstd::utf8::is_char_boundary(hash.spec_bytes(), 16),
        ensures
            r@ == safe_code(code@) + "-"@ + cache_hash_part(hash@) + ".wasm"@,
    {
        let mut r = safe_code_exec(code);
        push_char(&mut r, '-');
        let n: usize = if hash.as_bytes().len() < 16 { hash.as_bytes().len() } else { 16 };
        proof {
            vstd::utf8::encode_utf8_valid_utf8(hash@);
            vstd::utf8::is_char_boundary_start_end_of_seq(hash.spec_bytes());
        }
        let (head, _tail) = hash.split_at(n);
        proof {
            reveal_strlit("-");
            vstd::utf8::encode_utf8_decode_utf8(head@);
            assert(head.spec_bytes() =~= vstd::utf8::encode_utf8(hash@).subrange(0, n as int));
        }
        r.append(head);
        r.append(".wasm");
        r
    }

    /// Is a file of the module cache another cached version of this code,
    /// that is to go when `keep` is written? It is when its name is the
    /// code's safe form, a dash, a hash prefix (one to 16 lower-case hex
    /// digits) and `.wasm`, and it is not `keep` itself. Files of other
    /// codes, such as `trade-ext-….wasm` for the code `trade`, stay.
    pub fn is_stale_cache_file(file_name: &str, code: &str, keep: &str) -> (r: bool)
        ensures
            r == other_cached_version(file_name@, code@, keep@),
    {
        if str_eq(file_name, keep) {
            return false;
        }
        let mut p = safe_code_exec(code);
        push_char(&mut p, '-');
        let pc = chars_of(p.as_str());
        let n = chars_of(file_name);
        let suffix = chars_of(".wasm");
        proof { reveal_strlit(".wasm"); reveal_strlit("-"); }
        if n.len() < pc.len() || n.len() - pc.len() < 5 {
            return false;
        }
        let mut i: usize = 0;
        while i < pc.len()
            invariant
                i <= pc.len() <= n.len(),
                pc@ == safe_code(code@) + "-"@,
                n@ == file_name@,
                forall|j: int| 0 <= j < i ==> n@[j] == pc@[j],
            decreases pc.len() - i,
        {
            if n[i] != pc[i] {
                assert(n@.subrange(0, pc@.len() as int)[i as int] != pc@[i as int]);
                return false;
            }
            i = i + 1;
        }
        assert(n@.subrange(0, pc@.len() as int) =~= pc@);
        let end: usize = n.len() - 5;
        let mut k: usize = 0;
        while k < 5
            invariant
                k <= 5,
                end + 5 == n.len(),
                suffix@ == ".wasm"@,
                suffix@.len() == 5,
                n@ == file_name@,
                forall|j: int| 0 <= j < k ==> n@[end + j] == suffix@[j],
            decreases 5 - k,
        {
            if n[end + k] != suffix[k] {
                assert(n@.subrange(end as int, n@.len() as int)[k as int] != suffix@[k as int]);
                return false;
            }
            k = k + 1;
        }
        assert(n@.subrange(end as int, n@.len() as int) =~= ".wasm"@);
        let start = pc.len();
        if end - start < 1 || end - start > 16 {
            return false;
        }
        let mut m: usize = start;
        while m < end
            invariant
                start <= m <= end < n.len(),
                end + 5 == n@.len(),
                start == pc@.len(),
                pc@ == safe_code(code@) + "-"@,
                n@ == file_name@,
                forall|j: int| start <= j < m ==> is_lower_hex(#[trigger] n@[j]),
            decreases end - m,
        {
            let c = n[m];
            if !(('0' <= c && c <= '9') || ('a' <= c && c <= 'f')) {
                assert(!is_lower_hex(n@.subrange(start as int, end as int)[m - start]));
                return false;
            }
            m = m + 1;
        }
        assert forall|j: int| 0 <= j < n@.subrange(start as int, end as int).len()
            implies is_lower_hex(#[trigger] n@.subrange(start as int, end as int)[j]) by {
            assert(n@.subrange(start as int, end as int)[j] == n@[start + j]);
        }
        true
    }

    /// The policies a module's manifest asks to seed: each permission of the
    /// form `subsystem.action` (split at its first dot); others are skipped.
    pub fn seed_candidates(permissions: &Vec<String>) -> (r: Vec<(String, String, String)>)
        ensures
            r@.len() == seed_list(permissions@).len(),
            forall|i: int| 0 <= i < r@.len() ==> ((#[trigger] r@[i]).0@, r@[i].1@, r@[i].2@) == seed_list(permissions@)[i],
    {
        let mut r: Vec<(String, String, String)> = Vec::new();
        let mut i: usize = 0;
        while i < permissions.len()
            invariant
                i <= permissions.len(),
                r@.len() == seed_list(permissions@.take(i as int)).len(),
                forall|k: int| 0 <= k < r@.len() ==> ((#[trigger] r@[k]).0@, r@[k].1@, r@[k].2@) == seed_list(permissions@.take(i as int))[k],
            decreases permissions.len() - i,
        {
            proof {
                assert(permissions@.take(i + 1).drop_last() =~= permissions@.take(i as int));
                assert(permissions@.take(i + 1).last() == permissions@[i as int]);
            }
            match split_once_exec(permissions[i].as_str(), '.') {
                Some((sub, act)) => {
                    r.push((permissions[i].clone(), sub, act));
                },
                None => {},
            }
            i = i + 1;
        }
        assert(permissions@.take(permissions.len() as int) =~= permissions@);
        r
    }

    /// The policy seeded for a module's permission `code` = `subsystem.action`:
    /// an allow of that one action, company-wide, priority 0.
    pub fn seed_policy(code: String, subsystem: String, action: String, module_name: &str, id: String, now: i64) -> (r: PermissionPolicy)
        ensures
            r.id == id,
            r.code == code,
            r.name@ == module_name@ + " — "@ + action@,
            r.description is None,
            r.scope_type@ == "subsystem"@,
            r.subsystem_code == subsystem,
            r.entity_type is None,
            r.actions@.len() == 1 && r.actions@[0] == action,
            r.record_scope@ == "company"@,
            !r.deny,
            r.priority == 0,
            r.created_at == now,
            r.updated_at == now,
    {
        let name = concat3(module_name, " — ", action.as_str());
        let mut actions: Vec<String> = Vec::new();
        actions.push(action);
        PermissionPolicy {
            id,
            code,
            name,
            description: None,
            scope_type: owned("subsystem"),
            subsystem_code: subsystem,
            entity_type: None,
            actions,
            record_scope: owned("company"),
            deny: false,
            priority: 0,
            created_at: now,
            updated_at: now,
        }
    }

    /// The installed record of a module that passed `validate_install`:
    /// enabled, with the hash of its bytes.
    pub fn installed_from(
        m: ModuleManifest,
        wasm_bytes: Vec<u8>,
        manifest_json: JsonValue,
        id: String,
        now: i64,
    ) -> (r: InstalledModule)
        ensures
            r.id == id,
            r.code == m.code,
            r.name == m.name,
            r.description == m.description,
            r.version == m.version,
            r.author == m.author,
            r.api_version == m.api_version,
            r.capabilities == m.capabilities,
            r.functions == m.functions,
            r.status == ModuleStatus::Enabled,
            r.wasm_bytes == wasm_bytes,
            r.wasm_sha256 matches Some(h) && h@ == spec_sha256_hex(wasm_bytes@),
            r.manifest == manifest_json,
            r.installed_at == now,
            r.updated_at == now,
    {
        let h = sha256_hex(wasm_bytes.as_slice());
        InstalledModule {
            id,
            code: m.code,
            name: m.name,
            description: m.description,
            version: m.version,
            author: m.author,
            api_version: m.api_version,
            capabilities: m.capabilities,
            functions: m.functions,
            status: ModuleStatus::Enabled,
            wasm_bytes,
            wasm_sha256: Some(h),
            manifest: manifest_json,
            installed_at: now,
            updated_at: now,
        }
    }

    /// A new binding of a module to a company: enabled, with empty settings.
    pub fn company_binding(id: String, company_id: String, module_id: String, now: i64) -> (r: CompanyModule)
        ensures
            r.id == id,
            r.company_id == company_id,
            r.module_id == module_id,
            r.enabled,
            r.settings matches JsonValue::Object(ms) && ms@.len() == 0,
            r.installed_at == now,
    {
        CompanyModule { id, company_id, module_id, enabled: true, settings: JsonValue::Object(Vec::new()), installed_at: now }
    }

    /// Resolves a module id for a lookup: an id that is not a UUID names no module.
    pub fn lookup_id(module_id: &str) -> (r: Result<(), PlatformError>)
        ensures
            uuid_syntax(module_id@) ==> r is Ok,
            !uuid_syntax(module_id@) ==> (r matches Err(PlatformError::NotFound(m)) && m@ == "Модуль '"@ + module_id@ + "' не найден"@),
    {
        if crate::trusted::uuid_parses(module_id) {
            Ok(())
        } else {
            Err(module_not_found(module_id))
        }
    }

    /// The status of each module for a company: enabled or disabled as the
    /// company's binding says (the last binding of a module counts), disabled
    /// without a binding.
    pub fn merge_status(modules: Vec<InstalledModule>, bindings: &Vec<(String, bool)>) -> (r: Vec<InstalledModule>)
        ensures
            r@.len() == modules@.len(),
            forall|i: int| 0 <= i < r@.len() ==> #[trigger] r@[i] == (InstalledModule {
                status: if binding_of(bindings@, modules@[i].id@) == Some(true) {
                    ModuleStatus::Enabled
                } else {
                    ModuleStatus::Disabled
                },
                ..modules@[i]
            }),
    {
        let mut out: Vec<InstalledModule> = Vec::new();
        let mut rest = modules;
        let ghost orig = rest@;
        let n = rest.len();
        let mut k: usize = 0;
        while k < n
            invariant
                k <= n,
                n == orig.len(),
                rest@ == orig.skip(k as int),
                out@.len() == k,
                forall|i: int| 0 <= i < k ==> #[trigger] out@[i] == (InstalledModule {
                    status: if binding_of(bindings@, orig[i].id@) == Some(true) {
                        ModuleStatus::Enabled
                    } else {
                        ModuleStatus::Disabled
                    },
                    ..orig[i]
                }),
            decreases n - k,
        {
            let m = rest.remove(0);
            proof {
                assert(m == orig[k as int]);
                assert(rest@ =~= orig.skip(k + 1));
            }
            let b = binding_lookup(bindings, m.id.as_str());
            let status = match b {
                Some(true) => ModuleStatus::Enabled,
                _ => ModuleStatus::Disabled,
            };
            out.push(InstalledModule { status, ..m });
            k = k + 1;
        }
        out
    }
}

/// The code of a module with every character but ASCII letters, digits, `-`
/// and `_` replaced by `_`.
pub open spec fn safe_code(code: Seq<char>) -> Seq<char>
    decreases code.len(),
{
    if code.len() == 0 {
        Seq::empty()
    } else {
        let c = code.last();
        let ok = ('a' <= c <= 'z') || ('A' <= c <= 'Z') || ('0' <= c <= '9') || c == '-' || c == '_';
        safe_code(code.drop_last()).push(if ok { c } else { '_' })
    }
}

/// The code's safe form, built character by character.
fn safe_code_exec(code: &str) -> (r: String)
    ensures
        r@ == safe_code(code@),
{
    let cs = chars_of(code);
    let mut r = String::new();
    let mut i: usize = 0;
    while i < cs.len()
        invariant
            i <= cs.len(),
            cs@ == code@,
            r@ == safe_code(code@.take(i as int)),
        decreases cs.len() - i,
    {
        let c = cs[i];
        let ok = ('a' <= c && c <= 'z') || ('A' <= c && c <= 'Z') || ('0' <= c && c <= '9') || c == '-' || c == '_';
        proof {
            assert(code@.take(i + 1).drop_last() =~= code@.take(i as int));
            assert(code@.take(i + 1).last() == c);
        }
        push_char(&mut r, if ok { c } else { '_' });
        i = i + 1;
    }
    assert(code@.take(cs.len() as int) =~= code@);
    r
}

/// The part of a hash that names a cached file: its first 16 bytes (all of
/// it when shorter), read back as text.
pub open spec fn cache_hash_part(hash: Seq<char>) -> Seq<char> {
    let b = vstd::utf8::encode_utf8(hash);
    vstd::utf8::decode_utf8(b.subrange(0, if b.len() < 16 { b.len() as int } else { 16 }))
}

/// A lower-case hexadecimal digit.
pub open spec fn is_lower_hex(c: char) -> bool {
    ('0' <= c <= '9') || ('a' <= c <= 'f')
}

/// Does a cached file name belong to another version of `code` than `keep`:
/// the code's safe form, a dash, one to 16 lower-case hex digits, `.wasm`?
pub open spec fn other_cached_version(name: Seq<char>, code: Seq<char>, keep: Seq<char>) -> bool {
    let p = safe_code(code) + "-"@;
    let h = name.subrange(p.len() as int, name.len() - 5);
    &&& name != keep
    &&& name.len() >= p.len() + 5
    &&& name.subrange(0, p.len() as int) == p
    &&& name.subrange(name.len() - 5, name.len() as int) == ".wasm"@
    &&& 1 <= h.len() <= 16
    &&& forall|j: int| 0 <= j < h.len() ==> is_lower_hex(#[trigger] h[j])
}

/// A file named for a version of a code (its safe form, a dash, a hash
/// prefix of lower-case hex digits, `.wasm`) is stale for that code unless it
/// is the file being kept.
pub proof fn lemma_versions_of_code_are_stale(code: Seq<char>, h: Seq<char>, keep: Seq<char>)
    requires
        1 <= h.len() <= 16,
        forall|j: int| 0 <= j < h.len() ==> is_lower_hex(#[trigger] h[j]),
        safe_code(code) + "-"@ + h + ".wasm"@ != keep,
    ensures
        other_cached_version(safe_code(code) + "-"@ + h + ".wasm"@, code, keep),
{
    reveal_strlit("-");
    reveal_strlit(".wasm");
    let p = safe_code(code) + "-"@;
    let name = p + h + ".wasm"@;
    assert(name.subrange(0, p.len() as int) =~= p);
    assert(name.subrange(name.len() - 5, name.len() as int) =~= ".wasm"@);
    assert(name.subrange(p.len() as int, name.len() - 5) =~= h);
}

/// Storing a version of one code never removes the cached files of a code
/// with another safe form, whatever hash-like text (without dashes) follows
/// it: `trade-ext-….wasm` is no version of `trade`.
pub proof fn lemma_other_codes_kept(code: Seq<char>, other: Seq<char>, h: Seq<char>, keep: Seq<char>)
    requires
        safe_code(code) != safe_code(other),
        forall|j: int| 0 <= j < h.len() ==> #[trigger] h[j] != '-',
    ensures
        !other_cached_version(safe_code(other) + "-"@ + h + ".wasm"@, code, keep),
{
    reveal_strlit("-");
    reveal_strlit(".wasm");
    let p = safe_code(code) + "-"@;
    let q = safe_code(other) + "-"@;
    let name = q + h + ".wasm"@;
    if other_cached_version(name, code, keep) {
        let hp = name.subrange(p.len() as int, name.len() - 5);
        assert(name.len() - 5 == q.len() + h.len());
        if p.len() < q.len() {
            let i = q.len() - 1;
            assert(name[i] == '-');
            assert(hp[i - p.len()] == name[i]);
            assert(is_lower_hex(hp[i - p.len()]));
        } else if p.len() > q.len() {
            let i = p.len() - 1;
            assert(name.subrange(0, p.len() as int)[i] == name[i]);
            assert(name[i] == '-');
            assert(name[i] == h[i - q.len()]);
        } else {
            assert(name.subrange(0, p.len() as int) =~= q);
            assert(safe_code(code) =~= p.drop_last());
            assert(safe_code(other) =~= q.drop_last());
        }
    }
}

/// The policies to seed for a module's permissions, in order: each permission
/// of the form `subsystem.action` (split at its first dot) with its parts;
/// the others are skipped.
pub open spec fn seed_list(ps: Seq<String>) -> Seq<(Seq<char>, Seq<char>, Seq<char>)>
    decreases ps.len(),
{
    if ps.len() == 0 {
        Seq::empty()
    } else {
        let before = seed_list(ps.drop_last());
        match split_once(ps.last()@, '.') {
            Some((sub, act)) => before.push((ps.last()@, sub, act)),
            None => before,
        }
    }
}

/// What the bindings say of a module: the flag of its last binding.
pub open spec fn binding_of(bindings: Seq<(String, bool)>, module_id: Seq<char>) -> Option<bool>
    decreases bindings.len(),
{
    if bindings.len() == 0 {
        None
    } else if bindings.last().0@ == module_id {
        Some(bindings.last().1)
    } else {
        binding_of(bindings.drop_last(), module_id)
    }
}

/// The flag of the last binding of a module.
pub fn binding_lookup(bindings: &Vec<(String, bool)>, module_id: &str) -> (r: Option<bool>)
    ensures
        r == binding_of(bindings@, module_id@),
{
    let mut i: usize = bindings.len();
    assert(bindings@.take(i as int) =~= bindings@);
    while i > 0
        invariant
            i <= bindings.len(),
            binding_of(bindings@, module_id@) == binding_of(bindings@.take(i as int), module_id@),
        decreases i,
    {
        proof {
            assert(bindings@.take(i as int).drop_last() =~= bindings@.take(i - 1));
            assert(bindings@.take(i as int).last() == bindings@[i - 1]);
        }
        if str_eq(bindings[i - 1].0.as_str(), module_id) {
            return Some(bindings[i - 1].1);
        }
        i = i - 1;
    }
    assert(bindings@.take(0) =~= Seq::<(String, bool)>::empty());
    None
}

} // verus!
