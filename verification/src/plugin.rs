//! The host side of the plugin contract: the reply envelope of host
//! functions, the capability check before each call, the context a call runs
//! in, the namespacing of a module's key-value storage, and the routing of
//! document posting to an orchestrating module; the answer to a plugin call,
//! the checks before a module is loaded, and the report of loading a
//! company's modules.

use vstd::prelude::*;
use crate::json::{JsonValue, json_get, json_member_str};
use crate::text::{owned, concat2, concat3, str_eq, chars_of, push_char, contains, nat_dec, u64_to_dec};
use crate::trusted::{uuid_syntax, uuid_canonical, spec_uuid_canonical, uuid_error_text, spec_uuid_error_text};
use crate::modules::{capability_of, required_capability};
use crate::events::ActorSnapshot;
use crate::middleware::SessionUser;

verus! {

/// Is `v` the error reply `{"error": {"code": code, "message": message}, "ok": false}`?
pub open spec fn is_error_envelope(v: JsonValue, code: Seq<char>, message: Seq<char>) -> bool {
    v matches JsonValue::Object(m) && m@.len() == 2
        && m@[0].0@ == "error"@ && m@[1].0@ == "ok"@ && m@[1].1 == JsonValue::Bool(false)
        && (m@[0].1 matches JsonValue::Object(e) && e@.len() == 2
            && e@[0].0@ == "code"@ && (e@[0].1 matches JsonValue::String(c) && c@ == code)
            && e@[1].0@ == "message"@ && (e@[1].1 matches JsonValue::String(t) && t@ == message))
}

/// The error reply of a host function.
pub fn error_envelope(code: &str, message: &str) -> (r: JsonValue)
    ensures
        is_error_envelope(r, code@, message@),
{
    let mut e: Vec<(String, JsonValue)> = Vec::new();
    e.push((owned("code"), JsonValue::String(owned(code))));
    e.push((owned("message"), JsonValue::String(owned(message))));
    let mut m: Vec<(String, JsonValue)> = Vec::new();
    m.push((owned("error"), JsonValue::Object(e)));
    m.push((owned("ok"), JsonValue::Bool(false)));
    JsonValue::Object(m)
}

/// The success reply of a host function: `{"data": data, "ok": true}`.
pub fn ok_envelope(data: JsonValue) -> (r: JsonValue)
    ensures
        r matches JsonValue::Object(m) && m@.len() == 2
            && m@[0].0@ == "data"@ && m@[0].1 == data
            && m@[1].0@ == "ok"@ && m@[1].1 == JsonValue::Bool(true),
{
    let mut m: Vec<(String, JsonValue)> = Vec::new();
    m.push((owned("data"), data));
    m.push((owned("ok"), JsonValue::Bool(true)));
    JsonValue::Object(m)
}

/// What a plugin's reply says: success when its `ok` member is `true`;
/// otherwise `"code: message"` from its `error` member (`PLUGIN_ERROR` and
/// an empty message where they are missing).
pub open spec fn envelope_outcome(v: JsonValue) -> Result<(), Seq<char>> {
    if json_get(v, "ok"@) == Some(JsonValue::Bool(true)) {
        Ok(())
    } else {
        let err = match json_get(v, "error"@) { Some(e) => e, None => JsonValue::Null };
        let code = match json_member_str(err, "code"@) { Some(c) => c, None => "PLUGIN_ERROR"@ };
        let msg = match json_member_str(err, "message"@) { Some(m) => m, None => Seq::empty() };
        Err(code + ": "@ + msg)
    }
}

/// Reads a plugin's reply.
pub fn check_envelope(v: &JsonValue) -> (r: Result<(), String>)
    ensures
        match envelope_outcome(*v) {
            Ok(()) => r is Ok,
            Err(m) => r matches Err(e) && e@ == m,
        },
{
    let ok = match v.get("ok") {
        Some(x) => match x.as_bool() { Some(b) => b, None => false },
        None => false,
    };
    proof {
        match json_get(*v, "ok"@) {
            Some(x) => { if x is Bool { assert(ok == (x == JsonValue::Bool(true))); } },
            None => {},
        }
    }
    if ok {
        return Ok(());
    }
    let null = JsonValue::Null;
    let err = match v.get("error") { Some(e) => e, None => &null };
    let code = match err.member_str("code") { Some(c) => c, None => "PLUGIN_ERROR" };
    let msg = match err.member_str("message") { Some(m) => m, None => "" };
    proof {
        reveal_strlit("");
        let e = match json_get(*v, "error"@) { Some(e) => e, None => JsonValue::Null };
        assert(*err == e);
        assert(code@ == match json_member_str(e, "code"@) { Some(c) => c, None => "PLUGIN_ERROR"@ });
        assert(msg@ == match json_member_str(e, "message"@) { Some(m) => m, None => Seq::<char>::empty() });
        assert(json_get(*v, "ok"@) != Some(JsonValue::Bool(true)));
    }
    Err(concat3(code, ": ", msg))
}

/// What a plugin's raw reply says, given what parsing it as JSON gave: a
/// reply that is not JSON is refused with `ответ плагина невалиден: ` and
/// the parser's message; a parsed one is read as its envelope says.
pub fn check_plugin_envelope(parsed: Result<JsonValue, String>) -> (r: Result<(), String>)
    ensures
        match parsed {
            Err(e) => r matches Err(m) && m@ == "ответ плагина невалиден: "@ + e@,
            Ok(v) => match envelope_outcome(v) {
                Ok(()) => r is Ok,
                Err(m) => r matches Err(e) && e@ == m,
            },
        },
{
    match parsed {
        Err(e) => Err(concat2("ответ плагина невалиден: ", e.as_str())),
        Ok(v) => check_envelope(&v),
    }
}

/// The reply that refuses a call for want of a capability, if the call is refused.
pub open spec fn capability_refusal(module_code: Option<Seq<char>>, caps: Seq<String>, function: Seq<char>) -> Option<Seq<char>> {
    match capability_of(function) {
        None => None,
        Some(c) => if exists|i: int| 0 <= i < caps.len() && (#[trigger] caps[i])@ == c {
            None
        } else {
            let code = match module_code { Some(m) => m, None => "unknown"@ };
            Some("Модуль '"@ + code + "' не имеет capability '"@ + c + "' для вызова '"@ + function + "'"@)
        },
    }
}

/// Checks that a module holds the capability that a host function needs;
/// the refusal is the `CAPABILITY_DENIED` reply.
pub fn check_capability(module_code: Option<&str>, capabilities: &Vec<String>, function_name: &str) -> (r: Result<(), JsonValue>)
    ensures
        match capability_refusal(crate::permission::opt_str_view(module_code), capabilities@, function_name@) {
            None => r is Ok,
            Some(m) => r matches Err(e) && is_error_envelope(e, "CAPABILITY_DENIED"@, m),
        },
{
    let required = match required_capability(function_name) {
        None => { return Ok(()); },
        Some(c) => c,
    };
    let mut i: usize = 0;
    while i < capabilities.len()
        invariant
            i <= capabilities.len(),
            capability_of(function_name@) == Some(required@),
            forall|k: int| 0 <= k < i ==> (#[trigger] capabilities@[k])@ != required@,
        decreases capabilities.len() - i,
    {
        if str_eq(capabilities[i].as_str(), required) {
            assert(capabilities@[i as int]@ == required@);
            return Ok(());
        }
        i = i + 1;
    }
    let code = match module_code { Some(m) => m, None => "unknown" };
    let mut m = concat3("Модуль '", code, "' не имеет capability '");
    m.append(required);
    m.append("' для вызова '");
    m.append(function_name);
    m.append("'");
    Err(error_envelope("CAPABILITY_DENIED", m.as_str()))
}

// ───────────────────────── call context ─────────────────────────

/// The company of a host call: missing is `NO_COMPANY`, not a UUID is
/// `INVALID_COMPANY`.
pub fn host_company(company_id: Option<&str>) -> (r: Result<String, JsonValue>)
    ensures
        company_id is None ==> (r matches Err(e) && is_error_envelope(e, "NO_COMPANY"@, "Компания не выбрана"@)),
        company_id matches Some(c) && !uuid_syntax(c@) ==> (r matches Err(e)
            && is_error_envelope(e, "INVALID_COMPANY"@, "Невалидный UUID компании"@)),
        company_id matches Some(c) ==> (uuid_syntax(c@) ==> (r matches Ok(s) && s@ == spec_uuid_canonical(c@))),
{
    match company_id {
        None => Err(error_envelope("NO_COMPANY", "Компания не выбрана")),
        Some(c) => match uuid_canonical(c) {
            Some(s) => Ok(s),
            None => Err(error_envelope("INVALID_COMPANY", "Невалидный UUID компании")),
        },
    }
}

/// The user of a host call: missing is `NO_USER`, not a UUID is `INVALID_USER`.
pub fn host_user(user_id: Option<&str>) -> (r: Result<String, JsonValue>)
    ensures
        user_id is None ==> (r matches Err(e) && is_error_envelope(e, "NO_USER"@, "Пользователь не аутентифицирован"@)),
        user_id matches Some(u) && !uuid_syntax(u@) ==> (r matches Err(e)
            && is_error_envelope(e, "INVALID_USER"@, "Невалидный UUID пользователя"@)),
        user_id matches Some(u) ==> (uuid_syntax(u@) ==> (r matches Ok(s) && s@ == spec_uuid_canonical(u@))),
{
    match user_id {
        None => Err(error_envelope("NO_USER", "Пользователь не аутентифицирован")),
        Some(u) => match uuid_canonical(u) {
            Some(s) => Ok(s),
            None => Err(error_envelope("INVALID_USER", "Невалидный UUID пользователя")),
        },
    }
}

/// The text of the nil UUID.
pub open spec fn nil_uuid() -> Seq<char> {
    "00000000-0000-0000-0000-000000000000"@
}

/// The actor of the current session as events record it: the signed-in user
/// (the nil UUID and an empty login without one), the display name unless it
/// is empty, and the current company (the nil UUID unless it is a UUID).
pub fn build_actor(user: Option<&SessionUser>, company_id: Option<&str>) -> (r: ActorSnapshot)
    ensures
        match user {
            Some(u) => r.user_id == u.id && r.login == u.login
                && r.full_name == (if u.display_name@.len() == 0 { None } else { Some(u.display_name) }),
            None => r.user_id@ == nil_uuid() && r.login@.len() == 0 && r.full_name is None,
        },
        r.position is None,
        match company_id {
            Some(c) => if uuid_syntax(c@) { r.company_id@ == spec_uuid_canonical(c@) } else { r.company_id@ == nil_uuid() },
            None => r.company_id@ == nil_uuid(),
        },
{
    let (user_id, login, full_name) = match user {
        Some(u) => (
            u.id.clone(),
            u.login.clone(),
            if u.display_name.as_str().is_empty() { None } else { Some(u.display_name.clone()) },
        ),
        None => (owned("00000000-0000-0000-0000-000000000000"), String::new(), None),
    };
    let company = match company_id {
        Some(c) => match uuid_canonical(c) {
            Some(s) => s,
            None => owned("00000000-0000-0000-0000-000000000000"),
        },
        None => owned("00000000-0000-0000-0000-000000000000"),
    };
    ActorSnapshot { user_id, login, full_name, position: None, company_id: company }
}

// ───────────────────────── key-value storage ─────────────────────────

/// The namespace of a module's keys: `"{company}:{module}:"`.
pub open spec fn namespace_of(company: Seq<char>, module_code: Seq<char>) -> Seq<char> {
    company + ":"@ + module_code + ":"@
}

/// The namespace of the calling module's keys; a call without a company is
/// `NO_COMPANY`, one from a module without a code `NO_MODULE_CODE`.
pub fn kv_namespace(company_id: Option<&str>, module_code: Option<&str>) -> (r: Result<String, JsonValue>)
    ensures
        company_id is None ==> (r matches Err(e) && is_error_envelope(e, "NO_COMPANY"@, "Компания не выбрана"@)),
        company_id is Some && module_code is None ==> (r matches Err(e)
            && is_error_envelope(e, "NO_MODULE_CODE"@, "Модуль без кода"@)),
        company_id matches Some(c) ==> (module_code matches Some(m) ==> (r matches Ok(s) && s@ == namespace_of(c@, m@))),
{
    let c = match company_id {
        None => { return Err(error_envelope("NO_COMPANY", "Компания не выбрана")); },
        Some(c) => c,
    };
    let m = match module_code {
        None => { return Err(error_envelope("NO_MODULE_CODE", "Модуль без кода")); },
        Some(m) => m,
    };
    let mut s = concat3(c, ":", m);
    s.append(":");
    Ok(s)
}

/// The stored key of a module's key: its namespace, then the key.
pub fn kv_full_key(namespace: &str, key: &str) -> (r: String)
    ensures
        r@ == namespace@ + key@,
{
    concat2(namespace, key)
}

/// Storage isolation: when company ids and module codes hold no `:`, two
/// modules (or one module in two companies) never share a stored key, whatever
/// keys they pass.
pub proof fn lemma_kv_namespaces_disjoint(
    c1: Seq<char>, m1: Seq<char>, k1: Seq<char>,
    c2: Seq<char>, m2: Seq<char>, k2: Seq<char>,
)
    requires
        !contains(c1, ":"@), !contains(m1, ":"@), !contains(c2, ":"@), !contains(m2, ":"@),
        c1 != c2 || m1 != m2,
    ensures
        namespace_of(c1, m1) + k1 != namespace_of(c2, m2) + k2,
{
    reveal_strlit(":");
    let a = namespace_of(c1, m1) + k1;
    let b = namespace_of(c2, m2) + k2;
    if a == b {
        // The first `:` of each key ends its company id.
        assert(a[c1.len() as int] == ':');
        assert(b[c2.len() as int] == ':');
        if c1.len() < c2.len() {
            assert(b[c1.len() as int] == c2[c1.len() as int]);
            assert(c2.subrange(c1.len() as int, c1.len() as int + 1) =~= ":"@);
            assert(crate::text::occurs_at(c2, ":"@, c1.len() as int));
        } else if c2.len() < c1.len() {
            assert(a[c2.len() as int] == c1[c2.len() as int]);
            assert(c1.subrange(c2.len() as int, c2.len() as int + 1) =~= ":"@);
            assert(crate::text::occurs_at(c1, ":"@, c2.len() as int));
        } else {
            assert(c1 =~= a.take(c1.len() as int));
            assert(c2 =~= b.take(c2.len() as int));
            // Same company: the second `:` ends the module code.
            let o: int = c1.len() as int + 1;
            assert(a[o + m1.len()] == ':');
            assert(b[o + m2.len()] == ':');
            if m1.len() < m2.len() {
                assert(b[o + m1.len()] == m2[m1.len() as int]);
                assert(m2.subrange(m1.len() as int, m1.len() as int + 1) =~= ":"@);
                assert(crate::text::occurs_at(m2, ":"@, m1.len() as int));
            } else if m2.len() < m1.len() {
                assert(a[o + m2.len()] == m1[m2.len() as int]);
                assert(m1.subrange(m2.len() as int, m2.len() as int + 1) =~= ":"@);
                assert(crate::text::occurs_at(m1, ":"@, m2.len() as int));
            } else {
                assert(m1 =~= a.subrange(o, o + m1.len()));
                assert(m2 =~= b.subrange(o, o + m2.len()));
            }
        }
    }
}

/// Escapes the characters that are special in a regular expression
/// (`\ . ^ $ * + ? ( ) [ ] { } |`) with a backslash.
pub open spec fn regex_escaped(s: Seq<char>) -> Seq<char>
    decreases s.len(),
{
    if s.len() == 0 {
        Seq::empty()
    } else {
        let c = s.last();
        let prev = regex_escaped(s.drop_last());
        if is_regex_special(c) { prev.push('\\').push(c) } else { prev.push(c) }
    }
}

/// Is the character special in a regular expression?
pub open spec fn is_regex_special(c: char) -> bool {
    c == '\\' || c == '.' || c == '^' || c == '$' || c == '*' || c == '+' || c == '?'
        || c == '(' || c == ')' || c == '[' || c == ']' || c == '{' || c == '}' || c == '|'
}

/// The text with the special characters of regular expressions escaped.
pub fn regex_escape(s: &str) -> (r: String)
    ensures
        r@ == regex_escaped(s@),
{
    let cs = chars_of(s);
    let mut out = String::new();
    let mut i: usize = 0;
    while i < cs.len()
        invariant
            i <= cs.len(),
            cs@ == s@,
            out@ == regex_escaped(s@.take(i as int)),
        decreases cs.len() - i,
    {
        let c = cs[i];
        proof {
            assert(s@.take(i + 1).drop_last() =~= s@.take(i as int));
            assert(s@.take(i + 1).last() == c);
        }
        if c == '\\' || c == '.' || c == '^' || c == '$' || c == '*' || c == '+' || c == '?'
            || c == '(' || c == ')' || c == '[' || c == ']' || c == '{' || c == '}' || c == '|' {
            push_char(&mut out, '\\');
        }
        push_char(&mut out, c);
        i = i + 1;
    }
    assert(s@.take(cs.len() as int) =~= s@);
    out
}

// ───────────────────────── orchestration ─────────────────────────

/// Does a loaded module (its id and the entity type codes it handles)
/// orchestrate entity type `code`?
pub open spec fn orchestrates(m: (String, Vec<String>), code: Seq<char>) -> bool {
    exists|j: int| 0 <= j < m.1@.len() && (#[trigger] m.1@[j])@ == code
}

/// The loaded module that orchestrates the posting of documents of entity type
/// `code`: the first, in the order given, that handles it.
pub fn find_document_orchestrator(modules: &Vec<(String, Vec<String>)>, code: &str) -> (r: Option<String>)
    ensures
        r matches Some(id) ==> exists|i: int| 0 <= i < modules@.len() && modules@[i].0 == id
            && orchestrates(modules@[i], code@)
            && forall|k: int| 0 <= k < i ==> !orchestrates(#[trigger] modules@[k], code@),
        r is None ==> forall|i: int| 0 <= i < modules@.len() ==> !orchestrates(#[trigger] modules@[i], code@),
{
    let mut i: usize = 0;
    while i < modules.len()
        invariant
            i <= modules.len(),
            forall|k: int| 0 <= k < i ==> !orchestrates(#[trigger] modules@[k], code@),
        decreases modules.len() - i,
    {
        let handled = &modules[i].1;
        let mut j: usize = 0;
        while j < handled.len()
            invariant
                j <= handled.len(),
                i < modules@.len(),
                *handled == modules@[i as int].1,
                forall|k: int| 0 <= k < i ==> !orchestrates(#[trigger] modules@[k], code@),
                forall|k: int| 0 <= k < j ==> (#[trigger] handled@[k])@ != code@,
            decreases handled.len() - j,
        {
            if str_eq(handled[j].as_str(), code) {
                let id = modules[i].0.clone();
                assert(orchestrates(modules@[i as int], code@));
                return Some(id);
            }
            j = j + 1;
        }
        assert(!orchestrates(modules@[i as int], code@));
        i = i + 1;
    }
    None
}

/// A module that could not be loaded after sign-in, and why.
pub struct PreloadError {
    pub code: String,
    pub error: String,
}

/// What loading a company's modules after sign-in did.
pub struct PreloadResult {
    pub loaded: u32,
    pub errors: Vec<PreloadError>,
    pub elapsed_ms: u64,
}

// ───────────────────────── calls ─────────────────────────

/// How long a plugin function may run, in milliseconds.
pub const PLUGIN_TIMEOUT_MS: u64 = 30000;

/// How a call into a plugin ended.
pub enum PluginCallOutcome {
    /// The function returned this text.
    Returned(String),
    /// The call failed with this message.
    Failed(String),
    /// The plugin panicked; the text describes the panic.
    Panicked(String),
    /// The function ran longer than `PLUGIN_TIMEOUT_MS`.
    TimedOut,
}

/// The answer to a plugin call: its output, its error, or the refusal of a
/// panic or a timeout.
pub fn call_result(function: &str, outcome: PluginCallOutcome) -> (r: Result<String, String>)
    ensures
        match outcome {
            PluginCallOutcome::Returned(o) => r == Ok::<String, String>(o),
            PluginCallOutcome::Failed(e) => r == Err::<String, String>(e),
            PluginCallOutcome::Panicked(d) => r matches Err(m) && m@ == "Паника в плагине: "@ + d@,
            PluginCallOutcome::TimedOut => r matches Err(m)
                && m@ == "Плагин '"@ + function@ + "' таймаут "@ + nat_dec(PLUGIN_TIMEOUT_MS as nat) + "ms"@,
        },
{
    match outcome {
        PluginCallOutcome::Returned(o) => Ok(o),
        PluginCallOutcome::Failed(e) => Err(e),
        PluginCallOutcome::Panicked(d) => Err(concat2("Паника в плагине: ", d.as_str())),
        PluginCallOutcome::TimedOut => {
            let ms = u64_to_dec(PLUGIN_TIMEOUT_MS);
            let head = concat3("Плагин '", function, "' таймаут ");
            Err(concat3(head.as_str(), ms.as_str(), "ms"))
        },
    }
}

/// The company id of the session as a canonical UUID, or `prefix` followed
/// by the parser's error.
fn company_or(company_id: &str, prefix: &str) -> (r: Result<String, String>)
    ensures
        match r {
            Ok(c) => uuid_syntax(company_id@) && c@ == spec_uuid_canonical(company_id@),
            Err(m) => !uuid_syntax(company_id@) && m@ == prefix@ + spec_uuid_error_text(company_id@),
        },
{
    match uuid_canonical(company_id) {
        Some(c) => Ok(c),
        None => match uuid_error_text(company_id) {
            Some(e) => Err(concat2(prefix, e.as_str())),
            None => {
                proof { assert(false); }
                Err(String::new())
            },
        },
    }
}

/// Before a module is loaded on its first call, the session's company is
/// read as a UUID (`Невалидная компания: …` when it is none).
pub fn lazy_load_company(company_id: &str) -> (r: Result<String, String>)
    ensures
        match r {
            Ok(c) => uuid_syntax(company_id@) && c@ == spec_uuid_canonical(company_id@),
            Err(m) => !uuid_syntax(company_id@) && m@ == "Невалидная компания: "@ + spec_uuid_error_text(company_id@),
        },
{
    company_or(company_id, "Невалидная компания: ")
}

/// Is a module among those enabled for the company (enabled modules given as
/// id and code), by id or by code?
pub open spec fn enabled_for(enabled: Seq<(String, String)>, id: Seq<char>, code: Seq<char>) -> bool {
    exists|j: int| 0 <= j < enabled.len() && ((#[trigger] enabled[j]).0@ == id || enabled[j].1@ == code)
}

/// A module loaded on its first call must be enabled for the company.
pub fn check_enabled(enabled: &Vec<(String, String)>, id: &str, code: &str) -> (r: Result<(), String>)
    ensures
        r is Ok <==> enabled_for(enabled@, id@, code@),
        r matches Err(m) ==> m@ == "Модуль "@ + code@ + " отключён для компании"@,
{
    let mut j: usize = 0;
    while j < enabled.len()
        invariant
            j <= enabled.len(),
            forall|k: int| 0 <= k < j ==> !((#[trigger] enabled@[k]).0@ == id@ || enabled@[k].1@ == code@),
        decreases enabled.len() - j,
    {
        if str_eq(enabled[j].0.as_str(), id) || str_eq(enabled[j].1.as_str(), code) {
            return Ok(());
        }
        j = j + 1;
    }
    Err(concat3("Модуль ", code, " отключён для компании"))
}

/// Loading a company's modules after sign-in reads the session's company as a
/// UUID (`Невалидный company_id: …` when it is none).
pub fn preload_company(company_id: &str) -> (r: Result<String, String>)
    ensures
        match r {
            Ok(c) => uuid_syntax(company_id@) && c@ == spec_uuid_canonical(company_id@),
            Err(m) => !uuid_syntax(company_id@) && m@ == "Невалидный company_id: "@ + spec_uuid_error_text(company_id@),
        },
{
    company_or(company_id, "Невалидный company_id: ")
}

/// Is the code among the codes of the modules already loaded?
pub open spec fn is_loaded(loaded: Seq<String>, code: Seq<char>) -> bool {
    exists|k: int| 0 <= k < loaded.len() && (#[trigger] loaded[k])@ == code
}

fn loaded_has(loaded: &Vec<String>, code: &str) -> (r: bool)
    ensures
        r == is_loaded(loaded@, code@),
{
    let mut k: usize = 0;
    while k < loaded.len()
        invariant
            k <= loaded.len(),
            forall|j: int| 0 <= j < k ==> (#[trigger] loaded@[j])@ != code@,
        decreases loaded.len() - k,
    {
        if str_eq(loaded[k].as_str(), code) {
            return true;
        }
        k = k + 1;
    }
    false
}

/// Does index `i` occur in the list?
pub open spec fn index_listed(v: Seq<usize>, i: int) -> bool {
    exists|k: int| 0 <= k < v.len() && v[k] == i
}

/// Which of the company's enabled modules still need loading: the indices,
/// in order, of the codes not yet loaded; and how many are loaded already.
pub fn preload_plan(enabled_codes: &Vec<String>, loaded: &Vec<String>) -> (r: (Vec<usize>, u32))
    requires
        enabled_codes.len() <= u32::MAX,
    ensures
        forall|k: int| 0 <= k < r.0.len() ==> (#[trigger] r.0@[k]) < enabled_codes.len()
            && !is_loaded(loaded@, enabled_codes@[r.0@[k] as int]@),
        forall|a: int, b: int| 0 <= a < b < r.0.len() ==> (#[trigger] r.0@[a]) < (#[trigger] r.0@[b]),
        forall|j: int| 0 <= j < enabled_codes.len() && !is_loaded(loaded@, (#[trigger] enabled_codes@[j])@) ==>
            index_listed(r.0@, j),
        r.1 + r.0.len() == enabled_codes.len(),
{
    let mut to_load: Vec<usize> = Vec::new();
    let mut already: u32 = 0;
    let mut j: usize = 0;
    while j < enabled_codes.len()
        invariant
            j <= enabled_codes.len(),
            enabled_codes.len() <= u32::MAX,
            already + to_load.len() == j,
            forall|k: int| 0 <= k < to_load.len() ==> (#[trigger] to_load@[k]) < j
                && !is_loaded(loaded@, enabled_codes@[to_load@[k] as int]@),
            forall|a: int, b: int| 0 <= a < b < to_load.len() ==> (#[trigger] to_load@[a]) < (#[trigger] to_load@[b]),
            forall|i: int| 0 <= i < j && !is_loaded(loaded@, (#[trigger] enabled_codes@[i])@) ==>
                index_listed(to_load@, i),
        decreases enabled_codes.len() - j,
    {
        if loaded_has(loaded, enabled_codes[j].as_str()) {
            already = already + 1;
        } else {
            let ghost before = to_load@;
            to_load.push(j);
            proof {
                assert forall|i: int| 0 <= i < j + 1 && !is_loaded(loaded@, (#[trigger] enabled_codes@[i])@) implies
                    index_listed(to_load@, i) by {
                    if i < j {
                        let k = choose|k: int| 0 <= k < before.len() && before[k] == i;
                        assert(to_load@[k] == i);
                    } else {
                        assert(to_load@[before.len() as int] == i);
                    }
                }
            }
        }
        j = j + 1;
    }
    (to_load, already)
}

/// The failures among the results of loading modules (code and outcome, an
/// error text for a failure), in order.
pub open spec fn load_failures(results: Seq<(String, Option<String>)>) -> Seq<(Seq<char>, Seq<char>)>
    decreases results.len(),
{
    if results.len() == 0 {
        Seq::empty()
    } else {
        let rest = load_failures(results.drop_last());
        match results.last().1 {
            Some(e) => rest.push((results.last().0@, e@)),
            None => rest,
        }
    }
}

/// How many modules loaded.
pub open spec fn load_successes(results: Seq<(String, Option<String>)>) -> nat
    decreases results.len(),
{
    if results.len() == 0 {
        0
    } else {
        load_successes(results.drop_last()) + if results.last().1 is None { 1nat } else { 0nat }
    }
}

proof fn lemma_load_counts(results: Seq<(String, Option<String>)>)
    ensures
        load_successes(results) + load_failures(results).len() == results.len(),
    decreases results.len(),
{
    if results.len() > 0 {
        lemma_load_counts(results.drop_last());
    }
}

/// The report of loading a company's modules: the modules already loaded
/// plus those that loaded now, and one error per module that did not.
pub fn preload_tally(already: u32, results: Vec<(String, Option<String>)>, elapsed_ms: u64) -> (r: PreloadResult)
    requires
        already + results.len() <= u32::MAX,
    ensures
        r.loaded == already + load_successes(results@),
        r.errors.len() == load_failures(results@).len(),
        forall|k: int| 0 <= k < r.errors.len() ==> (#[trigger] r.errors@[k]).code@ == load_failures(results@)[k].0
            && r.errors@[k].error@ == load_failures(results@)[k].1,
        r.elapsed_ms == elapsed_ms,
{
    let mut loaded: u32 = already;
    let mut errors: Vec<PreloadError> = Vec::new();
    let mut rest = results;
    let ghost all = rest@;
    let n = rest.len();
    let mut i: usize = 0;
    proof {
        assert(all.take(0) =~= Seq::<(String, Option<String>)>::empty());
        assert(all.skip(0) =~= all);
    }
    while i < n
        invariant
            n == all.len(),
            i <= n,
            already + n <= u32::MAX,
            rest@ == all.skip(i as int),
            loaded == already + load_successes(all.take(i as int)),
            errors.len() == load_failures(all.take(i as int)).len(),
            forall|k: int| 0 <= k < errors.len() ==> (#[trigger] errors@[k]).code@ == load_failures(all.take(i as int))[k].0
                && errors@[k].error@ == load_failures(all.take(i as int))[k].1,
        decreases n - i,
    {
        let (code, outcome) = rest.remove(0);
        proof {
            assert(all.take(i + 1).drop_last() =~= all.take(i as int));
            assert(all.take(i + 1).last() == all[i as int]);
            assert((code, outcome) == all[i as int]);
            assert(rest@ =~= all.skip(i + 1));
            lemma_load_counts(all.take(i as int));
        }
        match outcome {
            None => {
                loaded = loaded + 1;
            },
            Some(e) => {
                errors.push(PreloadError { code, error: e });
            },
        }
        i = i + 1;
    }
    proof {
        assert(all.take(n as int) =~= all);
    }
    PreloadResult { loaded, errors, elapsed_ms }
}

} // verus!
