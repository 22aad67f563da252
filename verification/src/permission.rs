//! Access policies and the deny-by-default access check.

use vstd::prelude::*;
use crate::platform::PlatformError;
use crate::text::{concat2, str_eq, split_once, split_once_exec, owned};

verus! {

/// An access policy: which actions of a subsystem (optionally restricted to
/// one entity type) it allows or denies, and with what priority.
pub struct PermissionPolicy {
    pub id: String,
    pub code: String,
    pub name: String,
    pub description: Option<String>,
    pub scope_type: String,
    pub subsystem_code: String,
    pub entity_type: Option<String>,
    pub actions: Vec<String>,
    pub record_scope: String,
    pub deny: bool,
    pub priority: i32,
    /// Creation time, milliseconds since the Unix epoch.
    pub created_at: i64,
    /// Last update time, milliseconds since the Unix epoch.
    pub updated_at: i64,
}

/// The view of an optional string slice.
pub open spec fn opt_str_view(o: Option<&str>) -> Option<Seq<char>> {
    match o {
        Some(s) => Some(s@),
        None => None,
    }
}

/// Does the policy list `action`, or the wildcard `"*"`?
pub open spec fn action_listed(p: PermissionPolicy, action: Seq<char>) -> bool {
    exists|i: int| 0 <= i < p.actions.len() && (#[trigger] p.actions@[i]@ == action || p.actions@[i]@ == "*"@)
}

/// Does the policy apply to the entity type asked about? A policy without an
/// entity type applies to every entity type; no entity type asked matches all.
pub open spec fn entity_type_fits(p: PermissionPolicy, et: Option<Seq<char>>) -> bool {
    match et {
        None => true,
        Some(e) => match p.entity_type {
            None => true,
            Some(pe) => pe@ == e,
        },
    }
}

/// Does the policy match the request (subsystem, entity type, action)?
pub open spec fn policy_matches(p: PermissionPolicy, subsystem: Seq<char>, et: Option<Seq<char>>, action: Seq<char>) -> bool {
    p.subsystem_code@ == subsystem && entity_type_fits(p, et) && action_listed(p, action)
}

/// Some matching policy denies.
pub open spec fn denied_by_some(ps: Seq<PermissionPolicy>, subsystem: Seq<char>, et: Option<Seq<char>>, action: Seq<char>) -> bool {
    exists|i: int| 0 <= i < ps.len() && #[trigger] policy_matches(ps[i], subsystem, et, action) && ps[i].deny
}

/// Some matching policy allows.
pub open spec fn allowed_by_some(ps: Seq<PermissionPolicy>, subsystem: Seq<char>, et: Option<Seq<char>>, action: Seq<char>) -> bool {
    exists|i: int| 0 <= i < ps.len() && #[trigger] policy_matches(ps[i], subsystem, et, action) && !ps[i].deny
}

/// Deny-by-default access: granted iff no matching policy denies and some
/// matching policy allows.
pub open spec fn access_granted(ps: Seq<PermissionPolicy>, subsystem: Seq<char>, et: Option<Seq<char>>, action: Seq<char>) -> bool {
    !denied_by_some(ps, subsystem, et, action) && allowed_by_some(ps, subsystem, et, action)
}

/// Does the policy list `action` or `"*"`?
pub fn action_listed_exec(p: &PermissionPolicy, action: &str) -> (r: bool)
    ensures
        r == action_listed(*p, action@),
{
    let mut i: usize = 0;
    while i < p.actions.len()
        invariant
            i <= p.actions.len(),
            forall|j: int| 0 <= j < i ==> !(#[trigger] p.actions@[j]@ == action@ || p.actions@[j]@ == "*"@),
        decreases p.actions.len() - i,
    {
        if str_eq(p.actions[i].as_str(), action) || str_eq(p.actions[i].as_str(), "*") {
            return true;
        }
        i = i + 1;
    }
    false
}

/// Does the policy match the request?
pub fn policy_matches_exec(p: &PermissionPolicy, subsystem: &str, entity_type: Option<&str>, action: &str) -> (r: bool)
    ensures
        r == policy_matches(*p, subsystem@, opt_str_view(entity_type), action@),
{
    if !str_eq(p.subsystem_code.as_str(), subsystem) {
        return false;
    }
    let fits = match entity_type {
        None => true,
        Some(et) => match &p.entity_type {
            None => true,
            Some(pe) => str_eq(pe.as_str(), et),
        },
    };
    fits && action_listed_exec(p, action)
}

/// Access check against the policies loaded for the session, if any;
/// without loaded policies access is refused.
pub fn check_access_cached(policies: &Option<Vec<PermissionPolicy>>, subsystem: &str, entity_type: Option<&str>, action: &str) -> (r: bool)
    ensures
        r == match policies {
            Some(ps) => access_granted(ps@, subsystem@, opt_str_view(entity_type), action@),
            None => false,
        },
{
    match policies {
        Some(ps) => PermissionPolicyService::check_access(ps, subsystem, entity_type, action),
        None => false,
    }
}

/// The number of occurrences of `c` in `s`.
pub open spec fn count_char(s: Seq<char>, c: char) -> nat
    decreases s.len(),
{
    if s.len() == 0 { 0 } else { count_char(s.drop_last(), c) + if s.last() == c { 1nat } else { 0nat } }
}

/// `"subsystem.action"` split in two, when the text holds exactly one dot.
pub open spec fn permission_parts(perm: Seq<char>) -> Option<(Seq<char>, Seq<char>)> {
    match split_once(perm, '.') {
        Some((a, b)) => if split_once(b, '.') is None { Some((a, b)) } else { None },
        None => None,
    }
}

/// What checking a permission code gives: an empty code is always allowed;
/// one that is not `"subsystem.action"` is refused as malformed; otherwise the
/// access check decides.
pub open spec fn permission_result(ps: Seq<PermissionPolicy>, perm: Seq<char>) -> Result<(), Seq<char>> {
    if perm.len() == 0 {
        Ok(())
    } else {
        match permission_parts(perm) {
            None => Err("Невалидный формат действия: "@ + perm),
            Some((sub, act)) => if access_granted(ps, sub, None, act) {
                Ok(())
            } else {
                Err("Доступ запрещён: нет права "@ + perm)
            },
        }
    }
}

/// How many dots a text holds (one less than the pieces `split('.')` makes).
pub open spec fn dot_count(s: Seq<char>) -> nat
    decreases s.len(),
{
    if s.len() == 0 {
        0
    } else {
        dot_count(s.drop_last()) + if s.last() == '.' { 1nat } else { 0nat }
    }
}

proof fn lemma_dot_count_concat(a: Seq<char>, b: Seq<char>)
    ensures
        dot_count(a + b) == dot_count(a) + dot_count(b),
    decreases b.len(),
{
    if b.len() == 0 {
        assert(a + b =~= a);
    } else {
        assert((a + b).drop_last() =~= a + b.drop_last());
        lemma_dot_count_concat(a, b.drop_last());
    }
}

proof fn lemma_dot_count_zero(s: Seq<char>)
    ensures
        dot_count(s) == 0 <==> forall|i: int| 0 <= i < s.len() ==> s[i] != '.',
    decreases s.len(),
{
    if s.len() > 0 {
        lemma_dot_count_zero(s.drop_last());
        if dot_count(s) == 0 {
            assert forall|i: int| 0 <= i < s.len() implies s[i] != '.' by {
                if i < s.len() - 1 {
                    assert(s.drop_last()[i] == s[i]);
                }
            }
        }
        if forall|i: int| 0 <= i < s.len() ==> s[i] != '.' {
            assert forall|i: int| 0 <= i < s.drop_last().len() implies s.drop_last()[i] != '.' by {
                assert(s.drop_last()[i] == s[i]);
            }
            assert(s[s.len() - 1] != '.');
        }
    }
}

proof fn lemma_dots_after_first(perm: Seq<char>, i0: int)
    requires
        0 <= i0 < perm.len(),
        perm[i0] == '.',
        forall|j: int| 0 <= j < i0 ==> perm[j] != '.',
    ensures
        dot_count(perm) == 1 + dot_count(perm.skip(i0 + 1)),
{
    let a = perm.take(i0);
    let b = perm.skip(i0 + 1);
    let ad = a.push('.');
    assert(perm =~= ad + b);
    assert forall|j: int| 0 <= j < a.len() implies a[j] != '.' by {
        assert(a[j] == perm[j]);
    }
    lemma_dot_count_zero(a);
    assert(ad.drop_last() =~= a);
    assert(dot_count(ad) == 1);
    lemma_dot_count_concat(ad, b);
}

proof fn lemma_first_dot(s: Seq<char>) -> (i: int)
    requires
        exists|k: int| 0 <= k < s.len() && s[k] == '.',
    ensures
        0 <= i < s.len(),
        s[i] == '.',
        forall|j: int| 0 <= j < i ==> s[j] != '.',
    decreases s.len(),
{
    if exists|k: int| 0 <= k < s.len() - 1 && s[k] == '.' {
        let k = choose|k: int| 0 <= k < s.len() - 1 && s[k] == '.';
        assert(s.drop_last()[k] == s[k]);
        let i = lemma_first_dot(s.drop_last());
        assert forall|j: int| 0 <= j < i implies s[j] != '.' by {
            assert(s.drop_last()[j] == s[j]);
        }
        assert(s.drop_last()[i] == s[i]);
        i
    } else {
        s.len() - 1
    }
}

proof fn lemma_split_once_at_dot(s: Seq<char>, i: int)
    requires
        0 <= i < s.len(),
        s[i] == '.',
        forall|j: int| 0 <= j < i ==> s[j] != '.',
    ensures
        split_once(s, '.') == Some((s.take(i), s.skip(i + 1))),
{
    let k = choose|k: int| 0 <= k < s.len() && s[k] == '.' && forall|j: int| 0 <= j < k ==> s[j] != '.';
    if k < i { assert(s[k] != '.'); }
    if i < k { assert(s[i] != '.'); }
}

proof fn lemma_parts_by_dots(perm: Seq<char>)
    ensures
        dot_count(perm) != 1 ==> permission_parts(perm) is None,
        forall|i: int| 0 <= i < perm.len() && dot_count(perm) == 1 && #[trigger] perm[i] == '.' ==>
            permission_parts(perm) == Some((perm.take(i), perm.skip(i + 1))),
{
    lemma_dot_count_zero(perm);
    if exists|k: int| 0 <= k < perm.len() && perm[k] == '.' {
        let i0 = lemma_first_dot(perm);
        let b = perm.skip(i0 + 1);
        lemma_split_once_at_dot(perm, i0);
        lemma_dots_after_first(perm, i0);
        lemma_dot_count_zero(b);
        if exists|k: int| 0 <= k < b.len() && b[k] == '.' {
            let k = lemma_first_dot(b);
            lemma_split_once_at_dot(b, k);
        } else {
            assert(split_once(b, '.') is None);
        }
        assert forall|i: int| 0 <= i < perm.len() && dot_count(perm) == 1 && #[trigger] perm[i] == '.' implies i == i0 by {
            if i > i0 {
                assert(b[i - i0 - 1] == perm[i]);
            }
        }
    } else {
        assert(split_once(perm, '.') is None);
    }
}

/// The permission check read as `split('.')` reads a code: an empty code
/// passes; a non-empty code that does not split into exactly two pieces is
/// refused; a code of two pieces passes exactly when the access check grants
/// the first piece (the subsystem) the second (the action).
pub proof fn lemma_permission_check_by_pieces(ps: Seq<PermissionPolicy>, perm: Seq<char>)
    ensures
        perm.len() == 0 ==> permission_result(ps, perm) is Ok,
        perm.len() > 0 && dot_count(perm) != 1 ==> permission_result(ps, perm) is Err,
        forall|i: int| 0 <= i < perm.len() && dot_count(perm) == 1 && #[trigger] perm[i] == '.' ==>
            (permission_result(ps, perm) is Ok <==> access_granted(ps, perm.take(i), None, perm.skip(i + 1))),
{
    lemma_parts_by_dots(perm);
}

/// Check a permission code `"subsystem.action"` against the session's
/// policies. Refusals are `PermissionDenied` with the reason.
pub fn check_permission(policies: &Vec<PermissionPolicy>, permission: &str) -> (r: Result<(), PlatformError>)
    ensures
        permission_result(policies@, permission@) is Ok <==> r is Ok,
        r matches Err(e) ==> e matches PlatformError::PermissionDenied(m)
            && permission_result(policies@, permission@) == Err::<(), Seq<char>>(m@),
{
    if permission.is_empty() {
        return Ok(());
    }
    match split_once_exec(permission, '.') {
        None => Err(PlatformError::PermissionDenied(concat2("Невалидный формат действия: ", permission))),
        Some((sub, act)) => {
            match split_once_exec(act.as_str(), '.') {
                Some(_) => Err(PlatformError::PermissionDenied(concat2("Невалидный формат действия: ", permission))),
                None => {
                    if PermissionPolicyService::check_access(policies, sub.as_str(), None, act.as_str()) {
                        Ok(())
                    } else {
                        Err(PlatformError::PermissionDenied(concat2("Доступ запрещён: нет права ", permission)))
                    }
                },
            }
        },
    }
}

/// Law: a deny policy can never grant access; adding one to a policy set
/// never turns a refusal into a grant.
pub proof fn lemma_adding_deny_never_grants(ps: Seq<PermissionPolicy>, p: PermissionPolicy, subsystem: Seq<char>, et: Option<Seq<char>>, action: Seq<char>)
    requires
        p.deny,
    ensures
        access_granted(ps.push(p), subsystem, et, action) ==> access_granted(ps, subsystem, et, action),
{
    let qs = ps.push(p);
    if access_granted(qs, subsystem, et, action) {
        let i = choose|i: int| 0 <= i < qs.len() && #[trigger] policy_matches(qs[i], subsystem, et, action) && !qs[i].deny;
        assert(i < ps.len());
        assert(policy_matches(ps[i], subsystem, et, action) && !ps[i].deny);
        if denied_by_some(ps, subsystem, et, action) {
            let j = choose|j: int| 0 <= j < ps.len() && #[trigger] policy_matches(ps[j], subsystem, et, action) && ps[j].deny;
            assert(qs[j] == ps[j]);
            assert(policy_matches(qs[j], subsystem, et, action) && qs[j].deny);
        }
    }
}

/// Law: an allow policy can never revoke access; adding one to a policy set
/// never turns a grant into a refusal.
pub proof fn lemma_adding_allow_never_revokes(ps: Seq<PermissionPolicy>, p: PermissionPolicy, subsystem: Seq<char>, et: Option<Seq<char>>, action: Seq<char>)
    requires
        !p.deny,
    ensures
        access_granted(ps, subsystem, et, action) ==> access_granted(ps.push(p), subsystem, et, action),
{
    let qs = ps.push(p);
    if access_granted(ps, subsystem, et, action) {
        let i = choose|i: int| 0 <= i < ps.len() && #[trigger] policy_matches(ps[i], subsystem, et, action) && !ps[i].deny;
        assert(qs[i] == ps[i]);
        assert(policy_matches(qs[i], subsystem, et, action) && !qs[i].deny);
        if denied_by_some(qs, subsystem, et, action) {
            let j = choose|j: int| 0 <= j < qs.len() && #[trigger] policy_matches(qs[j], subsystem, et, action) && qs[j].deny;
            if j < ps.len() {
                assert(qs[j] == ps[j]);
                assert(policy_matches(ps[j], subsystem, et, action) && ps[j].deny);
            }
        }
    }
}

/// Law: deny overrides allow. Whenever some matching policy denies, access is
/// refused, whatever else the set holds, priorities included.
pub proof fn lemma_deny_overrides(ps: Seq<PermissionPolicy>, i: int, subsystem: Seq<char>, et: Option<Seq<char>>, action: Seq<char>)
    requires
        0 <= i < ps.len(),
        policy_matches(ps[i], subsystem, et, action),
        ps[i].deny,
    ensures
        !access_granted(ps, subsystem, et, action),
{
}

/// Law: with no policies at all, every request is refused.
pub proof fn lemma_empty_policies_refuse(subsystem: Seq<char>, et: Option<Seq<char>>, action: Seq<char>)
    ensures
        !access_granted(Seq::<PermissionPolicy>::empty(), subsystem, et, action),
{
}

/// The access policies of the platform and the deny-by-default check.
pub struct PermissionPolicyService;

impl PermissionPolicyService {
    /// The access check of the platform (deny-by-default):
    /// a matching deny policy refuses, otherwise a matching allow policy grants,
    /// and with no matching policy access is refused.
    pub fn check_access(policies: &Vec<PermissionPolicy>, subsystem: &str, entity_type: Option<&str>, action: &str) -> (r: bool)
        ensures
            r == access_granted(policies@, subsystem@, opt_str_view(entity_type), action@),
    {
        let ghost et = opt_str_view(entity_type);
        let mut any_deny = false;
        let mut any_allow = false;
        let mut i: usize = 0;
        while i < policies.len()
            invariant
                i <= policies.len(),
                et == opt_str_view(entity_type),
                any_deny == exists|j: int| 0 <= j < i && #[trigger] policy_matches(policies@[j], subsystem@, et, action@) && policies@[j].deny,
                any_allow == exists|j: int| 0 <= j < i && #[trigger] policy_matches(policies@[j], subsystem@, et, action@) && !policies@[j].deny,
            decreases policies.len() - i,
        {
            let m = policy_matches_exec(&policies[i], subsystem, entity_type, action);
            assert(m == policy_matches(policies@[i as int], subsystem@, et, action@));
            if m {
                if policies[i].deny {
                    any_deny = true;
                } else {
                    any_allow = true;
                }
            }
            i = i + 1;
        }
        !any_deny && any_allow
    }
}


/// A request to create a policy.
pub struct CreatePermissionPolicyInput {
    pub code: String,
    pub name: String,
    pub description: Option<String>,
    pub scope_type: String,
    pub subsystem_code: String,
    pub entity_type: Option<String>,
    pub actions: Vec<String>,
    pub record_scope: String,
    pub deny: Option<bool>,
    pub priority: Option<i32>,
}

/// The rows of the default policies: code, name, subsystem and its one action.
pub open spec fn default_policy_row(i: usize) -> (Seq<char>, Seq<char>, Seq<char>, Seq<char>) {
    match i {
        0 => ("platform.access"@, "Доступ к платформе"@, "platform"@, "access"@),
        1 => ("companies.read"@, "Просмотр компаний"@, "companies"@, "read"@),
        2 => ("companies.create"@, "Создание компаний"@, "companies"@, "create"@),
        3 => ("companies.update"@, "Изменение компаний"@, "companies"@, "update"@),
        4 => ("companies.delete"@, "Удаление компаний"@, "companies"@, "delete"@),
        5 => ("users.read"@, "Просмотр пользователей"@, "users"@, "read"@),
        6 => ("users.create"@, "Создание пользователей"@, "users"@, "create"@),
        7 => ("users.update"@, "Изменение пользователей"@, "users"@, "update"@),
        8 => ("users.delete"@, "Удаление пользователей"@, "users"@, "delete"@),
        9 => ("roles.read"@, "Просмотр ролей"@, "roles"@, "read"@),
        10 => ("roles.create"@, "Создание ролей"@, "roles"@, "create"@),
        11 => ("roles.update"@, "Изменение ролей"@, "roles"@, "update"@),
        12 => ("roles.delete"@, "Удаление ролей"@, "roles"@, "delete"@),
        13 => ("contacts.read"@, "Просмотр контактов"@, "contacts"@, "read"@),
        14 => ("contacts.create"@, "Создание контактов"@, "contacts"@, "create"@),
        15 => ("contacts.update"@, "Изменение контактов"@, "contacts"@, "update"@),
        16 => ("contacts.delete"@, "Удаление контактов"@, "contacts"@, "delete"@),
        17 => ("contacts.manage"@, "Управление типами контактов"@, "contacts"@, "manage"@),
        18 => ("documents.read"@, "Просмотр документов"@, "documents"@, "read"@),
        19 => ("documents.create"@, "Создание документов"@, "documents"@, "create"@),
        20 => ("documents.update"@, "Изменение документов"@, "documents"@, "update"@),
        21 => ("documents.delete"@, "Удаление документов"@, "documents"@, "delete"@),
        22 => ("documents.approve"@, "Проведение документов"@, "documents"@, "approve"@),
        23 => ("documents.cancel"@, "Отмена документов"@, "documents"@, "cancel"@),
        24 => ("metadata.read"@, "Просмотр метаданных"@, "metadata"@, "read"@),
        25 => ("metadata.create"@, "Создание метаданных"@, "metadata"@, "create"@),
        26 => ("metadata.update"@, "Изменение метаданных"@, "metadata"@, "update"@),
        27 => ("metadata.delete"@, "Удаление метаданных"@, "metadata"@, "delete"@),
        28 => ("catalogs.read"@, "Просмотр справочников"@, "catalogs"@, "read"@),
        29 => ("catalogs.create"@, "Создание справочников"@, "catalogs"@, "create"@),
        30 => ("catalogs.update"@, "Изменение справочников"@, "catalogs"@, "update"@),
        31 => ("catalogs.delete"@, "Удаление справочников"@, "catalogs"@, "delete"@),
        32 => ("reports.read"@, "Просмотр отчётов"@, "reports"@, "read"@),
        33 => ("reports.create"@, "Создание отчётов"@, "reports"@, "create"@),
        34 => ("reports.export"@, "Экспорт отчётов"@, "reports"@, "export"@),
        35 => ("scripts.read"@, "Просмотр скриптов"@, "scripts"@, "read"@),
        36 => ("scripts.create"@, "Создание скриптов"@, "scripts"@, "create"@),
        37 => ("scripts.execute"@, "Выполнение скриптов"@, "scripts"@, "execute"@),
        38 => ("audit.read"@, "Просмотр журнала"@, "audit"@, "read"@),
        39 => ("settings.read"@, "Просмотр настроек"@, "settings"@, "read"@),
        40 => ("settings.manage"@, "Управление настройками"@, "settings"@, "manage"@),
        41 => ("print.read"@, "Просмотр шаблонов печати"@, "print"@, "read"@),
        42 => ("print.create"@, "Создание шаблонов печати"@, "print"@, "create"@),
        43 => ("print.update"@, "Изменение шаблонов печати"@, "print"@, "update"@),
        44 => ("print.delete"@, "Удаление шаблонов печати"@, "print"@, "delete"@),
        45 => ("plugins.read"@, "Просмотр плагинов"@, "plugins"@, "read"@),
        46 => ("plugins.manage"@, "Управление плагинами"@, "plugins"@, "manage"@),
        47 => ("plugins.execute"@, "Выполнение функций плагинов"@, "plugins"@, "execute"@),
        48 => ("numbering.read"@, "Просмотр правил нумерации"@, "numbering"@, "read"@),
        49 => ("numbering.manage"@, "Управление нумерацией"@, "numbering"@, "manage"@),
        50 => ("modules.read"@, "Просмотр модулей"@, "modules"@, "read"@),
        51 => ("modules.manage"@, "Управление модулями"@, "modules"@, "manage"@),
        52 => ("devices.read"@, "Просмотр оборудования"@, "devices"@, "read"@),
        53 => ("devices.manage"@, "Настройка оборудования"@, "devices"@, "manage"@),
        54 => ("devices.use"@, "Использование оборудования"@, "devices"@, "use"@),
        55 => ("stock.read"@, "Просмотр склада"@, "stock"@, "read"@),
        56 => ("stock.use"@, "Складские операции"@, "stock"@, "use"@),
        57 => ("stock.manage"@, "Управление складом"@, "stock"@, "manage"@),
        58 => ("accounting.read"@, "Просмотр учёта"@, "accounting"@, "read"@),
        59 => ("accounting.post"@, "Проводки учёта"@, "accounting"@, "post"@),
        _ => ("accounting.manage"@, "Управление учётом"@, "accounting"@, "manage"@),
    }
}

/// Every default policy's code is its subsystem, a dot, and its one action.
pub proof fn lemma_default_policy_codes(i: usize)
    requires
        i < 61,
    ensures
        default_policy_row(i).0 == default_policy_row(i).2 + "."@ + default_policy_row(i).3,
{
    reveal_strlit(".");
    if i == 0 {
        reveal_strlit("platform.access");
        reveal_strlit("platform");
        reveal_strlit("access");
    } else if i == 1 {
        reveal_strlit("companies.read");
        reveal_strlit("companies");
        reveal_strlit("read");
    } else if i == 2 {
        reveal_strlit("companies.create");
        reveal_strlit("companies");
        reveal_strlit("create");
    } else if i == 3 {
        reveal_strlit("companies.update");
        reveal_strlit("companies");
        reveal_strlit("update");
    } else if i == 4 {
        reveal_strlit("companies.delete");
        reveal_strlit("companies");
        reveal_strlit("delete");
    } else if i == 5 {
        reveal_strlit("users.read");
        reveal_strlit("users");
        reveal_strlit("read");
    } else if i == 6 {
        reveal_strlit("users.create");
        reveal_strlit("users");
        reveal_strlit("create");
    } else if i == 7 {
        reveal_strlit("users.update");
        reveal_strlit("users");
        reveal_strlit("update");
    } else if i == 8 {
        reveal_strlit("users.delete");
        reveal_strlit("users");
        reveal_strlit("delete");
    } else if i == 9 {
        reveal_strlit("roles.read");
        reveal_strlit("roles");
        reveal_strlit("read");
    } else if i == 10 {
        reveal_strlit("roles.create");
        reveal_strlit("roles");
        reveal_strlit("create");
    } else if i == 11 {
        reveal_strlit("roles.update");
        reveal_strlit("roles");
        reveal_strlit("update");
    } else if i == 12 {
        reveal_strlit("roles.delete");
        reveal_strlit("roles");
        reveal_strlit("delete");
    } else if i == 13 {
        reveal_strlit("contacts.read");
        reveal_strlit("contacts");
        reveal_strlit("read");
    } else if i == 14 {
        reveal_strlit("contacts.create");
        reveal_strlit("contacts");
        reveal_strlit("create");
    } else if i == 15 {
        reveal_strlit("contacts.update");
        reveal_strlit("contacts");
        reveal_strlit("update");
    } else if i == 16 {
        reveal_strlit("contacts.delete");
        reveal_strlit("contacts");
        reveal_strlit("delete");
    } else if i == 17 {
        reveal_strlit("contacts.manage");
        reveal_strlit("contacts");
        reveal_strlit("manage");
    } else if i == 18 {
        reveal_strlit("documents.read");
        reveal_strlit("documents");
        reveal_strlit("read");
    } else if i == 19 {
        reveal_strlit("documents.create");
        reveal_strlit("documents");
        reveal_strlit("create");
    } else if i == 20 {
        reveal_strlit("documents.update");
        reveal_strlit("documents");
        reveal_strlit("update");
    } else if i == 21 {
        reveal_strlit("documents.delete");
        reveal_strlit("documents");
        reveal_strlit("delete");
    } else if i == 22 {
        reveal_strlit("documents.approve");
        reveal_strlit("documents");
        reveal_strlit("approve");
    } else if i == 23 {
        reveal_strlit("documents.cancel");
        reveal_strlit("documents");
        reveal_strlit("cancel");
    } else if i == 24 {
        reveal_strlit("metadata.read");
        reveal_strlit("metadata");
        reveal_strlit("read");
    } else if i == 25 {
        reveal_strlit("metadata.create");
        reveal_strlit("metadata");
        reveal_strlit("create");
    } else if i == 26 {
        reveal_strlit("metadata.update");
        reveal_strlit("metadata");
        reveal_strlit("update");
    } else if i == 27 {
        reveal_strlit("metadata.delete");
        reveal_strlit("metadata");
        reveal_strlit("delete");
    } else if i == 28 {
        reveal_strlit("catalogs.read");
        reveal_strlit("catalogs");
        reveal_strlit("read");
    } else if i == 29 {
        reveal_strlit("catalogs.create");
        reveal_strlit("catalogs");
        reveal_strlit("create");
    } else if i == 30 {
        reveal_strlit("catalogs.update");
        reveal_strlit("catalogs");
        reveal_strlit("update");
    } else if i == 31 {
        reveal_strlit("catalogs.delete");
        reveal_strlit("catalogs");
        reveal_strlit("delete");
    } else if i == 32 {
        reveal_strlit("reports.read");
        reveal_strlit("reports");
        reveal_strlit("read");
    } else if i == 33 {
        reveal_strlit("reports.create");
        reveal_strlit("reports");
        reveal_strlit("create");
    } else if i == 34 {
        reveal_strlit("reports.export");
        reveal_strlit("reports");
        reveal_strlit("export");
    } else if i == 35 {
        reveal_strlit("scripts.read");
        reveal_strlit("scripts");
        reveal_strlit("read");
    } else if i == 36 {
        reveal_strlit("scripts.create");
        reveal_strlit("scripts");
        reveal_strlit("create");
    } else if i == 37 {
        reveal_strlit("scripts.execute");
        reveal_strlit("scripts");
        reveal_strlit("execute");
    } else if i == 38 {
        reveal_strlit("audit.read");
        reveal_strlit("audit");
        reveal_strlit("read");
    } else if i == 39 {
        reveal_strlit("settings.read");
        reveal_strlit("settings");
        reveal_strlit("read");
    } else if i == 40 {
        reveal_strlit("settings.manage");
        reveal_strlit("settings");
        reveal_strlit("manage");
    } else if i == 41 {
        reveal_strlit("print.read");
        reveal_strlit("print");
        reveal_strlit("read");
    } else if i == 42 {
        reveal_strlit("print.create");
        reveal_strlit("print");
        reveal_strlit("create");
    } else if i == 43 {
        reveal_strlit("print.update");
        reveal_strlit("print");
        reveal_strlit("update");
    } else if i == 44 {
        reveal_strlit("print.delete");
        reveal_strlit("print");
        reveal_strlit("delete");
    } else if i == 45 {
        reveal_strlit("plugins.read");
        reveal_strlit("plugins");
        reveal_strlit("read");
    } else if i == 46 {
        reveal_strlit("plugins.manage");
        reveal_strlit("plugins");
        reveal_strlit("manage");
    } else if i == 47 {
        reveal_strlit("plugins.execute");
        reveal_strlit("plugins");
        reveal_strlit("execute");
    } else if i == 48 {
        reveal_strlit("numbering.read");
        reveal_strlit("numbering");
        reveal_strlit("read");
    } else if i == 49 {
        reveal_strlit("numbering.manage");
        reveal_strlit("numbering");
        reveal_strlit("manage");
    } else if i == 50 {
        reveal_strlit("modules.read");
        reveal_strlit("modules");
        reveal_strlit("read");
    } else if i == 51 {
        reveal_strlit("modules.manage");
        reveal_strlit("modules");
        reveal_strlit("manage");
    } else if i == 52 {
        reveal_strlit("devices.read");
        reveal_strlit("devices");
        reveal_strlit("read");
    } else if i == 53 {
        reveal_strlit("devices.manage");
        reveal_strlit("devices");
        reveal_strlit("manage");
    } else if i == 54 {
        reveal_strlit("devices.use");
        reveal_strlit("devices");
        reveal_strlit("use");
    } else if i == 55 {
        reveal_strlit("stock.read");
        reveal_strlit("stock");
        reveal_strlit("read");
    } else if i == 56 {
        reveal_strlit("stock.use");
        reveal_strlit("stock");
        reveal_strlit("use");
    } else if i == 57 {
        reveal_strlit("stock.manage");
        reveal_strlit("stock");
        reveal_strlit("manage");
    } else if i == 58 {
        reveal_strlit("accounting.read");
        reveal_strlit("accounting");
        reveal_strlit("read");
    } else if i == 59 {
        reveal_strlit("accounting.post");
        reveal_strlit("accounting");
        reveal_strlit("post");
    } else if i == 60 {
        reveal_strlit("accounting.manage");
        reveal_strlit("accounting");
        reveal_strlit("manage");
    }
    assert(default_policy_row(i).0 =~= default_policy_row(i).2 + "."@ + default_policy_row(i).3);
}

/// One row of the default policies.
fn default_policy_row_exec(i: usize) -> (r: (&'static str, &'static str, &'static str, &'static str))
    requires
        i < 61,
    ensures
        (r.0@, r.1@, r.2@, r.3@) == default_policy_row(i),
{
    match i {
        0 => ("platform.access", "Доступ к платформе", "platform", "access"),
        1 => ("companies.read", "Просмотр компаний", "companies", "read"),
        2 => ("companies.create", "Создание компаний", "companies", "create"),
        3 => ("companies.update", "Изменение компаний", "companies", "update"),
        4 => ("companies.delete", "Удаление компаний", "companies", "delete"),
        5 => ("users.read", "Просмотр пользователей", "users", "read"),
        6 => ("users.create", "Создание пользователей", "users", "create"),
        7 => ("users.update", "Изменение пользователей", "users", "update"),
        8 => ("users.delete", "Удаление пользователей", "users", "delete"),
        9 => ("roles.read", "Просмотр ролей", "roles", "read"),
        10 => ("roles.create", "Создание ролей", "roles", "create"),
        11 => ("roles.update", "Изменение ролей", "roles", "update"),
        12 => ("roles.delete", "Удаление ролей", "roles", "delete"),
        13 => ("contacts.read", "Просмотр контактов", "contacts", "read"),
        14 => ("contacts.create", "Создание контактов", "contacts", "create"),
        15 => ("contacts.update", "Изменение контактов", "contacts", "update"),
        16 => ("contacts.delete", "Удаление контактов", "contacts", "delete"),
        17 => ("contacts.manage", "Управление типами контактов", "contacts", "manage"),
        18 => ("documents.read", "Просмотр документов", "documents", "read"),
        19 => ("documents.create", "Создание документов", "documents", "create"),
        20 => ("documents.update", "Изменение документов", "documents", "update"),
        21 => ("documents.delete", "Удаление документов", "documents", "delete"),
        22 => ("documents.approve", "Проведение документов", "documents", "approve"),
        23 => ("documents.cancel", "Отмена документов", "documents", "cancel"),
        24 => ("metadata.read", "Просмотр метаданных", "metadata", "read"),
        25 => ("metadata.create", "Создание метаданных", "metadata", "create"),
        26 => ("metadata.update", "Изменение метаданных", "metadata", "update"),
        27 => ("metadata.delete", "Удаление метаданных", "metadata", "delete"),
        28 => ("catalogs.read", "Просмотр справочников", "catalogs", "read"),
        29 => ("catalogs.create", "Создание справочников", "catalogs", "create"),
        30 => ("catalogs.update", "Изменение справочников", "catalogs", "update"),
        31 => ("catalogs.delete", "Удаление справочников", "catalogs", "delete"),
        32 => ("reports.read", "Просмотр отчётов", "reports", "read"),
        33 => ("reports.create", "Создание отчётов", "reports", "create"),
        34 => ("reports.export", "Экспорт отчётов", "reports", "export"),
        35 => ("scripts.read", "Просмотр скриптов", "scripts", "read"),
        36 => ("scripts.create", "Создание скриптов", "scripts", "create"),
        37 => ("scripts.execute", "Выполнение скриптов", "scripts", "execute"),
        38 => ("audit.read", "Просмотр журнала", "audit", "read"),
        39 => ("settings.read", "Просмотр настроек", "settings", "read"),
        40 => ("settings.manage", "Управление настройками", "settings", "manage"),
        41 => ("print.read", "Просмотр шаблонов печати", "print", "read"),
        42 => ("print.create", "Создание шаблонов печати", "print", "create"),
        43 => ("print.update", "Изменение шаблонов печати", "print", "update"),
        44 => ("print.delete", "Удаление шаблонов печати", "print", "delete"),
        45 => ("plugins.read", "Просмотр плагинов", "plugins", "read"),
        46 => ("plugins.manage", "Управление плагинами", "plugins", "manage"),
        47 => ("plugins.execute", "Выполнение функций плагинов", "plugins", "execute"),
        48 => ("numbering.read", "Просмотр правил нумерации", "numbering", "read"),
        49 => ("numbering.manage", "Управление нумерацией", "numbering", "manage"),
        50 => ("modules.read", "Просмотр модулей", "modules", "read"),
        51 => ("modules.manage", "Управление модулями", "modules", "manage"),
        52 => ("devices.read", "Просмотр оборудования", "devices", "read"),
        53 => ("devices.manage", "Настройка оборудования", "devices", "manage"),
        54 => ("devices.use", "Использование оборудования", "devices", "use"),
        55 => ("stock.read", "Просмотр склада", "stock", "read"),
        56 => ("stock.use", "Складские операции", "stock", "use"),
        57 => ("stock.manage", "Управление складом", "stock", "manage"),
        58 => ("accounting.read", "Просмотр учёта", "accounting", "read"),
        59 => ("accounting.post", "Проводки учёта", "accounting", "post"),
        _ => ("accounting.manage", "Управление учётом", "accounting", "manage"),
    }
}

impl PermissionPolicyService {
    /// The service.
    pub fn new() -> (r: PermissionPolicyService)
        ensures
            r == PermissionPolicyService,
    {
        PermissionPolicyService
    }

    /// The policies a fresh installation starts with: for each row, its code,
    /// name, subsystem, its one action, and the company-wide record scope.
    pub fn default_policies() -> (r: Vec<(String, String, String, Vec<String>, String)>)
        ensures
            r@.len() == 61,
            forall|i: int| 0 <= i < r@.len() ==> {
                let row = default_policy_row(i as usize);
                &&& (#[trigger] r@[i]).0@ == row.0
                &&& r@[i].1@ == row.1
                &&& r@[i].2@ == row.2
                &&& r@[i].3@.len() == 1 && r@[i].3@[0]@ == row.3
                &&& r@[i].4@ == "company"@
            },
    {
        let mut r: Vec<(String, String, String, Vec<String>, String)> = Vec::new();
        let mut i: usize = 0;
        while i < 61
            invariant
                i <= 61,
                r@.len() == i,
                forall|k: int| 0 <= k < i ==> {
                    let row = default_policy_row(k as usize);
                    &&& (#[trigger] r@[k]).0@ == row.0
                    &&& r@[k].1@ == row.1
                    &&& r@[k].2@ == row.2
                    &&& r@[k].3@.len() == 1 && r@[k].3@[0]@ == row.3
                    &&& r@[k].4@ == "company"@
                },
            decreases 61 - i,
        {
            let (code, name, subsystem, action) = default_policy_row_exec(i);
            let mut actions: Vec<String> = Vec::new();
            actions.push(owned(action));
            r.push((owned(code), owned(name), owned(subsystem), actions, owned("company")));
            i = i + 1;
        }
        r
    }

    /// The creation request of a default policy: an allow at priority 0,
    /// scoped to its subsystem.
    pub fn seed_input(code: String, name: String, subsystem: String, actions: Vec<String>, record_scope: String) -> (r: CreatePermissionPolicyInput)
        ensures
            r.code == code,
            r.name == name,
            r.description is None,
            r.scope_type@ == "subsystem"@,
            r.subsystem_code == subsystem,
            r.entity_type is None,
            r.actions == actions,
            r.record_scope == record_scope,
            r.deny == Some(false),
            r.priority == Some(0i32),
    {
        CreatePermissionPolicyInput {
            code,
            name,
            description: None,
            scope_type: owned("subsystem"),
            subsystem_code: subsystem,
            entity_type: None,
            actions,
            record_scope,
            deny: Some(false),
            priority: Some(0),
        }
    }

    /// The policy that a creation request makes: an allow at priority 0 unless
    /// the request says otherwise.
    pub fn new_policy(input: CreatePermissionPolicyInput, id: String, now: i64) -> (r: PermissionPolicy)
        ensures
            r == (PermissionPolicy {
                id: id,
                code: input.code,
                name: input.name,
                description: input.description,
                scope_type: input.scope_type,
                subsystem_code: input.subsystem_code,
                entity_type: input.entity_type,
                actions: input.actions,
                record_scope: input.record_scope,
                deny: match input.deny { Some(d) => d, None => false },
                priority: match input.priority { Some(p) => p, None => 0 },
                created_at: now,
                updated_at: now,
            }),
    {
        PermissionPolicy {
            id,
            code: input.code,
            name: input.name,
            description: input.description,
            scope_type: input.scope_type,
            subsystem_code: input.subsystem_code,
            entity_type: input.entity_type,
            actions: input.actions,
            record_scope: input.record_scope,
            deny: match input.deny { Some(d) => d, None => false },
            priority: match input.priority { Some(p) => p, None => 0 },
            created_at: now,
            updated_at: now,
        }
    }
}

/// What grants access: a request is granted only through an allowing policy
/// of exactly the subsystem asked about that lists the action (or `"*"`); a
/// request about entity type `e` only through one bound to `e` itself or to
/// no entity type. A policy bound to another entity type never grants it.
pub proof fn lemma_entity_type_matched_exactly(ps: Seq<PermissionPolicy>, subsystem: Seq<char>, et: Option<Seq<char>>, action: Seq<char>)
    ensures
        access_granted(ps, subsystem, et, action) ==> exists|i: int| 0 <= i < ps.len() && {
            let p = #[trigger] ps[i];
            &&& !p.deny
            &&& p.subsystem_code@ == subsystem
            &&& (et matches Some(e) ==> (p.entity_type is None || p.entity_type->0@ == e))
            &&& exists|k: int| 0 <= k < p.actions.len() && (p.actions@[k]@ == action || p.actions@[k]@ == "*"@)
        },
{
}

/// A lone allowing policy bound to another entity type than the one asked
/// about refuses the request.
pub proof fn lemma_other_entity_type_refused(p: PermissionPolicy, subsystem: Seq<char>, e: Seq<char>, action: Seq<char>)
    requires
        p.entity_type matches Some(pe) && pe@ != e,
    ensures
        !access_granted(seq![p], subsystem, Some(e), action),
{
    lemma_entity_type_matched_exactly(seq![p], subsystem, Some(e), action);
}

/// A lone allowing policy of the subsystem that lists the action grants the
/// request when it is bound to the entity type asked about or to none, and
/// grants a request that names no entity type whatever it is bound to.
pub proof fn lemma_fitting_policy_grants(p: PermissionPolicy, subsystem: Seq<char>, et: Option<Seq<char>>, action: Seq<char>, k: int)
    requires
        !p.deny,
        p.subsystem_code@ == subsystem,
        0 <= k < p.actions.len(),
        p.actions@[k]@ == action,
        et matches Some(e) ==> (p.entity_type is None || p.entity_type->0@ == e),
    ensures
        access_granted(seq![p], subsystem, et, action),
{
    assert(seq![p][0] == p);
    assert(policy_matches(seq![p][0], subsystem, et, action));
}

/// A denying policy bound to another entity type does not block a request:
/// next to an allowing policy that fits, access is granted.
pub proof fn lemma_other_entity_deny_ignored(q: PermissionPolicy, p: PermissionPolicy, subsystem: Seq<char>, e: Seq<char>, action: Seq<char>, k: int)
    requires
        !q.deny,
        q.subsystem_code@ == subsystem,
        0 <= k < q.actions.len(),
        q.actions@[k]@ == action,
        q.entity_type is None || q.entity_type->0@ == e,
        p.deny,
        p.entity_type matches Some(pe) && pe@ != e,
    ensures
        access_granted(seq![q, p], subsystem, Some(e), action),
{
    let ps = seq![q, p];
    assert(ps[0] == q && ps[1] == p);
    assert(policy_matches(ps[0], subsystem, Some(e), action));
    if denied_by_some(ps, subsystem, Some(e), action) {
        let i = choose|i: int| 0 <= i < ps.len() && #[trigger] policy_matches(ps[i], subsystem, Some(e), action) && ps[i].deny;
        assert(i == 1);
    }
}

} // verus!
