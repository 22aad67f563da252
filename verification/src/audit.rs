//! The audit trail: the actions that are audited, the field changes an entry
//! records, and the paging of audit lists.

use vstd::prelude::*;
use crate::text::{str_eq, concat2};

verus! {

/// The old and new value of one changed field.
pub struct FieldChange {
    pub old: Option<String>,
    pub new: Option<String>,
}

/// The changes an audit entry records, one per field name. The names are
/// distinct (see `wf`). They are kept as a list of pairs with that invariant
/// rather than in a `HashMap<String, _>`: vstd specifies the contents of a
/// `HashMap` only for keys that obey its key model (integers, `bool`), which
/// `String` is not among, so a map keyed by field name could not be reasoned about.
pub struct AuditChanges {
    pub fields: Vec<(String, FieldChange)>,
}

/// A change as a pair of optional texts: the old value and the new one.
pub open spec fn change_view(c: FieldChange) -> (Option<Seq<char>>, Option<Seq<char>>) {
    (match c.old { Some(o) => Some(o@), None => None }, match c.new { Some(n) => Some(n@), None => None })
}

/// Do the entries hold some change under `name`?
pub open spec fn names_change(fields: Seq<(String, FieldChange)>, name: Seq<char>) -> bool {
    exists|i: int| 0 <= i < fields.len() && (#[trigger] fields[i]).0@ == name
}

impl AuditChanges {
    /// No field name occurs twice.
    pub open spec fn wf(&self) -> bool {
        forall|i: int, j: int| 0 <= i < j < self.fields@.len() ==> (#[trigger] self.fields@[i]).0@ != (#[trigger] self.fields@[j]).0@
    }

    /// The changes by field name.
    pub open spec fn view(&self) -> Map<Seq<char>, (Option<Seq<char>>, Option<Seq<char>>)> {
        Map::new(
            |name: Seq<char>| names_change(self.fields@, name),
            |name: Seq<char>| change_view(self.fields@[choose|i: int| 0 <= i < self.fields@.len() && (#[trigger] self.fields@[i]).0@ == name].1),
        )
    }

    /// No changes.
    pub fn new() -> (r: AuditChanges)
        ensures
            r.wf(),
            r.view() == Map::<Seq<char>, (Option<Seq<char>>, Option<Seq<char>>)>::empty(),
    {
        let r = AuditChanges { fields: Vec::new() };
        assert(r.view() =~= Map::<Seq<char>, (Option<Seq<char>>, Option<Seq<char>>)>::empty());
        r
    }

    /// Records `change` under `name`, replacing what was recorded there.
    fn put(self, name: String, change: FieldChange) -> (r: AuditChanges)
        requires
            self.wf(),
        ensures
            r.wf(),
            r.view() == self.view().insert(name@, change_view(change)),
    {
        let mut fields = self.fields;
        let ghost old_fields = fields@;
        let mut i: usize = 0;
        while i < fields.len()
            invariant
                i <= fields.len(),
                fields@ == old_fields,
                old_fields == self.fields@,
                self.wf(),
                forall|j: int| 0 <= j < i ==> (#[trigger] fields@[j]).0@ != name@,
            decreases fields.len() - i,
        {
            if str_eq(fields[i].0.as_str(), name.as_str()) {
                let ghost nm = name@;
                fields.set(i, (name, change));
                let r = AuditChanges { fields };
                proof {
                    assert(r.wf());
                    assert forall|k: Seq<char>| #![auto] r.view().dom().contains(k) <==> self.view().insert(nm, change_view(change)).dom().contains(k) by {
                        if names_change(old_fields, k) && k != nm {
                            let j = choose|j: int| 0 <= j < old_fields.len() && (#[trigger] old_fields[j]).0@ == k;
                            assert(r.fields@[j] == old_fields[j]);
                        }
                        if names_change(r.fields@, k) && k != nm {
                            let j = choose|j: int| 0 <= j < r.fields@.len() && (#[trigger] r.fields@[j]).0@ == k;
                            assert(j != i);
                            assert(r.fields@[j] == old_fields[j]);
                        }
                        assert(r.fields@[i as int].0@ == nm);
                    }
                    assert forall|k: Seq<char>| #![auto] r.view().dom().contains(k) implies r.view()[k] == self.view().insert(nm, change_view(change))[k] by {
                        let j = choose|j: int| 0 <= j < r.fields@.len() && (#[trigger] r.fields@[j]).0@ == k;
                        if k == nm {
                            assert(r.fields@[i as int].0@ == nm);
                            assert(j == i);
                        } else {
                            assert(j != i);
                            assert(old_fields[j].0@ == k);
                            let j2 = choose|j2: int| 0 <= j2 < old_fields.len() && (#[trigger] old_fields[j2]).0@ == k;
                            assert(j2 == j);
                        }
                    }
                    assert(r.view() =~= self.view().insert(nm, change_view(change)));
                }
                return r;
            }
            i = i + 1;
        }
        let ghost nm = name@;
        fields.push((name, change));
        let r = AuditChanges { fields };
        proof {
            let n = old_fields.len() as int;
            assert(r.fields@[n].0@ == nm);
            assert(r.wf());
            assert forall|k: Seq<char>| #![auto] r.view().dom().contains(k) <==> self.view().insert(nm, change_view(change)).dom().contains(k) by {
                if names_change(old_fields, k) {
                    let j = choose|j: int| 0 <= j < old_fields.len() && (#[trigger] old_fields[j]).0@ == k;
                    assert(r.fields@[j] == old_fields[j]);
                }
                if names_change(r.fields@, k) && k != nm {
                    let j = choose|j: int| 0 <= j < r.fields@.len() && (#[trigger] r.fields@[j]).0@ == k;
                    assert(j != n);
                    assert(r.fields@[j] == old_fields[j]);
                }
            }
            assert forall|k: Seq<char>| #![auto] r.view().dom().contains(k) implies r.view()[k] == self.view().insert(nm, change_view(change))[k] by {
                let j = choose|j: int| 0 <= j < r.fields@.len() && (#[trigger] r.fields@[j]).0@ == k;
                if k == nm {
                    assert(j == n);
                } else {
                    assert(j != n);
                    assert(old_fields[j].0@ == k);
                    let j2 = choose|j2: int| 0 <= j2 < old_fields.len() && (#[trigger] old_fields[j2]).0@ == k;
                    assert(j2 == j);
                }
            }
            assert(r.view() =~= self.view().insert(nm, change_view(change)));
        }
        r
    }

    /// Records a field that changed from `old` to `new`.
    pub fn field(self, name: &str, old: &str, new: &str) -> (r: AuditChanges)
        requires
            self.wf(),
        ensures
            r.wf(),
            r.view() == self.view().insert(name@, (Some(old@), Some(new@))),
    {
        let c = FieldChange { old: Some(old.to_string()), new: Some(new.to_string()) };
        self.put(name.to_string(), c)
    }

    /// Records a field that was set to `new` and had no value before.
    pub fn field_new(self, name: &str, new: &str) -> (r: AuditChanges)
        requires
            self.wf(),
        ensures
            r.wf(),
            r.view() == self.view().insert(name@, (None, Some(new@))),
    {
        let c = FieldChange { old: None, new: Some(new.to_string()) };
        self.put(name.to_string(), c)
    }

    /// Records a field that had the value `old` and was cleared.
    pub fn field_old(self, name: &str, old: &str) -> (r: AuditChanges)
        requires
            self.wf(),
        ensures
            r.wf(),
            r.view() == self.view().insert(name@, (Some(old@), None)),
    {
        let c = FieldChange { old: Some(old.to_string()), new: None };
        self.put(name.to_string(), c)
    }

    /// Are no changes recorded?
    pub fn is_empty(&self) -> (r: bool)
        ensures
            r == (self.view().dom() == Set::<Seq<char>>::empty()),
    {
        if self.fields.len() == 0 {
            assert(self.view().dom() =~= Set::<Seq<char>>::empty());
            true
        } else {
            assert(self.view().dom().contains(self.fields@[0].0@));
            false
        }
    }

    /// The names of the changed fields, each once.
    pub fn field_names(&self) -> (r: Vec<String>)
        requires
            self.wf(),
        ensures
            r@.len() == self.fields@.len(),
            forall|k: Seq<char>| self.view().dom().contains(k) <==> exists|i: int| 0 <= i < r@.len() && (#[trigger] r@[i])@ == k,
            forall|i: int, j: int| 0 <= i < j < r@.len() ==> (#[trigger] r@[i])@ != (#[trigger] r@[j])@,
    {
        let mut r: Vec<String> = Vec::new();
        let mut i: usize = 0;
        while i < self.fields.len()
            invariant
                i <= self.fields.len(),
                r@.len() == i,
                forall|j: int| 0 <= j < i ==> (#[trigger] r@[j])@ == self.fields@[j].0@,
            decreases self.fields.len() - i,
        {
            r.push(self.fields[i].0.clone());
            i = i + 1;
        }
        assert forall|k: Seq<char>| self.view().dom().contains(k) <==> exists|i: int| 0 <= i < r@.len() && (#[trigger] r@[i])@ == k by {
            if self.view().dom().contains(k) {
                let j = choose|j: int| 0 <= j < self.fields@.len() && (#[trigger] self.fields@[j]).0@ == k;
                assert(r@[j]@ == k);
            }
            if exists|i: int| 0 <= i < r@.len() && (#[trigger] r@[i])@ == k {
                let j = choose|j: int| 0 <= j < r@.len() && (#[trigger] r@[j])@ == k;
                assert(self.fields@[j].0@ == k);
            }
        }
        assert forall|i: int, j: int| 0 <= i < j < r@.len() implies (#[trigger] r@[i])@ != (#[trigger] r@[j])@ by {
            assert(self.fields@[i].0@ != self.fields@[j].0@);
        }
        r
    }
}

/// Recording a field twice keeps the later change; recording two different
/// fields gives the same changes in either order.
pub proof fn lemma_changes_last_write_wins(
    m: Map<Seq<char>, (Option<Seq<char>>, Option<Seq<char>>)>,
    a: Seq<char>,
    b: Seq<char>,
    x: (Option<Seq<char>>, Option<Seq<char>>),
    y: (Option<Seq<char>>, Option<Seq<char>>),
)
    ensures
        m.insert(a, x).insert(a, y) == m.insert(a, y),
        a != b ==> m.insert(a, x).insert(b, y) == m.insert(b, y).insert(a, x),
{
    assert(m.insert(a, x).insert(a, y) =~= m.insert(a, y));
    if a != b {
        assert(m.insert(a, x).insert(b, y) =~= m.insert(b, y).insert(a, x));
    }
}

/// Filters of an audit list.
pub struct AuditFilters {
    pub actions: Vec<String>,
    pub target_type: Option<String>,
    pub target_id: Option<String>,
    pub entity_type: Option<String>,
    pub user_id: Option<String>,
    pub search: Option<String>,
    /// Bounds on the time of the entries, in milliseconds since the Unix epoch.
    pub date_from: Option<i64>,
    pub date_to: Option<i64>,
    pub before: Option<i64>,
    pub after: Option<i64>,
    pub limit: Option<u32>,
}

/// The page size of an audit list: 50 by default, between 1 and 200.
pub open spec fn audit_limit(limit: Option<u32>) -> i64 {
    let l = match limit { Some(l) => l as int, None => 50 };
    if l > 200 { 200 } else if l < 1 { 1 } else { l as i64 }
}

impl AuditFilters {
    /// The page size that a list uses.
    pub fn effective_limit(&self) -> (r: i64)
        ensures
            r == audit_limit(self.limit),
            1 <= r <= 200,
    {
        let l: u32 = match self.limit { Some(l) => l, None => 50 };
        let m: u32 = if l < 200 { l } else { 200 };
        let m: u32 = if m > 1 { m } else { 1 };
        m as i64
    }
}

/// Cuts the rows read for a page (one more than the limit is read) to the
/// page, and says whether more rows follow.
pub fn trim_page<T>(rows: Vec<T>, limit: i64) -> (r: (Vec<T>, bool))
    requires
        limit >= 0,
    ensures
        r.1 == (rows@.len() > limit),
        r.1 ==> r.0@ == rows@.drop_last(),
        !r.1 ==> r.0@ == rows@,
{
    let mut rows = rows;
    let has_more = rows.len() as u64 > limit as u64;
    if has_more {
        rows.pop();
    }
    (rows, has_more)
}

/// The actions that the audit trail records.
#[derive(PartialEq, Eq, Structural, Clone, Copy, Debug)]
pub enum AuditableAction {
    Login,
    ExecuteScript,
    CreateCompany,
    UpdateCompany,
    DeleteCompany,
    SwitchCompany,
    CreateUser,
    UpdateUser,
    DeleteUser,
    UpdatePerson,
    AddUserProfile,
    UpdateUserProfile,
    RemoveUserProfile,
    CreateContact,
    UpdateContact,
    DeleteContact,
    SaveSettings,
    DeactivateCertificate,
    CreateRole,
    UpdateRole,
    DeleteRole,
    CreatePermissionPolicy,
    DeletePermissionPolicy,
    ExecuteEntityAction,
    SignDocument,
    CreateDocument,
    UpdateDocument,
    PostDocument,
    CancelDocument,
    RestoreDocument,
    CreatePrintTemplate,
    UpdatePrintTemplate,
    DeletePrintTemplate,
    ConnectDevice,
    DisconnectDevice,
    ConfigureDevice,
    TestDevice,
    ModuleKvPut,
    ModuleKvDelete,
}

/// Does the list hold the action?
pub open spec fn action_listed(l: Seq<AuditableAction>, a: AuditableAction) -> bool {
    exists|i: int| 0 <= i < l.len() && l[i] == a
}

/// The stored code of an audited action.
pub open spec fn action_code(a: AuditableAction) -> Seq<char> {
    match a {
        AuditableAction::Login => "login"@,
        AuditableAction::ExecuteScript => "execute_script"@,
        AuditableAction::CreateCompany => "create_company"@,
        AuditableAction::UpdateCompany => "update_company"@,
        AuditableAction::DeleteCompany => "delete_company"@,
        AuditableAction::SwitchCompany => "switch_company"@,
        AuditableAction::CreateUser => "create_user"@,
        AuditableAction::UpdateUser => "update_user"@,
        AuditableAction::DeleteUser => "delete_user"@,
        AuditableAction::UpdatePerson => "update_person"@,
        AuditableAction::AddUserProfile => "add_user_profile"@,
        AuditableAction::UpdateUserProfile => "update_user_profile"@,
        AuditableAction::RemoveUserProfile => "remove_user_profile"@,
        AuditableAction::CreateContact => "create_contact"@,
        AuditableAction::UpdateContact => "update_contact"@,
        AuditableAction::DeleteContact => "delete_contact"@,
        AuditableAction::SaveSettings => "save_settings"@,
        AuditableAction::DeactivateCertificate => "deactivate_certificate"@,
        AuditableAction::CreateRole => "create_role"@,
        AuditableAction::UpdateRole => "update_role"@,
        AuditableAction::DeleteRole => "delete_role"@,
        AuditableAction::CreatePermissionPolicy => "create_permission_policy"@,
        AuditableAction::DeletePermissionPolicy => "delete_permission_policy"@,
        AuditableAction::ExecuteEntityAction => "execute_entity_action"@,
        AuditableAction::SignDocument => "sign_document"@,
        AuditableAction::CreateDocument => "create_document"@,
        AuditableAction::UpdateDocument => "update_document"@,
        AuditableAction::PostDocument => "post_document"@,
        AuditableAction::CancelDocument => "cancel_document"@,
        AuditableAction::RestoreDocument => "restore_document"@,
        AuditableAction::CreatePrintTemplate => "create_print_template"@,
        AuditableAction::UpdatePrintTemplate => "update_print_template"@,
        AuditableAction::DeletePrintTemplate => "delete_print_template"@,
        AuditableAction::ConnectDevice => "connect_device"@,
        AuditableAction::DisconnectDevice => "disconnect_device"@,
        AuditableAction::ConfigureDevice => "configure_device"@,
        AuditableAction::TestDevice => "test_device"@,
        AuditableAction::ModuleKvPut => "module_kv_put"@,
        AuditableAction::ModuleKvDelete => "module_kv_delete"@,
    }
}

impl AuditableAction {
    /// The stored code of the action.
    pub fn as_str(&self) -> (r: &'static str)
        ensures
            r@ == action_code(*self),
    {
        match self {
            AuditableAction::Login => "login",
            AuditableAction::ExecuteScript => "execute_script",
            AuditableAction::CreateCompany => "create_company",
            AuditableAction::UpdateCompany => "update_company",
            AuditableAction::DeleteCompany => "delete_company",
            AuditableAction::SwitchCompany => "switch_company",
            AuditableAction::CreateUser => "create_user",
            AuditableAction::UpdateUser => "update_user",
            AuditableAction::DeleteUser => "delete_user",
            AuditableAction::UpdatePerson => "update_person",
            AuditableAction::AddUserProfile => "add_user_profile",
            AuditableAction::UpdateUserProfile => "update_user_profile",
            AuditableAction::RemoveUserProfile => "remove_user_profile",
            AuditableAction::CreateContact => "create_contact",
            AuditableAction::UpdateContact => "update_contact",
            AuditableAction::DeleteContact => "delete_contact",
            AuditableAction::SaveSettings => "save_settings",
            AuditableAction::DeactivateCertificate => "deactivate_certificate",
            AuditableAction::CreateRole => "create_role",
            AuditableAction::UpdateRole => "update_role",
            AuditableAction::DeleteRole => "delete_role",
            AuditableAction::CreatePermissionPolicy => "create_permission_policy",
            AuditableAction::DeletePermissionPolicy => "delete_permission_policy",
            AuditableAction::ExecuteEntityAction => "execute_entity_action",
            AuditableAction::SignDocument => "sign_document",
            AuditableAction::CreateDocument => "create_document",
            AuditableAction::UpdateDocument => "update_document",
            AuditableAction::PostDocument => "post_document",
            AuditableAction::CancelDocument => "cancel_document",
            AuditableAction::RestoreDocument => "restore_document",
            AuditableAction::CreatePrintTemplate => "create_print_template",
            AuditableAction::UpdatePrintTemplate => "update_print_template",
            AuditableAction::DeletePrintTemplate => "delete_print_template",
            AuditableAction::ConnectDevice => "connect_device",
            AuditableAction::DisconnectDevice => "disconnect_device",
            AuditableAction::ConfigureDevice => "configure_device",
            AuditableAction::TestDevice => "test_device",
            AuditableAction::ModuleKvPut => "module_kv_put",
            AuditableAction::ModuleKvDelete => "module_kv_delete",
        }
    }

    /// All actions, in declaration order.
    pub fn all() -> (r: Vec<AuditableAction>)
        ensures
            forall|a: AuditableAction| #[trigger] action_listed(r@, a),
    {
        let r = vec![
            AuditableAction::Login, AuditableAction::ExecuteScript, AuditableAction::CreateCompany,
            AuditableAction::UpdateCompany, AuditableAction::DeleteCompany, AuditableAction::SwitchCompany,
            AuditableAction::CreateUser, AuditableAction::UpdateUser, AuditableAction::DeleteUser,
            AuditableAction::UpdatePerson, AuditableAction::AddUserProfile, AuditableAction::UpdateUserProfile,
            AuditableAction::RemoveUserProfile, AuditableAction::CreateContact, AuditableAction::UpdateContact,
            AuditableAction::DeleteContact, AuditableAction::SaveSettings, AuditableAction::DeactivateCertificate,
            AuditableAction::CreateRole, AuditableAction::UpdateRole, AuditableAction::DeleteRole,
            AuditableAction::CreatePermissionPolicy, AuditableAction::DeletePermissionPolicy,
            AuditableAction::ExecuteEntityAction, AuditableAction::SignDocument, AuditableAction::CreateDocument,
            AuditableAction::UpdateDocument, AuditableAction::PostDocument, AuditableAction::CancelDocument,
            AuditableAction::RestoreDocument, AuditableAction::CreatePrintTemplate,
            AuditableAction::UpdatePrintTemplate, AuditableAction::DeletePrintTemplate,
            AuditableAction::ConnectDevice, AuditableAction::DisconnectDevice, AuditableAction::ConfigureDevice,
            AuditableAction::TestDevice, AuditableAction::ModuleKvPut, AuditableAction::ModuleKvDelete,
        ];
        assert forall|a: AuditableAction| #[trigger] action_listed(r@, a) by {
            match a {
                AuditableAction::Login => assert(r@[0] == a),
                AuditableAction::ExecuteScript => assert(r@[1] == a),
                AuditableAction::CreateCompany => assert(r@[2] == a),
                AuditableAction::UpdateCompany => assert(r@[3] == a),
                AuditableAction::DeleteCompany => assert(r@[4] == a),
                AuditableAction::SwitchCompany => assert(r@[5] == a),
                AuditableAction::CreateUser => assert(r@[6] == a),
                AuditableAction::UpdateUser => assert(r@[7] == a),
                AuditableAction::DeleteUser => assert(r@[8] == a),
                AuditableAction::UpdatePerson => assert(r@[9] == a),
                AuditableAction::AddUserProfile => assert(r@[10] == a),
                AuditableAction::UpdateUserProfile => assert(r@[11] == a),
                AuditableAction::RemoveUserProfile => assert(r@[12] == a),
                AuditableAction::CreateContact => assert(r@[13] == a),
                AuditableAction::UpdateContact => assert(r@[14] == a),
                AuditableAction::DeleteContact => assert(r@[15] == a),
                AuditableAction::SaveSettings => assert(r@[16] == a),
                AuditableAction::DeactivateCertificate => assert(r@[17] == a),
                AuditableAction::CreateRole => assert(r@[18] == a),
                AuditableAction::UpdateRole => assert(r@[19] == a),
                AuditableAction::DeleteRole => assert(r@[20] == a),
                AuditableAction::CreatePermissionPolicy => assert(r@[21] == a),
                AuditableAction::DeletePermissionPolicy => assert(r@[22] == a),
                AuditableAction::ExecuteEntityAction => assert(r@[23] == a),
                AuditableAction::SignDocument => assert(r@[24] == a),
                AuditableAction::CreateDocument => assert(r@[25] == a),
                AuditableAction::UpdateDocument => assert(r@[26] == a),
                AuditableAction::PostDocument => assert(r@[27] == a),
                AuditableAction::CancelDocument => assert(r@[28] == a),
                AuditableAction::RestoreDocument => assert(r@[29] == a),
                AuditableAction::CreatePrintTemplate => assert(r@[30] == a),
                AuditableAction::UpdatePrintTemplate => assert(r@[31] == a),
                AuditableAction::DeletePrintTemplate => assert(r@[32] == a),
                AuditableAction::ConnectDevice => assert(r@[33] == a),
                AuditableAction::DisconnectDevice => assert(r@[34] == a),
                AuditableAction::ConfigureDevice => assert(r@[35] == a),
                AuditableAction::TestDevice => assert(r@[36] == a),
                AuditableAction::ModuleKvPut => assert(r@[37] == a),
                AuditableAction::ModuleKvDelete => assert(r@[38] == a),
            }
        }
        r
    }

    /// The action whose stored code is `code`, if any.
    pub fn from_code(code: &str) -> (r: Option<AuditableAction>)
        ensures
            r matches Some(a) ==> action_code(a) == code@,
            r is None ==> forall|a: AuditableAction| action_code(a) != code@,
    {
        let all = AuditableAction::all();
        let mut i: usize = 0;
        while i < all.len()
            invariant
                i <= all.len(),
                forall|a: AuditableAction| #[trigger] action_listed(all@, a),
                forall|k: int| 0 <= k < i ==> action_code(#[trigger] all@[k]) != code@,
            decreases all.len() - i,
        {
            let a = all[i];
            if str_eq(a.as_str(), code) {
                return Some(a);
            }
            i = i + 1;
        }
        assert forall|a: AuditableAction| action_code(a) != code@ by {
            assert(action_listed(all@, a));
            let k = choose|k: int| 0 <= k < all@.len() && all@[k] == a;
            assert(action_code(all@[k]) != code@);
        }
        None
    }
}

impl std::str::FromStr for AuditableAction {
    type Err = String;

    /// Parses the stored code of an action.
    fn from_str(s: &str) -> (r: Result<AuditableAction, String>)
        ensures
            r matches Ok(a) ==> action_code(a) == s@,
            r is Err ==> forall|a: AuditableAction| action_code(a) != s@,
            r matches Err(m) ==> m@ == "Неизвестное действие аудита: "@ + s@,
    {
        match AuditableAction::from_code(s) {
            Some(a) => Ok(a),
            None => Err(concat2("Неизвестное действие аудита: ", s)),
        }
    }
}

/// The audit service over the platform's database.
pub struct MongoAuditService;

impl MongoAuditService {
    /// The service.
    pub fn new() -> (r: MongoAuditService)
        ensures
            r == MongoAuditService,
    {
        MongoAuditService
    }
}

} // verus!
