//! The audit trail of changes to a user's company profiles and contacts.

use vstd::prelude::*;
use crate::audit::AuditChanges;
use crate::person::text_change;

verus! {

/// What the audit trail compares of a user's profile in a company.
pub struct ProfileSnapshot {
    pub role_id: String,
    pub position: Option<String>,
    pub department: Option<String>,
    pub is_primary: bool,
    pub is_active: bool,
}

/// The values a profile update gives (none: unchanged).
pub struct ProfileUpdate {
    pub role_id: Option<String>,
    pub position: Option<String>,
    pub department: Option<String>,
    pub is_primary: Option<bool>,
    pub is_active: Option<bool>,
}

/// What the audit trail compares of a user's contact.
pub struct ContactSnapshot {
    pub value: String,
    pub is_primary: bool,
    pub is_verified: bool,
}

/// The values a contact update gives (none: unchanged).
pub struct ContactUpdate {
    pub value: Option<String>,
    pub is_primary: Option<bool>,
    pub is_verified: Option<bool>,
}

/// A flag as the audit trail writes it.
pub open spec fn flag_text(b: bool) -> Seq<char> {
    if b { "true"@ } else { "false"@ }
}

/// The audited change of a flag: recorded as `(old, new)` whenever a new value
/// is given.
pub open spec fn flag_change(
    m: Map<Seq<char>, (Option<Seq<char>>, Option<Seq<char>>)>,
    name: Seq<char>,
    old: bool,
    new: Option<bool>,
) -> Map<Seq<char>, (Option<Seq<char>>, Option<Seq<char>>)> {
    match new {
        Some(v) => m.insert(name, (Some(flag_text(old)), Some(flag_text(v)))),
        None => m,
    }
}

fn flag_str(b: bool) -> (r: &'static str)
    ensures
        r@ == flag_text(b),
{
    if b { "true" } else { "false" }
}

/// The changes the audit trail records when a profile is updated: every
/// given value, against the stored one (`None` when it could not be read:
/// empty texts, not primary, active).
pub open spec fn profile_changes(old: Option<ProfileSnapshot>, input: ProfileUpdate) -> Map<Seq<char>, (Option<Seq<char>>, Option<Seq<char>>)> {
    let role = match old { Some(p) => p.role_id@, None => Seq::empty() };
    let pos = match old { Some(p) => match p.position { Some(x) => x@, None => Seq::empty() }, None => Seq::empty() };
    let dept = match old { Some(p) => match p.department { Some(x) => x@, None => Seq::empty() }, None => Seq::empty() };
    let primary = match old { Some(p) => p.is_primary, None => false };
    let active = match old { Some(p) => p.is_active, None => true };
    let m0 = Map::<Seq<char>, (Option<Seq<char>>, Option<Seq<char>>)>::empty();
    let m1 = text_change(m0, "role_id"@, role, input.role_id, true);
    let m2 = text_change(m1, "position"@, pos, input.position, true);
    let m3 = text_change(m2, "department"@, dept, input.department, true);
    let m4 = flag_change(m3, "is_primary"@, primary, input.is_primary);
    flag_change(m4, "is_active"@, active, input.is_active)
}

/// What the audit trail records of a profile update (nothing is logged when
/// the result is empty).
pub fn profile_update_changes(old: Option<&ProfileSnapshot>, input: &ProfileUpdate) -> (r: AuditChanges)
    ensures
        r.wf(),
        r.view() == profile_changes(match old { Some(p) => Some(*p), None => None }, *input),
{
    proof { reveal_strlit(""); }
    let ghost op = match old { Some(p) => Some(*p), None => None };
    let ghost role = match op { Some(p) => p.role_id@, None => Seq::<char>::empty() };
    let ghost pos = match op { Some(p) => match p.position { Some(x) => x@, None => Seq::<char>::empty() }, None => Seq::<char>::empty() };
    let ghost dept = match op { Some(p) => match p.department { Some(x) => x@, None => Seq::<char>::empty() }, None => Seq::<char>::empty() };
    let ghost m0 = Map::<Seq<char>, (Option<Seq<char>>, Option<Seq<char>>)>::empty();
    let ghost m1 = text_change(m0, "role_id"@, role, input.role_id, true);
    let ghost m2 = text_change(m1, "position"@, pos, input.position, true);
    let ghost m3 = text_change(m2, "department"@, dept, input.department, true);
    let ghost m4 = flag_change(m3, "is_primary"@, match op { Some(p) => p.is_primary, None => false }, input.is_primary);
    let mut changes = AuditChanges::new();
    assert(changes.view() =~= m0);
    if let Some(v) = &input.role_id {
        let o: &str = match old { Some(p) => p.role_id.as_str(), None => "" };
        assert(o@ == role);
        changes = changes.field("role_id", o, v.as_str());
    }
    assert(changes.view() == m1);
    if let Some(v) = &input.position {
        let o: &str = match old {
            Some(p) => match &p.position { Some(x) => x.as_str(), None => "" },
            None => "",
        };
        assert(o@ == pos);
        changes = changes.field("position", o, v.as_str());
    }
    assert(changes.view() == m2);
    if let Some(v) = &input.department {
        let o: &str = match old {
            Some(p) => match &p.department { Some(x) => x.as_str(), None => "" },
            None => "",
        };
        assert(o@ == dept);
        changes = changes.field("department", o, v.as_str());
    }
    assert(changes.view() == m3);
    if let Some(v) = input.is_primary {
        let o = match old { Some(p) => p.is_primary, None => false };
        changes = changes.field("is_primary", flag_str(o), flag_str(v));
    }
    assert(changes.view() == m4);
    if let Some(v) = input.is_active {
        let o = match old { Some(p) => p.is_active, None => true };
        changes = changes.field("is_active", flag_str(o), flag_str(v));
    }
    changes
}

/// The changes the audit trail records when a contact is updated: every
/// given value, against the stored one (`None` when it could not be read:
/// empty value, not primary, not verified).
pub open spec fn contact_changes(old: Option<ContactSnapshot>, input: ContactUpdate) -> Map<Seq<char>, (Option<Seq<char>>, Option<Seq<char>>)> {
    let value = match old { Some(c) => c.value@, None => Seq::empty() };
    let primary = match old { Some(c) => c.is_primary, None => false };
    let verified = match old { Some(c) => c.is_verified, None => false };
    let m0 = Map::<Seq<char>, (Option<Seq<char>>, Option<Seq<char>>)>::empty();
    let m1 = text_change(m0, "value"@, value, input.value, true);
    let m2 = flag_change(m1, "is_primary"@, primary, input.is_primary);
    flag_change(m2, "is_verified"@, verified, input.is_verified)
}

/// What the audit trail records of a contact update (nothing is logged when
/// the result is empty).
pub fn contact_update_changes(old: Option<&ContactSnapshot>, input: &ContactUpdate) -> (r: AuditChanges)
    ensures
        r.wf(),
        r.view() == contact_changes(match old { Some(c) => Some(*c), None => None }, *input),
{
    proof { reveal_strlit(""); }
    let ghost op = match old { Some(c) => Some(*c), None => None };
    let ghost value = match op { Some(c) => c.value@, None => Seq::<char>::empty() };
    let ghost m0 = Map::<Seq<char>, (Option<Seq<char>>, Option<Seq<char>>)>::empty();
    let ghost m1 = text_change(m0, "value"@, value, input.value, true);
    let ghost m2 = flag_change(m1, "is_primary"@, match op { Some(c) => c.is_primary, None => false }, input.is_primary);
    let mut changes = AuditChanges::new();
    assert(changes.view() =~= m0);
    if let Some(v) = &input.value {
        let o: &str = match old { Some(c) => c.value.as_str(), None => "" };
        assert(o@ == value);
        changes = changes.field("value", o, v.as_str());
    }
    assert(changes.view() == m1);
    if let Some(v) = input.is_primary {
        let o = match old { Some(c) => c.is_primary, None => false };
        changes = changes.field("is_primary", flag_str(o), flag_str(v));
    }
    assert(changes.view() == m2);
    if let Some(v) = input.is_verified {
        let o = match old { Some(c) => c.is_verified, None => false };
        changes = changes.field("is_verified", flag_str(o), flag_str(v));
    }
    changes
}

} // verus!
