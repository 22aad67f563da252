use platform2c::audit::AuditChanges;
use platform2c::person::{Person, PersonService, UpdatePersonInput};
use platform2c::users::{
    contact_update_changes, profile_update_changes, ContactSnapshot, ContactUpdate, ProfileSnapshot, ProfileUpdate,
};

fn change(c: &AuditChanges, name: &str) -> Option<(Option<String>, Option<String>)> {
    c.fields.iter().find(|(n, _)| n == name).map(|(_, f)| (f.old.clone(), f.new.clone()))
}

fn pair(a: &str, b: &str) -> Option<(Option<String>, Option<String>)> {
    Some((Some(a.to_string()), Some(b.to_string())))
}

#[test]
fn person_update_records_real_changes() {
    let old = Person {
        id: "p".into(),
        last_name: "Иванов".into(),
        first_name: "Иван".into(),
        middle_name: None,
        display_name: "Иван".into(),
        created_at: 0,
        updated_at: 0,
    };
    let input = UpdatePersonInput {
        last_name: Some("Иванов".into()),
        first_name: Some("Пётр".into()),
        middle_name: Some("Ильич".into()),
        display_name: None,
    };
    let c = PersonService::update_changes(Some(&old), &input);
    assert_eq!(change(&c, "last_name"), None);
    assert_eq!(change(&c, "first_name"), pair("Иван", "Пётр"));
    assert_eq!(change(&c, "middle_name"), pair("", "Ильич"));
    assert_eq!(c.fields.len(), 2);
    let none = PersonService::update_changes(Some(&old), &UpdatePersonInput {
        last_name: None, first_name: Some("Иван".into()), middle_name: None, display_name: None,
    });
    assert!(none.is_empty());
}

#[test]
fn profile_and_contact_changes() {
    let old = ProfileSnapshot { role_id: "r1".into(), position: None, department: Some("IT".into()), is_primary: false, is_active: true };
    let c = profile_update_changes(Some(&old), &ProfileUpdate {
        role_id: Some("r2".into()), position: None, department: Some("IT".into()), is_primary: Some(true), is_active: None,
    });
    assert_eq!(change(&c, "role_id"), pair("r1", "r2"));
    assert_eq!(change(&c, "department"), pair("IT", "IT"));
    assert_eq!(change(&c, "is_primary"), pair("false", "true"));
    assert_eq!(c.fields.len(), 3);
    let c = profile_update_changes(None, &ProfileUpdate {
        role_id: None, position: None, department: None, is_primary: None, is_active: Some(false),
    });
    assert_eq!(change(&c, "is_active"), pair("true", "false"));
    let old = ContactSnapshot { value: "a@b".into(), is_primary: true, is_verified: false };
    let c = contact_update_changes(Some(&old), &ContactUpdate { value: Some("c@d".into()), is_primary: None, is_verified: Some(true) });
    assert_eq!(change(&c, "value"), pair("a@b", "c@d"));
    assert_eq!(change(&c, "is_verified"), pair("false", "true"));
    assert_eq!(c.fields.len(), 2);
}
