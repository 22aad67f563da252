use platform2c::audit::{trim_page, AuditChanges, AuditFilters};

fn filters(limit: Option<u32>) -> AuditFilters {
    AuditFilters {
        actions: vec![],
        target_type: None,
        target_id: None,
        entity_type: None,
        user_id: None,
        search: None,
        date_from: None,
        date_to: None,
        before: None,
        after: None,
        limit,
    }
}

#[test]
fn audit_limit_defaults_and_bounds() {
    assert_eq!(filters(None).effective_limit(), 50);
    assert_eq!(filters(Some(0)).effective_limit(), 1);
    assert_eq!(filters(Some(10)).effective_limit(), 10);
    assert_eq!(filters(Some(5000)).effective_limit(), 200);
}

#[test]
fn changes_keep_the_last_value_of_a_field() {
    let c = AuditChanges::new().field("name", "a", "b").field_new("code", "X").field("name", "b", "c");
    assert!(!c.is_empty());
    let mut names: Vec<String> = c.field_names();
    names.sort();
    assert_eq!(names, vec!["code".to_string(), "name".to_string()]);
    let name = c.fields.iter().find(|(n, _)| n == "name").unwrap();
    assert_eq!(name.1.old.as_deref(), Some("b"));
    assert_eq!(name.1.new.as_deref(), Some("c"));
    let code = c.fields.iter().find(|(n, _)| n == "code").unwrap();
    assert_eq!(code.1.old, None);
    assert_eq!(code.1.new.as_deref(), Some("X"));
}

#[test]
fn changes_start_empty() {
    let c = AuditChanges::new();
    assert!(c.is_empty());
    assert!(c.field_names().is_empty());
    let c = c.field_old("code", "OLD");
    assert!(!c.is_empty());
    assert_eq!(c.fields[0].1.old.as_deref(), Some("OLD"));
    assert_eq!(c.fields[0].1.new, None);
}

#[test]
fn page_trimming_reports_more() {
    let (rows, more) = trim_page(vec![1, 2, 3, 4], 3);
    assert_eq!(rows, vec![1, 2, 3]);
    assert!(more);
    let (rows, more) = trim_page(vec![1, 2, 3], 3);
    assert_eq!(rows, vec![1, 2, 3]);
    assert!(!more);
}
