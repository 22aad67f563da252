use platform2c::actions::{command_map, ScopeTag};
use platform2c::permission::PermissionPolicyService;
use platform2c::audit::AuditableAction;

#[test]
fn command_map_no_duplicates() {
    let map = command_map();
    let mut names: Vec<&str> = map.iter().map(|m| m.command).collect();
    let before = names.len();
    names.dedup();
    assert_eq!(before, names.len(), "COMMAND_MAP has duplicate command names");
}

#[test]
fn command_map_count_matches() {
    let map = command_map();
    assert!(map.len() >= 100, "COMMAND_MAP has {} entries, expected >= 100", map.len());
}

#[test]
fn audit_actions_are_valid() {
    for m in command_map() {
        if !m.audit.is_empty() {
            let result: Result<AuditableAction, _> = m.audit.parse();
            assert!(result.is_ok(), "Invalid audit action '{}' for command '{}'", m.audit, m.command);
        }
    }
}

#[test]
fn read_commands_have_no_audit() {
    for m in command_map() {
        if m.permission.ends_with(".read") {
            assert!(m.audit.is_empty(), "Read-only command '{}' should not have audit action '{}'", m.command, m.audit);
        }
    }
}

#[test]
fn command_map_entries_are_as_declared() {
    let map = command_map();
    assert_eq!(map.len(), 105);
    assert_eq!(map[0].command, "get_diagnostics");
    assert_eq!(map[0].permission, "platform.access");
    assert!(map[0].scope == ScopeTag::Platform);
    let auth = map.iter().find(|m| m.command == "authenticate").unwrap();
    assert_eq!(auth.permission, "");
    assert!(auth.scope == ScopeTag::Public);
    assert_eq!(auth.audit, "login");
    let post = map.iter().find(|m| m.command == "post_object").unwrap();
    assert_eq!(post.permission, "documents.approve");
    assert!(post.scope == ScopeTag::Object);
}

#[test]
fn audit_action_codes_round_trip() {
    for a in AuditableAction::all() {
        assert_eq!(AuditableAction::from_code(a.as_str()), Some(a));
    }
    assert_eq!(AuditableAction::from_code("post_document"), Some(AuditableAction::PostDocument));
    assert_eq!(AuditableAction::from_code("nope"), None);
    let r: Result<AuditableAction, String> = "nope".parse();
    assert!(r.is_err());
}

#[test]
fn command_permissions_are_default_policies() {
    let policies = PermissionPolicyService::default_policies();
    for m in command_map() {
        if !m.permission.is_empty() {
            assert!(policies.iter().any(|t| t.0 == m.permission), "command '{}' needs unknown permission '{}'", m.command, m.permission);
        }
    }
}
