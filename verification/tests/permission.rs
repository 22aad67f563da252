use platform2c::audit::{AuditChanges, AuditableAction};
use platform2c::middleware::{CommandContext, CommandOutcome, ExecAction, ExecEvent, ExecState, Scope, SessionUser};
use platform2c::permission::{check_permission, CreatePermissionPolicyInput, PermissionPolicy, PermissionPolicyService};
use platform2c::platform::PlatformError;

fn policy(sub: &str, actions: &[&str], deny: bool, priority: i32, scope: &str) -> PermissionPolicy {
    PermissionPolicy {
        id: "p".into(),
        code: format!("{sub}.x"),
        name: "n".into(),
        description: None,
        scope_type: "subsystem".into(),
        subsystem_code: sub.into(),
        entity_type: None,
        actions: actions.iter().map(|a| a.to_string()).collect(),
        record_scope: scope.into(),
        deny,
        priority,
        created_at: 0,
        updated_at: 0,
    }
}

#[test]
fn access_is_denied_by_default_and_deny_wins() {
    let none: Vec<PermissionPolicy> = vec![];
    assert!(!PermissionPolicyService::check_access(&none, "documents", None, "read"));
    let allow = vec![policy("documents", &["read"], false, 0, "company")];
    assert!(PermissionPolicyService::check_access(&allow, "documents", None, "read"));
    assert!(!PermissionPolicyService::check_access(&allow, "documents", None, "update"));
    let both = vec![policy("documents", &["*"], false, 10, "company"), policy("documents", &["read"], true, 0, "company")];
    assert!(!PermissionPolicyService::check_access(&both, "documents", None, "read"));
    assert!(PermissionPolicyService::check_access(&both, "documents", None, "update"));
}

#[test]
fn permission_codes_are_checked() {
    let ps = vec![policy("documents", &["read"], false, 0, "company")];
    assert!(check_permission(&ps, "").is_ok());
    assert!(check_permission(&ps, "documents.read").is_ok());
    match check_permission(&ps, "documents") {
        Err(PlatformError::PermissionDenied(m)) => assert_eq!(m, "Невалидный формат действия: documents"),
        _ => panic!(),
    }
    match check_permission(&ps, "a.b.c") {
        Err(PlatformError::PermissionDenied(m)) => assert_eq!(m, "Невалидный формат действия: a.b.c"),
        _ => panic!(),
    }
    let e = check_permission(&ps, "documents.approve").err().unwrap();
    assert_eq!(e.message(), "Нарушение прав доступа: Доступ запрещён: нет права documents.approve");
}

#[test]
fn default_policies_table() {
    let d = PermissionPolicyService::default_policies();
    assert_eq!(d.len(), 61);
    assert_eq!(d[0].0, "platform.access");
    assert_eq!(d[0].2, "platform");
    assert_eq!(d[0].3, vec!["access".to_string()]);
    for (code, _name, subsystem, actions, scope) in &d {
        assert_eq!(*code, format!("{}.{}", subsystem, actions[0]));
        assert_eq!(scope, "company");
    }
}

#[test]
fn new_policies_allow_at_priority_zero() {
    let input = CreatePermissionPolicyInput {
        code: "x.y".into(),
        name: "n".into(),
        description: None,
        scope_type: "subsystem".into(),
        subsystem_code: "x".into(),
        entity_type: None,
        actions: vec!["y".into()],
        record_scope: "own".into(),
        deny: None,
        priority: None,
    };
    let p = PermissionPolicyService::new_policy(input, "id1".into(), 5);
    assert!(!p.deny);
    assert_eq!(p.priority, 0);
    assert_eq!(p.created_at, 5);
}

fn ctx(policies: Vec<PermissionPolicy>) -> CommandContext {
    CommandContext::extract(
        Some(SessionUser { id: "u1".into(), login: "ivan".into(), display_name: "".into() }),
        Some("67E55044-10B1-426F-9247-BB680E5FE0C8"),
        None,
        Some(policies),
        true,
    )
    .unwrap()
}

#[test]
fn context_extraction() {
    let c = ctx(vec![]);
    assert_eq!(c.company_id, "67e55044-10b1-426f-9247-bb680e5fe0c8");
    let a = c.actor();
    assert_eq!(a.login, "ivan");
    assert_eq!(a.full_name, None);
    match CommandContext::extract(None, Some("x"), None, None, true) {
        Err(PlatformError::Auth(m)) => assert_eq!(m, "Необходима авторизация"),
        _ => panic!(),
    }
    let u = SessionUser { id: "u1".into(), login: "l".into(), display_name: "d".into() };
    match CommandContext::extract(Some(u), None, None, None, true) {
        Err(PlatformError::Auth(m)) => assert_eq!(m, "Не выбрана компания"),
        _ => panic!(),
    }
    let u = SessionUser { id: "u1".into(), login: "l".into(), display_name: "d".into() };
    match CommandContext::extract(Some(u), Some("bad"), None, None, true) {
        Err(PlatformError::Validation(m)) => assert!(m.starts_with("Невалидный company_id: ")),
        _ => panic!(),
    }
    let u = SessionUser { id: "u1".into(), login: "l".into(), display_name: "d".into() };
    match CommandContext::extract(Some(u), Some("67e55044-10b1-426f-9247-bb680e5fe0c8"), None, None, false) {
        Err(PlatformError::Auth(m)) => assert_eq!(m, "БД не подключена"),
        _ => panic!(),
    }
}

#[test]
fn record_scope_own_needs_the_owner() {
    let c = ctx(vec![policy("documents", &["update"], false, 0, "company"), policy("documents", &["*"], false, 5, "own")]);
    assert_eq!(c.record_scope_plan("67e55044-10b1-426f-9247-bb680e5fe0c8", "documents.update").unwrap(), true);
    assert!(c.record_scope_plan("bad", "documents.update").is_err());
    assert!(c.owner_check("u1").is_ok());
    match c.owner_check("u2") {
        Err(PlatformError::PermissionDenied(m)) => {
            assert_eq!(m, "Доступ запрещён: запись принадлежит другому пользователю (record_scope = own)")
        },
        _ => panic!(),
    }
    let c = ctx(vec![policy("documents", &["update"], false, 5, "company"), policy("documents", &["*"], false, 5, "own")]);
    assert_eq!(c.record_scope_plan("bad", "documents.update").is_err(), true);
    let c = ctx(vec![policy("documents", &["*"], false, 5, "own"), policy("documents", &["update"], false, 5, "company")]);
    assert_eq!(c.record_scope_plan("bad", "documents.update").unwrap(), false);
}

#[test]
fn command_frame_runs_checks_logic_then_audit() {
    let c = ctx(vec![policy("documents", &["update"], false, 0, "own")]);
    let id = "67e55044-10b1-426f-9247-bb680e5fe0c8".to_string();
    let scope = Scope::Object(id.clone());
    let act = AuditableAction::UpdateDocument;
    // permission passes, the record is limited to its owner: load it
    let (st, a) = c.step::<u32>("documents.update", &scope, act, ExecState::Start, ExecEvent::Begin);
    assert!(matches!(st, ExecState::OwnerPending));
    assert!(matches!(a, ExecAction::LoadOwner(ref x) if *x == id));
    // the owner is the user: run the logic
    let (st, a) = c.step::<u32>("documents.update", &scope, act, st, ExecEvent::OwnerLoaded(Ok("u1".to_string())));
    assert!(matches!(st, ExecState::LogicPending));
    match a {
        ExecAction::RunLogic(actor) => {
            assert_eq!(actor.user_id, "u1");
            assert_eq!(actor.login, "ivan");
            assert_eq!(actor.full_name, None);
            assert_eq!(actor.company_id, c.actor().company_id);
        }
        _ => panic!("expected the logic to run"),
    }
    // the logic succeeded with changes: write the audit record
    let out = CommandOutcome::with_changes(7u32, AuditChanges::new().field("name", "a", "b"));
    let (st, a) = c.step::<u32>("documents.update", &scope, act, st, ExecEvent::LogicReturned(Ok(out)));
    match a {
        ExecAction::WriteAudit(w) => {
            assert_eq!(w.action, act);
            assert_eq!(w.user_id, "u1");
            assert_eq!(w.target_id.as_deref(), Some(id.as_str()));
            assert_eq!(w.object_id.as_deref(), Some(""));
            assert!(w.changes.is_some());
        }
        _ => panic!("expected an audit write"),
    }
    // the audit write failed: the result stands
    let (st, a) = c.step::<u32>("documents.update", &scope, act, st, ExecEvent::AuditWritten(Err(PlatformError::Database("down".into()))));
    assert!(matches!(st, ExecState::Finished));
    assert!(matches!(a, ExecAction::Return(Ok(7))));
}

#[test]
fn command_frame_refusals_write_no_audit() {
    let c = ctx(vec![policy("documents", &["update"], false, 0, "own")]);
    let act = AuditableAction::UpdateDocument;
    let (st, a) = c.step::<u32>("documents.delete", &Scope::Company, act, ExecState::Start, ExecEvent::Begin);
    assert!(matches!(st, ExecState::Finished));
    assert!(matches!(a, ExecAction::Return(Err(PlatformError::PermissionDenied(_)))));
    let scope = Scope::Object("67e55044-10b1-426f-9247-bb680e5fe0c8".to_string());
    let (st, a) = c.step::<u32>("documents.update", &scope, act, ExecState::OwnerPending, ExecEvent::OwnerLoaded(Ok("u2".to_string())));
    assert!(matches!(st, ExecState::Finished));
    match a {
        ExecAction::Return(Err(PlatformError::PermissionDenied(m))) => {
            assert_eq!(m, "Доступ запрещён: запись принадлежит другому пользователю (record_scope = own)")
        }
        _ => panic!("expected a refusal"),
    }
    let (st, a) = c.step::<u32>("documents.update", &Scope::Company, act, ExecState::Start, ExecEvent::Begin);
    assert!(matches!(st, ExecState::LogicPending) && matches!(a, ExecAction::RunLogic(_)));
    let (st, a) = c.step::<u32>("documents.update", &Scope::Company, act, st, ExecEvent::LogicReturned(Err(PlatformError::Validation("x".into()))));
    assert!(matches!(st, ExecState::Finished));
    assert!(matches!(a, ExecAction::Return(Err(PlatformError::Validation(_)))));
}

#[test]
fn permission_codes_by_pieces() {
    let ps = vec![policy("documents", &["read"], false, 0, "company")];
    for bad in ["documents", "documents.read.all", "a.b.c.d"] {
        match check_permission(&ps, bad) {
            Err(PlatformError::PermissionDenied(m)) => assert_eq!(m, format!("Невалидный формат действия: {bad}")),
            _ => panic!("a code that is not two pieces is refused"),
        }
    }
    assert!(check_permission(&ps, "").is_ok());
    assert!(check_permission(&ps, "documents.read").is_ok());
    assert!(check_permission(&ps, ".").is_err());
    assert_eq!(
        check_permission(&ps, "documents.read").is_ok(),
        PermissionPolicyService::check_access(&ps, "documents", None, "read")
    );
}
