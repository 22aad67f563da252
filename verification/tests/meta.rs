use platform2c::json::JsonValue;
use platform2c::meta::{decide_action, ActionDecision, ActionHandlerKind, EntityAction, EntityTransition};
use platform2c::objects::Object;
use platform2c::permission::PermissionPolicy;
use platform2c::platform::ObjectState;

const COMPANY: &str = "6f1c2a3b-4d5e-4f60-8a7b-9c0d1e2f3a4b";

fn object(state: ObjectState, company: &str) -> Object {
    Object {
        id: "o1".to_string(),
        entity_type_id: "t1".to_string(),
        kind: "document".to_string(),
        company_id: company.to_string(),
        state,
        data: JsonValue::Object(vec![]),
        computed: None,
        number: None,
        date: None,
        parent_id: None,
        version: 3,
        created_by: "u".to_string(),
        updated_by: "u".to_string(),
        created_at: 0,
        updated_at: 0,
    }
}

fn action(kind: ActionHandlerKind, target: Option<&str>, handler: Option<&str>) -> EntityAction {
    EntityAction {
        id: "a1".to_string(),
        entity_type_id: "t1".to_string(),
        code: "post".to_string(),
        name: "Провести".to_string(),
        description: None,
        action_type: None,
        handler_kind: kind,
        target_state: target.map(|s| s.to_string()),
        handler_ref: handler.map(|s| s.to_string()),
        required_policy: None,
        is_dangerous: false,
        created_at: 0,
    }
}

fn transition(from: &str, to: &str) -> EntityTransition {
    EntityTransition {
        id: "tr".to_string(),
        entity_type_id: "t1".to_string(),
        code: format!("{from}_{to}"),
        name: String::new(),
        from_state: from.to_string(),
        to_state: to.to_string(),
        required_policy: None,
        require_signature: false,
    }
}

#[test]
fn draft_is_posted_by_transition_action() {
    let ts = vec![transition("draft", "posted")];
    let policies: Vec<PermissionPolicy> = vec![];
    let r = decide_action(&action(ActionHandlerKind::Transition, Some("posted"), None), &object(ObjectState::Draft, COMPANY),
        Some(COMPANY), &policies, &ts, true);
    assert!(matches!(r, Ok(ActionDecision::Post { ref current_state, ref target_state })
        if current_state == "draft" && target_state == "posted"));
}

#[test]
fn action_refusals() {
    let ts = vec![transition("draft", "posted")];
    let policies: Vec<PermissionPolicy> = vec![];
    let a = action(ActionHandlerKind::Transition, Some("posted"), None);
    assert_eq!(decide_action(&a, &object(ObjectState::Draft, COMPANY), None, &policies, &ts, true).err().unwrap(),
        "Не выбрана компания");
    assert_eq!(decide_action(&a, &object(ObjectState::Draft, "other"), Some(COMPANY), &policies, &ts, true).err().unwrap(),
        "Доступ запрещён: объект другой компании");
    assert_eq!(decide_action(&a, &object(ObjectState::Posted, COMPANY), Some(COMPANY), &policies, &ts, true).err().unwrap(),
        "Переход posted → posted не найден");
    assert_eq!(decide_action(&a, &object(ObjectState::Draft, COMPANY), Some(COMPANY), &policies, &ts, false).err().unwrap(),
        "Необходима авторизация");
    let custom = action(ActionHandlerKind::Custom, None, Some("mod.fn"));
    assert!(matches!(decide_action(&custom, &object(ObjectState::Draft, COMPANY), Some(COMPANY), &policies, &ts, true),
        Ok(ActionDecision::Custom { ref message }) if message == "Кастомное действие 'post' выполнено (handler_ref: mod.fn)"));
    let bare = action(ActionHandlerKind::Custom, None, None);
    assert_eq!(decide_action(&bare, &object(ObjectState::Draft, COMPANY), Some(COMPANY), &policies, &ts, true).err().unwrap(),
        "Кастомное действие без handler_ref не поддерживается");
}
