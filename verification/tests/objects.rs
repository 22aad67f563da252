use platform2c::json::{JsonNumber, JsonValue};
use platform2c::objects::{
    json_i64, posted_payload, CreateObjectInput, Object, ObjectFilters, ObjectService, UpdateObjectInput,
};
use platform2c::platform::{ObjectState, PlatformError};

const TYPE_ID: &str = "67e55044-10b1-426f-9247-bb680e5fe0c8";

fn obj(state: ObjectState, version: i64) -> Object {
    Object {
        id: "o1".to_string(),
        entity_type_id: TYPE_ID.to_string(),
        kind: "document".to_string(),
        company_id: "c1".to_string(),
        state,
        data: JsonValue::Object(vec![]),
        computed: None,
        number: None,
        date: None,
        parent_id: None,
        version,
        created_by: "u1".to_string(),
        updated_by: "u1".to_string(),
        created_at: 10,
        updated_at: 10,
    }
}

fn validation_message(e: PlatformError) -> String {
    match e {
        PlatformError::Validation(m) => m,
        _ => panic!("not a validation error"),
    }
}

#[test]
fn creation_makes_a_draft_at_version_one() {
    let input = CreateObjectInput {
        entity_type_id: TYPE_ID.to_string(),
        data: JsonValue::Object(vec![]),
        parent_id: None,
        date: Some("2024-01-02".to_string()),
    };
    let o = ObjectService::plan_create(input, None, &[], "c1".into(), "u1".into(), "o9".into(), 77).unwrap();
    assert_eq!(o.state, ObjectState::Draft);
    assert_eq!(o.version, 1);
    assert_eq!(o.kind, "document");
    assert_eq!(o.created_by, "u1");
    assert_eq!(o.updated_by, "u1");
    assert_eq!(o.created_at, 77);
    assert_eq!(o.date.as_deref(), Some("2024-01-02"));
}

#[test]
fn creation_refuses_a_bad_type_id() {
    let input = CreateObjectInput { entity_type_id: "nope".into(), data: JsonValue::Null, parent_id: None, date: None };
    let e = ObjectService::plan_create(input, Some("catalog".into()), &[], "c1".into(), "u1".into(), "o9".into(), 0).err().unwrap();
    assert_eq!(validation_message(e), "Невалидный entity_type_id");
}

#[test]
fn stale_update_is_a_version_conflict() {
    let old = obj(ObjectState::Draft, 3);
    let input = UpdateObjectInput { data: JsonValue::Null, version: 2, reason: None };
    let e = ObjectService::check_update(&old, &input, &[]).err().unwrap();
    assert_eq!(validation_message(e), "Конфликт версий: ожидается v3, получен v2");
    let input = UpdateObjectInput { data: JsonValue::Null, version: 3, reason: None };
    assert!(ObjectService::check_update(&old, &input, &[]).is_ok());
}

#[test]
fn update_that_matched_nothing_is_refused() {
    let e = ObjectService::apply_update(obj(ObjectState::Draft, 3), JsonValue::Null, "u2".into(), 5, 0).err().unwrap();
    assert_eq!(validation_message(e), "Конфликт версий: объект был изменён другим пользователем");
    let o = ObjectService::apply_update(obj(ObjectState::Draft, 3), JsonValue::Bool(true), "u2".into(), 5, 1).unwrap();
    assert_eq!(o.version, 4);
    assert_eq!(o.updated_by, "u2");
    assert_eq!(o.created_by, "u1");
    assert!(matches!(o.data, JsonValue::Bool(true)));
}

#[test]
fn a_document_is_posted_once_then_cancelled_once() {
    let draft = obj(ObjectState::Draft, 1);
    assert!(ObjectService::check_post(&draft, 1).is_ok());
    assert_eq!(validation_message(ObjectService::check_post(&draft, 2).err().unwrap()), "Конфликт версий");
    let posted = ObjectService::apply_post(draft, "000001".into(), "u1".into(), 20);
    assert_eq!(posted.state, ObjectState::Posted);
    assert_eq!(posted.version, 2);
    assert_eq!(posted.number.as_deref(), Some("000001"));
    assert_eq!(validation_message(ObjectService::check_post(&posted, 2).err().unwrap()), "Провести можно только черновик");
    assert!(ObjectService::check_cancel(&posted, 2).is_ok());
    let cancelled = ObjectService::apply_cancel(posted, "u1".into(), 30);
    assert_eq!(cancelled.state, ObjectState::Cancelled);
    assert_eq!(cancelled.version, 3);
    assert_eq!(
        validation_message(ObjectService::check_cancel(&cancelled, 3).err().unwrap()),
        "Отменить можно только проведённый документ"
    );
    assert_eq!(validation_message(ObjectService::check_post(&cancelled, 3).err().unwrap()), "Провести можно только черновик");
}

#[test]
fn restore_makes_a_new_version() {
    let o = ObjectService::apply_restore(obj(ObjectState::Posted, 7), JsonValue::Null, "u3".into(), 9);
    assert_eq!(o.version, 8);
    assert_eq!(o.state, ObjectState::Posted);
    assert_eq!(o.updated_at, 9);
}

#[test]
fn list_window_defaults_and_bounds() {
    let f = |limit: Option<i64>, offset: Option<i64>| ObjectFilters {
        entity_type_id: None, state: None, parent_id: None, search: None, limit, offset,
    };
    assert_eq!(ObjectService::page_window(&f(None, None)), (50, 0));
    assert_eq!(ObjectService::page_window(&f(Some(500), Some(-5))), (200, 0));
    assert_eq!(ObjectService::page_window(&f(Some(10), Some(30))), (10, 30));
    let page = ObjectService::make_page(vec![], 45, 30, 10);
    assert!(page.has_more);
    let page = ObjectService::make_page(vec![], 40, 30, 10);
    assert!(!page.has_more);
}

#[test]
fn payloads_and_reasons() {
    assert!(matches!(json_i64(5), JsonValue::Number(JsonNumber::PosInt(5))));
    assert!(matches!(json_i64(-5), JsonValue::Number(JsonNumber::NegInt(-5))));
    match posted_payload("N1".into(), 2) {
        JsonValue::Object(m) => {
            assert_eq!(m.len(), 3);
            assert_eq!(m[0].0, "number");
            assert_eq!(m[1].0, "state");
            assert!(matches!(&m[1].1, JsonValue::String(s) if s == "posted"));
            assert_eq!(m[2].0, "version");
        },
        _ => panic!("not an object"),
    }
    assert_eq!(platform2c::objects::posting_reason("A-1"), "Проведён. Номер: A-1");
    assert_eq!(platform2c::objects::restoring_reason(4), "Восстановлена версия 4");
    match platform2c::objects::object_not_found("x") {
        PlatformError::NotFound(m) => assert_eq!(m, "Объект x не найден"),
        _ => panic!(),
    }
}
