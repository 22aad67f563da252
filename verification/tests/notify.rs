use platform2c::json::JsonValue;
use platform2c::notify::{
    default_channels, extract_entity_ref, is_subscribed, projection_recipient, NotificationSubscription, render, render_placeholders, resolve_target_user, severity_of, NotificationChannel,
    NotificationService, NotificationStatus, NotificationStore,
};

fn obj(members: Vec<(&str, JsonValue)>) -> JsonValue {
    JsonValue::Object(members.into_iter().map(|(k, v)| (k.to_string(), v)).collect())
}

fn s(t: &str) -> JsonValue {
    JsonValue::String(t.to_string())
}

#[test]
fn severity_from_the_event_type() {
    assert_eq!(severity_of("request.rejected"), "warning");
    assert_eq!(severity_of("handover.overdue"), "warning");
    assert_eq!(severity_of("system.critical"), "critical");
    assert_eq!(severity_of("document.approved"), "info");
}

#[test]
fn target_user_by_priority() {
    let p = obj(vec![("created_by", s("c")), ("initiator_id", s("i"))]);
    assert_eq!(resolve_target_user(&p), Some("i".to_string()));
    let p = obj(vec![("created_by", s("c")), ("target_user_id", s("t"))]);
    assert_eq!(resolve_target_user(&p), Some("t".to_string()));
    let p = obj(vec![("target_user_id", JsonValue::Null), ("created_by", s("c"))]);
    assert_eq!(resolve_target_user(&p), Some("c".to_string()));
    assert_eq!(resolve_target_user(&JsonValue::Null), None);
}

#[test]
fn entity_reference_of_a_payload() {
    let p = obj(vec![("entity_type", s("doc")), ("request_id", s("r1"))]);
    let e = extract_entity_ref(&p).unwrap();
    assert_eq!(e.entity_type, "doc");
    assert_eq!(e.entity_id, "r1");
    assert!(extract_entity_ref(&obj(vec![("entity_id", s("x"))])).is_none());
}

#[test]
fn placeholders_and_defaults() {
    let p = obj(vec![("doc_id", s("D-7")), ("comment", s("ok"))]);
    assert_eq!(
        render_placeholders("{{actor_name}} ({{actor_login}}) → {{doc_id}}: {{comment}} {{request_id}}", &p, "ivan"),
        "ivan (ivan) → D-7: ok "
    );
    let (t, b) = render(Some(("Документ {{doc_id}}", "")), "doc.approved", &p, "ivan", "{}".into());
    assert_eq!(t, "Документ D-7");
    assert_eq!(b, "");
    let (t, b) = render(Some(("", "")), "doc.approved", &p, "ivan", "{pretty}".into());
    assert_eq!(t, "Событие: doc.approved");
    assert_eq!(b, "{pretty}");
    let (t, _) = render(None, "x.y", &p, "ivan", "{}".into());
    assert_eq!(t, "Событие: x.y");
}

#[test]
fn outbox_entries_start_pending() {
    let svc = NotificationService::new();
    let e = svc.create_outbox_entry("id".into(), "c".into(), "tpl", NotificationChannel::Email, "u".into(), None, "b".into(), 9);
    assert_eq!(e.status, NotificationStatus::Pending);
    assert_eq!(e.attempts, 0);
    assert_eq!(e.channel.as_str(), "email");
    assert_eq!(default_channels(), vec!["inapp".to_string()]);
    assert_eq!(NotificationStore::list_limit(0), 1);
    assert_eq!(NotificationStore::list_limit(1000), 200);
}

#[test]
fn plain_template_is_unchanged() {
    let p = obj(vec![("doc_id", s("D-1"))]);
    let t = "Документ {готов} к {{проверке}}";
    assert_eq!(render_placeholders(t, &p, "ivanov"), t);
    assert_eq!(render_placeholders("{{doc_id}} от {{actor_login}}", &p, "ivanov"), "D-1 от ivanov");
}

fn subscription(user: &str, event_type: &str, muted: bool) -> NotificationSubscription {
    NotificationSubscription {
        id: "s".to_string(),
        company_id: "c1".to_string(),
        user_id: user.to_string(),
        event_type: event_type.to_string(),
        channels: vec!["inapp".to_string()],
        is_muted: muted,
        updated_at: 0,
    }
}

#[test]
fn subscribed_by_default_without_subscription() {
    assert!(is_subscribed(&[], "c1", "u1", "document.approved"));
    let other = vec![subscription("u2", "*", true)];
    assert!(is_subscribed(&other, "c1", "u1", "document.approved"));
}

#[test]
fn muted_subscription_silences() {
    let subs = vec![subscription("u1", "document.approved", true)];
    assert!(!is_subscribed(&subs, "c1", "u1", "document.approved"));
    let all = vec![subscription("u1", "*", true)];
    assert!(!is_subscribed(&all, "c1", "u1", "request.submitted"));
    assert!(!is_subscribed(&all, "c1", "u1", "document.approved"));
    let other_company = vec![subscription("u1", "*", true)];
    assert!(is_subscribed(&other_company, "c2", "u1", "document.approved"));
}

#[test]
fn active_subscription_wins_over_muted() {
    let subs = vec![subscription("u1", "*", true), subscription("u1", "document.approved", false)];
    assert!(is_subscribed(&subs, "c1", "u1", "document.approved"));
    assert!(!is_subscribed(&subs, "c1", "u1", "request.submitted"));
}

#[test]
fn projection_goes_to_a_subscribed_target() {
    let payload = obj(vec![("initiator_id", s("u1")), ("created_by", s("u2"))]);
    assert_eq!(projection_recipient(&payload, &[], "c1", "request.submitted").as_deref(), Some("u1"));
    let muted = vec![subscription("u1", "request.submitted", true)];
    assert_eq!(projection_recipient(&payload, &muted, "c1", "request.submitted"), None);
    assert_eq!(projection_recipient(&obj(vec![]), &[], "c1", "request.submitted"), None);
}
