//! Notifications: what a user is told when an event concerns them. An event
//! is projected through a template onto the user it names; the outbox keeps
//! what still has to be delivered.

use vstd::prelude::*;
use crate::json::{JsonValue, json_member_str};
use crate::text::{owned, str_eq, concat2, replace_all, replace_exec, contains, contains_exec, lemma_replace_absent};

verus! {

/// A way of delivering notifications.
#[derive(PartialEq, Eq, Structural, Clone, Copy, Debug)]
pub enum NotificationChannel {
    InApp,
    Email,
}

impl NotificationChannel {
    /// The stored code of the channel.
    pub fn as_str(&self) -> (r: &'static str)
        ensures
            r@ == (match *self { NotificationChannel::InApp => "inapp"@, NotificationChannel::Email => "email"@ }),
    {
        match self {
            NotificationChannel::InApp => "inapp",
            NotificationChannel::Email => "email",
        }
    }
}

/// How serious a notification is.
#[derive(PartialEq, Eq, Structural, Clone, Copy, Debug)]
pub enum NotificationSeverity {
    Info,
    Warning,
    Critical,
}

/// The delivery state of an outbox entry.
#[derive(PartialEq, Eq, Structural, Clone, Copy, Debug)]
pub enum NotificationStatus {
    Pending,
    Delivered,
    Sent,
    Failed,
    Read,
}

/// The platform object a notification is about, for navigation.
pub struct EntityRef {
    pub entity_type: String,
    pub entity_id: String,
}

/// A notification as a user sees it. Times are milliseconds since the Unix epoch.
pub struct Notification {
    pub id: String,
    pub company_id: String,
    /// To whom it is addressed.
    pub user_id: String,
    /// The event type it reports (`document.approved`, …).
    pub notification_type: String,
    /// `info`, `warning` or `critical`.
    pub severity: String,
    pub title: String,
    pub body: String,
    pub entity_ref: Option<EntityRef>,
    pub channels: Vec<String>,
    /// pending → delivered → read → archived
    pub status: String,
    pub delivered_at: Option<i64>,
    pub read_at: Option<i64>,
    pub metadata: JsonValue,
    pub created_at: i64,
}

/// A notification template (one without a company is the platform's own).
pub struct NotificationTemplate {
    pub id: String,
    pub company_id: Option<String>,
    pub event_type: String,
    pub channel: String,
    pub subject: String,
    pub body: String,
    pub enabled: bool,
    pub created_at: i64,
    pub updated_at: i64,
}

/// A user's subscription to an event type (`"*"` for all).
pub struct NotificationSubscription {
    pub id: String,
    pub company_id: String,
    pub user_id: String,
    pub event_type: String,
    pub channels: Vec<String>,
    pub is_muted: bool,
    pub updated_at: i64,
}

/// An entry of the delivery outbox.
pub struct NotificationOutbox {
    pub id: String,
    pub company_id: String,
    pub template_code: String,
    pub channel: NotificationChannel,
    pub recipient_user_id: String,
    pub subject: Option<String>,
    pub body: String,
    pub status: NotificationStatus,
    pub attempts: i32,
    pub last_error: Option<String>,
    pub created_at: i64,
    pub sent_at: Option<i64>,
}

/// The channels of a notification that names none: in-app only.
pub fn default_channels() -> (r: Vec<String>)
    ensures
        r@.len() == 1 && r@[0]@ == "inapp"@,
{
    let mut v: Vec<String> = Vec::new();
    v.push(owned("inapp"));
    v
}

/// The factory of outbox entries.
pub struct NotificationService;

impl NotificationService {
    /// The factory.
    pub fn new() -> (r: NotificationService)
        ensures
            r == NotificationService,
    {
        NotificationService
    }

    /// A new outbox entry: pending, not yet tried.
    pub fn create_outbox_entry(
        &self,
        id: String,
        company_id: String,
        template_code: &str,
        channel: NotificationChannel,
        recipient_user_id: String,
        subject: Option<String>,
        body: String,
        now: i64,
    ) -> (r: NotificationOutbox)
        ensures
            r.id == id,
            r.company_id == company_id,
            r.template_code@ == template_code@,
            r.channel == channel,
            r.recipient_user_id == recipient_user_id,
            r.subject == subject,
            r.body == body,
            r.status == NotificationStatus::Pending,
            r.attempts == 0,
            r.last_error is None,
            r.created_at == now,
            r.sent_at is None,
    {
        NotificationOutbox {
            id,
            company_id,
            template_code: owned(template_code),
            channel,
            recipient_user_id,
            subject,
            body,
            status: NotificationStatus::Pending,
            attempts: 0,
            last_error: None,
            created_at: now,
            sent_at: None,
        }
    }
}

// ───────────────────────── projecting events ─────────────────────────

/// The user an event concerns: `target_user_id`, else `initiator_id`, else
/// `created_by` of its payload (the first that is a string).
pub open spec fn target_user_of(payload: JsonValue) -> Option<Seq<char>> {
    match json_member_str(payload, "target_user_id"@) {
        Some(u) => Some(u),
        None => match json_member_str(payload, "initiator_id"@) {
            Some(u) => Some(u),
            None => json_member_str(payload, "created_by"@),
        },
    }
}

/// The user an event concerns.
pub fn resolve_target_user(payload: &JsonValue) -> (r: Option<String>)
    ensures
        match target_user_of(*payload) {
            Some(u) => r matches Some(s) && s@ == u,
            None => r is None,
        },
{
    match payload.member_str("target_user_id") {
        Some(u) => Some(owned(u)),
        None => match payload.member_str("initiator_id") {
            Some(u) => Some(owned(u)),
            None => match payload.member_str("created_by") {
                Some(u) => Some(owned(u)),
                None => None,
            },
        },
    }
}

/// Whether a subscription speaks of events of this type for this user of
/// this company: its event type is the type itself or `"*"`.
pub open spec fn subscription_covers(
    sub: NotificationSubscription,
    company_id: Seq<char>,
    user_id: Seq<char>,
    event_type: Seq<char>,
) -> bool {
    &&& sub.company_id@ == company_id
    &&& sub.user_id@ == user_id
    &&& (sub.event_type@ == event_type || sub.event_type@ == "*"@)
}

/// Whether a user is to be told of an event: a user with no subscription
/// that covers the event is subscribed by default; one whose covering
/// subscriptions are all muted is not.
pub open spec fn is_subscribed_to(
    subs: Seq<NotificationSubscription>,
    company_id: Seq<char>,
    user_id: Seq<char>,
    event_type: Seq<char>,
) -> bool {
    (forall|i: int| 0 <= i < subs.len() ==> !#[trigger] subscription_covers(subs[i], company_id, user_id, event_type))
    || (exists|i: int| 0 <= i < subs.len() && #[trigger] subscription_covers(subs[i], company_id, user_id, event_type)
        && !subs[i].is_muted)
}

/// Whether a user is to be told of an event, given the subscriptions stored.
pub fn is_subscribed(
    subscriptions: &[NotificationSubscription],
    company_id: &str,
    user_id: &str,
    event_type: &str,
) -> (r: bool)
    ensures
        r == is_subscribed_to(subscriptions@, company_id@, user_id@, event_type@),
{
    let mut covered = false;
    let mut i: usize = 0;
    while i < subscriptions.len()
        invariant
            i <= subscriptions@.len(),
            covered == (exists|j: int| 0 <= j < i && #[trigger] subscription_covers(subscriptions@[j], company_id@, user_id@, event_type@)),
            forall|j: int| 0 <= j < i && #[trigger] subscription_covers(subscriptions@[j], company_id@, user_id@, event_type@)
                ==> subscriptions@[j].is_muted,
        decreases subscriptions@.len() - i,
    {
        let sub = &subscriptions[i];
        proof { reveal_strlit("*"); }
        let covers = str_eq(sub.company_id.as_str(), company_id) && str_eq(sub.user_id.as_str(), user_id)
            && (str_eq(sub.event_type.as_str(), event_type) || str_eq(sub.event_type.as_str(), "*"));
        assert(covers == subscription_covers(subscriptions@[i as int], company_id@, user_id@, event_type@));
        if covers {
            if !sub.is_muted {
                return true;
            }
            covered = true;
        }
        i = i + 1;
    }
    !covered
}

/// The user an event is to be projected to: the user it concerns, when there
/// is one and that user is subscribed to events of its type.
pub fn projection_recipient(
    payload: &JsonValue,
    subscriptions: &[NotificationSubscription],
    company_id: &str,
    event_type: &str,
) -> (r: Option<String>)
    ensures
        match target_user_of(*payload) {
            Some(u) => if is_subscribed_to(subscriptions@, company_id@, u, event_type@) {
                r matches Some(x) && x@ == u
            } else {
                r is None
            },
            None => r is None,
        },
{
    match resolve_target_user(payload) {
        None => None,
        Some(u) => {
            if is_subscribed(subscriptions, company_id, u.as_str(), event_type) {
                Some(u)
            } else {
                None
            }
        },
    }
}

/// The severity of an event type: `warning` when it mentions `rejected` or
/// `overdue`, else `critical` when it mentions `critical`, else `info`.
pub open spec fn severity_code(event_type: Seq<char>) -> Seq<char> {
    if contains(event_type, "rejected"@) || contains(event_type, "overdue"@) {
        "warning"@
    } else if contains(event_type, "critical"@) {
        "critical"@
    } else {
        "info"@
    }
}

/// The severity of an event type.
pub fn severity_of(event_type: &str) -> (r: String)
    ensures
        r@ == severity_code(event_type@),
{
    if contains_exec(event_type, "rejected") || contains_exec(event_type, "overdue") {
        owned("warning")
    } else if contains_exec(event_type, "critical") {
        owned("critical")
    } else {
        owned("info")
    }
}

/// The object an event is about: its payload's `entity_type` with its
/// `entity_id` (or else its `request_id`), when both are strings.
pub open spec fn entity_ref_of(payload: JsonValue) -> Option<(Seq<char>, Seq<char>)> {
    match json_member_str(payload, "entity_type"@) {
        None => None,
        Some(t) => match json_member_str(payload, "entity_id"@) {
            Some(i) => Some((t, i)),
            None => match json_member_str(payload, "request_id"@) {
                Some(i) => Some((t, i)),
                None => None,
            },
        },
    }
}

/// The object an event is about.
pub fn extract_entity_ref(payload: &JsonValue) -> (r: Option<EntityRef>)
    ensures
        match entity_ref_of(*payload) {
            Some((t, i)) => r matches Some(e) && e.entity_type@ == t && e.entity_id@ == i,
            None => r is None,
        },
{
    let t = match payload.member_str("entity_type") {
        Some(t) => t,
        None => { return None; },
    };
    let i = match payload.member_str("entity_id") {
        Some(i) => i,
        None => match payload.member_str("request_id") {
            Some(i) => i,
            None => { return None; },
        },
    };
    Some(EntityRef { entity_type: owned(t), entity_id: owned(i) })
}

/// The text of a payload member, or the empty text.
pub open spec fn member_or_empty(payload: JsonValue, key: Seq<char>) -> Seq<char> {
    match json_member_str(payload, key) {
        Some(s) => s,
        None => Seq::empty(),
    }
}

/// A template with its placeholders filled in: `{{actor_name}}` and
/// `{{actor_login}}` by the actor's login, `{{request_id}}`, `{{doc_id}}` and
/// `{{comment}}` by those members of the payload (empty when missing).
pub open spec fn filled(template: Seq<char>, payload: JsonValue, login: Seq<char>) -> Seq<char> {
    let a = replace_all(template, "{{actor_name}}"@, login);
    let b = replace_all(a, "{{actor_login}}"@, login);
    let c = replace_all(b, "{{request_id}}"@, member_or_empty(payload, "request_id"@));
    let d = replace_all(c, "{{doc_id}}"@, member_or_empty(payload, "doc_id"@));
    replace_all(d, "{{comment}}"@, member_or_empty(payload, "comment"@))
}

fn member_text<'a>(payload: &'a JsonValue, key: &str) -> (r: &'a str)
    ensures
        r@ == member_or_empty(*payload, key@),
{
    match payload.member_str(key) {
        Some(s) => s,
        None => {
            proof { reveal_strlit(""); }
            ""
        },
    }
}

/// Fills in the placeholders of a template.
pub fn render_placeholders(template: &str, payload: &JsonValue, actor_login: &str) -> (r: String)
    ensures
        r@ == filled(template@, *payload, actor_login@),
{
    proof {
        reveal_strlit("{{actor_name}}");
        reveal_strlit("{{actor_login}}");
        reveal_strlit("{{request_id}}");
        reveal_strlit("{{doc_id}}");
        reveal_strlit("{{comment}}");
    }
    let a = replace_exec(template, "{{actor_name}}", actor_login);
    let b = replace_exec(a.as_str(), "{{actor_login}}", actor_login);
    let c = replace_exec(b.as_str(), "{{request_id}}", member_text(payload, "request_id"));
    let d = replace_exec(c.as_str(), "{{doc_id}}", member_text(payload, "doc_id"));
    replace_exec(d.as_str(), "{{comment}}", member_text(payload, "comment"))
}

/// A template that holds none of the placeholders is shown as it is.
pub proof fn lemma_plain_template_unchanged(template: Seq<char>, payload: JsonValue, login: Seq<char>)
    requires
        !contains(template, "{{actor_name}}"@),
        !contains(template, "{{actor_login}}"@),
        !contains(template, "{{request_id}}"@),
        !contains(template, "{{doc_id}}"@),
        !contains(template, "{{comment}}"@),
    ensures
        filled(template, payload, login) == template,
{
    lemma_replace_absent(template, "{{actor_name}}"@, login);
    lemma_replace_absent(template, "{{actor_login}}"@, login);
    lemma_replace_absent(template, "{{request_id}}"@, member_or_empty(payload, "request_id"@));
    lemma_replace_absent(template, "{{doc_id}}"@, member_or_empty(payload, "doc_id"@));
    lemma_replace_absent(template, "{{comment}}"@, member_or_empty(payload, "comment"@));
}

/// The title and body of a notification: the template's subject and body
/// filled in, when the template has either; otherwise `Событие: {type}` and
/// the given default body (the payload as pretty JSON).
pub fn render(
    template: Option<(&str, &str)>,
    event_type: &str,
    payload: &JsonValue,
    actor_login: &str,
    default_body: String,
) -> (r: (String, String))
    ensures
        match template {
            Some((s, b)) => if s@.len() > 0 || b@.len() > 0 {
                r.0@ == filled(s@, *payload, actor_login@) && r.1@ == filled(b@, *payload, actor_login@)
            } else {
                r.0@ == "Событие: "@ + event_type@ && r.1 == default_body
            },
            None => r.0@ == "Событие: "@ + event_type@ && r.1 == default_body,
        },
{
    if let Some((s, b)) = template {
        if !s.is_empty() || !b.is_empty() {
            return (render_placeholders(s, payload, actor_login), render_placeholders(b, payload, actor_login));
        }
    }
    (concat2("Событие: ", event_type), default_body)
}

/// The in-app notification of an event for the user it concerns: delivered
/// at once, with the event's severity and the object it is about.
pub fn notification_of(
    id: String,
    company_id: String,
    user_id: String,
    event_type: &str,
    title: String,
    body: String,
    payload: JsonValue,
    now: i64,
) -> (r: Notification)
    ensures
        r.id == id,
        r.company_id == company_id,
        r.user_id == user_id,
        r.notification_type@ == event_type@,
        r.severity@ == severity_code(event_type@),
        r.title == title,
        r.body == body,
        match entity_ref_of(payload) {
            Some((t, i)) => r.entity_ref matches Some(e) && e.entity_type@ == t && e.entity_id@ == i,
            None => r.entity_ref is None,
        },
        r.channels@.len() == 1 && r.channels@[0]@ == "inapp"@,
        r.status@ == "delivered"@,
        r.delivered_at == Some(now),
        r.read_at is None,
        r.metadata == payload,
        r.created_at == now,
{
    let entity_ref = extract_entity_ref(&payload);
    Notification {
        id,
        company_id,
        user_id,
        notification_type: owned(event_type),
        severity: severity_of(event_type),
        title,
        body,
        entity_ref,
        channels: default_channels(),
        status: owned("delivered"),
        delivered_at: Some(now),
        read_at: None,
        metadata: payload,
        created_at: now,
    }
}


/// A notification as the user interface lists it. Times are RFC 3339 texts.
pub struct NotificationDto {
    pub id: String,
    pub user_id: String,
    pub company_id: String,
    pub notification_type: String,
    pub severity: String,
    pub title: String,
    pub body: String,
    pub entity_ref: Option<EntityRef>,
    pub status: String,
    pub read_at: Option<String>,
    pub created_at: String,
}

/// The store of notifications and outbox entries.
pub struct NotificationStore;

impl NotificationStore {
    /// The number of outbox entries a list returns: the asked number, between
    /// 1 and 200.
    pub fn list_limit(limit: i64) -> (r: i64)
        ensures
            r == (if limit < 1 { 1 } else if limit > 200 { 200 } else { limit }),
    {
        if limit < 1 { 1 } else if limit > 200 { 200 } else { limit }
    }
}

/// Subscriptions decide as the user set them: without a subscription that
/// covers the event the user is told; a lone muted subscription to the
/// event's type (or to `"*"`) silences it; an active one lets it through.
pub proof fn lemma_subscription_decides(sub: NotificationSubscription, company_id: Seq<char>, user_id: Seq<char>, event_type: Seq<char>)
    ensures
        is_subscribed_to(Seq::empty(), company_id, user_id, event_type),
        (sub.company_id@ == company_id && sub.user_id@ == user_id && (sub.event_type@ == event_type || sub.event_type@ == "*"@))
            ==> (is_subscribed_to(seq![sub], company_id, user_id, event_type) <==> !sub.is_muted),
        (sub.company_id@ != company_id || sub.user_id@ != user_id) ==> is_subscribed_to(seq![sub], company_id, user_id, event_type),
{
    assert(seq![sub][0] == sub);
    if sub.company_id@ == company_id && sub.user_id@ == user_id && (sub.event_type@ == event_type || sub.event_type@ == "*"@) {
        assert(subscription_covers(seq![sub][0], company_id, user_id, event_type));
    }
    if sub.company_id@ != company_id || sub.user_id@ != user_id {
        assert(!subscription_covers(seq![sub][0], company_id, user_id, event_type));
    }
}

} // verus!
