//! Platform objects (documents, catalog items, …): their lifecycle
//! (draft → posted → cancelled), optimistic locking by version, snapshots of
//! each version, and paging of object lists.

use vstd::prelude::*;
use crate::platform::{PlatformError, ObjectState, state_code};
use crate::json::{JsonValue, JsonNumber};
use crate::text::{owned, concat2, concat3, i64_to_dec, int_dec};
use crate::trusted::{uuid_syntax, uuid_parses};
use crate::validation::{EntityField, data_failure, validate_data};

verus! {

/// A stored object. Timestamps are milliseconds since the Unix epoch.
pub struct Object {
    pub id: String,
    pub entity_type_id: String,
    pub kind: String,
    pub company_id: String,
    pub state: ObjectState,
    pub data: JsonValue,
    pub computed: Option<JsonValue>,
    pub number: Option<String>,
    pub date: Option<String>,
    pub parent_id: Option<String>,
    pub version: i64,
    pub created_by: String,
    pub updated_by: String,
    pub created_at: i64,
    pub updated_at: i64,
}

/// The data of one version of an object, kept for its history.
pub struct ObjectSnapshot {
    pub id: String,
    pub object_id: String,
    pub version: i64,
    pub data: JsonValue,
    pub state: ObjectState,
    pub created_by: String,
    pub created_at: i64,
    pub reason: Option<String>,
}

/// One page of an object list.
pub struct ObjectPage {
    pub objects: Vec<Object>,
    pub total_count: i64,
    pub has_more: bool,
}

/// Filters of an object list.
pub struct ObjectFilters {
    pub entity_type_id: Option<String>,
    pub state: Option<String>,
    pub parent_id: Option<String>,
    pub search: Option<String>,
    pub limit: Option<i64>,
    pub offset: Option<i64>,
}

/// A request to create an object.
pub struct CreateObjectInput {
    pub entity_type_id: String,
    pub data: JsonValue,
    pub parent_id: Option<String>,
    pub date: Option<String>,
}

/// A request to change the data of an object, made against the version that
/// the caller read.
pub struct UpdateObjectInput {
    pub data: JsonValue,
    pub version: i64,
    pub reason: Option<String>,
}

// ───────────────────────── creation ─────────────────────────

/// Why a creation request is refused, if it is: an entity type id that is not
/// a UUID, or data that the type's fields refuse (when the type has fields).
pub open spec fn create_failure(input: CreateObjectInput, fields: Seq<EntityField>) -> Option<Seq<char>> {
    if !uuid_syntax(input.entity_type_id@) {
        Some("Невалидный entity_type_id"@)
    } else if fields.len() > 0 {
        data_failure(input.data, fields, false)
    } else {
        None
    }
}

/// The object that a creation makes: a draft at version 1, created and last
/// changed by the same user at the same time.
pub open spec fn created_object(input: CreateObjectInput, kind: String, company_id: String, user_id: String, id: String, now: i64) -> Object {
    Object {
        id: id,
        entity_type_id: input.entity_type_id,
        kind: kind,
        company_id: company_id,
        state: ObjectState::Draft,
        data: input.data,
        computed: None,
        number: None,
        date: input.date,
        parent_id: input.parent_id,
        version: 1,
        created_by: user_id,
        updated_by: user_id,
        created_at: now,
        updated_at: now,
    }
}

/// The kind of a new object: that of its entity type, `"document"` when the
/// type records none.
pub open spec fn kind_or_default(kind: Option<String>) -> Seq<char> {
    match kind {
        Some(k) => k@,
        None => "document"@,
    }
}

// ───────────────────────── changes of data ─────────────────────────

/// The message when the caller's version is not the stored one.
pub open spec fn version_conflict_message(stored: i64, given: i64) -> Seq<char> {
    "Конфликт версий: ожидается v"@ + int_dec(stored as int) + ", получен v"@ + int_dec(given as int)
}

/// Why an update is refused, if it is: a stale version, a stored entity type id
/// that is not a UUID, or data that the type's fields refuse.
pub open spec fn update_failure(old: Object, input: UpdateObjectInput, fields: Seq<EntityField>) -> Option<Seq<char>> {
    if input.version != old.version {
        Some(version_conflict_message(old.version, input.version))
    } else if !uuid_syntax(old.entity_type_id@) {
        Some("Невалидный entity_type_id"@)
    } else if fields.len() > 0 {
        data_failure(input.data, fields, true)
    } else {
        None
    }
}

/// The object after an update: new data, the next version, the updating user
/// and time.
pub open spec fn updated_object(old: Object, data: JsonValue, user_id: String, now: i64) -> Object {
    Object { data: data, version: (old.version + 1) as i64, updated_by: user_id, updated_at: now, ..old }
}

/// The object after a restore of an earlier version's data.
pub open spec fn restored_object(old: Object, data: JsonValue, user_id: String, now: i64) -> Object {
    Object { data: data, version: (old.version + 1) as i64, updated_by: user_id, updated_at: now, ..old }
}

// ───────────────────────── posting and cancelling ─────────────────────────

/// Why posting is refused, if it is: only a draft is posted, and only at its
/// current version.
pub open spec fn post_failure(old: Object, version: i64) -> Option<Seq<char>> {
    if old.state != ObjectState::Draft {
        Some("Провести можно только черновик"@)
    } else if version != old.version {
        Some("Конфликт версий"@)
    } else {
        None
    }
}

/// The object after posting: posted, numbered, at the next version.
pub open spec fn posted_object(old: Object, number: String, user_id: String, now: i64) -> Object {
    Object {
        state: ObjectState::Posted,
        version: (old.version + 1) as i64,
        number: Some(number),
        updated_by: user_id,
        updated_at: now,
        ..old
    }
}

/// Why cancelling is refused, if it is: only a posted document is cancelled,
/// and only at its current version.
pub open spec fn cancel_failure(old: Object, version: i64) -> Option<Seq<char>> {
    if old.state != ObjectState::Posted {
        Some("Отменить можно только проведённый документ"@)
    } else if version != old.version {
        Some("Конфликт версий"@)
    } else {
        None
    }
}

/// The object after cancelling: cancelled, at the next version.
pub open spec fn cancelled_object(old: Object, user_id: String, now: i64) -> Object {
    Object {
        state: ObjectState::Cancelled,
        version: (old.version + 1) as i64,
        updated_by: user_id,
        updated_at: now,
        ..old
    }
}

// ───────────────────────── laws of the lifecycle ─────────────────────────

/// Every change (update, restore, posting, cancelling) moves an object to the
/// next version and keeps its identity, type, company and creation.
pub proof fn lemma_changes_advance_version(old: Object, data: JsonValue, number: String, user_id: String, now: i64)
    requires
        old.version < i64::MAX,
    ensures
        updated_object(old, data, user_id, now).version == old.version + 1,
        restored_object(old, data, user_id, now).version == old.version + 1,
        posted_object(old, number, user_id, now).version == old.version + 1,
        cancelled_object(old, user_id, now).version == old.version + 1,
        updated_object(old, data, user_id, now).id == old.id,
        posted_object(old, number, user_id, now).id == old.id,
        cancelled_object(old, user_id, now).id == old.id,
        updated_object(old, data, user_id, now).company_id == old.company_id,
        posted_object(old, number, user_id, now).company_id == old.company_id,
        cancelled_object(old, user_id, now).company_id == old.company_id,
        posted_object(old, number, user_id, now).created_at == old.created_at,
        cancelled_object(old, user_id, now).created_by == old.created_by,
{
}

/// Optimistic locking: once a change is applied, a request made against the
/// version that was read before it is refused as a version conflict.
pub proof fn lemma_stale_version_refused(
    old: Object,
    input: UpdateObjectInput,
    data: JsonValue,
    number: String,
    user_id: String,
    now: i64,
    fields: Seq<EntityField>,
)
    requires
        old.version < i64::MAX,
        input.version == old.version,
    ensures
        update_failure(updated_object(old, data, user_id, now), input, fields)
            == Some(version_conflict_message((old.version + 1) as i64, old.version)),
        update_failure(restored_object(old, data, user_id, now), input, fields)
            == Some(version_conflict_message((old.version + 1) as i64, old.version)),
        post_failure(updated_object(old, data, user_id, now), old.version) is Some,
        cancel_failure(posted_object(old, number, user_id, now), old.version) is Some,
{
}

/// A document is posted once: after posting it cannot be posted again, and
/// after cancelling it can be neither posted nor cancelled again.
pub proof fn lemma_post_and_cancel_once(old: Object, number: String, user_id: String, now: i64, version: i64)
    requires
        old.version < i64::MAX,
        (old.version + 1) < i64::MAX,
    ensures
        post_failure(posted_object(old, number, user_id, now), version) == Some("Провести можно только черновик"@),
        post_failure(cancelled_object(posted_object(old, number, user_id, now), user_id, now), version)
            == Some("Провести можно только черновик"@),
        cancel_failure(cancelled_object(posted_object(old, number, user_id, now), user_id, now), version)
            == Some("Отменить можно только проведённый документ"@),
        post_failure(old, old.version) is None <==> old.state == ObjectState::Draft,
        cancel_failure(posted_object(old, number, user_id, now), (old.version + 1) as i64) is None,
{
}

/// What each change does to an object: an update puts the new data in, and
/// posting and cancelling keep the data; posting makes the document posted
/// under its number, cancelling makes it cancelled; a creation makes a draft
/// at version 1 holding the data given, created and last changed by the
/// creating user at the same time.
pub proof fn lemma_changes_do_what_they_say(
    old: Object,
    data: JsonValue,
    number: String,
    user_id: String,
    now: i64,
    input: CreateObjectInput,
    kind: String,
    company_id: String,
    id: String,
)
    ensures
        updated_object(old, data, user_id, now).data == data,
        updated_object(old, data, user_id, now).state == old.state,
        updated_object(old, data, user_id, now).updated_by == user_id,
        posted_object(old, number, user_id, now).state == ObjectState::Posted,
        posted_object(old, number, user_id, now).number == Some(number),
        posted_object(old, number, user_id, now).data == old.data,
        cancelled_object(old, user_id, now).state == ObjectState::Cancelled,
        cancelled_object(old, user_id, now).data == old.data,
        cancelled_object(old, user_id, now).number == old.number,
        created_object(input, kind, company_id, user_id, id, now).state == ObjectState::Draft,
        created_object(input, kind, company_id, user_id, id, now).version == 1,
        created_object(input, kind, company_id, user_id, id, now).data == input.data,
        created_object(input, kind, company_id, user_id, id, now).id == id,
        created_object(input, kind, company_id, user_id, id, now).created_by == user_id,
        created_object(input, kind, company_id, user_id, id, now).updated_by == user_id,
        created_object(input, kind, company_id, user_id, id, now).created_at == now,
        created_object(input, kind, company_id, user_id, id, now).updated_at == now,
{
}

/// When a change goes ahead: posting exactly a draft at its current version,
/// cancelling exactly a posted document at its current version, an update
/// never against another version than the stored one.
pub proof fn lemma_when_changes_go_ahead(old: Object, version: i64, input: UpdateObjectInput, fields: Seq<EntityField>)
    ensures
        post_failure(old, version) is None <==> (old.state == ObjectState::Draft && version == old.version),
        cancel_failure(old, version) is None <==> (old.state == ObjectState::Posted && version == old.version),
        input.version != old.version ==> update_failure(old, input, fields) is Some,
        (input.version == old.version && uuid_syntax(old.entity_type_id@) && fields.len() == 0)
            ==> update_failure(old, input, fields) is None,
{
}

// ───────────────────────── snapshots and messages ─────────────────────────

/// The reason recorded with the snapshot of a new object.
pub fn creation_reason() -> (r: String)
    ensures
        r@ == "Создание объекта"@,
{
    owned("Создание объекта")
}

/// The reason recorded with the snapshot of a posting.
pub fn posting_reason(number: &str) -> (r: String)
    ensures
        r@ == "Проведён. Номер: "@ + number@,
{
    concat2("Проведён. Номер: ", number)
}

/// The reason recorded with the snapshot of a cancelling.
pub fn cancelling_reason() -> (r: String)
    ensures
        r@ == "Отмена проведения"@,
{
    owned("Отмена проведения")
}

/// The reason recorded with the snapshot of a restore.
pub fn restoring_reason(target_version: i64) -> (r: String)
    ensures
        r@ == "Восстановлена версия "@ + int_dec(target_version as int),
{
    let v = i64_to_dec(target_version);
    concat2("Восстановлена версия ", v.as_str())
}

/// `NotFound` for an object id.
pub fn object_not_found(id: &str) -> (r: PlatformError)
    ensures
        r matches PlatformError::NotFound(m) && m@ == "Объект "@ + id@ + " не найден"@,
{
    PlatformError::NotFound(concat3("Объект ", id, " не найден"))
}

/// `NotFound` for a version of an object.
pub fn version_not_found(version: i64) -> (r: PlatformError)
    ensures
        r matches PlatformError::NotFound(m) && m@ == "Версия "@ + int_dec(version as int) + " не найдена"@,
{
    let v = i64_to_dec(version);
    PlatformError::NotFound(concat3("Версия ", v.as_str(), " не найдена"))
}

// ───────────────────────── event payloads ─────────────────────────

/// A JSON number from an `i64` (non-negative values as unsigned).
pub open spec fn json_int(n: i64) -> JsonValue {
    if n >= 0 { JsonValue::Number(JsonNumber::PosInt(n as u64)) } else { JsonValue::Number(JsonNumber::NegInt(n)) }
}

/// `json!(n)` for an `i64`.
pub fn json_i64(n: i64) -> (r: JsonValue)
    ensures
        r == json_int(n),
{
    if n >= 0 { JsonValue::Number(JsonNumber::PosInt(n as u64)) } else { JsonValue::Number(JsonNumber::NegInt(n)) }
}

/// The payload of `object.posted`: number, state and new version.
pub fn posted_payload(number: String, version: i64) -> (r: JsonValue)
    ensures
        r matches JsonValue::Object(m) && m@.len() == 3
            && m@[0].0@ == "number"@ && m@[0].1 == JsonValue::String(number)
            && m@[1].0@ == "state"@ && (m@[1].1 matches JsonValue::String(s) && s@ == "posted"@)
            && m@[2].0@ == "version"@ && m@[2].1 == json_int(version),
{
    let mut m: Vec<(String, JsonValue)> = Vec::new();
    m.push((owned("number"), JsonValue::String(number)));
    m.push((owned("state"), JsonValue::String(owned("posted"))));
    m.push((owned("version"), json_i64(version)));
    JsonValue::Object(m)
}

/// The payload of `object.cancelled`: state and new version.
pub fn cancelled_payload(version: i64) -> (r: JsonValue)
    ensures
        r matches JsonValue::Object(m) && m@.len() == 2
            && m@[0].0@ == "state"@ && (m@[0].1 matches JsonValue::String(s) && s@ == "cancelled"@)
            && m@[1].0@ == "version"@ && m@[1].1 == json_int(version),
{
    let mut m: Vec<(String, JsonValue)> = Vec::new();
    m.push((owned("state"), JsonValue::String(owned("cancelled"))));
    m.push((owned("version"), json_i64(version)));
    JsonValue::Object(m)
}

/// The payload of `object.updated`: the new data, the state's code and the new
/// version.
pub fn updated_payload(data: JsonValue, state: ObjectState, version: i64) -> (r: JsonValue)
    ensures
        r matches JsonValue::Object(m) && m@.len() == 3
            && m@[0].0@ == "data"@ && m@[0].1 == data
            && m@[1].0@ == "state"@ && (m@[1].1 matches JsonValue::String(s) && s@ == state_code(state))
            && m@[2].0@ == "version"@ && m@[2].1 == json_int(version),
{
    let mut m: Vec<(String, JsonValue)> = Vec::new();
    m.push((owned("data"), data));
    m.push((owned("state"), JsonValue::String(owned(state.code()))));
    m.push((owned("version"), json_i64(version)));
    JsonValue::Object(m)
}

/// The payload of `object.created`: data, type, kind and the draft state.
pub fn created_payload(data: JsonValue, entity_type_id: String, kind: String) -> (r: JsonValue)
    ensures
        r matches JsonValue::Object(m) && m@.len() == 4
            && m@[0].0@ == "data"@ && m@[0].1 == data
            && m@[1].0@ == "entity_type_id"@ && m@[1].1 == JsonValue::String(entity_type_id)
            && m@[2].0@ == "kind"@ && m@[2].1 == JsonValue::String(kind)
            && m@[3].0@ == "state"@ && (m@[3].1 matches JsonValue::String(s) && s@ == "draft"@),
{
    let mut m: Vec<(String, JsonValue)> = Vec::new();
    m.push((owned("data"), data));
    m.push((owned("entity_type_id"), JsonValue::String(entity_type_id)));
    m.push((owned("kind"), JsonValue::String(kind)));
    m.push((owned("state"), JsonValue::String(owned("draft"))));
    JsonValue::Object(m)
}

/// The payload of `object.restored`: the new version and the restored one.
pub fn restored_payload(target_version: i64, new_version: i64) -> (r: JsonValue)
    ensures
        r matches JsonValue::Object(m) && m@.len() == 2
            && m@[0].0@ == "new_version"@ && m@[0].1 == json_int(new_version)
            && m@[1].0@ == "target_version"@ && m@[1].1 == json_int(target_version),
{
    let mut m: Vec<(String, JsonValue)> = Vec::new();
    m.push((owned("new_version"), json_i64(new_version)));
    m.push((owned("target_version"), json_i64(target_version)));
    JsonValue::Object(m)
}

// ───────────────────────── lists ─────────────────────────

/// The page size of a list: 50 by default, at most 200.
pub open spec fn page_limit(limit: Option<i64>) -> i64 {
    let l = match limit { Some(l) => l, None => 50 };
    if l < 200 { l } else { 200 }
}

/// The offset of a list: 0 by default, never negative.
pub open spec fn page_offset(offset: Option<i64>) -> i64 {
    let o = match offset { Some(o) => o, None => 0 };
    if o > 0 { o } else { 0 }
}

/// The lifecycle of objects: creation, changes, posting, cancelling, snapshots and lists.
pub struct ObjectService;

impl ObjectService {
    /// Checks a creation request and makes the new object.
    pub fn plan_create(
        input: CreateObjectInput,
        type_kind: Option<String>,
        fields: &[EntityField],
        company_id: String,
        user_id: String,
        id: String,
        now: i64,
    ) -> (r: Result<Object, PlatformError>)
        ensures
            match create_failure(input, fields@) {
                Some(m) => r matches Err(PlatformError::Validation(e)) && e@ == m,
                None => r matches Ok(o) && o == created_object(input, o.kind, company_id, user_id, id, now)
                    && o.kind@ == kind_or_default(type_kind),
            },
    {
        if !uuid_parses(input.entity_type_id.as_str()) {
            return Err(PlatformError::Validation(owned("Невалидный entity_type_id")));
        }
        if fields.len() > 0 {
            match validate_data(&input.data, fields, false) {
                Err(e) => { return Err(e); },
                Ok(()) => {},
            }
        }
        let kind = match type_kind {
            Some(k) => k,
            None => owned("document"),
        };
        let user2 = user_id.clone();
        Ok(Object {
            id: id,
            entity_type_id: input.entity_type_id,
            kind: kind,
            company_id: company_id,
            state: ObjectState::Draft,
            data: input.data,
            computed: None,
            number: None,
            date: input.date,
            parent_id: input.parent_id,
            version: 1,
            created_by: user_id,
            updated_by: user2,
            created_at: now,
            updated_at: now,
        })
    }

    /// Checks an update against the stored object and the type's fields.
    pub fn check_update(old: &Object, input: &UpdateObjectInput, fields: &[EntityField]) -> (r: Result<(), PlatformError>)
        ensures
            match update_failure(*old, *input, fields@) {
                Some(m) => r matches Err(PlatformError::Validation(e)) && e@ == m,
                None => r is Ok,
            },
    {
        if input.version != old.version {
            let a = i64_to_dec(old.version);
            let b = i64_to_dec(input.version);
            let mut m = concat3("Конфликт версий: ожидается v", a.as_str(), ", получен v");
            m.append(b.as_str());
            return Err(PlatformError::Validation(m));
        }
        if !uuid_parses(old.entity_type_id.as_str()) {
            return Err(PlatformError::Validation(owned("Невалидный entity_type_id")));
        }
        if fields.len() > 0 {
            return validate_data(&input.data, fields, true);
        }
        Ok(())
    }

    /// Applies an update whose write matched `matched_count` stored records (the
    /// write is conditioned on the version). None matched: another user changed
    /// the object in between.
    pub fn apply_update(old: Object, data: JsonValue, user_id: String, now: i64, matched_count: u64) -> (r: Result<Object, PlatformError>)
        requires
            old.version < i64::MAX,
        ensures
            matched_count == 0 ==> (r matches Err(PlatformError::Validation(e))
                && e@ == "Конфликт версий: объект был изменён другим пользователем"@),
            matched_count > 0 ==> r == Ok::<Object, PlatformError>(updated_object(old, data, user_id, now)),
    {
        if matched_count == 0 {
            return Err(PlatformError::Validation(owned("Конфликт версий: объект был изменён другим пользователем")));
        }
        Ok(Object { data: data, version: old.version + 1, updated_by: user_id, updated_at: now, ..old })
    }

    /// Restores the data of an earlier version as a new version.
    pub fn apply_restore(old: Object, snapshot_data: JsonValue, user_id: String, now: i64) -> (r: Object)
        requires
            old.version < i64::MAX,
        ensures
            r == restored_object(old, snapshot_data, user_id, now),
    {
        Object { data: snapshot_data, version: old.version + 1, updated_by: user_id, updated_at: now, ..old }
    }

    /// Checks that an object can be posted at the given version.
    pub fn check_post(old: &Object, version: i64) -> (r: Result<(), PlatformError>)
        ensures
            match post_failure(*old, version) {
                Some(m) => r matches Err(PlatformError::Validation(e)) && e@ == m,
                None => r is Ok,
            },
    {
        if old.state != ObjectState::Draft {
            return Err(PlatformError::Validation(owned("Провести можно только черновик")));
        }
        if version != old.version {
            return Err(PlatformError::Validation(owned("Конфликт версий")));
        }
        Ok(())
    }

    /// Posts an object under the number that the numbering gave it.
    pub fn apply_post(old: Object, number: String, user_id: String, now: i64) -> (r: Object)
        requires
            old.version < i64::MAX,
        ensures
            r == posted_object(old, number, user_id, now),
    {
        Object {
            state: ObjectState::Posted,
            version: old.version + 1,
            number: Some(number),
            updated_by: user_id,
            updated_at: now,
            ..old
        }
    }

    /// Checks that an object can be cancelled at the given version.
    pub fn check_cancel(old: &Object, version: i64) -> (r: Result<(), PlatformError>)
        ensures
            match cancel_failure(*old, version) {
                Some(m) => r matches Err(PlatformError::Validation(e)) && e@ == m,
                None => r is Ok,
            },
    {
        if old.state != ObjectState::Posted {
            return Err(PlatformError::Validation(owned("Отменить можно только проведённый документ")));
        }
        if version != old.version {
            return Err(PlatformError::Validation(owned("Конфликт версий")));
        }
        Ok(())
    }

    /// Cancels a posted object.
    pub fn apply_cancel(old: Object, user_id: String, now: i64) -> (r: Object)
        requires
            old.version < i64::MAX,
        ensures
            r == cancelled_object(old, user_id, now),
    {
        Object { state: ObjectState::Cancelled, version: old.version + 1, updated_by: user_id, updated_at: now, ..old }
    }

    /// The snapshot of an object's current version. The caller hands over a copy of
    /// the object's data.
    pub fn snapshot_of(obj: &Object, data: JsonValue, id: String, user_id: String, now: i64, reason: Option<String>) -> (r: ObjectSnapshot)
        ensures
            r.id == id,
            r.object_id == obj.id,
            r.version == obj.version,
            r.data == data,
            r.state == obj.state,
            r.created_by == user_id,
            r.created_at == now,
            r.reason == reason,
    {
        ObjectSnapshot {
            id: id,
            object_id: obj.id.clone(),
            version: obj.version,
            data: data,
            state: obj.state,
            created_by: user_id,
            created_at: now,
            reason: reason,
        }
    }

    /// The limit and offset that a list request uses.
    pub fn page_window(filters: &ObjectFilters) -> (r: (i64, i64))
        ensures
            r.0 == page_limit(filters.limit),
            r.1 == page_offset(filters.offset),
    {
        let l: i64 = match filters.limit { Some(l) => l, None => 50 };
        let o: i64 = match filters.offset { Some(o) => o, None => 0 };
        (if l < 200 { l } else { 200 }, if o > 0 { o } else { 0 })
    }

    /// A page of a list: more follow when the window ends before the total.
    pub fn make_page(objects: Vec<Object>, total_count: i64, offset: i64, limit: i64) -> (r: ObjectPage)
        requires
            i64::MIN <= offset + limit <= i64::MAX,
        ensures
            r.objects == objects,
            r.total_count == total_count,
            r.has_more == (offset + limit < total_count),
    {
        ObjectPage { objects: objects, total_count: total_count, has_more: offset + limit < total_count }
    }
}

/// Restoring a version puts the snapshot's data back: the object holds the
/// data restored, its version moves one past the old one, the restoring user
/// and time are recorded, and its identity, type and state are kept.
pub proof fn lemma_restore_puts_snapshot_data_back(old: Object, data: JsonValue, user_id: String, now: i64)
    requires
        old.version < i64::MAX,
    ensures
        restored_object(old, data, user_id, now).data == data,
        restored_object(old, data, user_id, now).version == old.version + 1,
        restored_object(old, data, user_id, now).updated_by == user_id,
        restored_object(old, data, user_id, now).updated_at == now,
        restored_object(old, data, user_id, now).id == old.id,
        restored_object(old, data, user_id, now).entity_type_id == old.entity_type_id,
        restored_object(old, data, user_id, now).state == old.state,
{
}

} // verus!
