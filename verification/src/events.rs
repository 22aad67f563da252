//! The event store: streams of events, each event numbered by its position
//! in its stream, with a snapshot of the actor who caused it.

use vstd::prelude::*;
use crate::platform::PlatformError;
use crate::json::JsonValue;
use crate::text::{str_eq, concat2};

verus! {

/// The kind of stream an event belongs to.
#[derive(PartialEq, Eq, Structural, Clone, Copy, Debug)]
pub enum StreamType {
    Object,
    User,
    Module,
    Device,
}

/// The stored code of a stream type.
pub open spec fn stream_code(t: StreamType) -> Seq<char> {
    match t {
        StreamType::Object => "object"@,
        StreamType::User => "user"@,
        StreamType::Module => "module"@,
        StreamType::Device => "device"@,
    }
}

impl StreamType {
    /// The stored code of the stream type.
    pub fn as_str(&self) -> (r: &'static str)
        ensures
            r@ == stream_code(*self),
    {
        match self {
            StreamType::Object => "object",
            StreamType::User => "user",
            StreamType::Module => "module",
            StreamType::Device => "device",
        }
    }

    /// The stream type with the stored code `s`; any other text is refused.
    pub fn parse(s: &str) -> (r: Result<StreamType, PlatformError>)
        ensures
            r matches Ok(t) ==> stream_code(t) == s@,
            r is Err ==> forall|t: StreamType| stream_code(t) != s@,
            r matches Err(e) ==> e matches PlatformError::Validation(m) && m@ == "Неизвестный stream_type: "@ + s@,
    {
        if str_eq(s, "object") { return Ok(StreamType::Object); }
        if str_eq(s, "user") { return Ok(StreamType::User); }
        if str_eq(s, "module") { return Ok(StreamType::Module); }
        if str_eq(s, "device") { return Ok(StreamType::Device); }
        assert forall|t: StreamType| stream_code(t) != s@ by {
            match t {
                StreamType::Object => {},
                StreamType::User => {},
                StreamType::Module => {},
                StreamType::Device => {},
            }
        }
        Err(PlatformError::Validation(concat2("Неизвестный stream_type: ", s)))
    }
}

/// Different stream types have different codes, so a code parses back to the
/// stream type it was written for.
pub proof fn lemma_stream_code_roundtrip(t: StreamType, u: StreamType)
    ensures
        stream_code(t) == stream_code(u) ==> t == u,
{
    reveal_strlit("object");
    reveal_strlit("user");
    reveal_strlit("module");
    reveal_strlit("device");
    assert("object"@[0] != "module"@[0] && "object"@[0] != "device"@[0] && "module"@[0] != "device"@[0]);
    assert("user"@.len() != "object"@.len() && "user"@.len() != "module"@.len() && "user"@.len() != "device"@.len());
    match t {
        StreamType::Object => {},
        StreamType::User => {},
        StreamType::Module => {},
        StreamType::Device => {},
    }
}

/// Who caused an event, as they were when it happened.
pub struct ActorSnapshot {
    pub user_id: String,
    pub login: String,
    pub full_name: Option<String>,
    pub position: Option<String>,
    pub company_id: String,
}

/// One event of a stream. Times are milliseconds since the Unix epoch.
pub struct Event {
    pub id: String,
    pub stream_type: StreamType,
    pub stream_id: String,
    pub event_type: String,
    pub version: i64,
    pub payload: JsonValue,
    pub metadata: ActorSnapshot,
    pub company_id: String,
    pub correlation_id: Option<String>,
    pub causation_id: Option<String>,
    pub signature_ref: Option<String>,
    pub occurred_at: i64,
}

/// Filters of an event list.
pub struct EventFilters {
    pub stream_type: Option<String>,
    pub stream_id: Option<String>,
    pub event_type: Option<String>,
    pub company_id: Option<String>,
    pub correlation_id: Option<String>,
    pub date_from: Option<String>,
    pub date_to: Option<String>,
    pub limit: Option<i64>,
    pub after: Option<String>,
}

/// One page of an event list.
pub struct EventPage {
    pub events: Vec<Event>,
    pub total_count: i64,
    pub has_more: bool,
    pub next_cursor: Option<String>,
}

/// The version of the next event of a stream whose last event has version
/// `last` (a stream without events starts at 1).
pub open spec fn next_version_of(last: Option<i64>) -> int {
    match last {
        Some(v) => v + 1,
        None => 1,
    }
}

/// The page size of an event list: 50 by default, at most 200.
pub open spec fn event_limit(limit: Option<i64>) -> i64 {
    let l = match limit { Some(l) => l, None => 50 };
    if l < 200 { l } else { 200 }
}

/// The event store.
pub struct EventService;

impl EventService {
    /// The service.
    pub fn new() -> (r: EventService)
        ensures
            r == EventService,
    {
        EventService
    }

    /// The version of the next event of a stream, from the version of its
    /// last event.
    pub fn next_version(last: Option<i64>) -> (r: i64)
        requires
            last matches Some(v) ==> v < i64::MAX,
        ensures
            r == next_version_of(last),
    {
        match last {
            Some(v) => v + 1,
            None => 1,
        }
    }

    /// The page size that an event list uses.
    pub fn page_limit(filters: &EventFilters) -> (r: i64)
        ensures
            r == event_limit(filters.limit),
    {
        let l: i64 = match filters.limit { Some(l) => l, None => 50 };
        if l < 200 { l } else { 200 }
    }

    /// The event appended to a stream whose last event has version `last`.
    pub fn make_event(
        id: String,
        stream_type: StreamType,
        stream_id: String,
        event_type: String,
        last: Option<i64>,
        payload: JsonValue,
        metadata: ActorSnapshot,
        company_id: String,
        correlation_id: Option<String>,
        causation_id: Option<String>,
        now: i64,
    ) -> (r: Event)
        requires
            last matches Some(v) ==> v < i64::MAX,
        ensures
            r == (Event {
                id: id,
                stream_type: stream_type,
                stream_id: stream_id,
                event_type: event_type,
                version: next_version_of(last) as i64,
                payload: payload,
                metadata: metadata,
                company_id: company_id,
                correlation_id: correlation_id,
                causation_id: causation_id,
                signature_ref: None,
                occurred_at: now,
            }),
    {
        let version = EventService::next_version(last);
        Event {
            id,
            stream_type,
            stream_id,
            event_type,
            version,
            payload,
            metadata,
            company_id,
            correlation_id,
            causation_id,
            signature_ref: None,
            occurred_at: now,
        }
    }
}

/// Appending to a stream numbers the events 1, 2, 3, …: each new event's
/// version is one past the last, so versions within a stream only grow.
pub proof fn lemma_stream_versions_grow(last: Option<i64>)
    ensures
        last matches Some(v) ==> next_version_of(last) == v + 1 && next_version_of(last) > v,
        last is None ==> next_version_of(last) == 1,
{
}

/// The greatest version among a stream's events, if it has any: what the
/// store reads as the stream's last version.
pub open spec fn max_version(vs: Seq<i64>) -> Option<i64>
    decreases vs.len(),
{
    if vs.len() == 0 {
        None
    } else {
        match max_version(vs.drop_last()) {
            None => Some(vs.last()),
            Some(m) => Some(if vs.last() > m { vs.last() } else { m }),
        }
    }
}

proof fn lemma_max_version_bounds(vs: Seq<i64>)
    ensures
        max_version(vs) is None <==> vs.len() == 0,
        max_version(vs) matches Some(m) ==> forall|i: int| 0 <= i < vs.len() ==> vs[i] <= m,
    decreases vs.len(),
{
    if vs.len() > 0 {
        lemma_max_version_bounds(vs.drop_last());
        assert forall|i: int| 0 <= i < vs.len() - 1 implies vs[i] == vs.drop_last()[i] by {}
    }
}

/// Appending to a stream the event numbered from its last version: the new
/// version is above every version already in the stream (so no two events
/// of a stream share a version), and it becomes the stream's last version.
pub proof fn lemma_append_becomes_last(vs: Seq<i64>)
    requires
        max_version(vs) matches Some(m) ==> m < i64::MAX,
    ensures
        forall|i: int| 0 <= i < vs.len() ==> vs[i] < next_version_of(max_version(vs)),
        max_version(vs.push(next_version_of(max_version(vs)) as i64)) == Some(next_version_of(max_version(vs)) as i64),
{
    lemma_max_version_bounds(vs);
    let v = next_version_of(max_version(vs)) as i64;
    assert(vs.push(v).drop_last() =~= vs);
}

} // verus!
