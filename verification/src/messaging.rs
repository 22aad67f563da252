//! Messaging: rooms (direct, group, document discussions), their messages
//! and what each user has read.

use vstd::prelude::*;
use crate::platform::PlatformError;
use crate::json::JsonValue;
use crate::text::{owned, concat2, concat3, is_blank, is_blank_exec};

verus! {

/// The kinds of rooms.
#[derive(PartialEq, Eq, Structural, Clone, Copy, Debug)]
pub enum RoomType {
    Direct,
    Group,
    Document,
}

impl RoomType {
    /// The stored code of the kind.
    pub fn as_str(&self) -> (r: &'static str)
        ensures
            r@ == (match *self {
                RoomType::Direct => "direct"@,
                RoomType::Group => "group"@,
                RoomType::Document => "document"@,
            }),
    {
        match self {
            RoomType::Direct => "direct",
            RoomType::Group => "group",
            RoomType::Document => "document",
        }
    }
}

/// A room. Times are milliseconds since the Unix epoch.
pub struct MessagingRoom {
    pub id: String,
    pub company_id: String,
    pub room_type: RoomType,
    pub title: Option<String>,
    /// The members' user ids.
    pub members: Vec<String>,
    /// The platform object a document room discusses.
    pub entity_ref: Option<JsonValue>,
    pub created_by: String,
    pub created_at: i64,
    pub last_message_at: Option<i64>,
    pub is_archived: bool,
}

/// A message of a room.
pub struct MessagingMessage {
    pub id: String,
    pub company_id: String,
    pub room_id: String,
    pub author_id: String,
    pub content: String,
    pub reply_to: Option<String>,
    pub is_deleted: bool,
    pub edited_at: Option<i64>,
    pub created_at: i64,
}

/// The last message of a room that a user has read.
pub struct RoomRead {
    pub id: String,
    pub company_id: String,
    pub room_id: String,
    pub user_id: String,
    pub last_read_message_id: String,
    pub updated_at: i64,
}

/// A message as the user interface sends it.
pub struct SendMessageInput {
    pub room_id: String,
    pub content: String,
    pub reply_to: Option<String>,
}

/// Rooms, messages and reads.
pub struct MessagingService;

impl MessagingService {
    /// A new message; a blank one is refused.
    pub fn new_message(
        id: String,
        company_id: String,
        room_id: &str,
        author_id: &str,
        content: &str,
        reply_to: Option<&str>,
        now: i64,
    ) -> (r: Result<MessagingMessage, PlatformError>)
        ensures
            is_blank(content@) ==> (r matches Err(PlatformError::Validation(m)) && m@ == "Пустое сообщение"@),
            !is_blank(content@) ==> (r matches Ok(msg)
                && msg.id == id && msg.company_id == company_id
                && msg.room_id@ == room_id@ && msg.author_id@ == author_id@ && msg.content@ == content@
                && crate::permission::opt_str_view(reply_to) == (match msg.reply_to { Some(x) => Some(x@), None => None })
                && !msg.is_deleted && msg.edited_at is None && msg.created_at == now),
    {
        if is_blank_exec(content) {
            return Err(PlatformError::Validation(owned("Пустое сообщение")));
        }
        Ok(MessagingMessage {
            id,
            company_id,
            room_id: owned(room_id),
            author_id: owned(author_id),
            content: owned(content),
            reply_to: match reply_to { Some(x) => Some(owned(x)), None => None },
            is_deleted: false,
            edited_at: None,
            created_at: now,
        })
    }

    /// A new direct room between two users, created by the first.
    pub fn direct_room(id: String, company_id: String, user_a: &str, user_b: &str, now: i64) -> (r: MessagingRoom)
        ensures
            r.id == id,
            r.company_id == company_id,
            r.room_type == RoomType::Direct,
            r.title is None,
            r.members@.len() == 2 && r.members@[0]@ == user_a@ && r.members@[1]@ == user_b@,
            r.entity_ref is None,
            r.created_by@ == user_a@,
            r.created_at == now,
            r.last_message_at is None,
            !r.is_archived,
    {
        let mut members: Vec<String> = Vec::new();
        members.push(owned(user_a));
        members.push(owned(user_b));
        MessagingRoom {
            id,
            company_id,
            room_type: RoomType::Direct,
            title: None,
            members,
            entity_ref: None,
            created_by: owned(user_a),
            created_at: now,
            last_message_at: None,
            is_archived: false,
        }
    }

    /// A new group room; one about a platform object is a document room.
    pub fn group_room(
        id: String,
        company_id: String,
        title: &str,
        members: Vec<String>,
        created_by: &str,
        entity_ref: Option<JsonValue>,
        now: i64,
    ) -> (r: MessagingRoom)
        ensures
            r.id == id,
            r.company_id == company_id,
            r.room_type == (if entity_ref is Some { RoomType::Document } else { RoomType::Group }),
            r.title matches Some(t) && t@ == title@,
            r.members == members,
            r.entity_ref == entity_ref,
            r.created_by@ == created_by@,
            r.created_at == now,
            r.last_message_at is None,
            !r.is_archived,
    {
        let room_type = if entity_ref.is_some() { RoomType::Document } else { RoomType::Group };
        MessagingRoom {
            id,
            company_id,
            room_type,
            title: Some(owned(title)),
            members,
            entity_ref,
            created_by: owned(created_by),
            created_at: now,
            last_message_at: None,
            is_archived: false,
        }
    }

    /// The title of a document's discussion room.
    pub fn document_room_title(doc_title: &str) -> (r: String)
        ensures
            r@ == "Обсуждение: "@ + doc_title@,
    {
        concat2("Обсуждение: ", doc_title)
    }

    /// The number of messages a list returns: the asked number, between 1 and 500.
    pub fn message_limit(limit: i64) -> (r: i64)
        ensures
            r == (if limit < 1 { 1 } else if limit > 500 { 500 } else { limit }),
    {
        if limit < 1 { 1 } else if limit > 500 { 500 } else { limit }
    }

    /// `NotFound` for a room that the user cannot archive.
    pub fn room_not_found(room_id: &str) -> (r: PlatformError)
        ensures
            r matches PlatformError::NotFound(m) && m@ == "Комната "@ + room_id@ + " не найдена"@,
    {
        PlatformError::NotFound(concat3("Комната ", room_id, " не найдена"))
    }

    /// `NotFound` for a message that the user cannot change.
    pub fn message_not_found() -> (r: PlatformError)
        ensures
            r matches PlatformError::NotFound(m) && m@ == "Сообщение не найдено"@,
    {
        PlatformError::NotFound(owned("Сообщение не найдено"))
    }
}

} // verus!
