//! Core platform types: the error type, entity and field kinds, object states.

use vstd::prelude::*;
use crate::text::{concat2, str_eq};

verus! {

/// Errors of the platform. Each carries a human-readable detail text.
#[derive(Debug)]
pub enum PlatformError {
    Database(String),
    NotFound(String),
    PermissionDenied(String),
    Validation(String),
    Auth(String),
    Script(String),
    Crypto(String),
    Notification(String),
    Internal(String),
}

/// The prefix that the message of each error kind begins with.
pub open spec fn error_prefix(e: PlatformError) -> Seq<char> {
    match e {
        PlatformError::Database(_) => "Ошибка MongoDB: "@,
        PlatformError::NotFound(_) => "Сущность не найдена: "@,
        PlatformError::PermissionDenied(_) => "Нарушение прав доступа: "@,
        PlatformError::Validation(_) => "Невалидные данные: "@,
        PlatformError::Auth(_) => "Ошибка аутентификации: "@,
        PlatformError::Script(_) => "Ошибка скрипта Rhai: "@,
        PlatformError::Crypto(_) => "Ошибка подписи: "@,
        PlatformError::Notification(_) => "Ошибка уведомления: "@,
        PlatformError::Internal(_) => "Внутренняя ошибка: "@,
    }
}

/// The detail text of an error.
pub open spec fn error_detail(e: PlatformError) -> Seq<char> {
    match e {
        PlatformError::Database(s) => s@,
        PlatformError::NotFound(s) => s@,
        PlatformError::PermissionDenied(s) => s@,
        PlatformError::Validation(s) => s@,
        PlatformError::Auth(s) => s@,
        PlatformError::Script(s) => s@,
        PlatformError::Crypto(s) => s@,
        PlatformError::Notification(s) => s@,
        PlatformError::Internal(s) => s@,
    }
}

impl PlatformError {
    /// The full message of the error: its kind's prefix, then its detail.
    pub fn message(&self) -> (m: String)
        ensures
            m@ == error_prefix(*self) + error_detail(*self),
    {
        match self {
            PlatformError::Database(s) => concat2("Ошибка MongoDB: ", s.as_str()),
            PlatformError::NotFound(s) => concat2("Сущность не найдена: ", s.as_str()),
            PlatformError::PermissionDenied(s) => concat2("Нарушение прав доступа: ", s.as_str()),
            PlatformError::Validation(s) => concat2("Невалидные данные: ", s.as_str()),
            PlatformError::Auth(s) => concat2("Ошибка аутентификации: ", s.as_str()),
            PlatformError::Script(s) => concat2("Ошибка скрипта Rhai: ", s.as_str()),
            PlatformError::Crypto(s) => concat2("Ошибка подписи: ", s.as_str()),
            PlatformError::Notification(s) => concat2("Ошибка уведомления: ", s.as_str()),
            PlatformError::Internal(s) => concat2("Внутренняя ошибка: ", s.as_str()),
        }
    }
}

/// Kinds of entity types.
#[derive(PartialEq, Eq, Structural, Clone, Copy, Debug)]
pub enum EntityKind {
    Document,
    Catalog,
    Register,
    Task,
    Contract,
    Project,
    Setting,
    Custom,
}

/// Kinds of entity fields.
#[derive(PartialEq, Eq, Structural, Clone, Copy, Debug)]
pub enum FieldKind {
    String,
    Text,
    Integer,
    Money,
    Date,
    DateTime,
    Boolean,
    Enum,
    Reference,
    Array,
    Table,
    Json,
    File,
    User,
    Company,
    Formula,
    Computed,
}

/// Lifecycle states of platform objects.
#[derive(PartialEq, Eq, Structural, Clone, Copy, Debug)]
pub enum ObjectState {
    Draft,
    Active,
    Posted,
    Cancelled,
    Archived,
    Deleted,
}

/// The stored code of an object state.
pub open spec fn state_code(s: ObjectState) -> Seq<char> {
    match s {
        ObjectState::Draft => "draft"@,
        ObjectState::Active => "active"@,
        ObjectState::Posted => "posted"@,
        ObjectState::Cancelled => "cancelled"@,
        ObjectState::Archived => "archived"@,
        ObjectState::Deleted => "deleted"@,
    }
}

impl ObjectState {
    /// The stored code of the state (`"draft"`, `"posted"`, …).
    pub fn code(&self) -> (c: &'static str)
        ensures
            c@ == state_code(*self),
    {
        match self {
            ObjectState::Draft => "draft",
            ObjectState::Active => "active",
            ObjectState::Posted => "posted",
            ObjectState::Cancelled => "cancelled",
            ObjectState::Archived => "archived",
            ObjectState::Deleted => "deleted",
        }
    }

    /// The state whose code is `code`, if any.
    pub fn from_code(code: &str) -> (r: Option<ObjectState>)
        ensures
            r matches Some(s) ==> state_code(s) == code@,
            r is None ==> forall|s: ObjectState| state_code(s) != code@,
    {
        if str_eq(code, "draft") { return Some(ObjectState::Draft); }
        if str_eq(code, "active") { return Some(ObjectState::Active); }
        if str_eq(code, "posted") { return Some(ObjectState::Posted); }
        if str_eq(code, "cancelled") { return Some(ObjectState::Cancelled); }
        if str_eq(code, "archived") { return Some(ObjectState::Archived); }
        if str_eq(code, "deleted") { return Some(ObjectState::Deleted); }
        assert forall|s: ObjectState| state_code(s) != code@ by {
            match s {
                ObjectState::Draft => {},
                ObjectState::Active => {},
                ObjectState::Posted => {},
                ObjectState::Cancelled => {},
                ObjectState::Archived => {},
                ObjectState::Deleted => {},
            }
        }
        None
    }
}

/// The stored code of an entity kind.
pub open spec fn entity_kind_code(k: EntityKind) -> Seq<char> {
    match k {
        EntityKind::Document => "document"@,
        EntityKind::Catalog => "catalog"@,
        EntityKind::Register => "register"@,
        EntityKind::Task => "task"@,
        EntityKind::Contract => "contract"@,
        EntityKind::Project => "project"@,
        EntityKind::Setting => "setting"@,
        EntityKind::Custom => "custom"@,
    }
}

impl EntityKind {
    /// The stored code of the kind (`"document"`, `"catalog"`, …).
    pub fn code(&self) -> (c: &'static str)
        ensures
            c@ == entity_kind_code(*self),
    {
        match self {
            EntityKind::Document => "document",
            EntityKind::Catalog => "catalog",
            EntityKind::Register => "register",
            EntityKind::Task => "task",
            EntityKind::Contract => "contract",
            EntityKind::Project => "project",
            EntityKind::Setting => "setting",
            EntityKind::Custom => "custom",
        }
    }
}

} // verus!
