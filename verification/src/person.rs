//! Persons: the people behind user accounts, with their names.

use vstd::prelude::*;
use crate::platform::PlatformError;
use crate::meta::{or_keep, or_keep_opt};
use crate::text::{concat3, push_char, str_eq};
use crate::audit::AuditChanges;

verus! {

/// A person. Times are milliseconds since the Unix epoch.
pub struct Person {
    pub id: String,
    pub last_name: String,
    pub first_name: String,
    pub middle_name: Option<String>,
    pub display_name: String,
    pub created_at: i64,
    pub updated_at: i64,
}

/// A request to create a person.
pub struct CreatePersonInput {
    pub last_name: String,
    pub first_name: String,
    pub middle_name: Option<String>,
    pub display_name: Option<String>,
}

/// A change of a person: each given value replaces the stored one.
pub struct UpdatePersonInput {
    pub last_name: Option<String>,
    pub first_name: Option<String>,
    pub middle_name: Option<String>,
    pub display_name: Option<String>,
}

/// The name shown for a person who gave none: last, first and middle name,
/// separated by spaces.
pub open spec fn full_name(last: Seq<char>, first: Seq<char>, middle: Option<Seq<char>>) -> Seq<char> {
    match middle {
        Some(m) => last + " "@ + first + " "@ + m,
        None => last + " "@ + first,
    }
}

impl Person {
    /// A new person; the display name defaults to the full name.
    pub fn new(input: CreatePersonInput, id: String, now: i64) -> (r: Person)
        ensures
            r.id == id,
            r.last_name == input.last_name,
            r.first_name == input.first_name,
            r.middle_name == input.middle_name,
            r.display_name@ == (match input.display_name {
                Some(d) => d@,
                None => full_name(input.last_name@, input.first_name@, match input.middle_name { Some(m) => Some(m@), None => None }),
            }),
            r.created_at == now,
            r.updated_at == now,
    {
        let display_name = match input.display_name {
            Some(d) => d,
            None => {
                let mut s = concat3(input.last_name.as_str(), " ", input.first_name.as_str());
                match &input.middle_name {
                    Some(m) => {
                        s.append(" ");
                        s.append(m.as_str());
                    },
                    None => {},
                }
                s
            },
        };
        Person {
            id,
            last_name: input.last_name,
            first_name: input.first_name,
            middle_name: input.middle_name,
            display_name,
            created_at: now,
            updated_at: now,
        }
    }
}

/// The audited changes of a text field: recorded as `(old, new)` when a new
/// value is given and (unless `always`) differs from the old one.
pub open spec fn text_change(
    m: Map<Seq<char>, (Option<Seq<char>>, Option<Seq<char>>)>,
    name: Seq<char>,
    old: Seq<char>,
    new: Option<String>,
    always: bool,
) -> Map<Seq<char>, (Option<Seq<char>>, Option<Seq<char>>)> {
    match new {
        Some(v) => if always || old != v@ { m.insert(name, (Some(old), Some(v@))) } else { m },
        None => m,
    }
}

/// The changes the audit trail records when a person is updated.
pub open spec fn person_changes(old: Option<Person>, input: UpdatePersonInput) -> Map<Seq<char>, (Option<Seq<char>>, Option<Seq<char>>)> {
    let ln = match old { Some(p) => p.last_name@, None => Seq::empty() };
    let fname = match old { Some(p) => p.first_name@, None => Seq::empty() };
    let mn = match old { Some(p) => match p.middle_name { Some(m) => m@, None => Seq::empty() }, None => Seq::empty() };
    let dn = match old { Some(p) => p.display_name@, None => Seq::empty() };
    let m0 = Map::<Seq<char>, (Option<Seq<char>>, Option<Seq<char>>)>::empty();
    let m1 = text_change(m0, "last_name"@, ln, input.last_name, false);
    let m2 = text_change(m1, "first_name"@, fname, input.first_name, false);
    let m3 = text_change(m2, "middle_name"@, mn, input.middle_name, true);
    text_change(m3, "display_name"@, dn, input.display_name, false)
}

/// The persons of the platform.
pub struct PersonService;

impl PersonService {
    /// The service.
    pub fn new() -> (r: PersonService)
        ensures
            r == PersonService,
    {
        PersonService
    }

    /// A person after an update.
    pub fn apply_update(old: Person, input: UpdatePersonInput, now: i64) -> (r: Person)
        ensures
            r == (Person {
                last_name: or_keep(input.last_name, old.last_name),
                first_name: or_keep(input.first_name, old.first_name),
                middle_name: or_keep_opt(input.middle_name, old.middle_name),
                display_name: or_keep(input.display_name, old.display_name),
                updated_at: now,
                ..old
            }),
    {
        let last_name = match input.last_name { Some(v) => v, None => old.last_name };
        let first_name = match input.first_name { Some(v) => v, None => old.first_name };
        let middle_name = match input.middle_name { Some(v) => Some(v), None => old.middle_name };
        let display_name = match input.display_name { Some(v) => v, None => old.display_name };
        Person { last_name, first_name, middle_name, display_name, updated_at: now, ..old }
    }

    /// What the audit trail records of a person's update, by the stored person
    /// (`None` when it could not be read: every old value counts as empty):
    /// the last, first and display names when they change, and the middle
    /// name whenever one is given.
    pub fn update_changes(old: Option<&Person>, input: &UpdatePersonInput) -> (r: AuditChanges)
        ensures
            r.wf(),
            r.view() == person_changes(match old { Some(p) => Some(*p), None => None }, *input),
    {
        proof { reveal_strlit(""); }
        let ghost op = match old { Some(p) => Some(*p), None => None };
        let ghost ln = match op { Some(p) => p.last_name@, None => Seq::<char>::empty() };
        let ghost fname = match op { Some(p) => p.first_name@, None => Seq::<char>::empty() };
        let ghost mn = match op { Some(p) => match p.middle_name { Some(m) => m@, None => Seq::<char>::empty() }, None => Seq::<char>::empty() };
        let ghost dn = match op { Some(p) => p.display_name@, None => Seq::<char>::empty() };
        let ghost m0 = Map::<Seq<char>, (Option<Seq<char>>, Option<Seq<char>>)>::empty();
        let ghost m1 = text_change(m0, "last_name"@, ln, input.last_name, false);
        let ghost m2 = text_change(m1, "first_name"@, fname, input.first_name, false);
        let ghost m3 = text_change(m2, "middle_name"@, mn, input.middle_name, true);
        let mut changes = AuditChanges::new();
        assert(changes.view() =~= m0);
        if let Some(v) = &input.last_name {
            let o: &str = match old { Some(p) => p.last_name.as_str(), None => "" };
            assert(o@ == ln);
            if !str_eq(o, v.as_str()) {
                changes = changes.field("last_name", o, v.as_str());
            }
        }
        assert(changes.view() == m1);
        if let Some(v) = &input.first_name {
            let o: &str = match old { Some(p) => p.first_name.as_str(), None => "" };
            assert(o@ == fname);
            if !str_eq(o, v.as_str()) {
                changes = changes.field("first_name", o, v.as_str());
            }
        }
        assert(changes.view() == m2);
        if let Some(v) = &input.middle_name {
            let o: &str = match old {
                Some(p) => match &p.middle_name { Some(m) => m.as_str(), None => "" },
                None => "",
            };
            assert(o@ == mn);
            changes = changes.field("middle_name", o, v.as_str());
        }
        assert(changes.view() == m3);
        if let Some(v) = &input.display_name {
            let o: &str = match old { Some(p) => p.display_name.as_str(), None => "" };
            assert(o@ == dn);
            if !str_eq(o, v.as_str()) {
                changes = changes.field("display_name", o, v.as_str());
            }
        }
        changes
    }

    /// `NotFound` for a person id.
    pub fn not_found(id: &str) -> (r: PlatformError)
        ensures
            r matches PlatformError::NotFound(m) && m@ == "Персона "@ + id@ + " не найдена"@,
    {
        PlatformError::NotFound(concat3("Персона ", id, " не найдена"))
    }
}

} // verus!
