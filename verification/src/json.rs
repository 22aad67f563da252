//! JSON values as the platform's logic reads them (object data, event
//! payloads, device settings).

use vstd::prelude::*;
use crate::text::str_eq;

verus! {

/// A JSON number, by the representation it was read into: a non-negative
/// integer, a negative integer, or a floating-point number (kept as its bit
/// pattern; the logic only asks which kind it is).
#[derive(PartialEq, Eq, Structural, Clone, Copy, Debug)]
pub enum JsonNumber {
    PosInt(u64),
    NegInt(i64),
    Float(u64),
}

/// A JSON value. Object members keep their order; keys are unique.
#[derive(Debug)]
pub enum JsonValue {
    Null,
    Bool(bool),
    Number(JsonNumber),
    String(String),
    Array(Vec<JsonValue>),
    Object(Vec<(String, JsonValue)>),
}

/// The first member of `members` with key `key`.
pub open spec fn member_get(members: Seq<(String, JsonValue)>, key: Seq<char>) -> Option<JsonValue>
    decreases members.len(),
{
    if members.len() == 0 {
        None
    } else if members[0].0@ == key {
        Some(members[0].1)
    } else {
        member_get(members.drop_first(), key)
    }
}

/// `value.get(key)`: the member of an object with that key; nothing for other values.
pub open spec fn json_get(v: JsonValue, key: Seq<char>) -> Option<JsonValue> {
    match v {
        JsonValue::Object(m) => member_get(m@, key),
        _ => None,
    }
}

/// The text of a string value.
pub open spec fn json_str(v: JsonValue) -> Option<Seq<char>> {
    match v {
        JsonValue::String(s) => Some(s@),
        _ => None,
    }
}

/// `value[key].as_str()`: the text of the member `key` when it is a string.
pub open spec fn json_member_str(v: JsonValue, key: Seq<char>) -> Option<Seq<char>> {
    match json_get(v, key) {
        Some(m) => json_str(m),
        None => None,
    }
}

proof fn lemma_member_get_skip(members: Seq<(String, JsonValue)>, key: Seq<char>, i: int)
    requires
        0 <= i <= members.len(),
        forall|j: int| 0 <= j < i ==> (#[trigger] members[j]).0@ != key,
    ensures
        member_get(members, key) == member_get(members.skip(i), key),
    decreases i,
{
    if i > 0 {
        assert forall|j: int| 0 <= j < i - 1 implies (#[trigger] members.drop_first()[j]).0@ != key by {
            assert(members.drop_first()[j] == members[j + 1]);
        }
        lemma_member_get_skip(members.drop_first(), key, i - 1);
        assert(members.drop_first().skip(i - 1) =~= members.skip(i));
    } else {
        assert(members.skip(0) =~= members);
    }
}

impl JsonValue {
    /// Is the value `null`?
    pub fn is_null(&self) -> (r: bool)
        ensures
            r == (*self is Null),
    {
        match self { JsonValue::Null => true, _ => false }
    }

    /// Is the value a string?
    pub fn is_string(&self) -> (r: bool)
        ensures
            r == (*self is String),
    {
        match self { JsonValue::String(_) => true, _ => false }
    }

    /// Is the value a boolean?
    pub fn is_boolean(&self) -> (r: bool)
        ensures
            r == (*self is Bool),
    {
        match self { JsonValue::Bool(_) => true, _ => false }
    }

    /// Is the value a number?
    pub fn is_number(&self) -> (r: bool)
        ensures
            r == (*self is Number),
    {
        match self { JsonValue::Number(_) => true, _ => false }
    }

    /// Is the value a number representable as i64 (an integer within i64)?
    pub fn is_i64(&self) -> (r: bool)
        ensures
            r == match *self {
                JsonValue::Number(JsonNumber::PosInt(u)) => u <= i64::MAX,
                JsonValue::Number(JsonNumber::NegInt(_)) => true,
                _ => false,
            },
    {
        match self {
            JsonValue::Number(JsonNumber::PosInt(u)) => *u <= i64::MAX as u64,
            JsonValue::Number(JsonNumber::NegInt(_)) => true,
            _ => false,
        }
    }

    /// Is the value a number representable as u64 (a non-negative integer)?
    pub fn is_u64(&self) -> (r: bool)
        ensures
            r == (*self matches JsonValue::Number(JsonNumber::PosInt(_))),
    {
        match self { JsonValue::Number(JsonNumber::PosInt(_)) => true, _ => false }
    }

    /// Is the value a floating-point number?
    pub fn is_f64(&self) -> (r: bool)
        ensures
            r == (*self matches JsonValue::Number(JsonNumber::Float(_))),
    {
        match self { JsonValue::Number(JsonNumber::Float(_)) => true, _ => false }
    }

    /// Is the value an array?
    pub fn is_array(&self) -> (r: bool)
        ensures
            r == (*self is Array),
    {
        match self { JsonValue::Array(_) => true, _ => false }
    }

    /// Is the value an object?
    pub fn is_object(&self) -> (r: bool)
        ensures
            r == (*self is Object),
    {
        match self { JsonValue::Object(_) => true, _ => false }
    }

    /// The text of a string value.
    pub fn as_str(&self) -> (r: Option<&str>)
        ensures
            crate::permission::opt_str_view(r) == json_str(*self),
    {
        match self { JsonValue::String(s) => Some(s.as_str()), _ => None }
    }

    /// The flag of a boolean value.
    pub fn as_bool(&self) -> (r: Option<bool>)
        ensures
            r == match *self { JsonValue::Bool(b) => Some(b), _ => None },
    {
        match self { JsonValue::Bool(b) => Some(*b), _ => None }
    }

    /// The member `key` of an object.
    pub fn get(&self, key: &str) -> (r: Option<&JsonValue>)
        ensures
            match r { Some(m) => json_get(*self, key@) == Some(*m), None => json_get(*self, key@) is None },
    {
        match self {
            JsonValue::Object(members) => {
                let mut i: usize = 0;
                while i < members.len()
                    invariant
                        i <= members.len(),
                        *self == JsonValue::Object(*members),
                        forall|j: int| 0 <= j < i ==> (#[trigger] members@[j]).0@ != key@,
                    decreases members.len() - i,
                {
                    if str_eq(members[i].0.as_str(), key) {
                        proof {
                            lemma_member_get_skip(members@, key@, i as int);
                            assert(members@.skip(i as int)[0] == members@[i as int]);
                            assert(members@[i as int].0@ == key@);
                            assert(member_get(members@.skip(i as int), key@) == Some(members@[i as int].1));
                            assert(*self == JsonValue::Object(*members));
                            assert(json_get(*self, key@) == member_get(members@, key@));
                            assert(members@[i as int].1 == members[i as int].1);
                        }
                        return Some(&members[i].1);
                    }
                    i = i + 1;
                }
                proof {
                    lemma_member_get_skip(members@, key@, members.len() as int);
                    assert(members@.skip(members.len() as int).len() == 0);
                }
                None
            },
            _ => None,
        }
    }

    /// `value[key].as_str()`: the text of member `key` when it is a string.
    pub fn member_str(&self, key: &str) -> (r: Option<&str>)
        ensures
            crate::permission::opt_str_view(r) == json_member_str(*self, key@),
    {
        match self.get(key) {
            Some(m) => m.as_str(),
            None => None,
        }
    }
}

/// The lower-case hex digits, by value.
pub open spec fn lower_hex_digits() -> Seq<char> {
    seq!['0', '1', '2', '3', '4', '5', '6', '7', '8', '9', 'a', 'b', 'c', 'd', 'e', 'f']
}

/// How `serde_json` writes one character inside a string: `"` and `\` and
/// the control characters escaped (the short forms `\b`, `\t`, `\n`, `\f`,
/// `\r` where there is one, else `\u00` and two lower-case hex digits),
/// every other character as it is.
pub open spec fn json_char_text(c: char) -> Seq<char> {
    if c == '"' {
        seq!['\\', '"']
    } else if c == '\\' {
        seq!['\\', '\\']
    } else if c == '\u{8}' {
        seq!['\\', 'b']
    } else if c == '\t' {
        seq!['\\', 't']
    } else if c == '\n' {
        seq!['\\', 'n']
    } else if c == '\u{c}' {
        seq!['\\', 'f']
    } else if c == '\r' {
        seq!['\\', 'r']
    } else if (c as u32) < 0x20 {
        seq!['\\', 'u', '0', '0', lower_hex_digits()[(c as u32) as int / 16], lower_hex_digits()[(c as u32) as int % 16]]
    } else {
        seq![c]
    }
}

/// The characters of a string as `serde_json` writes them between the quotes.
pub open spec fn json_escaped(s: Seq<char>) -> Seq<char>
    decreases s.len(),
{
    if s.len() == 0 {
        Seq::empty()
    } else {
        json_escaped(s.drop_last()) + json_char_text(s.last())
    }
}

/// A string as JSON text: in double quotes, escaped as `serde_json` does.
pub open spec fn json_string_text(s: Seq<char>) -> Seq<char> {
    seq!['"'] + json_escaped(s) + seq!['"']
}

/// A string as JSON text (see `json_string_text`).
pub fn json_string_exec(s: &str) -> (r: String)
    ensures
        r@ == json_string_text(s@),
{
    let cs = crate::text::chars_of(s);
    let digits = vec!['0', '1', '2', '3', '4', '5', '6', '7', '8', '9', 'a', 'b', 'c', 'd', 'e', 'f'];
    assert(digits@ == lower_hex_digits());
    let mut r = String::new();
    crate::text::push_char(&mut r, '"');
    let mut i: usize = 0;
    while i < cs.len()
        invariant
            i <= cs.len(),
            cs@ == s@,
            digits@ == lower_hex_digits(),
            r@ == seq!['"'] + json_escaped(s@.take(i as int)),
        decreases cs.len() - i,
    {
        let c = cs[i];
        proof {
            assert(s@.take(i + 1).drop_last() =~= s@.take(i as int));
            assert(s@.take(i + 1).last() == c);
        }
        let ghost before = r@;
        if c == '"' {
            crate::text::push_char(&mut r, '\\');
            crate::text::push_char(&mut r, '"');
        } else if c == '\\' {
            crate::text::push_char(&mut r, '\\');
            crate::text::push_char(&mut r, '\\');
        } else if c == '\u{8}' {
            crate::text::push_char(&mut r, '\\');
            crate::text::push_char(&mut r, 'b');
        } else if c == '\t' {
            crate::text::push_char(&mut r, '\\');
            crate::text::push_char(&mut r, 't');
        } else if c == '\n' {
            crate::text::push_char(&mut r, '\\');
            crate::text::push_char(&mut r, 'n');
        } else if c == '\u{c}' {
            crate::text::push_char(&mut r, '\\');
            crate::text::push_char(&mut r, 'f');
        } else if c == '\r' {
            crate::text::push_char(&mut r, '\\');
            crate::text::push_char(&mut r, 'r');
        } else if (c as u32) < 0x20 {
            let u = c as u32;
            crate::text::push_char(&mut r, '\\');
            crate::text::push_char(&mut r, 'u');
            crate::text::push_char(&mut r, '0');
            crate::text::push_char(&mut r, '0');
            crate::text::push_char(&mut r, digits[(u / 16) as usize]);
            crate::text::push_char(&mut r, digits[(u % 16) as usize]);
        } else {
            crate::text::push_char(&mut r, c);
        }
        assert(r@ =~= before + json_char_text(c));
        i = i + 1;
    }
    assert(s@.take(cs.len() as int) =~= s@);
    crate::text::push_char(&mut r, '"');
    r
}

} // verus!
