//! Import and export of objects through converter modules: the requests a
//! module receives and the results it returns.

use vstd::prelude::*;
use crate::json::JsonValue;
use crate::platform::state_code;
use crate::objects::{Object, json_int, json_i64};
use crate::text::owned;

verus! {

/// A file to import as objects of an entity type.
pub struct ImportRequest {
    pub format: String,
    pub file_data: Vec<u8>,
    pub entity_type_id: String,
    /// Column → field, when the file's columns are not the field codes.
    pub mapping: Option<Vec<(String, String)>>,
}

/// What an import did.
pub struct ImportResult {
    pub created: u32,
    pub total: u32,
    pub errors: Vec<String>,
}

/// Objects to export in a format.
pub struct ExportRequest {
    pub entity_type_id: String,
    pub format: String,
    pub objects: Vec<JsonValue>,
}

/// An exported file.
pub struct ExportResult {
    pub data: Vec<u8>,
    pub filename: String,
    pub content_type: String,
}

/// The export form of an object: its id, number, state, version and data
/// (the caller hands over the data).
pub fn export_object(obj: &Object, data: JsonValue) -> (r: JsonValue)
    ensures
        r matches JsonValue::Object(m) && m@.len() == 5
            && m@[0].0@ == "data"@ && m@[0].1 == data
            && m@[1].0@ == "id"@ && (m@[1].1 matches JsonValue::String(s) && s@ == obj.id@)
            && m@[2].0@ == "number"@ && (match obj.number {
                Some(n) => m@[2].1 matches JsonValue::String(s) && s@ == n@,
                None => m@[2].1 == JsonValue::Null,
            })
            && m@[3].0@ == "state"@ && (m@[3].1 matches JsonValue::String(s) && s@ == state_code(obj.state))
            && m@[4].0@ == "version"@ && m@[4].1 == json_int(obj.version),
{
    let mut m: Vec<(String, JsonValue)> = Vec::new();
    m.push((owned("data"), data));
    m.push((owned("id"), JsonValue::String(obj.id.clone())));
    let number = match &obj.number {
        Some(n) => JsonValue::String(n.clone()),
        None => JsonValue::Null,
    };
    m.push((owned("number"), number));
    m.push((owned("state"), JsonValue::String(owned(obj.state.code()))));
    m.push((owned("version"), json_i64(obj.version)));
    JsonValue::Object(m)
}

} // verus!
