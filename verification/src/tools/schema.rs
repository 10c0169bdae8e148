//! Building blocks of input schemas.

use vstd::prelude::*;
use crate::json::{Json, JsonValue};

verus! {

/// The schema of a value of the given type, with its description.
pub open spec fn property(kind: Seq<char>, description: Seq<char>) -> JsonValue {
    JsonValue::object().with_str("type"@, kind).with_str("description"@, description)
}

/// The schema of an input that is any JSON object.
pub open spec fn any_object(description: Seq<char>) -> JsonValue {
    property("object"@, description)
}

/// The schema of an input object with the given properties, of which those
/// named in `required` must be present, and no others are allowed.
pub open spec fn closed_object(properties: JsonValue, required: JsonValue) -> JsonValue {
    JsonValue::object().with_str("type"@, "object"@).with("properties"@, properties).with(
        "required"@,
        required,
    ).with_bool("additionalProperties"@, false)
}

/// The schema of a value of the given type, with its description.
pub fn make_property(kind: &str, description: &str) -> (schema: Json)
    ensures
        schema@ == property(kind@, description@),
{
    Json::object().with_str("type", kind).with_str("description", description)
}

/// The schema of an input that is any JSON object.
pub fn make_any_object(description: &str) -> (schema: Json)
    ensures
        schema@ == any_object(description@),
{
    make_property("object", description)
}

/// The schema of an input object with the given properties, of which those
/// named in `required` must be present, and no others are allowed.
pub fn make_closed_object(properties: Json, required: Json) -> (schema: Json)
    ensures
        schema@ == closed_object(properties@, required@),
{
    Json::object().with_str("type", "object").with("properties", properties).with(
        "required",
        required,
    ).with_bool("additionalProperties", false)
}

} // verus!
