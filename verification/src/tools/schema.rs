//! Building blocks of the tools' input schemas.

use vstd::prelude::*;

use crate::json::{json_view, JsonValue, JsonView};

verus! {

/// `{"type": "string", "description": description}`.
pub open spec fn string_property_view(description: Seq<char>) -> JsonView {
    JsonView::Object(seq![
        ("type"@, JsonView::Str("string"@)),
        ("description"@, JsonView::Str(description)),
    ])
}

/// `{"type": "integer", "description": description}`.
pub open spec fn integer_property_view(description: Seq<char>) -> JsonView {
    JsonView::Object(seq![
        ("type"@, JsonView::Str("integer"@)),
        ("description"@, JsonView::Str(description)),
    ])
}

/// An object of string values: `{"type": "object", "additionalProperties":
/// {"type": "string"}, "description": description}`.
pub open spec fn string_map_property_view(description: Seq<char>) -> JsonView {
    JsonView::Object(seq![
        ("type"@, JsonView::Str("object"@)),
        ("additionalProperties"@, JsonView::Object(seq![("type"@, JsonView::Str("string"@))])),
        ("description"@, JsonView::Str(description)),
    ])
}

/// The schema of a tool whose only argument is the required `weaver_id`.
pub open spec fn weaver_id_schema_view(description: Seq<char>) -> JsonView {
    JsonView::Object(seq![
        ("type"@, JsonView::Str("object"@)),
        ("properties"@, JsonView::Object(seq![("weaver_id"@, string_property_view(description))])),
        ("required"@, JsonView::Array(seq![JsonView::Str("weaver_id"@)])),
    ])
}

/// `{"type": "string", "description": description}`.
pub fn string_property(description: &str) -> (r: JsonValue)
    ensures
        json_view(r) == string_property_view(description@),
{
    let r = JsonValue::empty_object().with("type", JsonValue::string("string")).with(
        "description",
        JsonValue::string(description),
    );
    assert(json_view(r) == string_property_view(description@)) by {
        if let JsonView::Object(m) = json_view(r) {
            if let JsonView::Object(n) = string_property_view(description@) {
                assert(m =~= n);
            }
        }
    }
    r
}

/// `{"type": "integer", "description": description}`.
pub fn integer_property(description: &str) -> (r: JsonValue)
    ensures
        json_view(r) == integer_property_view(description@),
{
    let r = JsonValue::empty_object().with("type", JsonValue::string("integer")).with(
        "description",
        JsonValue::string(description),
    );
    assert(json_view(r) == integer_property_view(description@)) by {
        if let JsonView::Object(m) = json_view(r) {
            if let JsonView::Object(n) = integer_property_view(description@) {
                assert(m =~= n);
            }
        }
    }
    r
}

/// An object of string values with the given description.
pub fn string_map_property(description: &str) -> (r: JsonValue)
    ensures
        json_view(r) == string_map_property_view(description@),
{
    let inner = JsonValue::empty_object().with("type", JsonValue::string("string"));
    let ghost iv = json_view(inner);
    assert(iv == JsonView::Object(seq![("type"@, JsonView::Str("string"@))])) by {
        if let JsonView::Object(m) = iv {
            assert(m =~= seq![("type"@, JsonView::Str("string"@))]);
        }
    }
    let r = JsonValue::empty_object().with("type", JsonValue::string("object")).with(
        "additionalProperties",
        inner,
    ).with("description", JsonValue::string(description));
    assert(json_view(r) == string_map_property_view(description@)) by {
        if let JsonView::Object(m) = json_view(r) {
            if let JsonView::Object(n) = string_map_property_view(description@) {
                assert(m =~= n);
            }
        }
    }
    r
}

/// The schema of a tool whose only argument is the required `weaver_id`.
pub fn weaver_id_schema(description: &str) -> (r: JsonValue)
    ensures
        json_view(r) == weaver_id_schema_view(description@),
{
    let props = JsonValue::empty_object().with("weaver_id", string_property(description));
    let ghost pv = json_view(props);
    assert(pv == JsonView::Object(seq![("weaver_id"@, string_property_view(description@))])) by {
        if let JsonView::Object(m) = pv {
            assert(m =~= seq![("weaver_id"@, string_property_view(description@))]);
        }
    }
    let required = JsonValue::empty_array().and(JsonValue::string("weaver_id"));
    let ghost rv = json_view(required);
    assert(rv == JsonView::Array(seq![JsonView::Str("weaver_id"@)])) by {
        if let JsonView::Array(a) = rv {
            assert(a =~= seq![JsonView::Str("weaver_id"@)]);
        }
    }
    let r = JsonValue::empty_object().with("type", JsonValue::string("object")).with(
        "properties",
        props,
    ).with("required", required);
    assert(json_view(r) == weaver_id_schema_view(description@)) by {
        if let JsonView::Object(m) = json_view(r) {
            if let JsonView::Object(n) = weaver_id_schema_view(description@) {
                assert(m =~= n);
            }
        }
    }
    r
}

} // verus!
