use vstd::prelude::*;

use crate::model::DocView;
use crate::model::DocumentShape;
use crate::model::FieldView;
use crate::model::JsonField;

verus! {

/// Whether `serde_json` accepts a text as one well-formed JSON document.
pub uninterp spec fn json_parses(s: Seq<char>) -> bool;

/// Whether the top level of the text's parse is a JSON object, as
/// `serde_json::Value::is_object` reports it. Meaningful only on texts that
/// parse.
pub uninterp spec fn doc_is_object(s: Seq<char>) -> bool;

/// What the key `format` holds at the top level of the text's parse, as the
/// accessors `Value::get`, `Value::as_str` and `Value::as_u64` classify it.
/// `Missing` when the top level is not an object. Meaningful only on texts
/// that parse.
pub uninterp spec fn doc_format_field(s: Seq<char>) -> FieldView;

/// What the key `version` holds at the top level of the text's parse, under
/// the same classification as `doc_format_field`.
pub uninterp spec fn doc_version_field(s: Seq<char>) -> FieldView;

/// The shape of the text's parse: the three named facts together.
pub open spec fn document_of(s: Seq<char>) -> DocView {
    DocView {
        is_object: doc_is_object(s),
        format: doc_format_field(s),
        version: doc_version_field(s),
    }
}

#[verifier::external_type_specification]
#[verifier::external_body]
pub struct ExValue(serde_json::Value);

#[verifier::external_type_specification]
#[verifier::external_body]
pub struct ExJsonError(serde_json::Error);

/// Relies on serde_json::Error's rendering: the message describing a failure,
/// syntax errors with their line and column.
#[verifier::external_body]
pub(crate) fn json_error_string(e: &serde_json::Error) -> String {
    e.to_string()
}

/// Relies on serde_json::Value::is_object: true exactly when the value is a
/// JSON object.
#[verifier::external_body]
fn value_is_object(v: &serde_json::Value) -> bool {
    v.is_object()
}

/// Relies on serde_json::Value::get with a string index: on an object, the
/// value at that key if present; None on a missing key or on any other kind
/// of value.
#[verifier::external_body]
fn get_field<'a>(v: &'a serde_json::Value, key: &str) -> Option<&'a serde_json::Value> {
    v.get(key)
}

/// Relies on serde_json::Value::as_str: the contents when the value is a JSON
/// string, None otherwise.
#[verifier::external_body]
fn value_as_str<'a>(v: &'a serde_json::Value) -> Option<&'a str> {
    v.as_str()
}

/// Relies on serde_json::Value::as_u64: the number when the value is an
/// integer in unsigned 64-bit range, None otherwise.
#[verifier::external_body]
fn value_as_u64(v: &serde_json::Value) -> Option<u64> {
    v.as_u64()
}

/// Classify what one top-level key of a parsed JSON value holds.
fn probe_field(v: &serde_json::Value, key: &str) -> JsonField {
    match get_field(v, key) {
        None => JsonField::Missing,
        Some(field) => match value_as_str(field) {
            Some(s) => JsonField::Text(s.to_owned()),
            None => match value_as_u64(field) {
                Some(n) => JsonField::UInt(n),
                None => JsonField::Other,
            },
        },
    }
}

/// Read off the shape of a parsed JSON value: whether the top level is an
/// object, and what the keys `format` and `version` hold.
fn probe_document(v: &serde_json::Value) -> DocumentShape {
    if !value_is_object(v) {
        DocumentShape { is_object: false, format: JsonField::Missing, version: JsonField::Missing }
    } else {
        DocumentShape {
            is_object: true,
            format: probe_field(v, "format"),
            version: probe_field(v, "version"),
        }
    }
}

/// Relies on serde_json::from_str::<Value>, read through the accessors of
/// `probe_document`: parsing accepts the text exactly when it is well-formed
/// JSON, and both the acceptance and the probed shape are functions of the
/// text alone.
#[verifier::external_body]
pub(crate) fn probe_text(text: &str) -> (r: Result<DocumentShape, serde_json::Error>)
    ensures
        r is Ok <==> json_parses(text@),
        r matches Ok(d) ==> d@.is_object == doc_is_object(text@),
        r matches Ok(d) ==> d@.format == doc_format_field(text@),
        r matches Ok(d) ==> d@.version == doc_version_field(text@),
{
    match serde_json::from_str::<serde_json::Value>(text) {
        Ok(value) => Ok(probe_document(&value)),
        Err(e) => Err(e),
    }
}

} // verus!
