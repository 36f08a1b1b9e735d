//! The input boundary: parsing a JSON text into serde_json's value tree and
//! reading that tree into the library's own `Document` model. The tree itself
//! is opaque here, but what the parser and the two tree reads return depends
//! on their arguments alone, so each result carries a name
//! (`parsed_value`, `value_elems`, `value_member_of`), and the contracts of
//! everything downstream — decoding, projecting, the whole run — are stated
//! exactly over those names.

use vstd::prelude::*;
use crate::project::Document;
use crate::project::Projected;
use crate::project::Record;
use crate::project::document_projection;
use crate::project::projected_seq;
use crate::BenchError;

verus! {

#[verifier::external_type_specification]
#[verifier::external_body]
pub struct ExValue(serde_json::Value);

#[verifier::external_type_specification]
#[verifier::external_body]
pub struct ExJsonError(serde_json::Error);

/// Whether a text is well-formed JSON: named after the behaviour of
/// serde_json's parser, which accepts or rejects a text on its characters
/// alone.
pub uninterp spec fn json_well_formed(s: Seq<char>) -> bool;

/// The value tree that serde_json's parser builds from a text: a function of
/// the characters alone. Meaningful only where `json_well_formed` holds.
pub uninterp spec fn parsed_value(s: Seq<char>) -> serde_json::Value;

/// The elements of a JSON value: `Some` of its element sequence exactly when
/// the value is an array, `None` for every other variant — named after
/// serde_json::Value::as_array.
pub uninterp spec fn value_elems(v: serde_json::Value) -> Option<Seq<serde_json::Value>>;

/// The member of a JSON value under a key: `Some` of it exactly when the value
/// is an object with that member, `None` otherwise — named after
/// serde_json::Value::get with a string index.
pub uninterp spec fn value_member_of(v: serde_json::Value, key: Seq<char>) -> Option<
    serde_json::Value,
>;

/// Relies on serde_json::Value's `Clone` impl: a clone of a JSON value equals
/// the value it was cloned from.
pub assume_specification[ <serde_json::Value as Clone>::clone ](v: &serde_json::Value) -> (r:
    serde_json::Value)
    ensures
        r == *v,
;

/// Relies on serde_json::from_str::<Value>: deserializing into the untyped
/// value tree succeeds exactly when the text is well-formed JSON, the tree is
/// a function of the text alone, and both depend on nothing else.
#[verifier::external_body]
fn parse_value(text: &str) -> (r: Result<serde_json::Value, serde_json::Error>)
    ensures
        r is Ok <==> json_well_formed(text@),
        r matches Ok(v) ==> v == parsed_value(text@),
{
    serde_json::from_str::<serde_json::Value>(text)
}

/// Relies on serde_json::Error's `Display` impl: one human-readable line
/// describing the parse failure.
#[verifier::external_body]
fn json_error_text(e: &serde_json::Error) -> (r: String) {
    e.to_string()
}

/// Relies on serde_json::Value::as_array: `Some` of the element vector exactly
/// when the value is a JSON array, `None` for every other variant.
#[verifier::external_body]
fn value_as_array(v: &serde_json::Value) -> (r: Option<&Vec<serde_json::Value>>)
    ensures
        r is Some <==> value_elems(*v) is Some,
        r matches Some(arr) ==> arr@ == value_elems(*v).unwrap(),
{
    v.as_array()
}

/// Relies on serde_json::Value::get (with a string index) and Value's `Clone`:
/// the member of an object under the given key, cloned; `None` when the value
/// is not an object or has no such member.
#[verifier::external_body]
fn value_member(v: &serde_json::Value, key: &str) -> (r: Option<serde_json::Value>)
    ensures
        r == value_member_of(*v, key@),
{
    v.get(key).cloned()
}

/// The records that a sequence of array elements decodes to: one per element,
/// each holding that element's `"id"` member if it has one.
pub open spec fn decoded_records(elems: Seq<serde_json::Value>) -> Seq<Record> {
    elems.map_values(|e: serde_json::Value| Record { id: value_member_of(e, "id"@) })
}

/// Whether a document is the decoding of a JSON value: `NotArray` exactly for
/// a non-array value, and for an array the decoded records of its elements.
pub open spec fn decodes(v: serde_json::Value, doc: Document) -> bool {
    match doc {
        Document::NotArray => value_elems(v) is None,
        Document::Array(records) => value_elems(v) is Some && records@ == decoded_records(
            value_elems(v).unwrap(),
        ),
    }
}

/// What a text projects to: the projection of the decoded records of its
/// parsed value, and nothing for a non-array root. Meaningful only where
/// `json_well_formed` holds.
pub open spec fn text_projection(s: Seq<char>) -> Seq<Projected> {
    match value_elems(parsed_value(s)) {
        Some(elems) => projected_seq(decoded_records(elems)),
        None => Seq::empty(),
    }
}

/// A document that decodes the parsed text projects to exactly what the text
/// itself projects to.
pub proof fn lemma_text_projection(s: Seq<char>, doc: Document)
    requires
        decodes(parsed_value(s), doc),
    ensures
        document_projection(doc) == text_projection(s),
{
}

/// Reads the parsed tree into the library's model: an array root becomes one
/// `Record` per element, each holding that element's `"id"` member if it has
/// one; any other root becomes `Document::NotArray`.
pub fn decode_document(v: &serde_json::Value) -> (doc: Document)
    ensures
        decodes(*v, doc),
{
    match value_as_array(v) {
        None => Document::NotArray,
        Some(arr) => {
            let mut records: Vec<Record> = Vec::new();
            let mut i: usize = 0;
            while i < arr.len()
                invariant
                    i <= arr.len(),
                    records@ == decoded_records(arr@.take(i as int)),
                decreases arr.len() - i,
            {
                let id = value_member(&arr[i], "id");
                records.push(Record { id });
                proof {
                    assert(records@ =~= decoded_records(arr@.take(i + 1)));
                }
                i += 1;
            }
            proof {
                assert(arr@.take(arr.len() as int) =~= arr@);
            }
            Document::Array(records)
        },
    }
}

/// Parses a text and reads it into the document model. Succeeds exactly on
/// well-formed JSON, with the decoding of the parsed value — a non-array root
/// is not an error, it decodes to `Document::NotArray` — and reports malformed
/// JSON as `MalformedJson`, never as a silent empty document.
pub fn parse_document(text: &str) -> (r: Result<Document, BenchError>)
    ensures
        r is Ok <==> json_well_formed(text@),
        r matches Ok(doc) ==> decodes(parsed_value(text@), doc),
        r matches Err(e) ==> e is MalformedJson,
{
    match parse_value(text) {
        Ok(v) => Ok(decode_document(&v)),
        Err(e) => Err(BenchError::MalformedJson(json_error_text(&e))),
    }
}

} // verus!
