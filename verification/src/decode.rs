//! Decoding of a raw payload into the shape the dispatcher inspects.
//!
//! The payload is parsed as JSON by an outside parser; the result is carried
//! as plain values: a top-level object's fields, one level of nesting (enough
//! to recognize a transport envelope), every deeper or non-string value as
//! its JSON text.  The envelope unwrap and the flattening into a
//! [`MetadataRecord`] are verified here.

use vstd::prelude::*;

use crate::record::Entries;
use crate::record::MetadataRecord;
use crate::record::entries_map;

verus! {

/// A value one level below the top: a JSON string (its contents), or any
/// other JSON value, carried as its JSON text.
pub enum FieldVal {
    Text(String),
    Serialized(String),
}

/// A value of a top-level field: a JSON string, a nested object (its
/// fields plus its own JSON text), or any other value as its JSON text.
pub enum TopValue {
    Text(String),
    Serialized(String),
    Nested(Vec<(String, FieldVal)>, String),
}

/// What parsing a raw payload yields.
pub enum Decoded {
    /// The payload is not valid JSON.
    Invalid,
    /// Valid JSON whose top level is not an object.
    NotObject,
    /// The fields of the top-level object.
    Object(Vec<(String, TopValue)>),
}

/// Whether the names of `fs` are pairwise distinct.
pub open spec fn distinct_inner_names(fs: Seq<(String, FieldVal)>) -> bool {
    forall|i: int, j: int|
        0 <= i < j < fs.len() ==> (#[trigger] fs[i]).0@ != (#[trigger] fs[j]).0@
}

/// Whether the names of `fs`, and of each nested object, are pairwise
/// distinct; the parser guarantees it, since JSON objects are maps.
pub open spec fn distinct_top_names(fs: Seq<(String, TopValue)>) -> bool {
    &&& forall|i: int, j: int|
        0 <= i < j < fs.len() ==> (#[trigger] fs[i]).0@ != (#[trigger] fs[j]).0@
    &&& forall|i: int|
        0 <= i < fs.len() ==> match (#[trigger] fs[i]).1 {
            TopValue::Nested(inner, _) => distinct_inner_names(inner@),
            _ => true,
        }
}

/// Well-formedness of a parse result.
pub open spec fn decoded_wf(d: Decoded) -> bool {
    match d {
        Decoded::Object(fs) => distinct_top_names(fs@),
        _ => true,
    }
}

/// What the outside JSON parser yields on a given payload.  The result is a
/// function of the payload's characters alone.
pub uninterp spec fn json_decode(payload: Seq<char>) -> Decoded;

#[verifier::external_type_specification]
#[verifier::external_body]
pub struct ExValue(serde_json::Value);

/// Relies on serde_json::from_str: an error exactly when the payload is not
/// valid JSON, otherwise the parsed document; a JSON object's keys are
/// distinct, since the parser stores them as a map.
#[verifier::external_body]
fn parse_top_level(payload: &str) -> (r: Decoded)
    ensures
        r == json_decode(payload@),
        decoded_wf(r),
{
    match serde_json::from_str::<serde_json::Value>(payload) {
        Ok(serde_json::Value::Object(m)) => {
            Decoded::Object(m.into_iter().map(|(k, v)| (k, convert_top(v))).collect())
        },
        Ok(_) => Decoded::NotObject,
        Err(_) => Decoded::Invalid,
    }
}

/// Relies on serde_json::Value::to_string, which renders a document's JSON
/// text, to carry non-string and deeply nested values as plain strings.
#[verifier::external_body]
fn convert_top(v: serde_json::Value) -> (r: TopValue) {
    match v {
        serde_json::Value::String(s) => TopValue::Text(s),
        serde_json::Value::Object(m) => {
            let fields = m.iter().map(|(k, w)| (k.clone(), convert_inner(w))).collect();
            TopValue::Nested(fields, serde_json::Value::Object(m).to_string())
        },
        w => TopValue::Serialized(w.to_string()),
    }
}

/// Relies on serde_json::Value::to_string, as `convert_top` does.
#[verifier::external_body]
fn convert_inner(w: &serde_json::Value) -> (r: FieldVal) {
    match w {
        serde_json::Value::String(s) => FieldVal::Text(s.clone()),
        w => FieldVal::Serialized(w.to_string()),
    }
}

/// Parses a raw payload.  The result is exactly what the JSON parser yields:
/// `Invalid` for malformed text, `NotObject` for any other non-object
/// document, the object's fields otherwise.
pub fn decode_payload(payload: &String) -> (r: Decoded)
    ensures
        r == json_decode(payload@),
        decoded_wf(r),
{
    parse_top_level(payload.as_str())
}

/// The name under which one delivery path wraps the user record in a
/// transport envelope.
pub open spec fn wrapper_key() -> Seq<char> {
    "_airbyte_data"@
}

/// The first field carrying the wrapper key with a nested object, if any.
pub open spec fn find_envelope_spec(fs: Seq<(String, TopValue)>) -> Option<
    Seq<(String, FieldVal)>,
>
    decreases fs.len(),
{
    if fs.len() == 0 {
        None
    } else {
        match fs[0].1 {
            TopValue::Nested(inner, _) => if fs[0].0@ == wrapper_key() {
                Some(inner@)
            } else {
                find_envelope_spec(fs.drop_first())
            },
            _ => find_envelope_spec(fs.drop_first()),
        }
    }
}

/// The string a field value contributes to the flat record.
pub open spec fn flat_of_top(v: TopValue) -> Seq<char> {
    match v {
        TopValue::Text(s) => s@,
        TopValue::Serialized(t) => t@,
        TopValue::Nested(_, text) => text@,
    }
}

/// The string an inner field value contributes to the flat record.
pub open spec fn flat_of_inner(v: FieldVal) -> Seq<char> {
    match v {
        FieldVal::Text(s) => s@,
        FieldVal::Serialized(t) => t@,
    }
}

/// A top-level object, flattened to string-valued pairs.
pub open spec fn flatten_top_spec(fs: Seq<(String, TopValue)>) -> Entries {
    fs.map_values(|p: (String, TopValue)| (p.0@, flat_of_top(p.1)))
}

/// An envelope's fields, flattened to string-valued pairs.
pub open spec fn flatten_inner_spec(fs: Seq<(String, FieldVal)>) -> Entries {
    fs.map_values(|p: (String, FieldVal)| (p.0@, flat_of_inner(p.1)))
}

/// The pairs the record is built from: the envelope's fields when a wrapper
/// field carries one, the object's own fields otherwise.
pub open spec fn record_entries_spec(fs: Seq<(String, TopValue)>) -> Entries {
    match find_envelope_spec(fs) {
        Some(inner) => flatten_inner_spec(inner),
        None => flatten_top_spec(fs),
    }
}

/// Law: a top-level object that carries the wrapper key with a nested
/// object has that object substituted as the effective payload; one that
/// does not is processed as-is.
pub proof fn lemma_envelope_unwrap(fs: Seq<(String, TopValue)>)
    ensures
        (exists|i: int|
            0 <= i < fs.len() && (#[trigger] fs[i]).0@ == wrapper_key() && fs[i].1 is Nested)
            <==> find_envelope_spec(fs) is Some,
        find_envelope_spec(fs) is None ==> record_entries_spec(fs) == flatten_top_spec(fs),
        forall|inner: Seq<(String, FieldVal)>|
            find_envelope_spec(fs) == Some(inner) ==> record_entries_spec(fs)
                == flatten_inner_spec(inner),
    decreases fs.len(),
{
    if fs.len() > 0 {
        lemma_envelope_unwrap(fs.drop_first());
        let head_hit = fs[0].0@ == wrapper_key() && fs[0].1 is Nested;
        if !head_hit {
            if exists|i: int|
                0 <= i < fs.len() && (#[trigger] fs[i]).0@ == wrapper_key() && fs[i].1 is Nested {
                let i = choose|i: int|
                    0 <= i < fs.len() && (#[trigger] fs[i]).0@ == wrapper_key()
                        && fs[i].1 is Nested;
                assert(fs.drop_first()[i - 1] == fs[i]);
            }
            if exists|i: int|
                0 <= i < fs.drop_first().len() && (#[trigger] fs.drop_first()[i]).0@
                    == wrapper_key() && fs.drop_first()[i].1 is Nested {
                let i = choose|i: int|
                    0 <= i < fs.drop_first().len() && (#[trigger] fs.drop_first()[i]).0@
                        == wrapper_key() && fs.drop_first()[i].1 is Nested;
                assert(fs[i + 1] == fs.drop_first()[i]);
            }
        }
    }
}

/// Finds the transport envelope among the top-level fields, if present.
fn find_envelope<'a>(fields: &'a Vec<(String, TopValue)>) -> (r: Option<
    &'a Vec<(String, FieldVal)>,
>)
    ensures
        match r {
            Some(inner) => find_envelope_spec(fields@) == Some(inner@),
            None => find_envelope_spec(fields@) is None,
        },
{
    let wkey: String = "_airbyte_data".to_owned();
    let n = fields.len();
    proof {
        assert(fields@.skip(0) =~= fields@);
    }
    for i in 0..n
        invariant
            n == fields.len(),
            wkey@ == wrapper_key(),
            find_envelope_spec(fields@) == find_envelope_spec(fields@.skip(i as int)),
    {
        proof {
            assert(fields@.skip(i as int).drop_first() =~= fields@.skip(i as int + 1));
            assert(fields@.skip(i as int)[0] == fields@[i as int]);
        }
        if fields[i].0 == wkey {
            if let TopValue::Nested(inner, _text) = &fields[i].1 {
                return Some(inner);
            }
        }
    }
    proof {
        assert(fields@.skip(n as int) =~= Seq::empty());
    }
    None
}

/// Flattens the top-level fields into a record.
fn flatten_top(fields: &Vec<(String, TopValue)>) -> (r: MetadataRecord)
    ensures
        r.wf(),
        r@ == entries_map(flatten_top_spec(fields@)),
{
    let mut rec = MetadataRecord::new();
    let n = fields.len();
    for i in 0..n
        invariant
            n == fields.len(),
            rec.wf(),
            rec@ == entries_map(flatten_top_spec(fields@.take(i as int))),
    {
        let v: String = match &fields[i].1 {
            TopValue::Text(s) => s.clone(),
            TopValue::Serialized(t) => t.clone(),
            TopValue::Nested(_, text) => text.clone(),
        };
        rec.insert(fields[i].0.clone(), v);
        proof {
            assert(flatten_top_spec(fields@.take(i as int + 1)) =~= flatten_top_spec(
                fields@.take(i as int),
            ).push((fields@[i as int].0@, flat_of_top(fields@[i as int].1))));
            crate::record::lemma_entries_map_push(
                flatten_top_spec(fields@.take(i as int)),
                (fields@[i as int].0@, flat_of_top(fields@[i as int].1)),
            );
        }
    }
    proof {
        assert(fields@.take(n as int) =~= fields@);
    }
    rec
}

/// Flattens an envelope's fields into a record.
fn flatten_inner(fields: &Vec<(String, FieldVal)>) -> (r: MetadataRecord)
    ensures
        r.wf(),
        r@ == entries_map(flatten_inner_spec(fields@)),
{
    let mut rec = MetadataRecord::new();
    let n = fields.len();
    for i in 0..n
        invariant
            n == fields.len(),
            rec.wf(),
            rec@ == entries_map(flatten_inner_spec(fields@.take(i as int))),
    {
        let v: String = match &fields[i].1 {
            FieldVal::Text(s) => s.clone(),
            FieldVal::Serialized(t) => t.clone(),
        };
        rec.insert(fields[i].0.clone(), v);
        proof {
            assert(flatten_inner_spec(fields@.take(i as int + 1)) =~= flatten_inner_spec(
                fields@.take(i as int),
            ).push((fields@[i as int].0@, flat_of_inner(fields@[i as int].1))));
            crate::record::lemma_entries_map_push(
                flatten_inner_spec(fields@.take(i as int)),
                (fields@[i as int].0@, flat_of_inner(fields@[i as int].1)),
            );
        }
    }
    proof {
        assert(fields@.take(n as int) =~= fields@);
    }
    rec
}

/// Unwraps a transport envelope if one is present, then flattens the
/// effective object into a string-valued record.
pub fn build_record(fields: &Vec<(String, TopValue)>) -> (r: MetadataRecord)
    ensures
        r.wf(),
        r@ == entries_map(record_entries_spec(fields@)),
{
    match find_envelope(fields) {
        Some(inner) => flatten_inner(inner),
        None => flatten_top(fields),
    }
}

} // verus!
