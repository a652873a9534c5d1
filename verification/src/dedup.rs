//! Deterministic deduplication identifiers.
//!
//! When a source configures primary-key fields, their values are read from
//! the record in the configured order, serialized as a JSON list and hashed
//! together with a process-wide salt.  The identifier doubles as the vector
//! store's record key, so redelivery of the same logical record overwrites
//! instead of duplicating.

use vstd::prelude::*;

use crate::record::MetadataRecord;

verus! {

/// The views of a list of field names.
pub open spec fn key_seq(keys: Seq<String>) -> Seq<Seq<char>> {
    keys.map_values(|s: String| s@)
}

/// The values of the primary-key fields, in order; `None` when some field
/// is missing from the record.
pub open spec fn key_values_spec(record: Map<Seq<char>, Seq<char>>, keys: Seq<Seq<char>>) -> Option<
    Seq<Seq<char>>,
>
    decreases keys.len(),
{
    if keys.len() == 0 {
        Some(Seq::empty())
    } else {
        match key_values_spec(record, keys.drop_last()) {
            None => None,
            Some(init) => if record.dom().contains(keys.last()) {
                Some(init.push(record[keys.last()]))
            } else {
                None
            },
        }
    }
}

/// A missing field anywhere in the list makes the whole extraction fail.
pub proof fn lemma_key_values_missing(
    record: Map<Seq<char>, Seq<char>>,
    keys: Seq<Seq<char>>,
    i: int,
)
    requires
        0 <= i < keys.len(),
        !record.dom().contains(keys[i]),
    ensures
        key_values_spec(record, keys) is None,
    decreases keys.len(),
{
    if i < keys.len() - 1 {
        lemma_key_values_missing(record, keys.drop_last(), i);
    }
}

/// The JSON text of a list of strings, as the outside serializer renders it.
pub uninterp spec fn key_list_json(values: Seq<Seq<char>>) -> Seq<char>;

/// Relies on serde_json::to_string: the text is a function of the values
/// alone, and serializing a list of strings cannot fail (per its
/// documentation, only a failing Serialize impl or a map with non-string
/// keys can make it fail).
#[verifier::external_body]
fn serialize_key_values(values: &Vec<String>) -> (r: String)
    ensures
        r@ == key_list_json(values@.map_values(|s: String| s@)),
{
    serde_json::to_string(values).unwrap_or_default()
}

/// The identifier the outside hasher derives from a salt and a text; a
/// function of its arguments alone.
pub uninterp spec fn dedup_digest(salt: Seq<char>, data: Seq<char>) -> Seq<char>;

/// Relies on uuid::Uuid::new_v5, the name-based SHA-1 UUID of RFC 9562,
/// and on its hyphenated rendering, which is 36 characters long.
#[verifier::external_body]
fn hash_string_to_uuid(salt: &str, data: &str) -> (r: String)
    ensures
        r@ == dedup_digest(salt@, data@),
        r@.len() == 36,
{
    let name = format!("{salt}{data}");
    uuid::Uuid::new_v5(&uuid::Uuid::NAMESPACE_OID, name.as_bytes()).to_string()
}

/// The deduplication identifier for a record under the given primary-key
/// fields and salt; `None` when some field is missing from the record.
pub open spec fn dedup_id_spec(
    record: Map<Seq<char>, Seq<char>>,
    keys: Seq<Seq<char>>,
    salt: Seq<char>,
) -> Option<Seq<char>> {
    match key_values_spec(record, keys) {
        Some(vals) => Some(dedup_digest(salt, key_list_json(vals))),
        None => None,
    }
}

/// Law: the deduplication identifier is deterministic.  Two records that
/// agree on the values of the configured primary-key fields receive the
/// same identifier, whatever else they hold.
pub proof fn lemma_dedup_deterministic(
    r1: Map<Seq<char>, Seq<char>>,
    r2: Map<Seq<char>, Seq<char>>,
    keys: Seq<Seq<char>>,
    salt: Seq<char>,
)
    requires
        key_values_spec(r1, keys) == key_values_spec(r2, keys),
    ensures
        dedup_id_spec(r1, keys, salt) == dedup_id_spec(r2, keys, salt),
{
}

/// Reads the primary-key fields' values in order, serializes them and
/// hashes them with the salt; `None` when some field is missing.
pub fn build_dedup_id(record: &MetadataRecord, keys: &Vec<String>, salt: &String) -> (r: Option<
    String,
>)
    requires
        record.wf(),
    ensures
        r is Some <==> dedup_id_spec(record@, key_seq(keys@), salt@) is Some,
        r matches Some(id) ==> Some(id@) == dedup_id_spec(record@, key_seq(keys@), salt@),
{
    let mut values: Vec<String> = Vec::new();
    let n = keys.len();
    proof {
        assert(key_seq(keys@).take(0) =~= Seq::empty());
        assert(values@.map_values(|s: String| s@) =~= Seq::empty());
    }
    for i in 0..n
        invariant
            n == keys.len(),
            record.wf(),
            key_values_spec(record@, key_seq(keys@).take(i as int)) == Some(
                values@.map_values(|s: String| s@),
            ),
    {
        let ghost pre = values@;
        match record.get(&keys[i]) {
            Some(v) => {
                values.push(v);
                proof {
                    assert(key_seq(keys@).take(i as int + 1).drop_last() =~= key_seq(
                        keys@,
                    ).take(i as int));
                    assert(key_seq(keys@).take(i as int + 1).last() == keys@[i as int]@);
                    assert(values@.map_values(|s: String| s@) =~= pre.map_values(
                        |s: String| s@,
                    ).push(record@[keys@[i as int]@]));
                }
            },
            None => {
                proof {
                    lemma_key_values_missing(record@, key_seq(keys@), i as int);
                }
                return None;
            },
        }
    }
    proof {
        assert(key_seq(keys@).take(n as int) =~= key_seq(keys@));
    }
    let json = serialize_key_values(&values);
    Some(hash_string_to_uuid(salt.as_str(), json.as_str()))
}

} // verus!
