//! The embedding pipeline: from a metadata record to a storage-ready point.
//!
//! The model invocation itself is an opaque remote call made by the caller;
//! this module prepares the text and payload before the call and assembles
//! the point from the vectors the call returned.

use vstd::prelude::*;

use crate::record::MetadataRecord;

verus! {

/// Why the embedding pipeline failed for one message.
#[derive(Clone, Copy, Debug, PartialEq, Eq, Structural)]
pub enum EmbedError {
    /// No source id was supplied for the record.
    MissingSourceId,
    /// The record is empty, or carries no value under the embedding field.
    EmptyRecord,
    /// The model call failed or returned no vectors.
    EmbeddingError,
}

/// Configuration of the chunk-splitting hook: when present, long text would
/// be split into separately embedded segments.  This core only forwards it;
/// the raw field value is embedded verbatim either way.
#[derive(Clone, Copy, PartialEq, Eq, Structural)]
pub struct ChunkingConfig {}

/// A storage-ready point: the optional deduplication id, the embedding
/// vector, and the record stored as payload.  The vector's element type is
/// the caller's; this core never reads inside it.
#[derive(Debug)]
pub struct Point<V> {
    pub id: Option<String>,
    pub vector: V,
    pub payload: MetadataRecord,
}

/// The text to embed, and the payload that will be stored beside the
/// vector.
#[derive(Debug)]
pub struct PreparedEmbedding {
    pub text: String,
    pub payload: MetadataRecord,
}

/// The stored payload: the record with the embedding field removed and its
/// value re-inserted under `page_content`, so the payload always documents
/// what was embedded.
pub open spec fn prepared_payload_spec(
    record: Map<Seq<char>, Seq<char>>,
    field: Seq<char>,
) -> Map<Seq<char>, Seq<char>> {
    record.remove(field).insert("page_content"@, record[field])
}

/// Law: after the embedding field is extracted, the stored payload no
/// longer carries the field under its own name (provided the source did not
/// configure `page_content` itself as the embedding field), but carries
/// `page_content` with the very value the field held.
pub proof fn lemma_field_promotion(record: Map<Seq<char>, Seq<char>>, field: Seq<char>)
    requires
        record.dom().contains(field),
        field != "page_content"@,
    ensures
        !prepared_payload_spec(record, field).dom().contains(field),
        prepared_payload_spec(record, field).dom().contains("page_content"@),
        prepared_payload_spec(record, field)["page_content"@] == record[field],
{
}

/// Checks the preconditions of the embedding stage and extracts the text to
/// embed: fails without a source id, on an empty record, and when the
/// embedding field is absent; otherwise promotes the field's value to
/// `page_content` and hands the value back as the text.
pub fn prepare_embedding(
    record: MetadataRecord,
    embedding_field_name: &String,
    datasource_id: &Option<String>,
    _chunking_strategy: &Option<ChunkingConfig>,
) -> (r: Result<PreparedEmbedding, EmbedError>)
    requires
        record.wf(),
    ensures
        match r {
            Ok(p) => {
                &&& datasource_id is Some
                &&& record@.dom().contains(embedding_field_name@)
                &&& p.text@ == record@[embedding_field_name@]
                &&& p.payload.wf()
                &&& p.payload@ == prepared_payload_spec(record@, embedding_field_name@)
            },
            Err(e) => match e {
                EmbedError::MissingSourceId => datasource_id is None,
                EmbedError::EmptyRecord => datasource_id is Some && (record@.dom()
                    == Set::<Seq<char>>::empty() || !record@.dom().contains(
                    embedding_field_name@,
                )),
                EmbedError::EmbeddingError => false,
            },
        },
{
    if datasource_id.is_none() {
        return Err(EmbedError::MissingSourceId);
    }
    let mut payload = record;
    if payload.is_empty() {
        return Err(EmbedError::EmptyRecord);
    }
    match payload.remove(embedding_field_name) {
        None => Err(EmbedError::EmptyRecord),
        Some(value) => {
            payload.insert("page_content".to_owned(), value.clone());
            Ok(PreparedEmbedding { text: value, payload })
        },
    }
}

/// Assembles the storage point from the prepared payload and the vectors
/// the model returned: the first vector, the deduplication id the record
/// carries under `index` if any, and the payload.  Fails when the model
/// returned no vectors.
pub fn construct_point<V>(prepared: PreparedEmbedding, vectors: Vec<V>) -> (r: Result<
    Point<V>,
    EmbedError,
>)
    requires
        prepared.payload.wf(),
    ensures
        match r {
            Ok(p) => {
                &&& vectors@.len() > 0
                &&& p.vector == vectors@[0]
                &&& (p.id matches Some(id) ==> prepared.payload@.dom().contains("index"@)
                    && id@ == prepared.payload@["index"@])
                &&& (p.id is None ==> !prepared.payload@.dom().contains("index"@))
                &&& p.payload == prepared.payload
            },
            Err(e) => e is EmbeddingError && vectors@.len() == 0,
        },
{
    let mut vs = vectors;
    if vs.len() == 0 {
        return Err(EmbedError::EmbeddingError);
    }
    let vector = vs.remove(0);
    let id = prepared.payload.get(&"index".to_owned());
    Ok(Point { id, vector, payload: prepared.payload })
}

} // verus!
