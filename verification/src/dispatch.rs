//! The dispatcher: what to do with one message drained from the channel.
//!
//! For each message the caller decodes the payload, resolves the source's
//! configuration, and asks this module for a disposition: drop the message
//! for a stated reason, or spawn an embedding unit with a fully prepared
//! task.  Every decision is made here; the caller only performs the calls
//! and carries values between them.

use vstd::prelude::*;

use crate::decode::Decoded;
use crate::decode::TopValue;
use crate::decode::build_record;
use crate::decode::decoded_wf;
use crate::decode::record_entries_spec;
use crate::dedup::build_dedup_id;
use crate::dedup::dedup_id_spec;
use crate::dedup::key_seq;
use crate::pipeline::ChunkingConfig;
use crate::record::MetadataRecord;
use crate::record::entries_map;

verus! {

/// A source's embedding configuration, as the external resolver answers it.
pub struct SourceConfig {
    pub embedding_model: Option<String>,
    pub primary_key_fields: Option<Vec<String>>,
    pub embedding_field_name: Option<String>,
    pub chunking_strategy: Option<ChunkingConfig>,
}

/// Why a message was dropped before reaching the embedding stage.  A
/// dropped message mutates no counter.
#[derive(Clone, Copy, PartialEq, Eq, Structural)]
pub enum DropReason {
    /// The payload is not valid JSON.
    UnparseablePayload,
    /// The configuration resolver failed for this source.
    ConfigLookupFailed,
    /// The source configures no embedding model.
    NoEmbeddingModel,
    /// The decoded payload is not an object.
    PayloadNotObject,
    /// A configured primary-key field is missing from the record.
    MissingPrimaryKeyField,
    /// The source configures no embedding field.
    NoEmbeddingField,
}

/// The work the dispatcher hands to a spawned embedding unit.
pub struct EmbeddingTask {
    pub record: MetadataRecord,
    pub embedding_field_name: String,
    pub source_id: String,
    pub embedding_model: String,
    pub chunking_strategy: Option<ChunkingConfig>,
}

/// What the dispatcher decides for one message.
pub enum Disposition {
    Dropped(DropReason),
    Spawn(EmbeddingTask),
}

/// The record an embedding unit receives: the flattened effective payload,
/// with the deduplication identifier stored under `index` when primary-key
/// fields are configured.  `None` when a configured field is missing.
pub open spec fn dispatch_record_spec(
    fields: Seq<(String, TopValue)>,
    config: SourceConfig,
    salt: Seq<char>,
) -> Option<Map<Seq<char>, Seq<char>>> {
    let base = entries_map(record_entries_spec(fields));
    match config.primary_key_fields {
        None => Some(base),
        Some(keys) => match dedup_id_spec(base, key_seq(keys@), salt) {
            None => None,
            Some(id) => Some(base.insert("index"@, id)),
        },
    }
}

/// The reason a message is dropped, if it is; checks are made in the order
/// the dispatcher performs them.
pub open spec fn drop_reason_spec(
    decoded: Decoded,
    config: Option<SourceConfig>,
    salt: Seq<char>,
) -> Option<DropReason> {
    if decoded is Invalid {
        Some(DropReason::UnparseablePayload)
    } else {
        match config {
            None => Some(DropReason::ConfigLookupFailed),
            Some(cfg) => if cfg.embedding_model is None {
                Some(DropReason::NoEmbeddingModel)
            } else {
                match decoded {
                    Decoded::Object(fields) => if dispatch_record_spec(
                        fields@,
                        cfg,
                        salt,
                    ) is None {
                        Some(DropReason::MissingPrimaryKeyField)
                    } else if cfg.embedding_field_name is None {
                        Some(DropReason::NoEmbeddingField)
                    } else {
                        None
                    },
                    _ => Some(DropReason::PayloadNotObject),
                }
            },
        }
    }
}

/// Law: a message whose payload does not parse, or whose source resolves
/// no configuration or no embedding model, is dropped: no embedding unit is
/// spawned, and so no counter is recorded for it.
pub proof fn lemma_drop_silence(decoded: Decoded, config: Option<SourceConfig>, salt: Seq<char>)
    requires
        decoded is Invalid || config is None || (config matches Some(cfg)
            && cfg.embedding_model is None),
    ensures
        drop_reason_spec(decoded, config, salt) is Some,
{
}

/// Whether a decoded payload warrants resolving configuration at all: a
/// payload that did not parse is dropped before the resolver is consulted.
pub fn should_resolve(decoded: &Decoded) -> (r: bool)
    ensures
        r <==> !(decoded is Invalid),
{
    !matches!(decoded, Decoded::Invalid)
}

/// Decides the disposition of one message from its decoded payload and its
/// source's resolved configuration (`None` when the resolver failed).
pub fn dispatch_resolved(
    source_id: &String,
    decoded: Decoded,
    config: Option<SourceConfig>,
    salt: &String,
) -> (r: Disposition)
    requires
        decoded_wf(decoded),
    ensures
        r is Dropped <==> drop_reason_spec(decoded, config, salt@) is Some,
        r matches Disposition::Dropped(reason) ==> drop_reason_spec(decoded, config, salt@)
            == Some(reason),
        r matches Disposition::Spawn(task) ==> (match (decoded, config) {
            (Decoded::Object(fields), Some(cfg)) => {
                &&& task.record.wf()
                &&& Some(task.record@) == dispatch_record_spec(fields@, cfg, salt@)
                &&& cfg.embedding_field_name matches Some(f) && task.embedding_field_name@ == f@
                &&& cfg.embedding_model matches Some(m) && task.embedding_model@ == m@
                &&& task.source_id@ == source_id@
                &&& task.chunking_strategy == cfg.chunking_strategy
            },
            _ => false,
        }),
{
    if matches!(decoded, Decoded::Invalid) {
        return Disposition::Dropped(DropReason::UnparseablePayload);
    }
    let cfg = match config {
        None => {
            return Disposition::Dropped(DropReason::ConfigLookupFailed);
        },
        Some(cfg) => cfg,
    };
    let SourceConfig { embedding_model, primary_key_fields, embedding_field_name, chunking_strategy } =
        cfg;
    let model = match embedding_model {
        None => {
            return Disposition::Dropped(DropReason::NoEmbeddingModel);
        },
        Some(model) => model,
    };
    let fields = match decoded {
        Decoded::Object(fields) => fields,
        _ => {
            return Disposition::Dropped(DropReason::PayloadNotObject);
        },
    };
    let mut record = build_record(&fields);
    if let Some(keys) = &primary_key_fields {
        match build_dedup_id(&record, keys, salt) {
            None => {
                return Disposition::Dropped(DropReason::MissingPrimaryKeyField);
            },
            Some(id) => {
                record.insert("index".to_owned(), id);
            },
        }
    }
    match embedding_field_name {
        None => Disposition::Dropped(DropReason::NoEmbeddingField),
        Some(field) => Disposition::Spawn(
            EmbeddingTask {
                record,
                embedding_field_name: field,
                source_id: source_id.clone(),
                embedding_model: model,
                chunking_strategy,
            },
        ),
    }
}

} // verus!
