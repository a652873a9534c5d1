//! Core of a message-to-vector ingestion proxy.
//!
//! Streamed records arrive from a queue backend as `(source id, stream key,
//! payload)` triples.  For each record the core decodes the payload, resolves
//! the source's embedding configuration, builds a deterministic deduplication
//! key, prepares the text to embed, and decides which per-source counter an
//! embedding unit must record.  All decisions live here and are verified;
//! the queue, configuration store, embedding model and vector store are
//! external collaborators driven by a thin unverified shell.

pub mod accounting;
pub mod decode;
pub mod dispatch;
pub mod dedup;
pub mod pipeline;
pub mod provider;
pub mod record;
