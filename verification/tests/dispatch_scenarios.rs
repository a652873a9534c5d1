//! End-to-end scenarios for the dispatcher and the embedding pipeline.

use vector_db_proxy::accounting::{
    counter_after_insert, plan_after_pipeline, AfterPipeline, CounterField, InsertOutcome,
};
use vector_db_proxy::decode::{decode_payload, Decoded};
use vector_db_proxy::dispatch::{
    dispatch_resolved, should_resolve, Disposition, DropReason, EmbeddingTask, SourceConfig,
};
use vector_db_proxy::pipeline::{construct_point, prepare_embedding, EmbedError, Point};

fn config_s1() -> SourceConfig {
    SourceConfig {
        embedding_model: Some("text-embedder".to_string()),
        primary_key_fields: Some(vec!["id".to_string()]),
        embedding_field_name: Some("body".to_string()),
        chunking_strategy: None,
    }
}

fn salt() -> String {
    "pepper".to_string()
}

fn dispatch(payload: &str, config: Option<SourceConfig>) -> Disposition {
    let decoded = decode_payload(&payload.to_string());
    dispatch_resolved(&"S1".to_string(), decoded, config, &salt())
}

fn spawn_task(payload: &str, config: SourceConfig) -> EmbeddingTask {
    match dispatch(payload, Some(config)) {
        Disposition::Spawn(task) => task,
        Disposition::Dropped(_) => panic!("expected an embedding task"),
    }
}

#[test]
fn scenario_a_full_success_path() {
    let task = spawn_task(r#"{"id": 42, "body": "hello"}"#, config_s1());
    assert_eq!(task.source_id, "S1");
    assert_eq!(task.embedding_field_name, "body");
    assert_eq!(task.embedding_model, "text-embedder");

    // The dedup identifier was stored under `index`.
    let index = task.record.get(&"index".to_string()).expect("dedup id missing");
    assert_eq!(index.len(), 36);
    assert!(index.contains('-'));

    let source = Some("S1".to_string());
    let prepared = prepare_embedding(task.record, &"body".to_string(), &source, &None)
        .expect("pipeline must accept the record");
    assert_eq!(prepared.text, "hello");
    // The stored payload documents what was embedded, under `page_content`.
    assert_eq!(prepared.payload.get(&"body".to_string()), None);
    assert_eq!(
        prepared.payload.get(&"page_content".to_string()),
        Some("hello".to_string())
    );
    assert_eq!(prepared.payload.get(&"id".to_string()), Some("42".to_string()));

    let point: Point<Vec<u8>> = construct_point(prepared, vec![vec![1u8, 2u8]])
        .expect("a returned vector must yield a point");
    assert_eq!(point.id, Some(index));
    assert_eq!(point.vector, vec![1u8, 2u8]);

    // The store accepts the point: the success counter, exactly once.
    let outcome = InsertOutcome::Accepted;
    assert!(matches!(
        counter_after_insert(&outcome),
        CounterField::SuccessCount
    ));
}

#[test]
fn scenario_b_missing_embedding_field() {
    let task = spawn_task(r#"{"id": 42}"#, config_s1());
    let source = Some("S1".to_string());
    let err = prepare_embedding(task.record, &"body".to_string(), &source, &None)
        .expect_err("a record without the embedding field must fail");
    assert!(matches!(err, EmbedError::EmptyRecord));

    // The failed pipeline is recorded at once; no insertion is planned.
    let planned: AfterPipeline<Vec<u8>> = plan_after_pipeline(Err(EmbedError::EmptyRecord));
    match planned {
        AfterPipeline::Record(c) => assert!(matches!(c, CounterField::FailureCount)),
        AfterPipeline::Insert(_) => panic!("no insert call may follow a failed pipeline"),
    }
}

#[test]
fn scenario_c_unparseable_payload_then_next_message() {
    let decoded = decode_payload(&r#"{"id": 42"#.to_string());
    assert!(matches!(decoded, Decoded::Invalid));
    // The resolver is not consulted for an unparseable payload.
    assert!(!should_resolve(&decoded));
    assert!(matches!(
        dispatch(r#"{"id": 42"#, Some(config_s1())),
        Disposition::Dropped(DropReason::UnparseablePayload)
    ));
    // The loop goes on: the next message is processed normally.
    assert!(matches!(
        dispatch(r#"{"id": 1, "body": "next"}"#, Some(config_s1())),
        Disposition::Spawn(_)
    ));
}

#[test]
fn scenario_d_redelivery_same_dedup_id() {
    let first = spawn_task(r#"{"id": 42, "body": "hello"}"#, config_s1());
    let second = spawn_task(r#"{"id": 42, "body": "hello"}"#, config_s1());
    let id1 = first.record.get(&"index".to_string()).unwrap();
    let id2 = second.record.get(&"index".to_string()).unwrap();
    // Byte-identical: the second insertion overwrites, not duplicates.
    assert_eq!(id1, id2);
}

#[test]
fn drop_when_resolver_fails() {
    assert!(matches!(
        dispatch(r#"{"id": 1}"#, None),
        Disposition::Dropped(DropReason::ConfigLookupFailed)
    ));
}

#[test]
fn drop_when_no_embedding_model() {
    let config = SourceConfig {
        embedding_model: None,
        ..config_s1()
    };
    assert!(matches!(
        dispatch(r#"{"id": 1, "body": "x"}"#, Some(config)),
        Disposition::Dropped(DropReason::NoEmbeddingModel)
    ));
}

#[test]
fn drop_when_payload_not_an_object() {
    assert!(matches!(
        dispatch("[1, 2, 3]", Some(config_s1())),
        Disposition::Dropped(DropReason::PayloadNotObject)
    ));
}

#[test]
fn drop_when_primary_key_field_missing() {
    let config = SourceConfig {
        primary_key_fields: Some(vec!["missing".to_string()]),
        ..config_s1()
    };
    assert!(matches!(
        dispatch(r#"{"id": 1, "body": "x"}"#, Some(config)),
        Disposition::Dropped(DropReason::MissingPrimaryKeyField)
    ));
}

#[test]
fn drop_when_no_embedding_field_configured() {
    let config = SourceConfig {
        embedding_field_name: None,
        ..config_s1()
    };
    assert!(matches!(
        dispatch(r#"{"id": 1, "body": "x"}"#, Some(config)),
        Disposition::Dropped(DropReason::NoEmbeddingField)
    ));
}

#[test]
fn no_primary_keys_means_no_index_field() {
    let config = SourceConfig {
        primary_key_fields: None,
        ..config_s1()
    };
    let task = spawn_task(r#"{"id": 1, "body": "x"}"#, config);
    assert_eq!(task.record.get(&"index".to_string()), None);
    let source = Some("S1".to_string());
    let prepared = prepare_embedding(task.record, &"body".to_string(), &source, &None).unwrap();
    let point: Point<Vec<u8>> = construct_point(prepared, vec![vec![9u8]]).unwrap();
    // Without a dedup id the store assigns one.
    assert_eq!(point.id, None);
}
