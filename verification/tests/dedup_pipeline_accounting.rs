//! The deduplication key builder, the embedding pipeline's error cases,
//! the accounting decisions and the backend selection.

use vector_db_proxy::accounting::{
    counter_after_insert, counter_field_path, plan_after_pipeline, AfterPipeline, CounterField,
    InsertOutcome,
};
use vector_db_proxy::dedup::build_dedup_id;
use vector_db_proxy::pipeline::{
    construct_point, prepare_embedding, EmbedError, Point, PreparedEmbedding,
};
use vector_db_proxy::provider::MessageQueueProvider;
use vector_db_proxy::record::MetadataRecord;

fn record(pairs: &[(&str, &str)]) -> MetadataRecord {
    let mut r = MetadataRecord::new();
    for (k, v) in pairs {
        r.insert(k.to_string(), v.to_string());
    }
    r
}

fn dedup(pairs: &[(&str, &str)], keys: &[&str], salt: &str) -> Option<String> {
    let keys: Vec<String> = keys.iter().map(|k| k.to_string()).collect();
    build_dedup_id(&record(pairs), &keys, &salt.to_string())
}

#[test]
fn dedup_id_is_deterministic() {
    let a = dedup(&[("id", "42"), ("body", "hello")], &["id"], "pepper").unwrap();
    let b = dedup(&[("id", "42"), ("other", "field")], &["id"], "pepper").unwrap();
    // Identical ordered key values: byte-identical identifier.
    assert_eq!(a, b);
}

#[test]
fn dedup_id_depends_on_values_salt_and_order() {
    let base = dedup(&[("id", "42"), ("k", "x")], &["id", "k"], "pepper").unwrap();
    let other_value = dedup(&[("id", "43"), ("k", "x")], &["id", "k"], "pepper").unwrap();
    let other_salt = dedup(&[("id", "42"), ("k", "x")], &["id", "k"], "sugar").unwrap();
    let other_order = dedup(&[("id", "42"), ("k", "x")], &["k", "id"], "pepper").unwrap();
    assert_ne!(base, other_value);
    assert_ne!(base, other_salt);
    assert_ne!(base, other_order);
}

#[test]
fn dedup_id_looks_like_a_hashed_identifier() {
    let id = dedup(&[("id", "42")], &["id"], "pepper").unwrap();
    // Hyphenated UUID shape, not the raw value.
    assert_eq!(id.len(), 36);
    assert_eq!(id.matches('-').count(), 4);
    assert_ne!(id, "42");
}

#[test]
fn dedup_serialization_keeps_values_apart() {
    // A value list is serialized as a JSON list, so values that a naive
    // concatenation would conflate stay distinct.
    let joined = dedup(&[("a", "x,y")], &["a"], "pepper").unwrap();
    let split = dedup(&[("a", "x"), ("b", "y")], &["a", "b"], "pepper").unwrap();
    assert_ne!(joined, split);
}

#[test]
fn dedup_fails_on_missing_key_field() {
    assert_eq!(dedup(&[("id", "42")], &["id", "gone"], "pepper"), None);
}

#[test]
fn pipeline_fails_without_source_id() {
    let err = prepare_embedding(record(&[("body", "x")]), &"body".to_string(), &None, &None)
        .expect_err("no source id must fail");
    assert!(matches!(err, EmbedError::MissingSourceId));
}

#[test]
fn pipeline_fails_on_empty_record() {
    let source = Some("S1".to_string());
    let err = prepare_embedding(record(&[]), &"body".to_string(), &source, &None)
        .expect_err("an empty record must fail");
    assert!(matches!(err, EmbedError::EmptyRecord));
}

#[test]
fn pipeline_fails_when_model_returns_no_vectors() {
    let source = Some("S1".to_string());
    let prepared = prepare_embedding(record(&[("body", "x")]), &"body".to_string(), &source, &None)
        .unwrap();
    let empty: Vec<Vec<u8>> = Vec::new();
    let err = construct_point(prepared, empty).expect_err("no vectors must fail");
    assert!(matches!(err, EmbedError::EmbeddingError));
}

#[test]
fn point_takes_the_first_vector() {
    let source = Some("S1".to_string());
    let prepared = prepare_embedding(record(&[("body", "x")]), &"body".to_string(), &source, &None)
        .unwrap();
    let point = construct_point(prepared, vec![vec![1u8], vec![2u8]]).unwrap();
    assert_eq!(point.vector, vec![1u8]);
}

#[test]
fn embedding_field_value_is_promoted_verbatim() {
    let source = Some("S1".to_string());
    let prepared: PreparedEmbedding = prepare_embedding(
        record(&[("id", "1"), ("body", "the text")]),
        &"body".to_string(),
        &source,
        &None,
    )
    .unwrap();
    assert_eq!(prepared.text, "the text");
    assert_eq!(prepared.payload.get(&"body".to_string()), None);
    assert_eq!(
        prepared.payload.get(&"page_content".to_string()),
        Some("the text".to_string())
    );
}

#[test]
fn exactly_one_counter_per_unit() {
    // Pipeline failed: the failure counter, with no insert call.
    let planned: AfterPipeline<Vec<u8>> = plan_after_pipeline(Err(EmbedError::EmptyRecord));
    assert!(matches!(
        planned,
        AfterPipeline::Record(CounterField::FailureCount)
    ));
    // Pipeline succeeded: the counter follows the insert outcome.
    assert!(matches!(
        counter_after_insert(&InsertOutcome::Accepted),
        CounterField::SuccessCount
    ));
    assert!(matches!(
        counter_after_insert(&InsertOutcome::NotAccepted),
        CounterField::FailureCount
    ));
    assert!(matches!(
        counter_after_insert(&InsertOutcome::CallFailed),
        CounterField::FailureCount
    ));
}

#[test]
fn successful_pipeline_plans_an_insert() {
    let point: Point<Vec<u8>> = Point {
        id: None,
        vector: vec![7u8],
        payload: MetadataRecord::new(),
    };
    match plan_after_pipeline(Ok(point)) {
        AfterPipeline::Insert(p) => assert_eq!(p.vector, vec![7u8]),
        AfterPipeline::Record(_) => panic!("a produced point must be inserted"),
    }
}

#[test]
fn counter_field_paths() {
    assert_eq!(
        counter_field_path(&CounterField::SuccessCount),
        "recordCount.success"
    );
    assert_eq!(
        counter_field_path(&CounterField::FailureCount),
        "recordCount.failure"
    );
}

#[test]
fn provider_from_configuration_string() {
    assert_eq!(
        MessageQueueProvider::from("google".to_string()),
        MessageQueueProvider::PUBSUB
    );
    assert_eq!(
        MessageQueueProvider::from("rabbitmq".to_string()),
        MessageQueueProvider::RABBITMQ
    );
    assert_eq!(
        MessageQueueProvider::from("kafka".to_string()),
        MessageQueueProvider::UNKNOWN
    );
    assert_eq!(
        MessageQueueProvider::from(String::new()),
        MessageQueueProvider::UNKNOWN
    );
}
