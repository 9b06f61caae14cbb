use std::sync::Arc;

use arrow::array::{ArrayRef, Int32Array, StringArray};
use arrow::datatypes::{DataType, Field, Schema};
use arrow::record_batch::RecordBatch;
use dstreams::columnar::Batch;
use dstreams::protocol::{
    CatalogMessage, Message, MetricMessage, MetricType, MetricValue, RecordMessage,
    SchemaMessage, StateMessage,
};
use dstreams::time::Timestamp;
use serde_json::Value;
use uuid::Uuid;

fn schema() -> Arc<Schema> {
    Arc::new(Schema::new(vec![
        Field::new("id", DataType::Int32, false),
        Field::new("name", DataType::Utf8, false),
    ]))
}

fn batch(ids: Vec<i32>) -> Batch {
    let names: Vec<String> = ids.iter().map(|id| format!("row-{}", id)).collect();
    let columns: Vec<ArrayRef> =
        vec![Arc::new(Int32Array::from(ids)), Arc::new(StringArray::from(names))];
    Batch { rows: RecordBatch::try_new(schema(), columns).unwrap() }
}

#[test]
fn schema_message_new_sets_the_defaults() {
    let message = SchemaMessage::new("users".to_string(), schema());
    assert_eq!(message.stream, "users");
    assert_eq!(message.schema, schema());
    assert!(message.key_properties.is_empty());
    assert!(message.bookmark_properties.is_empty());
    assert!(message.timestamp.secs > 1_600_000_000);
    assert_eq!(message.id.get_version_num(), 4);
}

#[test]
fn schema_message_builders_set_the_properties() {
    let message = SchemaMessage::new("users".to_string(), schema())
        .with_key_properties(vec!["id".to_string()])
        .with_bookmark_properties(vec!["updated_at".to_string(), "id".to_string()]);
    assert_eq!(message.stream, "users");
    assert_eq!(message.key_properties, vec!["id".to_string()]);
    assert_eq!(message.bookmark_properties, vec!["updated_at".to_string(), "id".to_string()]);
}

#[test]
fn assembled_messages_carry_the_given_identity_and_time() {
    let id = Uuid::from_u128(0x1234);
    let at = Timestamp::new(5, 6);
    let message = SchemaMessage::assemble(id, at, "users".to_string(), schema());
    assert_eq!(message.id, id);
    assert_eq!(message.timestamp, at);
    assert_eq!(message.stream, "users");

    let message = RecordMessage::assemble(id, at, "users".to_string(), batch(vec![1]));
    assert_eq!(message.id, id);
    assert_eq!(message.time_extracted, at);
    assert!(message.sequence.is_none());

    let message = StateMessage::assemble(id, at, Value::from(1));
    assert_eq!(message.id, id);
    assert_eq!(message.timestamp, at);
    assert_eq!(message.value, Value::from(1));

    let message = CatalogMessage::assemble(id, at, Value::from(2));
    assert_eq!(message.id, id);
    assert_eq!(message.timestamp, at);
    assert_eq!(message.catalog, Value::from(2));

    let message =
        MetricMessage::assemble(id, at, MetricType::ErrorCount, MetricValue::from_bits(7));
    assert_eq!(message.id, id);
    assert_eq!(message.timestamp, at);
    assert_eq!(message.metric_type, MetricType::ErrorCount);
    assert_eq!(message.value.to_bits(), 7);
    assert!(message.stream.is_none());
    assert!(message.tags.is_empty());
}

#[test]
fn two_new_messages_have_different_identities() {
    let first = StateMessage::new(Value::Null);
    let second = StateMessage::new(Value::Null);
    assert_ne!(first.id, second.id);
}

#[test]
fn record_message_counts_the_rows_of_its_batch() {
    let message = RecordMessage::new("users".to_string(), batch(vec![1, 2, 3]));
    assert_eq!(message.row_count(), 3);
    assert_eq!(message.stream, "users");
    assert!(message.sequence.is_none());
    assert_eq!(message.record.rows.num_columns(), 2);

    let single = RecordMessage::new("users".to_string(), batch(vec![9]));
    assert_eq!(single.row_count(), 1);
}

#[test]
fn record_message_with_an_empty_batch_has_no_rows() {
    let message =
        RecordMessage::new("users".to_string(), Batch { rows: RecordBatch::new_empty(schema()) });
    assert_eq!(message.row_count(), 0);
}

#[test]
fn record_message_with_sequence_keeps_the_rest() {
    let message = RecordMessage::new("users".to_string(), batch(vec![1, 2])).with_sequence(41);
    assert_eq!(message.sequence, Some(41));
    assert_eq!(message.stream, "users");
    assert_eq!(message.row_count(), 2);
}

#[test]
fn cloned_batch_holds_the_same_rows() {
    let first = batch(vec![1, 2, 3, 4]);
    let copy = first.clone();
    assert_eq!(copy.rows, first.rows);
    assert_eq!(copy.rows.num_rows(), 4);
}

#[test]
fn state_and_catalog_messages_carry_their_value() {
    let state = StateMessage::new(Value::String("cursor".to_string()));
    assert_eq!(state.value, Value::String("cursor".to_string()));
    let catalog = CatalogMessage::new(Value::from(vec![1, 2]));
    assert_eq!(catalog.catalog, Value::from(vec![1, 2]));
}

#[test]
fn metric_message_new_sets_the_defaults() {
    let message = MetricMessage::new(MetricType::RecordCount, MetricValue::from_bits(42.5f64.to_bits()));
    assert_eq!(message.metric_type, MetricType::RecordCount);
    assert_eq!(f64::from_bits(message.value.to_bits()), 42.5);
    assert!(message.stream.is_none());
    assert!(message.tags.is_empty());
}

#[test]
fn metric_message_builders() {
    let message = MetricMessage::new(MetricType::HttpRequest, MetricValue::from_bits(1.0f64.to_bits()))
        .with_stream("users".to_string())
        .with_tags(vec!["a".to_string(), "b".to_string()])
        .add_tag("c".to_string());
    assert_eq!(message.stream, Some("users".to_string()));
    assert_eq!(message.tags, vec!["a".to_string(), "b".to_string(), "c".to_string()]);
    assert_eq!(message.metric_type, MetricType::HttpRequest);
    assert_eq!(f64::from_bits(message.value.bits), 1.0);

    let replaced = message.with_tags(vec![]);
    assert!(replaced.tags.is_empty());
    assert_eq!(replaced.stream, Some("users".to_string()));
}

#[test]
fn metric_value_keeps_every_bit() {
    for value in [0.0f64, -0.0, 1.5, -273.15, f64::MAX, f64::MIN_POSITIVE, f64::INFINITY] {
        let held = MetricValue::from_bits(value.to_bits());
        assert_eq!(held.to_bits(), value.to_bits());
        assert_eq!(held, MetricValue { bits: value.to_bits() });
    }
    let nan = MetricValue::from_bits(f64::NAN.to_bits());
    assert!(f64::from_bits(nan.to_bits()).is_nan());
}

#[test]
fn metric_types_compare_by_variant_and_name() {
    assert_eq!(MetricType::RecordCount, MetricType::RecordCount);
    assert_eq!(MetricType::HttpRequest, MetricType::HttpRequest);
    assert_eq!(MetricType::BytesProcessed, MetricType::BytesProcessed);
    assert_eq!(MetricType::ProcessingTime, MetricType::ProcessingTime);
    assert_eq!(MetricType::ErrorCount, MetricType::ErrorCount);
    assert_ne!(MetricType::RecordCount, MetricType::ErrorCount);
    assert_eq!(MetricType::Custom("x".to_string()), MetricType::Custom("x".to_string()));
    assert_ne!(MetricType::Custom("x".to_string()), MetricType::Custom("y".to_string()));
    assert_ne!(MetricType::Custom("RecordCount".to_string()), MetricType::RecordCount);
}

#[test]
fn message_type_names_each_kind() {
    let messages = vec![
        Message::Schema(SchemaMessage::new("users".to_string(), schema())),
        Message::Record(RecordMessage::new("users".to_string(), batch(vec![1]))),
        Message::State(StateMessage::new(Value::Null)),
        Message::Catalog(CatalogMessage::new(Value::Null)),
        Message::Metric(MetricMessage::new(MetricType::ErrorCount, MetricValue::from_bits(0))),
    ];
    let names: Vec<&str> = messages.iter().map(|m| m.message_type()).collect();
    assert_eq!(names, vec!["SCHEMA", "RECORD", "STATE", "CATALOG", "METRIC"]);
}

#[test]
fn kind_tests_match_only_their_kind() {
    let schema_message = Message::Schema(SchemaMessage::new("users".to_string(), schema()));
    let record = Message::Record(RecordMessage::new("users".to_string(), batch(vec![1])));
    let state = Message::State(StateMessage::new(Value::Null));
    let catalog = Message::Catalog(CatalogMessage::new(Value::Null));
    let metric =
        Message::Metric(MetricMessage::new(MetricType::ErrorCount, MetricValue::from_bits(0)));

    assert!(schema_message.is_schema() && !schema_message.is_record() && !schema_message.is_state());
    assert!(!record.is_schema() && record.is_record() && !record.is_state());
    assert!(!state.is_schema() && !state.is_record() && state.is_state());
    assert!(!catalog.is_schema() && !catalog.is_record() && !catalog.is_state());
    assert!(!metric.is_schema() && !metric.is_record() && !metric.is_state());
}

#[test]
fn cloned_messages_are_equal_field_by_field() {
    let state = StateMessage::assemble(Uuid::from_u128(77), Timestamp::new(1, 2), Value::from(vec![1, 2, 3]));
    let copy = state.clone();
    assert_eq!(copy.id, Uuid::from_u128(77));
    assert_eq!(copy.value, Value::from(vec![1, 2, 3]));
    assert_eq!(copy.timestamp, Timestamp::new(1, 2));

    let record = RecordMessage::new("users".to_string(), batch(vec![1, 2])).with_sequence(3);
    let copy = record.clone();
    assert_eq!(copy.id, record.id);
    assert_eq!(copy.stream, "users");
    assert_eq!(copy.row_count(), 2);
    assert_eq!(copy.sequence, Some(3));

    let message = Message::Metric(
        MetricMessage::new(MetricType::Custom("lag".to_string()), MetricValue::from_bits(9))
            .add_tag("t".to_string()),
    );
    match message.clone() {
        Message::Metric(metric) => {
            assert_eq!(metric.metric_type, MetricType::Custom("lag".to_string()));
            assert_eq!(metric.value.to_bits(), 9);
            assert_eq!(metric.tags, vec!["t".to_string()]);
        }
        other => panic!("unexpected message: {:?}", other),
    }
}
