//! The messages that a tap hands to a target.

use crate::columnar::{batch_rows, count_rows, Batch};
use crate::ids::fresh_id;
use crate::time::{current_time, Timestamp};
use std::sync::Arc;
use vstd::prelude::*;
use vstd::std_specs::cmp::PartialEqSpecImpl;

verus! {

/// What a metric measures.
#[derive(Debug, Clone)]
pub enum MetricType {
    RecordCount,
    HttpRequest,
    BytesProcessed,
    ProcessingTime,
    ErrorCount,
    Custom(String),
}

impl MetricType {
    /// Two metric types are the same measure: the same variant and, for a
    /// custom one, the same name.
    pub open spec fn same_measure(self, other: MetricType) -> bool {
        match (self, other) {
            (MetricType::RecordCount, MetricType::RecordCount) => true,
            (MetricType::HttpRequest, MetricType::HttpRequest) => true,
            (MetricType::BytesProcessed, MetricType::BytesProcessed) => true,
            (MetricType::ProcessingTime, MetricType::ProcessingTime) => true,
            (MetricType::ErrorCount, MetricType::ErrorCount) => true,
            (MetricType::Custom(mine), MetricType::Custom(theirs)) => mine@ == theirs@,
            _ => false,
        }
    }
}

impl PartialEq for MetricType {
    fn eq(&self, other: &MetricType) -> (same: bool) {
        match (self, other) {
            (MetricType::RecordCount, MetricType::RecordCount) => true,
            (MetricType::HttpRequest, MetricType::HttpRequest) => true,
            (MetricType::BytesProcessed, MetricType::BytesProcessed) => true,
            (MetricType::ProcessingTime, MetricType::ProcessingTime) => true,
            (MetricType::ErrorCount, MetricType::ErrorCount) => true,
            (MetricType::Custom(mine), MetricType::Custom(theirs)) => *mine == *theirs,
            _ => false,
        }
    }
}

impl PartialEqSpecImpl for MetricType {
    open spec fn obeys_eq_spec() -> bool {
        true
    }

    open spec fn eq_spec(&self, other: &MetricType) -> bool {
        self.same_measure(*other)
    }
}

impl Eq for MetricType {

}

/// The reading of a metric: a 64-bit floating-point number, held by its bits.
#[derive(Debug, Clone, Copy, PartialEq, Eq, Structural)]
pub struct MetricValue {
    pub bits: u64,
}

impl MetricValue {
    /// The reading whose IEEE 754 binary64 representation is `bits`.
    pub fn from_bits(bits: u64) -> (value: MetricValue)
        ensures
            value.bits == bits,
    {
        MetricValue { bits }
    }

    /// The IEEE 754 binary64 representation of the reading.
    pub fn to_bits(&self) -> (bits: u64)
        ensures
            bits == self.bits,
    {
        self.bits
    }
}

/// Announces the schema of a stream.
#[derive(Debug, Clone)]
pub struct SchemaMessage {
    pub id: uuid::Uuid,
    pub stream: String,
    pub schema: Arc<arrow::datatypes::Schema>,
    pub key_properties: Vec<String>,
    /// The fields by which extraction can resume.
    pub bookmark_properties: Vec<String>,
    pub timestamp: Timestamp,
}

/// Carries rows of a stream.
#[derive(Debug, Clone)]
pub struct RecordMessage {
    pub id: uuid::Uuid,
    pub stream: String,
    pub record: Batch,
    pub time_extracted: Timestamp,
    /// The place of the message in its stream, where the tap counts.
    pub sequence: Option<u64>,
}

/// Carries a checkpoint.
#[derive(Debug, Clone)]
pub struct StateMessage {
    pub id: uuid::Uuid,
    pub value: serde_json::Value,
    pub timestamp: Timestamp,
}

/// Carries a catalog, as discovery found it.
#[derive(Debug, Clone)]
pub struct CatalogMessage {
    pub id: uuid::Uuid,
    pub catalog: serde_json::Value,
    pub timestamp: Timestamp,
}

/// Carries a measurement.
#[derive(Debug, Clone)]
pub struct MetricMessage {
    pub id: uuid::Uuid,
    pub metric_type: MetricType,
    pub value: MetricValue,
    pub stream: Option<String>,
    pub tags: Vec<String>,
    pub timestamp: Timestamp,
}

/// Anything a tap may hand to a target.
#[derive(Debug, Clone)]
pub enum Message {
    Schema(SchemaMessage),
    Record(RecordMessage),
    State(StateMessage),
    Catalog(CatalogMessage),
    Metric(MetricMessage),
}

impl SchemaMessage {
    /// The schema message for `stream` with the given identity and time,
    /// without key or bookmark properties.
    pub fn assemble(id: uuid::Uuid, timestamp: Timestamp, stream: String, schema: Arc<
        arrow::datatypes::Schema,
    >) -> (message: SchemaMessage)
        ensures
            message.id == id,
            message.timestamp == timestamp,
            message.stream == stream,
            message.schema == schema,
            message.key_properties@.len() == 0,
            message.bookmark_properties@.len() == 0,
    {
        SchemaMessage {
            id,
            stream,
            schema,
            key_properties: Vec::new(),
            bookmark_properties: Vec::new(),
            timestamp,
        }
    }

    /// A schema message for `stream`, freshly identified and stamped with
    /// the current time.
    pub fn new(stream: String, schema: Arc<arrow::datatypes::Schema>) -> (message: SchemaMessage)
        ensures
            message.stream == stream,
            message.schema == schema,
            message.key_properties@.len() == 0,
            message.bookmark_properties@.len() == 0,
    {
        SchemaMessage::assemble(fresh_id(), current_time(), stream, schema)
    }

    /// The message with `keys` as its key properties.
    pub fn with_key_properties(self, keys: Vec<String>) -> (message: SchemaMessage)
        ensures
            message == (SchemaMessage { key_properties: keys, ..self }),
    {
        let mut message = self;
        message.key_properties = keys;
        message
    }

    /// The message with `bookmarks` as its bookmark properties.
    pub fn with_bookmark_properties(self, bookmarks: Vec<String>) -> (message: SchemaMessage)
        ensures
            message == (SchemaMessage { bookmark_properties: bookmarks, ..self }),
    {
        let mut message = self;
        message.bookmark_properties = bookmarks;
        message
    }
}

impl RecordMessage {
    /// The record message for `stream` with the given identity and time,
    /// without a sequence number.
    pub fn assemble(id: uuid::Uuid, time_extracted: Timestamp, stream: String, record: Batch) -> (message:
        RecordMessage)
        ensures
            message == (RecordMessage { id, stream, record, time_extracted, sequence: None }),
    {
        RecordMessage { id, stream, record, time_extracted, sequence: None }
    }

    /// A record message for `stream`, freshly identified and stamped with
    /// the current time.
    pub fn new(stream: String, record: Batch) -> (message: RecordMessage)
        ensures
            message.stream == stream,
            message.record == record,
            message.sequence is None,
    {
        RecordMessage::assemble(fresh_id(), current_time(), stream, record)
    }

    /// The message with `seq` as its sequence number.
    pub fn with_sequence(self, seq: u64) -> (message: RecordMessage)
        ensures
            message == (RecordMessage { sequence: Some(seq), ..self }),
    {
        let mut message = self;
        message.sequence = Some(seq);
        message
    }

    /// The number of rows the message carries.
    pub fn row_count(&self) -> (rows: usize)
        ensures
            rows == batch_rows(self.record),
    {
        count_rows(&self.record)
    }
}

impl StateMessage {
    /// The state message with the given identity and time.
    pub fn assemble(id: uuid::Uuid, timestamp: Timestamp, value: serde_json::Value) -> (message:
        StateMessage)
        ensures
            message == (StateMessage { id, value, timestamp }),
    {
        StateMessage { id, value, timestamp }
    }

    /// A state message that carries `value`, freshly identified and stamped
    /// with the current time.
    pub fn new(value: serde_json::Value) -> (message: StateMessage)
        ensures
            message.value == value,
    {
        StateMessage::assemble(fresh_id(), current_time(), value)
    }
}

impl CatalogMessage {
    /// The catalog message with the given identity and time.
    pub fn assemble(id: uuid::Uuid, timestamp: Timestamp, catalog: serde_json::Value) -> (message:
        CatalogMessage)
        ensures
            message == (CatalogMessage { id, catalog, timestamp }),
    {
        CatalogMessage { id, catalog, timestamp }
    }

    /// A catalog message that carries `catalog`, freshly identified and
    /// stamped with the current time.
    pub fn new(catalog: serde_json::Value) -> (message: CatalogMessage)
        ensures
            message.catalog == catalog,
    {
        CatalogMessage::assemble(fresh_id(), current_time(), catalog)
    }
}

impl MetricMessage {
    /// The metric message with the given identity and time, for no stream
    /// and without tags.
    pub fn assemble(
        id: uuid::Uuid,
        timestamp: Timestamp,
        metric_type: MetricType,
        value: MetricValue,
    ) -> (message: MetricMessage)
        ensures
            message.id == id,
            message.timestamp == timestamp,
            message.metric_type == metric_type,
            message.value == value,
            message.stream is None,
            message.tags@.len() == 0,
    {
        MetricMessage { id, metric_type, value, stream: None, tags: Vec::new(), timestamp }
    }

    /// A metric message, freshly identified and stamped with the current
    /// time.
    pub fn new(metric_type: MetricType, value: MetricValue) -> (message: MetricMessage)
        ensures
            message.metric_type == metric_type,
            message.value == value,
            message.stream is None,
            message.tags@.len() == 0,
    {
        MetricMessage::assemble(fresh_id(), current_time(), metric_type, value)
    }

    /// The message as one about `stream`.
    pub fn with_stream(self, stream: String) -> (message: MetricMessage)
        ensures
            message == (MetricMessage { stream: Some(stream), ..self }),
    {
        let mut message = self;
        message.stream = Some(stream);
        message
    }

    /// The message with `tags` in place of its tags.
    pub fn with_tags(self, tags: Vec<String>) -> (message: MetricMessage)
        ensures
            message == (MetricMessage { tags, ..self }),
    {
        let mut message = self;
        message.tags = tags;
        message
    }

    /// The message with `tag` added after its tags.
    pub fn add_tag(self, tag: String) -> (message: MetricMessage)
        ensures
            message.tags@ == self.tags@.push(tag),
            message.id == self.id,
            message.metric_type == self.metric_type,
            message.value == self.value,
            message.stream == self.stream,
            message.timestamp == self.timestamp,
    {
        let mut message = self;
        message.tags.push(tag);
        message
    }
}

impl Message {
    /// The name of the kind of message.
    pub open spec fn kind(self) -> Seq<char> {
        match self {
            Message::Schema(_) => "SCHEMA"@,
            Message::Record(_) => "RECORD"@,
            Message::State(_) => "STATE"@,
            Message::Catalog(_) => "CATALOG"@,
            Message::Metric(_) => "METRIC"@,
        }
    }

    /// The name of the kind of message, for logs and inspection.
    pub fn message_type(&self) -> (name: &'static str)
        ensures
            name@ == self.kind(),
    {
        match self {
            Message::Schema(_) => "SCHEMA",
            Message::Record(_) => "RECORD",
            Message::State(_) => "STATE",
            Message::Catalog(_) => "CATALOG",
            Message::Metric(_) => "METRIC",
        }
    }

    /// Whether the message announces a schema.
    pub fn is_schema(&self) -> (yes: bool)
        ensures
            yes == (self is Schema),
    {
        matches!(self, Message::Schema(_))
    }

    /// Whether the message carries rows.
    pub fn is_record(&self) -> (yes: bool)
        ensures
            yes == (self is Record),
    {
        matches!(self, Message::Record(_))
    }

    /// Whether the message carries a checkpoint.
    pub fn is_state(&self) -> (yes: bool)
        ensures
            yes == (self is State),
    {
        matches!(self, Message::State(_))
    }
}

/// The five kinds of message have five different names.
pub proof fn lemma_kinds_differ(a: Message, b: Message)
    ensures
        a.kind() == b.kind() <==> (a is Schema && b is Schema) || (a is Record && b is Record) || (a is State
            && b is State) || (a is Catalog && b is Catalog) || (a is Metric && b is Metric),
{
    reveal_strlit("SCHEMA");
    reveal_strlit("RECORD");
    reveal_strlit("STATE");
    reveal_strlit("CATALOG");
    reveal_strlit("METRIC");
    if a.kind() == b.kind() {
        assert(a.kind().len() == b.kind().len());
        assert(a.kind()[0] == b.kind()[0]);
        assert(a.kind()[1] == b.kind()[1]);
    }
}

} // verus!
