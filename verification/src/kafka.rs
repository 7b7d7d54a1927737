//! Partial batch responses for Kafka events.
//!
//! A handler reports the records of a batch that failed, so that Lambda
//! retries only those (when `ReportBatchItemFailures` is enabled on the event
//! source mapping).

use vstd::prelude::*;

verus! {

/// Identifies a Kafka record for a partial batch response.
#[derive(Debug)]
pub struct KafkaItemIdentifier {
    /// The topic-partition key from the Kafka event's `records` map.
    pub partition: String,
    /// The Kafka record offset.
    pub offset: i64,
}

impl KafkaItemIdentifier {
    /// A copy of this identifier.
    pub fn duplicate(&self) -> (r: KafkaItemIdentifier)
        ensures
            r == *self,
    {
        KafkaItemIdentifier { partition: self.partition.clone(), offset: self.offset }
    }
}

impl Default for KafkaItemIdentifier {
    /// An empty partition key at offset zero.
    fn default() -> (r: Self)
        ensures
            r.partition@ == Seq::<char>::empty(),
            r.offset == 0,
    {
        KafkaItemIdentifier { partition: String::new(), offset: 0 }
    }
}

/// An individual Kafka record which failed processing.
#[derive(Debug)]
pub struct KafkaBatchItemFailure {
    pub item_identifier: KafkaItemIdentifier,
}

/// The response that reports the batch item failures of a `KafkaEvent`.
#[derive(Debug)]
pub struct KafkaEventResponse {
    pub batch_item_failures: Vec<KafkaBatchItemFailure>,
}

impl Default for KafkaEventResponse {
    /// A response that reports no failure.
    fn default() -> (r: Self)
        ensures
            r.batch_item_failures@ == Seq::<KafkaBatchItemFailure>::empty(),
    {
        KafkaEventResponse { batch_item_failures: Vec::new() }
    }
}

/// The failure entry of an item identifier.
pub open spec fn failure_of(id: KafkaItemIdentifier) -> KafkaBatchItemFailure {
    KafkaBatchItemFailure { item_identifier: id }
}

impl KafkaEventResponse {
    /// Adds a failed item to the batch response, after those already there.
    pub fn add_failure(&mut self, item_identifier: KafkaItemIdentifier)
        ensures
            final(self).batch_item_failures@ == old(self).batch_item_failures@.push(failure_of(item_identifier)),
    {
        self.batch_item_failures.push(KafkaBatchItemFailure { item_identifier });
    }

    /// Sets all failed items of the batch response, in the given order,
    /// replacing any previously registered failures.
    pub fn set_failures(&mut self, item_identifiers: Vec<KafkaItemIdentifier>)
        ensures
            final(self).batch_item_failures@
                == item_identifiers@.map_values(|id: KafkaItemIdentifier| failure_of(id)),
    {
        let mut failures: Vec<KafkaBatchItemFailure> = Vec::new();
        let n = item_identifiers.len();
        let mut i: usize = 0;
        while i < n
            invariant
                n == item_identifiers@.len(),
                i <= n,
                failures@ == item_identifiers@.take(i as int).map_values(|id: KafkaItemIdentifier| failure_of(id)),
            decreases n - i,
        {
            let id = item_identifiers[i].duplicate();
            failures.push(KafkaBatchItemFailure { item_identifier: id });
            assert(item_identifiers@.take(i + 1) =~= item_identifiers@.take(i as int).push(item_identifiers@[i as int]));
            assert(failures@ =~= item_identifiers@.take(i + 1).map_values(|id: KafkaItemIdentifier| failure_of(id)));
            i = i + 1;
        }
        assert(item_identifiers@.take(n as int) =~= item_identifiers@);
        self.batch_item_failures = failures;
    }
}

/// Law: setting the failures and then adding one reports exactly the set
/// items followed by the added one; setting replaces whatever was there.
pub proof fn lemma_set_then_add(ids: Seq<KafkaItemIdentifier>, extra: KafkaItemIdentifier)
    ensures
        ids.map_values(|id: KafkaItemIdentifier| failure_of(id)).push(failure_of(extra))
            == ids.push(extra).map_values(|id: KafkaItemIdentifier| failure_of(id)),
{
    assert(ids.map_values(|id: KafkaItemIdentifier| failure_of(id)).push(failure_of(extra))
        =~= ids.push(extra).map_values(|id: KafkaItemIdentifier| failure_of(id)));
}

/// A batch of Kafka records delivered to a function.
#[derive(Debug, Clone, PartialEq, Eq)]
pub struct KafkaEvent {
    /// The source of the event (`aws:kafka` or `SelfManagedKafka`).
    pub event_source: Option<String>,
    /// The ARN of the event source.
    pub event_source_arn: Option<String>,
    /// The records, keyed by topic and partition (`topic-partition`).
    pub records: std::collections::HashMap<String, Vec<KafkaRecord>>,
    /// The bootstrap servers of the cluster.
    pub bootstrap_servers: Option<String>,
}

/// One Kafka record of a batch.
#[derive(Debug, Clone, PartialEq, Eq)]
pub struct KafkaRecord {
    /// The topic the record was read from.
    pub topic: Option<String>,
    /// The partition the record was read from.
    pub partition: i64,
    /// The offset of the record in its partition.
    pub offset: i64,
    /// When the record was produced, in milliseconds since the Unix epoch.
    pub timestamp: i64,
    /// What the timestamp means (`CREATE_TIME` or `LOG_APPEND_TIME`).
    pub timestamp_type: Option<String>,
    /// The key of the record, base64-encoded.
    pub key: Option<String>,
    /// The value of the record, base64-encoded.
    pub value: Option<String>,
    /// The headers of the record: each maps a header name to its bytes.
    pub headers: Vec<std::collections::HashMap<String, Vec<i8>>>,
}

} // verus!
