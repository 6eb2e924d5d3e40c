//! The broker sink: one record of the structured encoding per message, on one
//! topic.

use crate::dispatch::dispatch;
use crate::message::{json_text, EncodeError, Message, MessageView};
use crate::outcome::{BatchResult, DeliveryError, DeliveryOutcome};
use vstd::prelude::*;

verus! {

/// What the publisher is asked to publish: one record with `value`, which is
/// JSON, on `topic`.
#[derive(Debug, Clone, PartialEq, Eq)]
pub struct BrokerRecord {
    pub topic: String,
    pub value: String,
}

/// The outcome that an answer of the publisher stands for: a success once
/// the broker has acknowledged the record, else a failure that carries the
/// broker's error.
pub open spec fn outcome_of_ack(ack: Result<(), String>) -> DeliveryOutcome {
    match ack {
        Ok(_) => DeliveryOutcome::Success,
        Err(cause) => DeliveryOutcome::Failure(DeliveryError::Broker(cause)),
    }
}

/// Whether `outcome` is what delivering a message on `topic` through
/// `publisher` may give. A message that has an encoding is handed to the
/// publisher once, as a single record on the topic with the encoding as its
/// value, and the outcome is what the publisher's answer stands for. A
/// message without one is a failure and is never handed to the publisher.
pub open spec fn sent_to_topic<P: Fn(&BrokerRecord) -> Result<(), String>>(
    publisher: P,
    message: MessageView,
    topic: Seq<char>,
    outcome: DeliveryOutcome,
) -> bool {
    match json_text(message) {
        Some(value) => exists|record: BrokerRecord, ack: Result<(), String>|
            {
                &&& record.topic@ == topic
                &&& record.value@ == value
                &&& #[trigger] call_ensures(publisher, (&record,), ack)
                &&& outcome == outcome_of_ack(ack)
            },
        None => outcome matches DeliveryOutcome::Failure(DeliveryError::Serialization(_)),
    }
}

/// Judges the answer of the publisher.
pub fn classify_ack(ack: Result<(), String>) -> (outcome: DeliveryOutcome)
    ensures
        outcome == outcome_of_ack(ack),
{
    match ack {
        Ok(_) => DeliveryOutcome::Success,
        Err(cause) => DeliveryOutcome::Failure(DeliveryError::Broker(cause)),
    }
}

/// Builds the record for a message that went through the encoder: a record
/// on `topic` with the encoding as its value, or, where the encoder refused
/// the message, the failure to report for it.
pub fn prepare_record(encoded: Result<String, EncodeError>, topic: &str) -> (prepared: Result<
    BrokerRecord,
    DeliveryError,
>)
    ensures
        match encoded {
            Ok(value) => {
                &&& prepared is Ok
                &&& prepared.unwrap().topic@ == topic@
                &&& prepared.unwrap().value == value
            },
            Err(error) => prepared == Err::<BrokerRecord, DeliveryError>(
                DeliveryError::Serialization(error.detail),
            ),
        },
{
    match encoded {
        Ok(value) => Ok(BrokerRecord { topic: String::from_str(topic), value }),
        Err(error) => Err(DeliveryError::Serialization(error.detail)),
    }
}

/// Builds the record that delivers `message` on `topic`: a single record
/// with the structured encoding of the message as its value. Where the
/// message has no encoding, the failure to report for it is returned.
pub fn build_record(message: &Message, topic: &str) -> (prepared: Result<
    BrokerRecord,
    DeliveryError,
>)
    ensures
        match prepared {
            Ok(record) => {
                &&& record.topic@ == topic@
                &&& json_text(message@) == Some(record.value@)
            },
            Err(error) => json_text(message@) is None && error is Serialization,
        },
{
    prepare_record(message.to_json(), topic)
}

/// Delivers one message on `topic`: encodes it, hands the record to
/// `publisher` once and judges the answer. Nothing is retried.
pub fn send_to_kafka<P>(message: &Message, topic: &String, publisher: &P) -> (outcome:
    DeliveryOutcome) where P: Fn(&BrokerRecord) -> Result<(), String>
    requires
        forall|record: &BrokerRecord| call_requires(*publisher, (record,)),
    ensures
        sent_to_topic(*publisher, message@, topic@, outcome),
{
    match build_record(message, topic.as_str()) {
        Ok(record) => {
            let ack = publisher(&record);
            classify_ack(ack)
        },
        Err(error) => DeliveryOutcome::Failure(error),
    }
}

/// Delivers a batch on `topic`, without pacing, and collects one outcome per
/// message, in the order of the batch. A failed delivery does not keep the
/// remaining messages from being delivered.
pub fn send_messages_to_kafka<P>(messages: Vec<Message>, topic: &String, publisher: P) -> (result:
    BatchResult) where P: Fn(&BrokerRecord) -> Result<(), String>
    requires
        forall|record: &BrokerRecord| call_requires(publisher, (record,)),
    ensures
        result@.len() == messages@.len(),
        forall|i: int|
            0 <= i < messages@.len() ==> {
                &&& (#[trigger] result@[i]).id == messages@[i].id
                &&& sent_to_topic(publisher, messages@[i]@, topic@, result@[i].outcome)
            },
{
    let wire = &publisher;
    let sink = |message: &Message| -> (outcome: DeliveryOutcome)
        ensures
            sent_to_topic(*wire, message@, topic@, outcome),
        { send_to_kafka(message, topic, wire) };
    let wait = |millis: u64| {  };
    dispatch(messages, 0, sink, wait)
}

} // verus!
