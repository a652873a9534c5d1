//! Selection of the message-queue backend from a configuration string.

use vstd::prelude::*;

verus! {

/// The queue backend a deployment consumes from.  The variant is chosen
/// once at startup from a configuration string; `UNKNOWN` stands for a
/// string that names no supported backend.
#[derive(Clone, Copy, Debug, PartialEq, Eq, Structural)]
pub enum MessageQueueProvider {
    PUBSUB,
    RABBITMQ,
    UNKNOWN,
}

/// The backend named by a configuration string: `"google"` selects Pub/Sub,
/// `"rabbitmq"` selects RabbitMQ, anything else is unknown.
pub open spec fn provider_of(value: Seq<char>) -> MessageQueueProvider {
    if value == "google"@ {
        MessageQueueProvider::PUBSUB
    } else if value == "rabbitmq"@ {
        MessageQueueProvider::RABBITMQ
    } else {
        MessageQueueProvider::UNKNOWN
    }
}

impl From<String> for MessageQueueProvider {
    fn from(value: String) -> (r: MessageQueueProvider) {
        if value == "google".to_owned() {
            MessageQueueProvider::PUBSUB
        } else if value == "rabbitmq".to_owned() {
            MessageQueueProvider::RABBITMQ
        } else {
            MessageQueueProvider::UNKNOWN
        }
    }
}

impl vstd::std_specs::convert::FromSpecImpl<String> for MessageQueueProvider {
    open spec fn obeys_from_spec() -> bool {
        true
    }

    open spec fn from_spec(value: String) -> MessageQueueProvider {
        provider_of(value@)
    }
}

} // verus!
