use vstd::prelude::*;

verus! {

/// Identifies a party that asked to receive the messages of some topics.
/// Whoever drives the broker connection maps identifiers to mailboxes.
pub type SubscriberId = u64;

/// Delivery guarantee asked of the broker for a subscription.
#[derive(Debug, Clone, Copy, PartialEq, Eq, Structural)]
pub enum QoS {
    AtMostOnce,
    AtLeastOnce,
    ExactlyOnce,
}

/// One topic filter of a subscription request.
#[derive(Debug, Clone)]
pub struct SubscribeTopic {
    pub topic_path: String,
    pub qos: QoS,
}

/// A message to publish on the broker.
#[derive(Debug, Clone)]
pub struct MqttPublish {
    pub topic: String,
    pub payload: Vec<u8>,
    pub retain: bool,
}

/// A request to receive the messages of `topics`, to be delivered to `subscriber`.
#[derive(Debug, Clone)]
pub struct MqttSubscribe {
    pub topics: Vec<SubscribeTopic>,
    pub subscriber: SubscriberId,
}

/// Work handed to the task that owns the broker connection.
#[derive(Debug, Clone)]
pub enum MqttTaskActions {
    Subscribe(MqttSubscribe),
    Publish(MqttPublish),
}

/// A call that the task owning the broker connection makes on the client.
#[derive(Debug, Clone)]
pub enum MqttClientCall {
    Subscribe(Vec<SubscribeTopic>),
    Publish(MqttPublish),
}

/// The topic paths of a list of subscription topics, in order.
pub open spec fn topic_paths(topics: Seq<SubscribeTopic>) -> Seq<Seq<char>> {
    topics.map_values(|t: SubscribeTopic| t.topic_path@)
}

/// The topics of a subscription to `topic` alone, with at-least-once delivery.
pub fn single_topic(topic: &String) -> (topics: Vec<SubscribeTopic>)
    ensures
        topics@.len() == 1,
        topics@[0].topic_path@ == topic@,
        topics@[0].qos == QoS::AtLeastOnce,
{
    let mut topics: Vec<SubscribeTopic> = Vec::new();
    topics.push(SubscribeTopic { topic_path: topic.clone(), qos: QoS::AtLeastOnce });
    topics
}

} // verus!
