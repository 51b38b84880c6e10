use rusty_fridge::actors::mqtt::TopicSubscriptions;
use rusty_fridge::messages::{MqttClientCall, MqttPublish, MqttSubscribe, MqttTaskActions, QoS, SubscribeTopic};

fn topic(path: &str) -> SubscribeTopic {
    SubscribeTopic { topic_path: path.to_string(), qos: QoS::AtLeastOnce }
}

#[test]
fn fresh_table_routes_nothing() {
    let subs = TopicSubscriptions::new();
    assert!(subs.handle_subscription_task(Some("a")).is_empty());
    assert!(subs.subscribers("a").is_empty());
}

#[test]
fn subscribe_then_route() {
    let mut subs = TopicSubscriptions::new();
    subs.subscribe(&"temp".to_string(), 7);
    subs.subscribe(&"temp".to_string(), 3);
    subs.subscribe(&"config".to_string(), 7);
    assert_eq!(subs.handle_subscription_task(Some("temp")), vec![7, 3]);
    assert_eq!(subs.handle_subscription_task(Some("config")), vec![7]);
    assert!(subs.handle_subscription_task(Some("other")).is_empty());
}

#[test]
fn failed_read_routes_nothing() {
    let mut subs = TopicSubscriptions::new();
    subs.subscribe(&"temp".to_string(), 1);
    assert!(subs.handle_subscription_task(None).is_empty());
}

#[test]
fn subscription_request_registers_each_topic_and_is_forwarded() {
    let mut subs = TopicSubscriptions::new();
    let req = MqttSubscribe { topics: vec![topic("a"), topic("b"), topic("a")], subscriber: 5 };
    let call = subs.handle_mqtt_task(Some(MqttTaskActions::Subscribe(req)));
    match call {
        Some(MqttClientCall::Subscribe(topics)) => {
            let paths: Vec<&str> = topics.iter().map(|t| t.topic_path.as_str()).collect();
            assert_eq!(paths, vec!["a", "b", "a"]);
        }
        other => panic!("unexpected call {:?}", other),
    }
    assert_eq!(subs.subscribers("a"), vec![5, 5]);
    assert_eq!(subs.subscribers("b"), vec![5]);
}

#[test]
fn publication_is_passed_through() {
    let mut subs = TopicSubscriptions::new();
    let p = MqttPublish { topic: "out".to_string(), payload: vec![1, 2], retain: true };
    match subs.handle_mqtt_task(Some(MqttTaskActions::Publish(p))) {
        Some(MqttClientCall::Publish(q)) => {
            assert_eq!(q.topic, "out");
            assert_eq!(q.payload, vec![1, 2]);
            assert!(q.retain);
        }
        other => panic!("unexpected call {:?}", other),
    }
    assert!(subs.subscribers("out").is_empty());
}

#[test]
fn no_task_no_call() {
    let mut subs = TopicSubscriptions::new();
    assert!(subs.handle_mqtt_task(None).is_none());
}
