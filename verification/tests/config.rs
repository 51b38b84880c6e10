use rusty_fridge::actors::config::{ConfigActor, CONFIG_TIMEOUT_SECS};
use rusty_fridge::messages::QoS;

#[test]
fn defaults_published_when_no_config_came() {
    let a = ConfigActor::new("fridge/config".to_string());
    let p = a.on_timeout(b"{}".to_vec()).expect("defaults");
    assert_eq!(p.topic, "fridge/config");
    assert_eq!(p.payload, b"{}".to_vec());
    assert!(p.retain);
}

#[test]
fn no_defaults_after_config() {
    let mut a = ConfigActor::new("fridge/config".to_string());
    a.handle();
    assert!(a.got_message);
    assert!(a.on_timeout(b"{}".to_vec()).is_none());
}

#[test]
fn config_subscribes_to_its_topic() {
    let a = ConfigActor::new("fridge/config".to_string());
    let topics = a.started();
    assert_eq!(topics.len(), 1);
    assert_eq!(topics[0].topic_path, "fridge/config");
    assert_eq!(topics[0].qos, QoS::AtLeastOnce);
    assert_eq!(CONFIG_TIMEOUT_SECS, 5);
}
