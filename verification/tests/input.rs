use rusty_fridge::actors::io::{InputActor, TemperatureInput};
use rusty_fridge::modes::InputMode;
use rusty_fridge::messages::QoS;

fn text_of(input: Option<TemperatureInput>) -> Option<String> {
    match input {
        Some(TemperatureInput::Text(s)) => Some(s),
        Some(TemperatureInput::Json(_)) => panic!("json in raw mode"),
        None => None,
    }
}

#[test]
fn raw_payload_is_its_text() {
    let a = InputActor::new("t".to_string(), InputMode::Raw);
    assert_eq!(text_of(a.handle(b"21.5")), Some("21.5".to_string()));
}

#[test]
fn raw_payload_loses_leading_quote_only() {
    let a = InputActor::new("t".to_string(), InputMode::Raw);
    assert_eq!(text_of(a.handle(b"\"21.5\"")), Some("21.5\"".to_string()));
    assert_eq!(text_of(a.handle(b"\"")), Some("".to_string()));
    assert_eq!(text_of(a.handle(b"")), Some("".to_string()));
    assert_eq!(text_of(a.handle("\u{e9}\"".as_bytes())), Some("\u{e9}\"".to_string()));
}

#[test]
fn raw_payload_that_is_not_utf8_is_dropped() {
    let a = InputActor::new("t".to_string(), InputMode::Raw);
    assert_eq!(text_of(a.handle(&[0xff, 0x31])), None);
    assert_eq!(text_of(a.handle(&[0x22, 0xc0, 0x80])), None);
}

#[test]
fn json_payload_is_passed_on() {
    let a = InputActor::new("t".to_string(), InputMode::Json);
    match a.handle(b"{\"temperature\": 4.5}") {
        Some(TemperatureInput::Json(b)) => assert_eq!(b, b"{\"temperature\": 4.5}".to_vec()),
        other => panic!("unexpected {:?}", other),
    }
    match a.handle(&[0xff]) {
        Some(TemperatureInput::Json(b)) => assert_eq!(b, vec![0xff]),
        other => panic!("unexpected {:?}", other),
    }
}

#[test]
fn input_subscribes_to_its_topic() {
    let a = InputActor::new("home/temp".to_string(), InputMode::Json);
    let topics = a.started();
    assert_eq!(topics.len(), 1);
    assert_eq!(topics[0].topic_path, "home/temp");
    assert_eq!(topics[0].qos, QoS::AtLeastOnce);
}
