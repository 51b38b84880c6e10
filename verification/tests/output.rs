use rusty_fridge::actors::io::{OutputActor, MIN_SWITCH_INTERVAL_NANOS};
use rusty_fridge::modes::OutputMode;

fn actor() -> OutputActor {
    OutputActor::new("fridge/set".to_string(), "fridge/state".to_string(), OutputMode::JsonOnOffState)
}

const MINUTE: u64 = 60_000_000_000;

#[test]
fn first_result_switches() {
    let mut a = actor();
    let p = a.handle(true, 0).expect("first result switches");
    assert_eq!(p.topic, "fridge/set");
    assert_eq!(p.payload, b"1".to_vec());
    assert!(!p.retain);
    assert_eq!(a.prev_output, Some(true));
    assert_eq!(a.prev_time, Some(0));
}

#[test]
fn off_payload_is_zero() {
    let mut a = actor();
    let p = a.handle(false, 5).unwrap();
    assert_eq!(p.payload, b"0".to_vec());
}

#[test]
fn same_result_does_not_switch_again() {
    let mut a = actor();
    assert!(a.handle(true, 0).is_some());
    assert!(a.handle(true, 60 * MINUTE).is_none());
    assert_eq!(a.prev_time, Some(0));
}

#[test]
fn switch_waits_fifteen_minutes() {
    let mut a = actor();
    assert!(a.handle(true, 0).is_some());
    assert!(a.handle(false, 15 * MINUTE - 1).is_none());
    assert_eq!(a.prev_output, Some(true));
    let p = a.handle(false, 15 * MINUTE).unwrap();
    assert_eq!(p.payload, b"0".to_vec());
    assert_eq!(a.prev_output, Some(false));
    assert_eq!(a.prev_time, Some(15 * MINUTE));
    assert_eq!(MIN_SWITCH_INTERVAL_NANOS, 15 * MINUTE);
}

#[test]
fn clock_going_back_counts_as_no_time() {
    let mut a = actor();
    assert!(a.handle(true, 100 * MINUTE).is_some());
    assert!(a.handle(false, 0).is_none());
}
