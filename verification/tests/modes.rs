use rusty_fridge::controller::OperatingMode;
use rusty_fridge::modes::{InputMode, OutputMode};
use std::str::FromStr;

#[test]
fn output_mode_names_choose_their_mode() {
    assert_eq!(OutputMode::from_name("JsonOnOffState"), Some(OutputMode::JsonOnOffState));
    assert_eq!(OutputMode::from_name("JsonBooleanState"), Some(OutputMode::JsonBooleanState));
    assert_eq!(OutputMode::from_name("Integer"), Some(OutputMode::Integer));
    assert_eq!(OutputMode::from_name("Boolean"), Some(OutputMode::Boolean));
    assert_eq!(OutputMode::from_name("OnOff"), Some(OutputMode::OnOff));
}

#[test]
fn output_mode_names_are_case_sensitive() {
    assert_eq!(OutputMode::from_name("onoff"), None);
    assert_eq!(OutputMode::from_name("OnOff "), None);
    assert_eq!(OutputMode::from_name(""), None);
    assert_eq!(OutputMode::from_name("JsonOnOff"), None);
}

#[test]
fn input_mode_names_choose_their_mode() {
    assert_eq!(InputMode::from_name("Raw"), Some(InputMode::Raw));
    assert_eq!(InputMode::from_name("Json"), Some(InputMode::Json));
    assert_eq!(InputMode::from_name("json"), None);
    assert_eq!(InputMode::from_name("Rawx"), None);
}

#[test]
fn modes_parse_through_from_str() {
    assert_eq!(InputMode::from_str("Json"), Ok(InputMode::Json));
    assert_eq!(InputMode::from_str("JSON"), Err(()));
    assert_eq!("JsonOnOffState".parse::<OutputMode>(), Ok(OutputMode::JsonOnOffState));
    assert_eq!("Bool".parse::<OutputMode>(), Err(()));
}

#[test]
fn operating_mode_defaults_to_force_off() {
    assert_eq!(OperatingMode::default(), OperatingMode::ForceOff);
}
