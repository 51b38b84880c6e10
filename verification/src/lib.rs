//! Decision logic of a thermostat controller that switches a fridge over MQTT:
//! operating modes, payload decoding, switch timing, configuration start-up,
//! topic subscriptions and broker address handling.
pub mod address;
pub mod controller;
pub mod messages;
pub mod modes;
pub mod text;
pub mod actors;
