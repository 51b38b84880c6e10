use vstd::prelude::*;
use crate::messages::{single_topic, MqttPublish, QoS, SubscribeTopic};

verus! {

/// Seconds to wait for a retained configuration before publishing the defaults.
pub const CONFIG_TIMEOUT_SECS: u64 = 5;

/// Waits for the controller configuration on the configuration topic and, where none
/// comes in time, publishes the default configuration there, retained.
pub struct ConfigActor {
    pub config_topic: String,
    pub got_message: bool,
}

impl ConfigActor {
    /// An actor that has not yet seen a configuration message.
    pub fn new(config_topic: String) -> (actor: ConfigActor)
        ensures
            actor.config_topic == config_topic,
            !actor.got_message,
    {
        ConfigActor { config_topic, got_message: false }
    }

    /// The topics subscribed to at start: the configuration topic, at least once. The
    /// timeout is due `CONFIG_TIMEOUT_SECS` later.
    pub fn started(&self) -> (topics: Vec<SubscribeTopic>)
        ensures
            topics@.len() == 1,
            topics@[0].topic_path@ == self.config_topic@,
            topics@[0].qos == QoS::AtLeastOnce,
    {
        single_topic(&self.config_topic)
    }

    /// At the timeout: where no configuration message came, the message that publishes
    /// `defaults` (the serialised default settings) on the configuration topic, retained;
    /// otherwise nothing.
    pub fn on_timeout(&self, defaults: Vec<u8>) -> (publish: Option<MqttPublish>)
        ensures
            !self.got_message ==> (publish matches Some(p) && p.topic@ == self.config_topic@
                && p.payload@ == defaults@ && p.retain),
            self.got_message ==> publish is None,
    {
        if !self.got_message {
            Some(MqttPublish { topic: self.config_topic.clone(), payload: defaults, retain: true })
        } else {
            None
        }
    }

    /// Notes that a message came on the configuration topic, whether or not it holds
    /// valid settings.
    pub fn handle(&mut self)
        ensures
            final(self).got_message,
            final(self).config_topic == old(self).config_topic,
    {
        self.got_message = true;
    }
}

} // verus!
