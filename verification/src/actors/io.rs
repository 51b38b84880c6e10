use vstd::prelude::*;
use vstd::utf8::{valid_utf8, decode_utf8};
use crate::messages::{single_topic, MqttPublish, QoS, SubscribeTopic};
use crate::modes::{InputMode, OutputMode};

verus! {

/// Least time between two switches of the output, in nanoseconds (15 minutes).
pub const MIN_SWITCH_INTERVAL_NANOS: u64 = 900_000_000_000;

/// Time taken to have passed since the last switch when there was none yet, in
/// nanoseconds (one hour).
pub const UNKNOWN_ELAPSED_NANOS: u64 = 3_600_000_000_000;

/// Nanoseconds since the last switch at `now`; a clock reading before the last switch
/// counts as no time at all.
pub open spec fn elapsed_since(prev_time: Option<u64>, now: u64) -> int {
    match prev_time {
        None => UNKNOWN_ELAPSED_NANOS as int,
        Some(t) => if now >= t { now - t } else { 0 },
    }
}

/// The output is switched when the wanted state differs from the last one sent (or
/// none was sent) and at least the minimum interval has passed since the last switch.
pub open spec fn switch_due(prev_output: Option<bool>, prev_time: Option<u64>, output: bool, now: u64) -> bool {
    prev_output != Some(output) && elapsed_since(prev_time, now) >= MIN_SWITCH_INTERVAL_NANOS
}

/// The payload that switches the output on (`"1"`) or off (`"0"`).
pub open spec fn switch_payload(output: bool) -> Seq<u8> {
    if output { seq![0x31u8] } else { seq![0x30u8] }
}

/// Decides when the fridge output is switched, from the controller's wanted output
/// and a monotonic clock in nanoseconds.
pub struct OutputActor {
    pub output_topic: String,
    pub state_output_topic: String,
    pub output_mode: OutputMode,
    pub prev_output: Option<bool>,
    pub prev_time: Option<u64>,
}

impl OutputActor {
    /// An output that has never been switched.
    pub fn new(output_topic: String, state_output_topic: String, output_mode: OutputMode) -> (actor: OutputActor)
        ensures
            actor.output_topic == output_topic,
            actor.state_output_topic == state_output_topic,
            actor.output_mode == output_mode,
            actor.prev_output is None,
            actor.prev_time is None,
    {
        OutputActor { output_topic, state_output_topic, output_mode, prev_output: None, prev_time: None }
    }

    /// Handles a controller result: `output` is whether the controller output is above
    /// the threshold, `now` the clock. Where a switch is due, returns the message that
    /// switches the output and records `output` and `now` as the last switch; otherwise
    /// returns nothing and changes nothing.
    pub fn handle(&mut self, output: bool, now: u64) -> (publish: Option<MqttPublish>)
        ensures
            (final(self).prev_output, final(self).prev_time, publish is Some)
                == output_step(old(self).prev_output, old(self).prev_time, output, now),
            final(self).output_topic == old(self).output_topic,
            final(self).state_output_topic == old(self).state_output_topic,
            final(self).output_mode == old(self).output_mode,
            switch_due(old(self).prev_output, old(self).prev_time, output, now) ==> {
                &&& publish matches Some(p)
                &&& p.topic@ == old(self).output_topic@
                &&& p.payload@ == switch_payload(output)
                &&& !p.retain
                &&& final(self).prev_output == Some(output)
                &&& final(self).prev_time == Some(now)
            },
            !switch_due(old(self).prev_output, old(self).prev_time, output, now) ==> {
                &&& publish is None
                &&& final(self).prev_output == old(self).prev_output
                &&& final(self).prev_time == old(self).prev_time
            },
    {
        let changed = match self.prev_output {
            None => true,
            Some(b) => b != output,
        };
        let dt: u64 = match self.prev_time {
            None => UNKNOWN_ELAPSED_NANOS,
            Some(t) => now.saturating_sub(t),
        };
        if changed && dt >= MIN_SWITCH_INTERVAL_NANOS {
            let mut payload: Vec<u8> = Vec::new();
            if output {
                payload.push(0x31u8);
            } else {
                payload.push(0x30u8);
            }
            assert(payload@ =~= switch_payload(output));
            self.prev_output = Some(output);
            self.prev_time = Some(now);
            Some(MqttPublish { topic: self.output_topic.clone(), payload, retain: false })
        } else {
            None
        }
    }
}

/// The text of a raw temperature payload: the payload decoded as UTF-8, less its first
/// character where that is a double quote; nothing where the payload is not UTF-8.
pub open spec fn raw_temperature_text(payload: Seq<u8>) -> Option<Seq<char>> {
    if valid_utf8(payload) {
        let text = decode_utf8(payload);
        Some(if text.len() > 0 && text[0] == '"' { text.drop_first() } else { text })
    } else {
        None
    }
}

/// `std::str::from_utf8`: the bytes read as text where they are well-formed UTF-8,
/// `None` where they are not. Its contract claims that std's notion of well-formed is
/// vstd's `valid_utf8` and that the text holds the characters that `decode_utf8` reads.
#[verifier::external_body]
fn utf8_text(bytes: &[u8]) -> (text: Option<&str>)
    ensures
        text is Some <==> valid_utf8(bytes@),
        text matches Some(s) ==> s@ == decode_utf8(bytes@),
{
    std::str::from_utf8(bytes).ok()
}

/// What a temperature message carries, ready for the number to be read from it.
#[derive(Debug, Clone)]
pub enum TemperatureInput {
    /// Text of a decimal number.
    Text(String),
    /// A JSON document with a `temperature` field.
    Json(Vec<u8>),
}

/// Receives temperature readings on the input topic.
pub struct InputActor {
    pub input_topic: String,
    pub input_mode: InputMode,
}

impl InputActor {
    pub fn new(input_topic: String, input_mode: InputMode) -> (actor: InputActor)
        ensures
            actor.input_topic == input_topic,
            actor.input_mode == input_mode,
    {
        InputActor { input_topic, input_mode }
    }

    /// The topics subscribed to at start: the input topic, at least once.
    pub fn started(&self) -> (topics: Vec<SubscribeTopic>)
        ensures
            topics@.len() == 1,
            topics@[0].topic_path@ == self.input_topic@,
            topics@[0].qos == QoS::AtLeastOnce,
    {
        single_topic(&self.input_topic)
    }

    /// The reading carried by a message on the input topic: in raw mode its text as
    /// `raw_temperature_text` gives it, or nothing where the payload is not UTF-8; in
    /// JSON mode the payload itself, to be read as a JSON document.
    pub fn handle(&self, payload: &[u8]) -> (input: Option<TemperatureInput>)
        ensures
            match self.input_mode {
                InputMode::Raw => match raw_temperature_text(payload@) {
                    Some(text) => input matches Some(TemperatureInput::Text(s)) && s@ == text,
                    None => input is None,
                },
                InputMode::Json => input matches Some(TemperatureInput::Json(bytes)) && bytes@ == payload@,
            },
    {
        match self.input_mode {
            InputMode::Raw => match utf8_text(payload) {
                Some(s) => {
                    let n: usize = s.unicode_len();
                    if n > 0 && s.get_char(0) == '"' {
                        let rest = s.substring_char(1, n);
                        assert(rest@ =~= s@.drop_first());
                        Some(TemperatureInput::Text(rest.to_owned()))
                    } else {
                        Some(TemperatureInput::Text(s.to_owned()))
                    }
                },
                None => None,
            },
            InputMode::Json => Some(TemperatureInput::Json(vstd::slice::slice_to_vec(payload))),
        }
    }
}

/// The last switch after handling `output` at `now` where the last switch was
/// `prev_output` at `prev_time`, and whether the output was switched.
pub open spec fn output_step(prev_output: Option<bool>, prev_time: Option<u64>, output: bool, now: u64)
    -> (Option<bool>, Option<u64>, bool)
{
    if switch_due(prev_output, prev_time, output, now) {
        (Some(output), Some(now), true)
    } else {
        (prev_output, prev_time, false)
    }
}

/// The first controller result always switches the output, whatever the clock says.
pub proof fn law_first_result_switches(output: bool, now: u64)
    ensures
        switch_due(None, None, output, now),
{
}

/// Two switches in a row lie at least the minimum interval apart and go to different
/// states.
pub proof fn law_switches_are_spaced(
    prev_output: Option<bool>,
    prev_time: Option<u64>,
    first: bool,
    first_at: u64,
    second: bool,
    second_at: u64,
)
    ensures
        ({
            let (o1, t1, switched1) = output_step(prev_output, prev_time, first, first_at);
            let (o2, t2, switched2) = output_step(o1, t1, second, second_at);
            switched1 && switched2 ==> second_at >= first_at + MIN_SWITCH_INTERVAL_NANOS && second != first
        }),
{
}

/// Once switched to a state, the same controller result never switches it again.
pub proof fn law_same_result_switches_once(
    prev_output: Option<bool>,
    prev_time: Option<u64>,
    output: bool,
    first_at: u64,
    later_at: u64,
)
    ensures
        ({
            let (o1, t1, switched1) = output_step(prev_output, prev_time, output, first_at);
            switched1 ==> !output_step(o1, t1, output, later_at).2
        }),
{
}

/// A switch that is due stays due while time passes without another switch.
pub proof fn law_due_switch_stays_due(
    prev_output: Option<bool>,
    prev_time: Option<u64>,
    output: bool,
    now: u64,
    later: u64,
)
    requires
        now <= later,
    ensures
        switch_due(prev_output, prev_time, output, now) ==> switch_due(prev_output, prev_time, output, later),
{
}

/// The output switches to the wanted state exactly when the last state sent is not that
/// state (or none was sent) and, since the last switch, at least the minimum interval
/// has passed on a clock that has not gone back (an hour counts as passed where there
/// was no switch yet); a switch records the wanted state and the time.
pub proof fn law_switch_exactly_when_changed_and_waited(
    prev_output: Option<bool>,
    prev_time: Option<u64>,
    output: bool,
    now: u64,
)
    ensures
        output_step(prev_output, prev_time, output, now).2 <==> ({
            &&& (prev_output is None || prev_output == Some(!output))
            &&& match prev_time {
                None => true,
                Some(t) => now >= t && now - t >= 900_000_000_000,
            }
        }),
        output_step(prev_output, prev_time, output, now).2 ==>
            output_step(prev_output, prev_time, output, now).0 == Some(output)
            && output_step(prev_output, prev_time, output, now).1 == Some(now),
        !output_step(prev_output, prev_time, output, now).2 ==>
            output_step(prev_output, prev_time, output, now).0 == prev_output
            && output_step(prev_output, prev_time, output, now).1 == prev_time,
{
    if let Some(b) = prev_output {
        assert(b != output <==> b == !output);
    }
}

/// Either state can follow the other: after a switch to one state at `t`, the opposite
/// state is switched to at any time at least the minimum interval later.
pub proof fn law_switches_both_ways(
    prev_output: Option<bool>,
    prev_time: Option<u64>,
    first: bool,
    t: u64,
    later: u64,
)
    requires
        later >= t + 900_000_000_000,
    ensures
        output_step(prev_output, prev_time, first, t).2 ==> {
            let (o1, t1, _) = output_step(prev_output, prev_time, first, t);
            output_step(o1, t1, !first, later) == (Some(!first), Some(later), true)
        },
{
}

/// A raw payload that is UTF-8 is passed on as its text, less a leading double quote
/// and nothing else: every other first character (a minus sign, a digit, ...) stays.
pub proof fn law_raw_text_drops_only_a_leading_quote(payload: Seq<u8>)
    ensures
        !valid_utf8(payload) ==> raw_temperature_text(payload) is None,
        valid_utf8(payload) && !(decode_utf8(payload).len() > 0 && decode_utf8(payload)[0] == '"')
            ==> raw_temperature_text(payload) == Some(decode_utf8(payload)),
        valid_utf8(payload) && decode_utf8(payload).len() > 0 && decode_utf8(payload)[0] == '"'
            ==> (raw_temperature_text(payload) matches Some(text)
                && seq!['"'] + text == decode_utf8(payload)),
{
    if valid_utf8(payload) && decode_utf8(payload).len() > 0 && decode_utf8(payload)[0] == '"' {
        let t = decode_utf8(payload);
        assert(seq!['"'] + t.drop_first() =~= t);
    }
}

} // verus!
