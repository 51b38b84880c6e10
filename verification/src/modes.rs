use vstd::prelude::*;
use crate::text::same_text;

verus! {

/// How the switch state is written to the output topic.
#[derive(Debug, Clone, Copy, PartialEq, Eq, Structural)]
pub enum OutputMode {
    JsonOnOffState,
    JsonBooleanState,
    Integer,
    Boolean,
    OnOff,
}

/// How temperature readings arrive on the input topic.
#[derive(Debug, Clone, Copy, PartialEq, Eq, Structural)]
pub enum InputMode {
    Raw,
    Json,
}

/// The name under which an output mode is chosen: its variant's name.
pub open spec fn output_mode_name(mode: OutputMode) -> Seq<char> {
    match mode {
        OutputMode::JsonOnOffState => "JsonOnOffState"@,
        OutputMode::JsonBooleanState => "JsonBooleanState"@,
        OutputMode::Integer => "Integer"@,
        OutputMode::Boolean => "Boolean"@,
        OutputMode::OnOff => "OnOff"@,
    }
}

/// The name under which an input mode is chosen: its variant's name.
pub open spec fn input_mode_name(mode: InputMode) -> Seq<char> {
    match mode {
        InputMode::Raw => "Raw"@,
        InputMode::Json => "Json"@,
    }
}

/// The output mode chosen by `name`: the one whose variant's name it is exactly.
pub open spec fn output_mode_named(name: Seq<char>) -> Option<OutputMode> {
    if name == "JsonOnOffState"@ {
        Some(OutputMode::JsonOnOffState)
    } else if name == "JsonBooleanState"@ {
        Some(OutputMode::JsonBooleanState)
    } else if name == "Integer"@ {
        Some(OutputMode::Integer)
    } else if name == "Boolean"@ {
        Some(OutputMode::Boolean)
    } else if name == "OnOff"@ {
        Some(OutputMode::OnOff)
    } else {
        None
    }
}

/// The input mode chosen by `name`: the one whose variant's name it is exactly.
pub open spec fn input_mode_named(name: Seq<char>) -> Option<InputMode> {
    if name == "Raw"@ {
        Some(InputMode::Raw)
    } else if name == "Json"@ {
        Some(InputMode::Json)
    } else {
        None
    }
}

impl OutputMode {
    /// The mode whose name is exactly `name` (case matters), if any.
    pub fn from_name(name: &str) -> (mode: Option<OutputMode>)
        ensures
            mode == output_mode_named(name@),
    {
        if same_text(name, "JsonOnOffState") {
            Some(OutputMode::JsonOnOffState)
        } else if same_text(name, "JsonBooleanState") {
            Some(OutputMode::JsonBooleanState)
        } else if same_text(name, "Integer") {
            Some(OutputMode::Integer)
        } else if same_text(name, "Boolean") {
            Some(OutputMode::Boolean)
        } else if same_text(name, "OnOff") {
            Some(OutputMode::OnOff)
        } else {
            None
        }
    }
}

impl InputMode {
    /// The mode whose name is exactly `name` (case matters), if any.
    pub fn from_name(name: &str) -> (mode: Option<InputMode>)
        ensures
            mode == input_mode_named(name@),
    {
        if same_text(name, "Raw") {
            Some(InputMode::Raw)
        } else if same_text(name, "Json") {
            Some(InputMode::Json)
        } else {
            None
        }
    }
}

impl core::str::FromStr for OutputMode {
    type Err = ();

    /// The mode named `s`, as `output_mode_named` reads it; `Err(())` for any other text.
    fn from_str(s: &str) -> (mode: Result<OutputMode, ()>)
        ensures
            mode == match output_mode_named(s@) {
                Some(m) => Ok::<OutputMode, ()>(m),
                None => Err::<OutputMode, ()>(()),
            },
    {
        match OutputMode::from_name(s) {
            Some(m) => Ok(m),
            None => Err(()),
        }
    }
}

impl core::str::FromStr for InputMode {
    type Err = ();

    /// The mode named `s`, as `input_mode_named` reads it; `Err(())` for any other text.
    fn from_str(s: &str) -> (mode: Result<InputMode, ()>)
        ensures
            mode == match input_mode_named(s@) {
                Some(m) => Ok::<InputMode, ()>(m),
                None => Err::<InputMode, ()>(()),
            },
    {
        match InputMode::from_name(s) {
            Some(m) => Ok(m),
            None => Err(()),
        }
    }
}

/// Every output mode is chosen by its own name.
pub proof fn law_output_mode_name_round_trip(m: OutputMode)
    ensures
        output_mode_named(output_mode_name(m)) == Some(m),
{
    reveal_strlit("JsonOnOffState");
    reveal_strlit("JsonBooleanState");
    reveal_strlit("Integer");
    reveal_strlit("Boolean");
    reveal_strlit("OnOff");
    assert("JsonOnOffState"@.len() == 14 && "JsonBooleanState"@.len() == 16);
    assert("Integer"@.len() == 7 && "Boolean"@.len() == 7 && "OnOff"@.len() == 5);
    assert("Integer"@[0] != "Boolean"@[0]);
}

/// Every input mode is chosen by its own name.
pub proof fn law_input_mode_name_round_trip(m: InputMode)
    ensures
        input_mode_named(input_mode_name(m)) == Some(m),
{
    reveal_strlit("Raw");
    reveal_strlit("Json");
    assert("Raw"@.len() != "Json"@.len());
}

/// A name chooses a mode only where it is that mode's name.
pub proof fn law_output_mode_named_only_by_name(name: Seq<char>)
    ensures
        output_mode_named(name) matches Some(m) ==> output_mode_name(m) == name,
{
}

/// A name chooses a mode only where it is that mode's name.
pub proof fn law_input_mode_named_only_by_name(name: Seq<char>)
    ensures
        input_mode_named(name) matches Some(m) ==> input_mode_name(m) == name,
{
}

} // verus!
