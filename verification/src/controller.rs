use vstd::prelude::*;

verus! {

/// How the controller drives its output.
#[derive(Debug, Clone, Copy, PartialEq, Eq, Structural, PartialOrd)]
pub enum OperatingMode {
    ForceOff,
    ForceOn,
    Normal,
}

impl Default for OperatingMode {
    /// A controller that has not been configured keeps its output off.
    fn default() -> (mode: OperatingMode)
        ensures
            mode == OperatingMode::ForceOff,
    {
        OperatingMode::ForceOff
    }
}

} // verus!
