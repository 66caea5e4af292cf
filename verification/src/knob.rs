use vstd::prelude::*;

verus! {

/// How a knob's value moves: snapped to a number of evenly spaced steps, or freely.
///
/// The knob views themselves draw with floating point and live outside this library;
/// the mode is the part of their configuration that callers choose and compare.
#[derive(Debug, Clone, Copy, PartialEq, Eq, Structural)]
pub enum KnobMode {
    Discrete(usize),
    Continuous,
}

impl Default for KnobMode {
    /// A knob moves freely unless told otherwise.
    fn default() -> (mode: KnobMode)
        ensures
            mode == KnobMode::Continuous,
    {
        KnobMode::Continuous
    }
}

} // verus!
