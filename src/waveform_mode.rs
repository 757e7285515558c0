use vstd::prelude::*;

verus! {

/// How a generator spreads its value over the sample points.
///
/// `Dynamic` evaluates every point at its own phase, giving a pattern that
/// travels along the strip; `InPlace` evaluates point 0 once per tick and
/// repeats that value at every point, so the whole strip changes together.
#[derive(Debug, Clone, Copy, PartialEq, Eq, Structural)]
pub enum WaveformMode {
    Dynamic,
    InPlace,
}

/// The mode that a stored 16-bit code selects; unknown codes select `Dynamic`.
pub open spec fn mode_of_code(value: u16) -> WaveformMode {
    if value == 1 {
        WaveformMode::InPlace
    } else {
        WaveformMode::Dynamic
    }
}

/// The 16-bit code under which a mode is stored.
pub open spec fn code_of_mode(mode: WaveformMode) -> u16 {
    match mode {
        WaveformMode::Dynamic => 0,
        WaveformMode::InPlace => 1,
    }
}

impl Default for WaveformMode {
    fn default() -> (r: Self)
        ensures
            r == WaveformMode::Dynamic,
    {
        WaveformMode::Dynamic
    }
}

impl From<u16> for WaveformMode {
    fn from(value: u16) -> (r: Self) {
        match value {
            0 => WaveformMode::Dynamic,
            1 => WaveformMode::InPlace,
            _ => WaveformMode::Dynamic,
        }
    }
}

impl vstd::std_specs::convert::FromSpecImpl<u16> for WaveformMode {
    open spec fn obeys_from_spec() -> bool {
        true
    }

    open spec fn from_spec(v: u16) -> Self {
        mode_of_code(v)
    }
}

impl From<WaveformMode> for u16 {
    fn from(value: WaveformMode) -> (r: Self) {
        match value {
            WaveformMode::Dynamic => 0,
            WaveformMode::InPlace => 1,
        }
    }
}

impl vstd::std_specs::convert::FromSpecImpl<WaveformMode> for u16 {
    open spec fn obeys_from_spec() -> bool {
        true
    }

    open spec fn from_spec(v: WaveformMode) -> Self {
        code_of_mode(v)
    }
}

/// Storing a mode as its code and reading the code back gives the mode.
pub proof fn lemma_mode_code_round_trip(mode: WaveformMode)
    ensures
        mode_of_code(code_of_mode(mode)) == mode,
{
}

} // verus!
