use vstd::prelude::*;

verus! {

/// Different types of waveforms that can be generated.
#[derive(Debug, Clone, Copy, PartialEq, Eq, Structural)]
pub enum WaveformType {
    Sine,
    Square,
    Triangle,
    Sawtooth,
    Noise,
    Bounce,
}

/// The shape that a stored 16-bit code selects; unknown codes select `Sine`.
pub open spec fn shape_of_code(value: u16) -> WaveformType {
    if value == 0 {
        WaveformType::Sine
    } else if value == 1 {
        WaveformType::Square
    } else if value == 2 {
        WaveformType::Triangle
    } else if value == 3 {
        WaveformType::Sawtooth
    } else if value == 4 {
        WaveformType::Noise
    } else if value == 5 {
        WaveformType::Bounce
    } else {
        WaveformType::Sine
    }
}

/// The 16-bit code under which a shape is stored.
pub open spec fn code_of_shape(shape: WaveformType) -> u16 {
    match shape {
        WaveformType::Sine => 0,
        WaveformType::Square => 1,
        WaveformType::Triangle => 2,
        WaveformType::Sawtooth => 3,
        WaveformType::Noise => 4,
        WaveformType::Bounce => 5,
    }
}

impl Default for WaveformType {
    fn default() -> (r: Self)
        ensures
            r == WaveformType::Sine,
    {
        WaveformType::Sine
    }
}

impl From<u16> for WaveformType {
    fn from(value: u16) -> (r: Self) {
        match value {
            0 => WaveformType::Sine,
            1 => WaveformType::Square,
            2 => WaveformType::Triangle,
            3 => WaveformType::Sawtooth,
            4 => WaveformType::Noise,
            5 => WaveformType::Bounce,
            _ => WaveformType::Sine,
        }
    }
}

impl vstd::std_specs::convert::FromSpecImpl<u16> for WaveformType {
    open spec fn obeys_from_spec() -> bool {
        true
    }

    open spec fn from_spec(v: u16) -> Self {
        shape_of_code(v)
    }
}

impl From<WaveformType> for u16 {
    fn from(value: WaveformType) -> (r: Self) {
        match value {
            WaveformType::Sine => 0,
            WaveformType::Square => 1,
            WaveformType::Triangle => 2,
            WaveformType::Sawtooth => 3,
            WaveformType::Noise => 4,
            WaveformType::Bounce => 5,
        }
    }
}

impl vstd::std_specs::convert::FromSpecImpl<WaveformType> for u16 {
    open spec fn obeys_from_spec() -> bool {
        true
    }

    open spec fn from_spec(v: WaveformType) -> Self {
        code_of_shape(v)
    }
}

/// Storing a shape as its code and reading the code back gives the shape.
pub proof fn lemma_shape_code_round_trip(shape: WaveformType)
    ensures
        shape_of_code(code_of_shape(shape)) == shape,
{
}

} // verus!
