//! Integer core of a multi-channel waveform chart that drives a Dotstar
//! (APA102-class) LED strip: shape and mode selectors, the per-point
//! evaluation plan, OR-composition of channel lanes into packed pixel words,
//! protocol marker bits, byte ordering and the encoded wire bytes.

pub mod waveform_type;
pub mod waveform_mode;
pub mod pixel;
pub mod chart;
pub mod waveform;
