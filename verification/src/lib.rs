//! Control logic of a small polyphonic synthesizer: envelopes, presets and
//! their effect parameters, the step sequencer, front-panel input decoding,
//! voice allocation and screen redraw planning.
//!
//! Continuous quantities are fixed-point integers: effect parameters in
//! thousandths, envelope levels as fractions of `synth::adsr::LEVEL_ONE`.

pub mod adsr;
pub mod audio;
pub mod drums;
pub mod input;
pub mod synth;
pub mod task_manager;
pub mod video;
