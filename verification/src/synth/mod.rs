pub mod adsr;
pub mod effects;
pub mod sequencer;
