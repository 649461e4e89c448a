use vstd::prelude::*;

verus! {

/// The oscillator that the test tone generator plays.
#[derive(Clone, Copy, PartialEq, Eq, Structural, Debug)]
pub enum TaskSource {
    Pulse,
    Sine,
    Square,
    Triangle,
    Saw,
    Silence,
}

/// The oscillator for a shared mode number: 0 pulse, 1 sine, 2 square,
/// 3 triangle, 4 saw, anything else silence.
pub fn source_for_mode(mode: u32) -> (s: TaskSource)
    ensures
        s == match mode {
            0 => TaskSource::Pulse,
            1 => TaskSource::Sine,
            2 => TaskSource::Square,
            3 => TaskSource::Triangle,
            4 => TaskSource::Saw,
            _ => TaskSource::Silence,
        },
{
    match mode {
        0 => TaskSource::Pulse,
        1 => TaskSource::Sine,
        2 => TaskSource::Square,
        3 => TaskSource::Triangle,
        4 => TaskSource::Saw,
        _ => TaskSource::Silence,
    }
}

} // verus!
