use vstd::prelude::*;
use crate::synth::adsr::{LEVEL_ONE, step_for, level_of_milli, tick_outcome};

pub use crate::synth::adsr::AdsrStage;

verus! {

/// Fixed attack, decay, sustain, release envelope: 50 ms attack, 400 ms
/// decay to 0.8, 400 ms release; the release ends when the level reaches 0.
///
/// The level is a fixed-point fraction of `LEVEL_ONE`.
pub struct AdsrEnvelope {
    pub stage: AdsrStage,
    pub value: u64,
    pub attack_step: u64,
    pub decay_step: u64,
    pub sustain_level: u64,
    pub release_step: u64,
}

impl AdsrEnvelope {
    /// A silent envelope at `sample_rate` samples per second.
    pub fn new(sample_rate: u32) -> (e: Self)
        ensures
            e.stage == AdsrStage::Off,
            e.value == 0,
            e.attack_step == step_for(1000, 50, sample_rate as int),
            e.decay_step == step_for(200, 400, sample_rate as int),
            e.sustain_level == level_of_milli(800),
            e.release_step == step_for(1000, 400, sample_rate as int),
    {
        let rate = sample_rate as u64;
        let (attack, decay, release) = if rate == 0 {
            (LEVEL_ONE, LEVEL_ONE, LEVEL_ONE)
        } else {
            (1000 * LEVEL_ONE / (50 * rate), 200 * LEVEL_ONE / (400 * rate), 1000 * LEVEL_ONE / (400 * rate))
        };
        Self {
            stage: AdsrStage::Off,
            value: 0,
            attack_step: attack,
            decay_step: decay,
            sustain_level: 800 * LEVEL_ONE / 1000,
            release_step: release,
        }
    }

    /// Starts the attack from the current level.
    pub fn note_on(&mut self)
        ensures
            *final(self) == (Self { stage: AdsrStage::Attack, ..*old(self) }),
    {
        self.stage = AdsrStage::Attack;
    }

    /// Starts the release from the current level.
    pub fn note_off(&mut self)
        ensures
            *final(self) == (Self { stage: AdsrStage::Release, ..*old(self) }),
    {
        self.stage = AdsrStage::Release;
    }

    /// Advances the envelope by one sample and returns the new level.
    pub fn tick(&mut self) -> (r: u64)
        ensures
            (final(self).stage, final(self).value as int) == tick_outcome(
                old(self).stage,
                old(self).value as int,
                old(self).attack_step as int,
                old(self).decay_step as int,
                old(self).sustain_level as int,
                old(self).release_step as int,
                0,
            ),
            r == final(self).value,
            final(self).attack_step == old(self).attack_step,
            final(self).decay_step == old(self).decay_step,
            final(self).sustain_level == old(self).sustain_level,
            final(self).release_step == old(self).release_step,
    {
        match self.stage {
            AdsrStage::Off => self.value = 0,
            AdsrStage::Attack => {
                if self.attack_step >= LEVEL_ONE || self.value >= LEVEL_ONE - self.attack_step {
                    self.value = LEVEL_ONE;
                    self.stage = AdsrStage::Decay;
                } else {
                    self.value = self.value + self.attack_step;
                }
            },
            AdsrStage::Decay => {
                if self.value <= self.sustain_level || self.value - self.sustain_level <= self.decay_step {
                    self.value = self.sustain_level;
                    self.stage = AdsrStage::Sustain;
                } else {
                    self.value = self.value - self.decay_step;
                }
            },
            AdsrStage::Sustain => self.value = self.sustain_level,
            AdsrStage::Release => {
                if self.value <= self.release_step {
                    self.value = 0;
                    self.stage = AdsrStage::Off;
                } else {
                    self.value = self.value - self.release_step;
                }
            },
        }
        self.value
    }
}

} // verus!
