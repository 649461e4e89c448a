use vstd::prelude::*;

verus! {

/// Full scale of a drum envelope's level: `DRUM_ONE` stands for 1.0.
pub const DRUM_ONE: u64 = 1099511627776;

/// Levels at or below this one (under 0.0001 of full scale) end a hit.
pub const DRUM_FLOOR: u64 = 109951162;

/// Denominator of a drum envelope's per-sample decay factor.
pub const DECAY_ONE: u64 = 1000000;

/// Decay factor of the kick drum's envelope, in millionths.
pub const KICK_DECAY: u32 = 999850;

/// The level of a drum envelope after one sample: scaled by the decay
/// factor (in millionths, rounded down, at most `u64::MAX`).
pub open spec fn decayed(level: int, decay: int) -> int {
    let v = level * decay / DECAY_ONE as int;
    if v > u64::MAX {
        u64::MAX as int
    } else {
        v
    }
}

/// Exponentially decaying envelope of a drum hit.
///
/// The level is a fixed-point fraction of `DRUM_ONE`; each sample it is
/// multiplied by `decay` millionths until it falls to `DRUM_FLOOR`.
pub struct DrumEnv {
    pub value: u64,
    pub decay: u32,
    pub active: bool,
}

impl DrumEnv {
    /// An idle envelope has level zero.
    pub open spec fn quiet_when_idle(&self) -> bool {
        !self.active ==> self.value == 0
    }

    /// An idle envelope with decay factor `decay` millionths per sample.
    pub fn new(decay: u32) -> (e: Self)
        ensures
            e.value == 0,
            e.decay == decay,
            !e.active,
            e.quiet_when_idle(),
    {
        Self { value: 0, decay: decay, active: false }
    }

    /// Restarts the envelope at full level.
    pub fn trigger(&mut self)
        ensures
            final(self).value == DRUM_ONE,
            final(self).active,
            final(self).decay == old(self).decay,
            final(self).quiet_when_idle(),
    {
        self.value = DRUM_ONE;
        self.active = true;
    }

    /// Advances the envelope by one sample and returns its level. An active
    /// envelope decays; once its level is at most `DRUM_FLOOR` it drops
    /// to zero and goes idle. An idle envelope keeps its level.
    pub fn tick(&mut self) -> (r: u64)
        ensures
            final(self).decay == old(self).decay,
            old(self).active ==> {
                let v = decayed(old(self).value as int, old(self).decay as int);
                if v <= DRUM_FLOOR {
                    final(self).value == 0 && !final(self).active
                } else {
                    final(self).value == v && final(self).active
                }
            },
            !old(self).active ==> *final(self) == *old(self),
            old(self).quiet_when_idle() ==> final(self).quiet_when_idle(),
            r == final(self).value,
    {
        if self.active {
            assert((self.value as u128) * (self.decay as u128) <= 0xffff_ffff_ffff_ffff * 0xffff_ffff)
                by (nonlinear_arith)
                requires self.value <= 0xffff_ffff_ffff_ffffu64, self.decay <= 0xffff_ffffu32;
            let product: u128 = self.value as u128 * self.decay as u128;
            let scaled: u128 = product / (DECAY_ONE as u128);
            self.value = if scaled > u64::MAX as u128 {
                u64::MAX
            } else {
                scaled as u64
            };
            if self.value <= DRUM_FLOOR {
                self.value = 0;
                self.active = false;
            }
        }
        self.value
    }
}

/// A decaying drum envelope never grows, and an idle one stays at zero:
/// with a decay factor of at most one, one sample does not raise the level,
/// and it keeps an idle envelope silent.
pub proof fn lemma_drum_decay(level: int, decay: int)
    requires
        0 <= level,
        0 <= decay <= DECAY_ONE,
    ensures
        0 <= decayed(level, decay) <= level,
{
    assert(level * decay <= level * DECAY_ONE) by (nonlinear_arith)
        requires 0 <= level, 0 <= decay <= DECAY_ONE;
    assert(0 <= level * decay) by (nonlinear_arith)
        requires 0 <= level, 0 <= decay;
    assert(level * decay / DECAY_ONE as int <= level) by (nonlinear_arith)
        requires level * decay <= level * DECAY_ONE, 0 <= level * decay;
}

} // verus!
