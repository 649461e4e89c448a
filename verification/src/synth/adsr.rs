use vstd::prelude::*;

verus! {

/// Full scale of an envelope level: a level of `LEVEL_ONE` stands for 1.0.
pub const LEVEL_ONE: u64 = 1099511627776;

/// Levels at or below this one (0.0001 of full scale) end a release.
pub const RELEASE_FLOOR: u64 = 109951162;

/// The sample rate that `AdsrEnvelope::set_params` works with, in Hz.
pub const ENGINE_RATE: u64 = 48000;

/// Parameters given in thousandths of a second are never shorter than this.
pub const MIN_TIME_MILLI: i32 = 1;

/// The stage an envelope is in.
#[derive(Clone, Copy, PartialEq, Eq, Structural, Debug)]
pub enum AdsrStage {
    Off,
    Attack,
    Decay,
    Sustain,
    Release,
}

/// Per-sample level change of a stage that moves the level by `rise_milli`
/// thousandths of full scale in `time_milli` thousandths of a second at
/// `rate` samples per second; a zero rate finishes the stage at once.
pub open spec fn step_for(rise_milli: int, time_milli: int, rate: int) -> int {
    if rate == 0 {
        LEVEL_ONE as int
    } else {
        rise_milli * LEVEL_ONE / (time_milli * rate)
    }
}

/// Division that rounds toward zero, as integer division does in Rust.
pub open spec fn div_toward_zero(num: int, den: int) -> int {
    if num >= 0 {
        num / den
    } else {
        -((-num) / den)
    }
}

/// `x` clamped into `[lo, hi]`.
pub open spec fn clamp_int(x: int, lo: int, hi: int) -> int {
    if x < lo {
        lo
    } else if x > hi {
        hi
    } else {
        x
    }
}

/// A level given in thousandths of full scale, as an envelope level.
pub open spec fn level_of_milli(milli: int) -> int {
    milli * LEVEL_ONE / 1000
}

/// Stage and level after one sample, from the stage and level before it
/// and the envelope's steps; `floor` is the level that ends a release.
pub open spec fn tick_outcome(
    stage: AdsrStage,
    level: int,
    attack: int,
    decay: int,
    sustain: int,
    release: int,
    floor: int,
) -> (AdsrStage, int) {
    match stage {
        AdsrStage::Off => (AdsrStage::Off, 0),
        AdsrStage::Attack => {
            if level + attack >= LEVEL_ONE {
                (AdsrStage::Decay, LEVEL_ONE as int)
            } else {
                (AdsrStage::Attack, level + attack)
            }
        },
        AdsrStage::Decay => {
            if level - decay <= sustain {
                (AdsrStage::Sustain, sustain)
            } else if level - decay > u64::MAX {
                (AdsrStage::Decay, u64::MAX as int)
            } else {
                (AdsrStage::Decay, level - decay)
            }
        },
        AdsrStage::Sustain => (AdsrStage::Sustain, sustain),
        AdsrStage::Release => {
            if level - release <= floor {
                (AdsrStage::Off, 0)
            } else {
                (AdsrStage::Release, level - release)
            }
        },
    }
}

/// The envelope after `set_params(atk, dcy, sus, rel)`: times in thousandths
/// of a second, at least 1; the sustain level clamped into `[0, 1000]`
/// thousandths; the decay computed from the unclamped sustain level.
pub open spec fn with_params(e: AdsrEnvelope, atk: i32, dcy: i32, sus: i32, rel: i32) -> AdsrEnvelope {
    AdsrEnvelope {
        attack_step: step_for(1000, clamp_int(atk as int, 1, i32::MAX as int), ENGINE_RATE as int) as u64,
        decay_step: div_toward_zero(
            (1000 - sus) * LEVEL_ONE,
            clamp_int(dcy as int, 1, i32::MAX as int) * ENGINE_RATE,
        ) as i64,
        sustain_level: level_of_milli(clamp_int(sus as int, 0, 1000)) as u64,
        release_step: step_for(1000, clamp_int(rel as int, 1, i32::MAX as int), ENGINE_RATE as int) as u64,
        ..e
    }
}

/// Attack, decay, sustain, release envelope of one voice.
///
/// The level is a fixed-point fraction of `LEVEL_ONE`; each stage moves it by
/// a fixed step per sample.
#[derive(Clone, Copy, Debug)]
pub struct AdsrEnvelope {
    pub stage: AdsrStage,
    pub value: u64,
    pub attack_step: u64,
    pub decay_step: i64,
    pub sustain_level: u64,
    pub release_step: u64,
}

/// Per-sample step of a stage, computed with a possibly zero rate.
fn stage_step(rise_milli: u64, time_milli: u64, rate: u64) -> (r: u64)
    requires
        rise_milli <= 1000,
        1 <= time_milli <= 1000,
        rate <= u32::MAX,
    ensures
        r == step_for(rise_milli as int, time_milli as int, rate as int),
{
    if rate == 0 {
        LEVEL_ONE
    } else {
        assert(rise_milli * LEVEL_ONE <= 1000 * LEVEL_ONE) by (nonlinear_arith)
            requires rise_milli <= 1000;
        assert(1 <= time_milli * rate <= 1000 * u32::MAX) by (nonlinear_arith)
            requires 1 <= time_milli <= 1000, 1 <= rate <= u32::MAX;
        rise_milli * LEVEL_ONE / (time_milli * rate)
    }
}

impl AdsrEnvelope {
    /// Current level.
    pub open spec fn level(&self) -> int {
        self.value as int
    }

    /// The level lies in `[0, LEVEL_ONE]` and stays there: the sustain level
    /// is at most full scale and the decay does not raise the level.
    pub open spec fn bounded(&self) -> bool {
        &&& 0 <= self.level() <= LEVEL_ONE
        &&& 0 <= self.sustain_level <= LEVEL_ONE
        &&& self.decay_step >= 0
    }

    /// A silent envelope with a 50 ms attack, 400 ms decay to a sustain
    /// level of 0.8, and a 400 ms release, at `sample_rate` samples per second.
    pub fn new(sample_rate: u32) -> (e: Self)
        ensures
            e.stage == AdsrStage::Off,
            e.level() == 0,
            e.attack_step == step_for(1000, 50, sample_rate as int),
            e.decay_step == step_for(200, 400, sample_rate as int),
            e.sustain_level == level_of_milli(800),
            e.release_step == step_for(1000, 400, sample_rate as int),
            e.bounded(),
    {
        let rate = sample_rate as u64;
        let decay = stage_step(200, 400, rate);
        assert(decay <= LEVEL_ONE) by (nonlinear_arith)
            requires decay == step_for(200, 400, rate as int), rate >= 0;
        Self {
            stage: AdsrStage::Off,
            value: 0,
            attack_step: stage_step(1000, 50, rate),
            decay_step: decay as i64,
            sustain_level: 800 * LEVEL_ONE / 1000,
            release_step: stage_step(1000, 400, rate),
        }
    }

    /// Starts the attack from the current level.
    pub fn note_on(&mut self)
        ensures
            old(self).bounded() ==> final(self).bounded(),
            final(self).stage == AdsrStage::Attack,
            final(self).level() == old(self).level(),
            final(self).attack_step == old(self).attack_step,
            final(self).decay_step == old(self).decay_step,
            final(self).sustain_level == old(self).sustain_level,
            final(self).release_step == old(self).release_step,
    {
        self.stage = AdsrStage::Attack;
    }

    /// Starts the release from the current level.
    pub fn note_off(&mut self)
        ensures
            old(self).bounded() ==> final(self).bounded(),
            final(self).stage == AdsrStage::Release,
            final(self).level() == old(self).level(),
            final(self).attack_step == old(self).attack_step,
            final(self).decay_step == old(self).decay_step,
            final(self).sustain_level == old(self).sustain_level,
            final(self).release_step == old(self).release_step,
    {
        self.stage = AdsrStage::Release;
    }

    /// Sets attack, decay and release times in thousandths of a second
    /// (at least `MIN_TIME_MILLI` each) and the sustain level in thousandths
    /// of full scale (clamped to `[0, 1000]`), at `ENGINE_RATE`. The decay
    /// step is computed from the unclamped sustain level.
    pub fn set_params(&mut self, atk: i32, dcy: i32, sus: i32, rel: i32)
        ensures
            old(self).bounded() && 0 <= sus <= 1000 ==> final(self).bounded(),
            *final(self) == with_params(*old(self), atk, dcy, sus, rel),
    {
        let atk_t: u64 = if atk < MIN_TIME_MILLI { 1 } else { atk as u64 };
        let dcy_t: u64 = if dcy < MIN_TIME_MILLI { 1 } else { dcy as u64 };
        let rel_t: u64 = if rel < MIN_TIME_MILLI { 1 } else { rel as u64 };
        let sus_c: u64 = if sus < 0 { 0 } else if sus > 1000 { 1000 } else { sus as u64 };

        assert(1 <= atk_t * ENGINE_RATE <= i32::MAX * ENGINE_RATE) by (nonlinear_arith)
            requires 1 <= atk_t <= i32::MAX;
        assert(1 <= rel_t * ENGINE_RATE <= i32::MAX * ENGINE_RATE) by (nonlinear_arith)
            requires 1 <= rel_t <= i32::MAX;
        assert(1 <= dcy_t * ENGINE_RATE <= i32::MAX * ENGINE_RATE) by (nonlinear_arith)
            requires 1 <= dcy_t <= i32::MAX;
        self.attack_step = 1000 * LEVEL_ONE / (atk_t * ENGINE_RATE);
        self.release_step = 1000 * LEVEL_ONE / (rel_t * ENGINE_RATE);

        let den: i64 = (dcy_t * ENGINE_RATE) as i64;
        let rise: i128 = 1000 - sus as i128;
        assert(-(i32::MAX * LEVEL_ONE) <= rise * LEVEL_ONE <= (1000 + 0x8000_0000) * LEVEL_ONE)
            by (nonlinear_arith)
            requires -(i32::MAX as int) <= rise <= 1000 + 0x8000_0000;
        let num: i128 = rise * (LEVEL_ONE as i128);
        let den128: i128 = den as i128;
        let q: i128 = if num >= 0 {
            num / den128
        } else {
            -((-num) / den128)
        };
        assert(-(i32::MAX * LEVEL_ONE) <= q <= (1000 + 0x8000_0000) * LEVEL_ONE) by {
            if num >= 0 {
                vstd::arithmetic::div_mod::lemma_div_is_ordered_by_denominator(num as int, 1, den128 as int);
                vstd::arithmetic::div_mod::lemma_div_basics(num as int);
            } else {
                vstd::arithmetic::div_mod::lemma_div_is_ordered_by_denominator((-num) as int, 1, den128 as int);
                vstd::arithmetic::div_mod::lemma_div_basics((-num) as int);
            }
        }
        self.decay_step = q as i64;

        assert(sus_c * LEVEL_ONE <= 1000 * LEVEL_ONE) by (nonlinear_arith)
            requires sus_c <= 1000;
        self.sustain_level = sus_c * LEVEL_ONE / 1000;
    }

    /// Advances the envelope by one sample and returns the new level.
    pub fn tick(&mut self) -> (r: u64)
        ensures
            old(self).bounded() ==> final(self).bounded(),
            (final(self).stage, final(self).level()) == tick_outcome(
                old(self).stage,
                old(self).level(),
                old(self).attack_step as int,
                old(self).decay_step as int,
                old(self).sustain_level as int,
                old(self).release_step as int,
                RELEASE_FLOOR as int,
            ),
            r == final(self).level(),
            final(self).attack_step == old(self).attack_step,
            final(self).decay_step == old(self).decay_step,
            final(self).sustain_level == old(self).sustain_level,
            final(self).release_step == old(self).release_step,
    {
        match self.stage {
            AdsrStage::Off => self.value = 0,
            AdsrStage::Attack => {
                if self.attack_step >= LEVEL_ONE || self.value >= LEVEL_ONE - self.attack_step {
                    self.value = LEVEL_ONE;
                    self.stage = AdsrStage::Decay;
                } else {
                    self.value = self.value + self.attack_step;
                }
            },
            AdsrStage::Decay => {
                if self.decay_step >= 0 {
                    let step = self.decay_step as u64;
                    if self.value <= self.sustain_level || self.value - self.sustain_level <= step {
                        self.value = self.sustain_level;
                        self.stage = AdsrStage::Sustain;
                    } else {
                        self.value = self.value - step;
                    }
                } else {
                    let rise: u64 = if self.decay_step == i64::MIN {
                        0x8000_0000_0000_0000
                    } else {
                        (-self.decay_step) as u64
                    };
                    if self.value <= self.sustain_level && self.sustain_level - self.value >= rise {
                        self.value = self.sustain_level;
                        self.stage = AdsrStage::Sustain;
                    } else if self.value > u64::MAX - rise {
                        self.value = u64::MAX;
                    } else {
                        self.value = self.value + rise;
                    }
                }
            },
            AdsrStage::Sustain => self.value = self.sustain_level,
            AdsrStage::Release => {
                if self.value <= RELEASE_FLOOR || self.value - RELEASE_FLOOR <= self.release_step {
                    self.value = 0;
                    self.stage = AdsrStage::Off;
                } else {
                    self.value = self.value - self.release_step;
                }
            },
        }
        self.value
    }
}

} // verus!

verus! {

/// One sample of an envelope whose level is in `[0, LEVEL_ONE]`, whose
/// sustain level is at most full scale and whose decay does not raise the
/// level leaves the level in `[0, LEVEL_ONE]`.
pub proof fn lemma_tick_keeps_level_in_range(
    stage: AdsrStage,
    level: int,
    attack: int,
    decay: int,
    sustain: int,
    release: int,
    floor: int,
)
    requires
        0 <= level <= LEVEL_ONE,
        0 <= sustain <= LEVEL_ONE,
        decay >= 0,
        attack >= 0,
        release >= 0,
        floor >= 0,
    ensures
        0 <= tick_outcome(stage, level, attack, decay, sustain, release, floor).1 <= LEVEL_ONE,
{
}

/// Stages only move forward: attack to decay, decay to sustain, release to
/// off; off and sustain are kept. Only `note_on` and `note_off` start an
/// attack or a release.
pub proof fn lemma_tick_stage_order(
    stage: AdsrStage,
    level: int,
    attack: int,
    decay: int,
    sustain: int,
    release: int,
    floor: int,
)
    ensures
        ({
            let next = tick_outcome(stage, level, attack, decay, sustain, release, floor).0;
            match stage {
                AdsrStage::Off => next == AdsrStage::Off,
                AdsrStage::Attack => next == AdsrStage::Attack || next == AdsrStage::Decay,
                AdsrStage::Decay => next == AdsrStage::Decay || next == AdsrStage::Sustain,
                AdsrStage::Sustain => next == AdsrStage::Sustain,
                AdsrStage::Release => next == AdsrStage::Release || next == AdsrStage::Off,
            }
        }),
{
}

/// While attacking the level never falls; while decaying (with a falling
/// decay) or releasing it never rises.
pub proof fn lemma_tick_level_direction(
    stage: AdsrStage,
    level: int,
    attack: int,
    decay: int,
    sustain: int,
    release: int,
    floor: int,
)
    requires
        0 <= level <= LEVEL_ONE,
        attack >= 0,
        decay >= 0,
        release >= 0,
        0 <= sustain,
        0 <= floor,
    ensures
        ({
            let next = tick_outcome(stage, level, attack, decay, sustain, release, floor).1;
            &&& stage == AdsrStage::Attack ==> next >= level
            &&& (stage == AdsrStage::Decay && level >= sustain) ==> next <= level
            &&& stage == AdsrStage::Release ==> next <= level
        }),
{
}

} // verus!

verus! {

/// Stage and level after `n` samples; see `tick_outcome`.
pub open spec fn ticks_outcome(
    stage: AdsrStage,
    level: int,
    attack: int,
    decay: int,
    sustain: int,
    release: int,
    floor: int,
    n: nat,
) -> (AdsrStage, int)
    decreases n,
{
    if n == 0 {
        (stage, level)
    } else {
        let t = tick_outcome(stage, level, attack, decay, sustain, release, floor);
        ticks_outcome(t.0, t.1, attack, decay, sustain, release, floor, (n - 1) as nat)
    }
}

/// An envelope that is off stays off and silent.
pub proof fn lemma_off_stays_off(
    attack: int,
    decay: int,
    sustain: int,
    release: int,
    floor: int,
    level: int,
    n: nat,
)
    ensures
        n > 0 ==> ticks_outcome(AdsrStage::Off, level, attack, decay, sustain, release, floor, n)
            == (AdsrStage::Off, 0int),
    decreases n,
{
    if n > 0 {
        assert(ticks_outcome(AdsrStage::Off, level, attack, decay, sustain, release, floor, n)
            == ticks_outcome(AdsrStage::Off, 0, attack, decay, sustain, release, floor, (n - 1) as nat));
        if n > 1 {
            lemma_off_stays_off(attack, decay, sustain, release, floor, 0, (n - 1) as nat);
        }
    }
}

/// A release that `n` steps would carry to the floor has ended after `n`
/// samples.
proof fn lemma_release_ends_after(
    level: int,
    attack: int,
    decay: int,
    sustain: int,
    release: int,
    floor: int,
    n: nat,
)
    requires
        release > 0,
        n >= 1,
        n * release >= level - floor,
    ensures
        ticks_outcome(AdsrStage::Release, level, attack, decay, sustain, release, floor, n) == (
            AdsrStage::Off,
            0int,
        ),
    decreases n,
{
    assert(ticks_outcome(AdsrStage::Release, level, attack, decay, sustain, release, floor, n)
        == {
        let t = tick_outcome(AdsrStage::Release, level, attack, decay, sustain, release, floor);
        ticks_outcome(t.0, t.1, attack, decay, sustain, release, floor, (n - 1) as nat)
    });
    if level - release <= floor {
        lemma_off_stays_off(attack, decay, sustain, release, floor, 0, (n - 1) as nat);
    } else {
        assert(n >= 2) by (nonlinear_arith)
            requires n * release >= level - floor, level - release > floor, release > 0, n >= 1;
        assert((n - 1) * release >= (level - release) - floor) by (nonlinear_arith)
            requires n * release >= level - floor;
        lemma_release_ends_after(level - release, attack, decay, sustain, release, floor, (n - 1) as nat);
    }
}

/// A release from a level in `[0, LEVEL_ONE]` with a positive step ends:
/// after `(LEVEL_ONE - floor) / release + 1` samples, and at every later
/// sample, the envelope is off with level zero.
pub proof fn lemma_release_reaches_off(
    level: int,
    attack: int,
    decay: int,
    sustain: int,
    release: int,
    floor: int,
    n: nat,
)
    requires
        0 <= level <= LEVEL_ONE,
        0 <= floor <= LEVEL_ONE,
        release > 0,
        n >= (LEVEL_ONE - floor) / release + 1,
    ensures
        ticks_outcome(AdsrStage::Release, level, attack, decay, sustain, release, floor, n) == (
            AdsrStage::Off,
            0int,
        ),
{
    let d = LEVEL_ONE - floor;
    let q = d / release;
    assert(q * release + d % release == d && 0 <= d % release < release) by {
        vstd::arithmetic::div_mod::lemma_fundamental_div_mod(d, release);
    }
    assert(n * release >= (q + 1) * release) by (nonlinear_arith)
        requires n >= q + 1, release > 0;
    assert((q + 1) * release == q * release + release) by (nonlinear_arith);
    assert(n * release >= level - floor);
    lemma_release_ends_after(level, attack, decay, sustain, release, floor, n);
}

} // verus!

verus! {

/// An envelope made by `AdsrEnvelope::new(48000)` and kept bounded (its
/// steps never change under `note_on`, `note_off` and `tick`) is off, with
/// level zero, at every sample from the 20000th after `note_off` on, if no
/// `note_on` or `set_params` comes in between.
pub proof fn lemma_default_release_within_20000(e: AdsrEnvelope, n: nat)
    requires
        e.bounded(),
        e.stage == AdsrStage::Release,
        e.release_step == step_for(1000, 400, 48000),
        n >= 20000,
    ensures
        ticks_outcome(
            e.stage,
            e.level(),
            e.attack_step as int,
            e.decay_step as int,
            e.sustain_level as int,
            e.release_step as int,
            RELEASE_FLOOR as int,
            n,
        ) == (AdsrStage::Off, 0int),
{
    assert(1099511627776000int / 19200000int == 57266230) by (nonlinear_arith);
    assert(step_for(1000, 400, 48000) == 57266230);
    assert((1099511627776int - 109951162int) / 57266230int == 19198) by (nonlinear_arith);
    lemma_release_reaches_off(
        e.level(),
        e.attack_step as int,
        e.decay_step as int,
        e.sustain_level as int,
        e.release_step as int,
        RELEASE_FLOOR as int,
        n,
    );
}

} // verus!
