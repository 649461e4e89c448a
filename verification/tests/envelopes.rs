use synth_core::adsr::AdsrEnvelope as FixedEnvelope;
use synth_core::drums::{DrumEnv, DRUM_ONE, KICK_DECAY};
use synth_core::synth::adsr::{AdsrEnvelope, AdsrStage, LEVEL_ONE, RELEASE_FLOOR};

#[test]
fn new_envelope_steps_at_engine_rate() {
    let e = AdsrEnvelope::new(48000);
    assert_eq!(e.stage, AdsrStage::Off);
    assert_eq!(e.value, 0);
    assert_eq!(e.attack_step, 458129844);
    assert_eq!(e.decay_step, 11453246);
    assert_eq!(e.sustain_level, 879609302220);
    assert_eq!(e.release_step, 57266230);
}

#[test]
fn zero_rate_finishes_each_stage_at_once() {
    let mut e = AdsrEnvelope::new(0);
    assert_eq!(e.attack_step, LEVEL_ONE);
    e.note_on();
    assert_eq!(e.tick(), LEVEL_ONE);
    assert_eq!(e.stage, AdsrStage::Decay);
    assert_eq!(e.tick(), e.sustain_level);
    assert_eq!(e.stage, AdsrStage::Sustain);
}

#[test]
fn off_envelope_is_silent() {
    let mut e = AdsrEnvelope::new(48000);
    for _ in 0..10 {
        assert_eq!(e.tick(), 0);
        assert_eq!(e.stage, AdsrStage::Off);
    }
}

#[test]
fn full_cycle_through_all_stages() {
    let mut e = AdsrEnvelope::new(48000);
    e.note_on();
    let mut ticks = 0;
    let mut last = 0;
    while e.stage == AdsrStage::Attack {
        let l = e.tick();
        assert!(l >= last);
        last = l;
        ticks += 1;
    }
    assert_eq!(ticks, 2401);
    assert_eq!(e.value, LEVEL_ONE);
    assert_eq!(e.stage, AdsrStage::Decay);

    let mut ticks = 0;
    while e.stage == AdsrStage::Decay {
        let l = e.tick();
        assert!(l <= last);
        last = l;
        ticks += 1;
    }
    assert_eq!(ticks, 19201);
    assert_eq!(e.stage, AdsrStage::Sustain);
    assert_eq!(e.value, 879609302220);
    assert_eq!(e.tick(), 879609302220);

    e.note_off();
    assert_eq!(e.stage, AdsrStage::Release);
    let mut ticks = 0;
    while e.stage == AdsrStage::Release {
        let l = e.tick();
        assert!(l <= last);
        last = l;
        ticks += 1;
    }
    assert_eq!(e.value, 0);
    assert_eq!(e.stage, AdsrStage::Off);
    assert_eq!(ticks, (879609302220u64 - RELEASE_FLOOR - 1) / 57266230 + 1);
}

#[test]
fn level_stays_in_range_over_a_note() {
    let mut e = AdsrEnvelope::new(48000);
    e.set_params(10, 20, 300, 30);
    e.note_on();
    for i in 0..20000 {
        if i == 5000 {
            e.note_off();
        }
        let l = e.tick();
        assert!(l <= LEVEL_ONE);
    }
    assert_eq!(e.stage, AdsrStage::Off);
}

#[test]
fn set_params_matches_constructor_defaults() {
    let fresh = AdsrEnvelope::new(48000);
    let mut e = AdsrEnvelope::new(48000);
    e.set_params(50, 400, 800, 400);
    assert_eq!(e.attack_step, fresh.attack_step);
    assert_eq!(e.decay_step, fresh.decay_step);
    assert_eq!(e.sustain_level, fresh.sustain_level);
    assert_eq!(e.release_step, fresh.release_step);
}

#[test]
fn set_params_floors_times_and_clamps_sustain() {
    let mut e = AdsrEnvelope::new(48000);
    e.set_params(0, -3, 1200, 0);
    assert_eq!(e.attack_step, 22906492245);
    assert_eq!(e.release_step, 22906492245);
    assert_eq!(e.sustain_level, LEVEL_ONE);
    assert_eq!(e.decay_step, -4581298449);
    e.set_params(1000, 1000, -500, 1000);
    assert_eq!(e.sustain_level, 0);
    assert_eq!(e.decay_step, 34359738);
}

#[test]
fn rising_decay_never_reaches_sustain() {
    let mut e = AdsrEnvelope::new(48000);
    e.set_params(1, 1, 1200, 1);
    e.note_on();
    while e.stage == AdsrStage::Attack {
        e.tick();
    }
    assert_eq!(e.stage, AdsrStage::Decay);
    let before = e.value;
    e.tick();
    assert_eq!(e.value, before + 4581298449);
    assert_eq!(e.stage, AdsrStage::Decay);
}

#[test]
fn note_on_keeps_level() {
    let mut e = AdsrEnvelope::new(48000);
    e.note_on();
    for _ in 0..100 {
        e.tick();
    }
    e.note_off();
    let l = e.value;
    e.note_on();
    assert_eq!(e.stage, AdsrStage::Attack);
    assert_eq!(e.value, l);
    assert_eq!(e.tick(), l + 458129844);
}

#[test]
fn fixed_envelope_releases_to_zero() {
    let mut e = FixedEnvelope::new(48000);
    assert_eq!(e.attack_step, 458129844);
    e.note_on();
    while e.stage != AdsrStage::Sustain {
        e.tick();
    }
    assert_eq!(e.value, 879609302220);
    e.note_off();
    let mut ticks = 0;
    while e.stage != AdsrStage::Off {
        e.tick();
        ticks += 1;
    }
    assert_eq!(e.value, 0);
    assert_eq!(ticks, (879609302220u64 + 57266229) / 57266230);
}

#[test]
fn drum_envelope_decays_and_goes_idle() {
    let mut d = DrumEnv::new(KICK_DECAY);
    assert_eq!(d.tick(), 0);
    assert!(!d.active);
    d.trigger();
    assert_eq!(d.value, DRUM_ONE);
    assert_eq!(d.tick(), 1099346701031);
    let mut last = d.value;
    let mut ticks = 1;
    while d.active {
        let l = d.tick();
        assert!(l <= last);
        last = l;
        ticks += 1;
    }
    assert_eq!(d.value, 0);
    assert_eq!(ticks, 61398);
    assert_eq!(d.tick(), 0);
}

#[test]
fn drum_envelope_with_growing_factor_saturates() {
    let mut d = DrumEnv::new(u32::MAX);
    d.trigger();
    for _ in 0..10 {
        d.tick();
    }
    assert_eq!(d.value, u64::MAX);
    assert!(d.active);
}

#[test]
fn release_ends_within_its_bound() {
    let mut e = AdsrEnvelope::new(48000);
    e.note_on();
    for _ in 0..3000 {
        e.tick();
    }
    e.note_off();
    let bound = (LEVEL_ONE - RELEASE_FLOOR) / e.release_step + 1;
    assert!(bound <= 20000);
    for _ in 0..bound {
        e.tick();
    }
    assert_eq!(e.stage, AdsrStage::Off);
    for _ in 0..100 {
        assert_eq!(e.tick(), 0);
        assert_eq!(e.stage, AdsrStage::Off);
    }
}
