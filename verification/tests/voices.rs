use synth_core::audio::{
    apply_envelope_params, note_freq_centi_hz, process_keys, FilterTap, FrameParams, MainSource,
    Voice, Wave, NO_KEY, NOTES_NUM,
};
use synth_core::audio::{dac_word, dynamic_cutoff, CUTOFF_ONE};
use synth_core::synth::adsr::{AdsrStage, LEVEL_ONE};
use synth_core::synth::effects::{Preset, SynthState};
use synth_core::task_manager::{source_for_mode, TaskSource};

fn bank() -> [Voice; 5] {
    [Voice::new(), Voice::new(), Voice::new(), Voice::new(), Voice::new()]
}

#[test]
fn note_table_ends() {
    assert_eq!(note_freq_centi_hz(0), 6541);
    assert_eq!(note_freq_centi_hz(33), 44000);
    assert_eq!(note_freq_centi_hz(NOTES_NUM - 1), 69846);
}

#[test]
fn new_voice_is_idle() {
    let v = Voice::new();
    assert_eq!(v.adsr.stage, AdsrStage::Off);
    assert_eq!(v.active_key, NO_KEY);
}

#[test]
fn key_down_takes_first_free_voice() {
    let mut vs = bank();
    process_keys(&mut vs, 0, 1 << 4, 2, 1);
    assert_eq!(vs[0].adsr.stage, AdsrStage::Attack);
    assert_eq!(vs[0].active_key, 4);
    assert_eq!(vs[0].active_note, 2 * 12 + 1 + 4);
    assert_eq!(vs[1].adsr.stage, AdsrStage::Off);
    process_keys(&mut vs, 1 << 4, (1 << 4) | 1, 0, 0);
    assert_eq!(vs[1].active_key, 0);
    assert_eq!(vs[1].active_note, 0);
    assert_eq!(vs[0].active_key, 4);
}

#[test]
fn sixth_key_finds_no_voice() {
    let mut vs = bank();
    process_keys(&mut vs, 0, 0b11_1111, 0, 0);
    for v in 0..5 {
        assert_eq!(vs[v].active_key, v);
        assert_eq!(vs[v].adsr.stage, AdsrStage::Attack);
    }
}

#[test]
fn key_up_releases_its_voice() {
    let mut vs = bank();
    process_keys(&mut vs, 0, 0b111, 1, 0);
    process_keys(&mut vs, 0b111, 0b101, 1, 0);
    assert_eq!(vs[1].adsr.stage, AdsrStage::Release);
    assert_eq!(vs[1].active_key, NO_KEY);
    assert_eq!(vs[1].active_note, 13);
    assert_eq!(vs[0].adsr.stage, AdsrStage::Attack);
    assert_eq!(vs[2].active_key, 2);
    // A released voice is not free until its envelope is off.
    process_keys(&mut vs, 0b101, 0b1101, 1, 0);
    assert_eq!(vs[3].active_key, 3);
    assert_eq!(vs[1].active_key, NO_KEY);
}

#[test]
fn equal_masks_change_nothing() {
    let mut vs = bank();
    process_keys(&mut vs, 0b1, 0b1, 0, 0);
    assert_eq!(vs[0].adsr.stage, AdsrStage::Off);
}

#[test]
fn released_voice_is_reused_after_it_goes_off() {
    let mut vs = bank();
    let params = FrameParams::from_preset(&Preset::new("x"));
    apply_envelope_params(&mut vs, &FrameParams { rel: 1, ..params });
    process_keys(&mut vs, 0, 1, 0, 0);
    process_keys(&mut vs, 1, 0, 0, 0);
    assert_eq!(vs[0].adsr.stage, AdsrStage::Release);
    while vs[0].adsr.stage != AdsrStage::Off {
        vs[0].adsr.tick();
    }
    process_keys(&mut vs, 0, 1 << 7, 0, 0);
    assert_eq!(vs[0].active_key, 7);
}

#[test]
fn frame_params_of_factory_presets() {
    let s = SynthState::new();
    let f = FrameParams::from_preset(&s.presets[0]);
    assert_eq!(f.mode, 1);
    assert_eq!(f.octave, 2);
    assert_eq!(f.semi, 0);
    assert_eq!((f.atk, f.dcy, f.sus, f.rel), (0, 0, 1000, 1000));
    assert_eq!(f.unison_voices, 1);
    assert_eq!(f.fm_ratio, 3500);
    assert_eq!(f.fm_shape, 0);
    assert_eq!(f.fm_amt, 4000);
    assert_eq!(f.filter_type, 3);
    assert!(f.fm_enabled());
    assert_eq!(f.main_source(), MainSource::Table(Wave::Sine));
    assert_eq!(f.modulator_wave(), Wave::Sine);
    assert_eq!(f.filter_tap(), FilterTap::Bypass);

    let cat = FrameParams::from_preset(&s.presets[3]);
    assert_eq!(cat.mode, 3);
    assert_eq!(cat.main_source(), MainSource::Table(Wave::Saw));
    assert_eq!(cat.filter_tap(), FilterTap::LowPass);
    assert!(!cat.fm_enabled());
    assert_eq!((cat.cutoff, cat.res, cat.filter_env), (200, 850, 500));

    let chorus = FrameParams::from_preset(&s.presets[4]);
    assert_eq!(chorus.unison_voices, 3);
    assert_eq!(chorus.detune, 10);
}

#[test]
fn frame_param_decisions() {
    let base = FrameParams::from_preset(&Preset::new("x"));
    assert_eq!(FrameParams { mode: 0, ..base }.main_source(), MainSource::Pulse);
    assert_eq!(FrameParams { mode: 2, ..base }.main_source(), MainSource::Table(Wave::Triangle));
    assert_eq!(FrameParams { mode: 9, ..base }.main_source(), MainSource::Silent);
    assert_eq!(FrameParams { fm_shape: 1, ..base }.modulator_wave(), Wave::Triangle);
    assert_eq!(FrameParams { fm_shape: 2, ..base }.modulator_wave(), Wave::Saw);
    assert_eq!(FrameParams { filter_type: 1, ..base }.filter_tap(), FilterTap::HighPass);
    assert_eq!(FrameParams { filter_type: 2, ..base }.filter_tap(), FilterTap::BandPass);
    assert_eq!(FrameParams { filter_type: 7, ..base }.filter_tap(), FilterTap::Raw);
    assert!(!FrameParams { fm_ratio: 0, fm_amt: 5, ..base }.fm_enabled());
    let mut p = Preset::new("neg");
    p.effects[0].eff3 = -2500;
    p.effects[3].eff3 = 2999;
    let f = FrameParams::from_preset(&p);
    assert_eq!(f.mode, 0);
    assert_eq!(f.unison_voices, 2);
}

#[test]
fn envelope_params_reach_every_voice() {
    let mut vs = bank();
    let params = FrameParams::from_preset(&Preset::new("x"));
    apply_envelope_params(&mut vs, &FrameParams { atk: 1, ..params });
    for v in vs.iter() {
        assert_eq!(v.adsr.attack_step, 22906492245);
    }
}

#[test]
fn tone_generator_modes() {
    assert_eq!(source_for_mode(0), TaskSource::Pulse);
    assert_eq!(source_for_mode(1), TaskSource::Sine);
    assert_eq!(source_for_mode(2), TaskSource::Square);
    assert_eq!(source_for_mode(3), TaskSource::Triangle);
    assert_eq!(source_for_mode(4), TaskSource::Saw);
    assert_eq!(source_for_mode(5), TaskSource::Silence);
}

#[test]
fn cutoff_follows_envelope() {
    let one = LEVEL_ONE as i64;
    assert_eq!(dynamic_cutoff(200, LEVEL_ONE, 500), 700 * one);
    assert_eq!(dynamic_cutoff(200, LEVEL_ONE / 2, 500), 450 * one);
    assert_eq!(dynamic_cutoff(900, LEVEL_ONE, 500), CUTOFF_ONE);
    assert_eq!(dynamic_cutoff(200, LEVEL_ONE, -2000), 0);
    assert_eq!(dynamic_cutoff(200, 0, 500), 200 * one);
    assert_eq!(dynamic_cutoff(333, LEVEL_ONE / 3, 1), 333 * one + (LEVEL_ONE / 3) as i64);
    assert_eq!(dynamic_cutoff(-50, 0, 0), 0);
}

#[test]
fn converter_words() {
    assert_eq!(dac_word(0), 0);
    assert_eq!(dac_word(1234), 1234);
    assert_eq!(dac_word(30000), 20000);
    assert_eq!(dac_word(-1), 65535);
    assert_eq!(dac_word(-30000), 45536);
    assert_eq!(dac_word(i32::MIN), 45536);
}

/// No key is ever played by two voices, and a voice playing a key is in
/// attack, decay or sustain, whatever the keyboard does.
#[test]
fn voices_stay_consistent_with_the_keyboard() {
    let mut vs = bank();
    let masks: [u16; 10] = [0b1, 0b11, 0b10, 0b1110, 0b1_0000_0001, 0, 0b111_1111, 0b101_0101, 0b1, 0];
    let mut last = 0u16;
    for (round, &m) in masks.iter().enumerate() {
        process_keys(&mut vs, last, m, 1, 2);
        last = m;
        for _ in 0..(round * 3000) {
            for v in vs.iter_mut() {
                v.adsr.tick();
            }
        }
        for a in 0..5 {
            if vs[a].active_key != NO_KEY {
                assert!(vs[a].active_key < 13);
                assert!(m & (1 << vs[a].active_key) != 0);
                assert!(matches!(
                    vs[a].adsr.stage,
                    AdsrStage::Attack | AdsrStage::Decay | AdsrStage::Sustain
                ));
                for b in 0..5 {
                    if a != b {
                        assert_ne!(vs[a].active_key, vs[b].active_key);
                    }
                }
            }
        }
    }
}

#[test]
fn huge_range_is_fine_when_no_key_goes_down() {
    let mut vs = bank();
    process_keys(&mut vs, 0, 1, 0, 0);
    process_keys(&mut vs, 1, 0, usize::MAX / 12, usize::MAX);
    assert_eq!(vs[0].adsr.stage, AdsrStage::Release);
}
