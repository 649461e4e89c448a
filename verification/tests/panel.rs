use synth_core::input::{
    apply_controls, decode_encoder, key_bit, page_button, pot_to_0_05, pot_to_0_1, pot_to_0_10,
    pot_to_0_1_fine, pot_to_octave, pot_to_semi, pot_to_volume, volume_update, PotAverager, POT_MAX,
    POT_MIN,
};
use synth_core::synth::effects::{DisplayPage, EffectState, SynthState};

#[test]
fn volume_mapping() {
    assert_eq!(pot_to_volume(0), 0);
    assert_eq!(pot_to_volume(POT_MIN), 0);
    assert_eq!(pot_to_volume(2054), 0);
    assert_eq!(pot_to_volume(2055), 1);
    assert_eq!(pot_to_volume(7500), 50);
    assert_eq!(pot_to_volume(POT_MAX), 100);
    assert_eq!(pot_to_volume(u32::MAX), 100);
}

#[test]
fn volume_is_monotonic() {
    let mut last = pot_to_volume(0);
    let mut v = 0u32;
    while v <= 14000 {
        let now = pot_to_volume(v);
        assert!(now >= last);
        last = now;
        v += 7;
    }
}

#[test]
fn scaled_mappings() {
    assert_eq!(pot_to_0_1(7500), 500);
    assert_eq!(pot_to_0_1(POT_MAX), 1000);
    assert_eq!(pot_to_0_10(POT_MAX), 10000);
    assert_eq!(pot_to_0_10(2000 + 550), 500);
    assert_eq!(pot_to_0_10(2000 + 1100), 1000);
    assert_eq!(pot_to_semi(POT_MAX), 5000);
    assert_eq!(pot_to_semi(7500), 3000);
    assert_eq!(pot_to_0_1_fine(POT_MAX), 1000);
    assert_eq!(pot_to_0_1_fine(2110), 10);
    assert_eq!(pot_to_0_05(POT_MAX), 500);
    assert_eq!(pot_to_0_05(2110), 5);
}

#[test]
fn octave_thresholds() {
    assert_eq!(pot_to_octave(4999), 0);
    assert_eq!(pot_to_octave(5000), 1000);
    assert_eq!(pot_to_octave(10000), 1000);
    assert_eq!(pot_to_octave(10001), 2000);
}

#[test]
fn encoder_decoding() {
    let t = decode_encoder(0, 5);
    assert_eq!((t.delta, t.rotation, t.last), (5, 1, 4));
    let t = decode_encoder(0, 65533);
    assert_eq!((t.delta, t.rotation, t.last), (-3, 0, 0));
    let t = decode_encoder(10, 2);
    assert_eq!((t.delta, t.rotation, t.last), (-8, -2, 2));
    let t = decode_encoder(65534, 3);
    assert_eq!((t.delta, t.rotation, t.last), (5, 1, 2));
    let t = decode_encoder(100, 100 + 32767);
    assert_eq!((t.delta, t.rotation), (32767, 8191));
    let t = decode_encoder(100, 100 + 32768);
    assert_eq!((t.delta, t.rotation), (-32768, -8192));
}

#[test]
fn encoder_remainder_is_seen_again() {
    let first = decode_encoder(1000, 1011);
    assert_eq!(first.rotation, 2);
    let again = decode_encoder(first.last, 1011);
    assert_eq!(again.delta, 3);
    assert_eq!(again.rotation, 0);
}

#[test]
fn key_bits() {
    assert_eq!(key_bit(0), 1);
    assert_eq!(key_bit(3), 8);
    assert_eq!(key_bit(12), 4096);
    assert_eq!(key_bit(15), 32768);
}

#[test]
fn averaging_four_pots() {
    let mut a = PotAverager::new();
    for i in 0..16u16 {
        a.add([i, 100, 65535, 3]);
    }
    assert_eq!(a.count, 16);
    assert_eq!(a.averages(), [7, 100, 65535, 3]);
}

#[test]
fn preset_list_navigation_by_encoder() {
    let mut s = SynthState::new();
    apply_controls(&mut s, 1, 0, 0, 0, 0, 0);
    assert_eq!(s.idx, 1);
    apply_controls(&mut s, -3, 0, 0, 0, 0, 0);
    assert_eq!(s.idx, 0);
    apply_controls(&mut s, 0, 8, 2, 13000, 13000, 13000);
    assert_eq!(s.idx, 0);
    assert_eq!(s.presets[0].effects[0].eff3, 1000);
}

#[test]
fn effect_list_navigation_and_editing() {
    let mut s = SynthState::new();
    s.next_preset();
    page_button(&mut s, 1);
    assert_eq!(s.page, DisplayPage::EffectList);
    // Waveform: the parameter encoder steps the shape, pot 2 the duty.
    apply_controls(&mut s, 0, 4, 1, 0, 7500, 0);
    assert_eq!(s.presets[1].effects[0].eff3, 2000);
    assert_eq!(s.presets[1].effects[0].eff2, 500);
    // Move to the range effect; it is fresh until its pots pick it up.
    apply_controls(&mut s, 1, 0, 0, 0, 0, 0);
    assert_eq!(s.presets[1].idx, 1);
    assert!(s.presets[1].effects[1].fresh_change2);
    apply_controls(&mut s, 0, 0, 0, 0, 7500, 13000);
    assert_eq!(s.presets[1].effects[1].eff2, 2000);
    apply_controls(&mut s, 0, 0, 0, 0, 10001, 13000);
    assert!(!s.presets[1].effects[1].fresh_change2);
    apply_controls(&mut s, 0, 0, 0, 0, 7500, 13000);
    assert_eq!(s.presets[1].effects[1].eff2, 1000);
    // Envelope: turning the encoder steps the sustain by tenths.
    apply_controls(&mut s, 1, 0, 0, 0, 0, 0);
    apply_controls(&mut s, 0, -4, -1, 2110, 2110, 2110);
    assert_eq!(s.presets[1].effects[2].eff3, 700);
    // Unison: one detent is two voices.
    apply_controls(&mut s, 1, 0, 0, 0, 0, 0);
    apply_controls(&mut s, 0, 4, 1, 0, 0, 13000);
    assert_eq!(s.presets[1].effects[3].eff3, 3000);
    assert_eq!(s.presets[1].effects[3].enabled, EffectState::On);
    // Other presets are untouched.
    assert_eq!(s.presets[0].effects[3].eff3, 1000);
    page_button(&mut s, 0);
    assert_eq!(s.page, DisplayPage::PresetList);
    assert_eq!(s.idx, 1);
}

#[test]
fn fm_and_filter_editing() {
    let mut s = SynthState::new();
    page_button(&mut s, 1);
    for _ in 0..4 {
        apply_controls(&mut s, 1, 0, 0, 0, 0, 0);
    }
    assert_eq!(s.presets[0].idx, 4);
    // Bells' FM ratio 3.5 and amount 4.0 are fresh: pots far away keep them.
    apply_controls(&mut s, 0, 4, 1, 0, 13000, 13000);
    assert_eq!(s.presets[0].effects[4].eff2, 3500);
    assert_eq!(s.presets[0].effects[4].eff3, 1000);
    assert_eq!(s.presets[0].effects[4].enabled, EffectState::On);
    apply_controls(&mut s, 1, 0, 0, 0, 0, 0);
    apply_controls(&mut s, 0, -4, -1, 13000, 13000, 13000);
    assert_eq!(s.presets[0].effects[5].eff3, 2000);
    assert_eq!(s.presets[0].effects[5].enabled, EffectState::On);
}

#[test]
fn volume_stored_only_on_change() {
    assert_eq!(volume_update(0, 7500), Some(50));
    assert_eq!(volume_update(50, 7500), None);
    assert_eq!(volume_update(50, 13000), Some(100));
    assert_eq!(volume_update(16000, 0), Some(0));
}
