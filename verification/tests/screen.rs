use synth_core::synth::effects::{DisplayPage, EffectType, SynthState};
use synth_core::video::{
    effect_labels, effect_name, label_text, DisplayManager, DrawOp, Label, RowStyle,
};

#[test]
fn first_frame_draws_whole_preset_list() {
    let s = SynthState::new();
    let mut m = DisplayManager::new();
    let ops = m.render(&s.presets, 0, DisplayPage::PresetList);
    assert_eq!(ops.len(), 8);
    assert_eq!(ops[0], DrawOp::ClearBand { y: 0, height: 40 });
    assert_eq!(ops[1], DrawOp::ClearBand { y: 120, height: 100 });
    assert_eq!(ops[2], DrawOp::PresetRow { index: 0, y: 40, highlighted: true });
    assert_eq!(ops[6], DrawOp::PresetRow { index: 4, y: 120, highlighted: false });
    assert_eq!(ops[7], DrawOp::SelectFooter);
    assert_eq!(m.last_preset_idx, 0);
}

#[test]
fn unchanged_frame_draws_nothing() {
    let s = SynthState::new();
    let mut m = DisplayManager::new();
    m.render(&s.presets, 2, DisplayPage::PresetList);
    assert!(m.render(&s.presets, 2, DisplayPage::PresetList).is_empty());
    m.render(&s.presets, 2, DisplayPage::EffectList);
    assert!(m.render(&s.presets, 2, DisplayPage::EffectList).is_empty());
}

#[test]
fn selection_change_redraws_two_rows() {
    let s = SynthState::new();
    let mut m = DisplayManager::new();
    m.render(&s.presets, 1, DisplayPage::PresetList);
    let ops = m.render(&s.presets, 3, DisplayPage::PresetList);
    assert_eq!(
        ops,
        vec![
            DrawOp::PresetRow { index: 1, y: 60, highlighted: false },
            DrawOp::PresetRow { index: 3, y: 100, highlighted: true },
        ]
    );
}

#[test]
fn effect_list_full_and_partial_redraws() {
    let mut s = SynthState::new();
    let mut m = DisplayManager::new();
    m.render(&s.presets, 1, DisplayPage::PresetList);
    let ops = m.render(&s.presets, 1, DisplayPage::EffectList);
    assert_eq!(ops.len(), 5 + 6 + 4);
    assert_eq!(ops[1], DrawOp::ClearBand { y: 40, height: 40 });
    assert_eq!(ops[3], DrawOp::PresetTitle);
    assert_eq!(ops[4], DrawOp::Separator);
    assert_eq!(ops[5], DrawOp::EffectRow { index: 0, x: 0, y: 60, style: RowStyle::Highlight });
    assert_eq!(ops[6], DrawOp::EffectRow { index: 1, x: 0, y: 80, style: RowStyle::Normal });
    assert_eq!(ops[8], DrawOp::EffectRow { index: 3, x: 0, y: 120, style: RowStyle::Disabled });
    assert_eq!(ops[10], DrawOp::EffectRow { index: 5, x: 160, y: 60, style: RowStyle::Disabled });
    assert_eq!(
        ops[11..].to_vec(),
        vec![
            DrawOp::ParamColumn { column: 0, x: 0, label: Label::Unused, value: None },
            DrawOp::ParamColumn { column: 1, x: 80, label: Label::Duty, value: Some(0) },
            DrawOp::ParamColumn { column: 2, x: 160, label: Label::Shape, value: Some(1000) },
            DrawOp::ParamColumn { column: 3, x: 240, label: Label::Unused, value: None },
        ]
    );

    s.presets[1].next_effect();
    let ops = m.render(&s.presets, 1, DisplayPage::EffectList);
    assert_eq!(
        ops,
        vec![
            DrawOp::EffectRow { index: 0, x: 0, y: 60, style: RowStyle::Normal },
            DrawOp::EffectRow { index: 1, x: 0, y: 80, style: RowStyle::Highlight },
            DrawOp::ParamColumn { column: 0, x: 0, label: Label::Unused, value: None },
            DrawOp::ParamColumn { column: 1, x: 80, label: Label::Octave, value: Some(2000) },
            DrawOp::ParamColumn { column: 2, x: 160, label: Label::Unused, value: None },
            DrawOp::ParamColumn { column: 3, x: 240, label: Label::Semi, value: Some(0) },
        ]
    );

    s.presets[1].effects[1].eff2 = 1000;
    let ops = m.render(&s.presets, 1, DisplayPage::EffectList);
    assert_eq!(
        ops,
        vec![
            DrawOp::EffectRow { index: 1, x: 0, y: 80, style: RowStyle::Highlight },
            DrawOp::ParamColumn { column: 0, x: 0, label: Label::Unused, value: None },
            DrawOp::ParamColumn { column: 1, x: 80, label: Label::Octave, value: Some(1000) },
            DrawOp::ParamColumn { column: 2, x: 160, label: Label::Unused, value: None },
            DrawOp::ParamColumn { column: 3, x: 240, label: Label::Semi, value: Some(0) },
        ]
    );
}

#[test]
fn returning_to_preset_list_redraws_it() {
    let s = SynthState::new();
    let mut m = DisplayManager::new();
    m.render(&s.presets, 0, DisplayPage::EffectList);
    let ops = m.render(&s.presets, 0, DisplayPage::PresetList);
    assert_eq!(ops.len(), 8);
}

#[test]
fn labels_and_names() {
    assert_eq!(
        effect_labels(EffectType::Envelope),
        (Label::Attack, Label::Decay, Label::Sustain, Label::Release)
    );
    assert_eq!(
        effect_labels(EffectType::MusicalRange),
        (Label::Unused, Label::Octave, Label::Unused, Label::Semi)
    );
    assert_eq!(label_text(Label::Unused), "--");
    assert_eq!(label_text(Label::Res), "Res");
    assert_eq!(effect_name(EffectType::FMMod), "5.FM Mod  ");
    assert_eq!(effect_name(EffectType::Waveform), "1.Waveform");
}

#[test]
fn partial_effect_list_ignores_remembered_preset_row() {
    let s = SynthState::new();
    let m = DisplayManager {
        last_page: Some(DisplayPage::EffectList),
        last_preset_idx: usize::MAX,
        last_effect_idx: 0,
        last_eff_vals: [0; 4],
    };
    let ops = m.draw_effect_list(&s.presets[0], false, 2, false);
    assert_eq!(
        ops,
        vec![
            DrawOp::EffectRow { index: 0, x: 0, y: 60, style: RowStyle::Highlight },
            DrawOp::EffectRow { index: 2, x: 0, y: 100, style: RowStyle::Normal },
            DrawOp::ParamColumn { column: 0, x: 0, label: Label::Unused, value: None },
            DrawOp::ParamColumn { column: 1, x: 80, label: Label::Duty, value: Some(0) },
            DrawOp::ParamColumn { column: 2, x: 160, label: Label::Shape, value: Some(1000) },
            DrawOp::ParamColumn { column: 3, x: 240, label: Label::Unused, value: None },
        ]
    );
    let ops = m.draw_effect_list(&s.presets[0], false, 0, false);
    assert_eq!(ops, vec![DrawOp::EffectRow { index: 0, x: 0, y: 60, style: RowStyle::Highlight }]);
}

#[test]
fn full_redraw_clears_the_truncated_preset_row() {
    let s = SynthState::new();
    let m = DisplayManager {
        last_page: Some(DisplayPage::EffectList),
        last_preset_idx: usize::MAX,
        last_effect_idx: 0,
        last_eff_vals: [0; 4],
    };
    let ops = m.draw_effect_list(&s.presets[2], true, 0, false);
    assert_eq!(ops[1], DrawOp::ClearBand { y: 0, height: 40 });
    assert_eq!(ops.len(), 5 + 6 + 4);
    assert_eq!(
        ops[11..].to_vec(),
        vec![
            DrawOp::ParamColumn { column: 0, x: 0, label: Label::Unused, value: None },
            DrawOp::ParamColumn { column: 1, x: 80, label: Label::Duty, value: Some(0) },
            DrawOp::ParamColumn { column: 2, x: 160, label: Label::Shape, value: Some(3000) },
            DrawOp::ParamColumn { column: 3, x: 240, label: Label::Unused, value: None },
        ]
    );
}
