use vstd::prelude::*;
use crate::synth::effects::{Effect, Preset, EffectState, EffectType, DisplayPage, PRESETS_NUM, EFFECTS_NUM};

verus! {

/// Marker for "nothing drawn yet" in the remembered selections.
pub const NOTHING_DRAWN: usize = 999;

/// Marker for "nothing drawn yet" in the remembered parameter values
/// (-999.0, in thousandths).
pub const NO_VALUE: i32 = -999000;

/// How a list row is drawn.
#[derive(Clone, Copy, PartialEq, Eq, Structural, Debug)]
pub enum RowStyle {
    /// White on blue.
    Normal,
    /// Blue on white: the selected row.
    Highlight,
    /// Grey on blue: a switched-off effect.
    Disabled,
}

/// One drawing step on the 320x240 screen.
#[derive(Clone, Copy, PartialEq, Eq, Structural, Debug)]
pub enum DrawOp {
    /// Fills the full-width band of `height` pixels from row `y` with blue.
    ClearBand { y: i32, height: u32 },
    /// The name of preset `index`, left-aligned at row `y`.
    PresetRow { index: usize, y: i32, highlighted: bool },
    /// The "Select" footer of the preset list.
    SelectFooter,
    /// The title naming the preset on the effect list.
    PresetTitle,
    /// The line that separates the effect list from the parameter area.
    Separator,
    /// The name of effect `index` at `(x, y)`.
    EffectRow { index: usize, x: i32, y: i32, style: RowStyle },
    /// Column `column` (at `x`) of the parameter area under the effect list:
    /// the parameter's label, and below it its value in thousandths, or a
    /// blank when the parameter is not used.
    ParamColumn { column: usize, x: i32, label: Label, value: Option<i32> },
}

/// The name of a parameter shown under the effect list.
#[derive(Clone, Copy, PartialEq, Eq, Structural, Debug)]
pub enum Label {
    /// The parameter is not used: "--", and no value is shown.
    Unused,
    Duty,
    Shape,
    Octave,
    Semi,
    Attack,
    Decay,
    Sustain,
    Release,
    Voices,
    Detune,
    Ratio,
    Amount,
    Cutoff,
    Res,
    Type,
    Env,
}

/// The labels of the four parameters of an effect kind.
pub open spec fn labels_of(typ: EffectType) -> (Label, Label, Label, Label) {
    match typ {
        EffectType::Waveform => (Label::Unused, Label::Duty, Label::Shape, Label::Unused),
        EffectType::MusicalRange => (Label::Unused, Label::Octave, Label::Unused, Label::Semi),
        EffectType::Envelope => (Label::Attack, Label::Decay, Label::Sustain, Label::Release),
        EffectType::Unison => (Label::Unused, Label::Unused, Label::Voices, Label::Detune),
        EffectType::FMMod => (Label::Unused, Label::Ratio, Label::Shape, Label::Amount),
        EffectType::Filter => (Label::Cutoff, Label::Res, Label::Type, Label::Env),
    }
}

/// The labels of the four parameters of an effect kind.
pub fn effect_labels(typ: EffectType) -> (r: (Label, Label, Label, Label))
    ensures
        r == labels_of(typ),
{
    match typ {
        EffectType::Waveform => (Label::Unused, Label::Duty, Label::Shape, Label::Unused),
        EffectType::MusicalRange => (Label::Unused, Label::Octave, Label::Unused, Label::Semi),
        EffectType::Envelope => (Label::Attack, Label::Decay, Label::Sustain, Label::Release),
        EffectType::Unison => (Label::Unused, Label::Unused, Label::Voices, Label::Detune),
        EffectType::FMMod => (Label::Unused, Label::Ratio, Label::Shape, Label::Amount),
        EffectType::Filter => (Label::Cutoff, Label::Res, Label::Type, Label::Env),
    }
}

/// The text of a parameter label.
pub fn label_text(l: Label) -> (s: &'static str)
    ensures
        s@ == match l {
            Label::Unused => "--"@,
            Label::Duty => "Duty"@,
            Label::Shape => "Shape"@,
            Label::Octave => "Octave"@,
            Label::Semi => "Semi"@,
            Label::Attack => "Attack"@,
            Label::Decay => "Decay"@,
            Label::Sustain => "Sustain"@,
            Label::Release => "Release"@,
            Label::Voices => "Voices"@,
            Label::Detune => "Detune"@,
            Label::Ratio => "Ratio"@,
            Label::Amount => "Amount"@,
            Label::Cutoff => "Cutoff"@,
            Label::Res => "Res"@,
            Label::Type => "Type"@,
            Label::Env => "Env"@,
        },
{
    match l {
        Label::Unused => "--",
        Label::Duty => "Duty",
        Label::Shape => "Shape",
        Label::Octave => "Octave",
        Label::Semi => "Semi",
        Label::Attack => "Attack",
        Label::Decay => "Decay",
        Label::Sustain => "Sustain",
        Label::Release => "Release",
        Label::Voices => "Voices",
        Label::Detune => "Detune",
        Label::Ratio => "Ratio",
        Label::Amount => "Amount",
        Label::Cutoff => "Cutoff",
        Label::Res => "Res",
        Label::Type => "Type",
        Label::Env => "Env",
    }
}

/// The numbered name of an effect kind as the effect list shows it.
pub fn effect_name(typ: EffectType) -> (s: &'static str)
    ensures
        s@ == match typ {
            EffectType::Waveform => "1.Waveform"@,
            EffectType::MusicalRange => "2.Range   "@,
            EffectType::Envelope => "3.Envelope"@,
            EffectType::Unison => "4.Unison  "@,
            EffectType::FMMod => "5.FM Mod  "@,
            EffectType::Filter => "6.Filter  "@,
        },
{
    match typ {
        EffectType::Waveform => "1.Waveform",
        EffectType::MusicalRange => "2.Range   ",
        EffectType::Envelope => "3.Envelope",
        EffectType::Unison => "4.Unison  ",
        EffectType::FMMod => "5.FM Mod  ",
        EffectType::Filter => "6.Filter  ",
    }
}

/// Rows of the preset list to draw for presets `0..n`: all when
/// `force_full`, else the newly and the previously selected one.
pub open spec fn preset_rows(selected: int, last: int, force_full: bool, n: nat) -> Seq<DrawOp>
    decreases n,
{
    if n == 0 {
        seq![]
    } else {
        let i = n - 1;
        preset_rows(selected, last, force_full, (n - 1) as nat) + if force_full || i == selected
            || i == last {
            seq![DrawOp::PresetRow { index: i as usize, y: (40 + i * 20) as i32, highlighted: i == selected }]
        } else {
            seq![]
        }
    }
}

/// Drawing steps of the preset list; a full redraw clears the bands around
/// the list and draws every row and the footer.
pub open spec fn preset_list_ops(selected: int, last: int, force_full: bool) -> Seq<DrawOp> {
    (if force_full {
        seq![DrawOp::ClearBand { y: 0, height: 40 }, DrawOp::ClearBand { y: 120, height: 100 }]
    } else {
        seq![]
    }) + preset_rows(selected, last, force_full, PRESETS_NUM as nat) + (if force_full {
        seq![DrawOp::SelectFooter]
    } else {
        seq![]
    })
}

/// The style of an effect row: the selected row is highlighted, switched-off
/// effects are grey.
pub open spec fn row_style(p: Preset, i: int) -> RowStyle {
    if i == p.idx {
        RowStyle::Highlight
    } else if p.effects@[i].enabled == EffectState::On {
        RowStyle::Normal
    } else {
        RowStyle::Disabled
    }
}

/// Rows of the effect list to draw for effects `0..n`: all when
/// `force_full`, else the newly and the previously selected one. Effects
/// fill columns of five rows, 160 pixels apart, from row 60.
pub open spec fn effect_rows(p: Preset, old_selected: int, force_full: bool, n: nat) -> Seq<DrawOp>
    decreases n,
{
    if n == 0 {
        seq![]
    } else {
        let i = n - 1;
        effect_rows(p, old_selected, force_full, (n - 1) as nat) + if force_full || i == p.idx
            || i == old_selected {
            seq![
                DrawOp::EffectRow {
                    index: i as usize,
                    x: (i / 5 * 160) as i32,
                    y: (60 + i % 5 * 20) as i32,
                    style: row_style(p, i),
                },
            ]
        } else {
            seq![]
        }
    }
}

/// Drawing steps of the effect list of preset `p`. A full redraw clears the
/// title band, the band of the preset row last highlighted (`last_preset`)
/// and the parameter band, and draws the title and the separator. The
/// parameter area is redrawn on a full redraw, a new selection or new values.
pub open spec fn effect_list_ops(
    p: Preset,
    last_preset: int,
    force_full: bool,
    old_selected: int,
    vals_changed: bool,
) -> Seq<DrawOp> {
    (if force_full {
        seq![
            DrawOp::ClearBand { y: 20, height: 40 },
            DrawOp::ClearBand { y: (20 + last_preset * 20) as i32, height: 40 },
            DrawOp::ClearBand { y: 206, height: 34 },
            DrawOp::PresetTitle,
            DrawOp::Separator,
        ]
    } else {
        seq![]
    }) + effect_rows(p, old_selected, force_full, EFFECTS_NUM as nat) + (if force_full
        || p.idx != old_selected || vals_changed {
        detail_ops(p.effects@[p.idx as int])
    } else {
        seq![]
    })
}

/// Column `c` of the parameter area: label `l`, and value `v` unless the
/// parameter is unused.
pub open spec fn param_column(c: int, l: Label, v: i32) -> DrawOp {
    DrawOp::ParamColumn {
        column: c as usize,
        x: (80 * c) as i32,
        label: l,
        value: if l == Label::Unused {
            None
        } else {
            Some(v)
        },
    }
}

/// The four columns of the parameter area for effect `e`, labelled by its
/// kind (see `labels_of`).
pub open spec fn detail_ops(e: Effect) -> Seq<DrawOp> {
    let l = labels_of(e.typ);
    seq![
        param_column(0, l.0, e.eff1),
        param_column(1, l.1, e.eff2),
        param_column(2, l.2, e.eff3),
        param_column(3, l.3, e.eff4),
    ]
}

/// Column `c` of the parameter area; see `param_column`.
fn column_op(c: usize, l: Label, v: i32) -> (op: DrawOp)
    requires
        c < 4,
    ensures
        op == param_column(c as int, l, v),
{
    let value = match l {
        Label::Unused => None,
        _ => Some(v),
    };
    DrawOp::ParamColumn { column: c, x: 80 * c as i32, label: l, value }
}

/// What the screen shows, remembered between frames so that only what
/// changed is redrawn.
pub struct DisplayManager {
    pub last_page: Option<DisplayPage>,
    pub last_preset_idx: usize,
    pub last_effect_idx: usize,
    pub last_eff_vals: [i32; 4],
}

/// The four parameters of the selected effect of `p`.
pub open spec fn values_of(p: Preset) -> [i32; 4] {
    let e = p.effects@[p.idx as int];
    [e.eff1, e.eff2, e.eff3, e.eff4]
}

/// The manager and the drawing steps after `render(presets, selected, page)`.
pub open spec fn render_outcome(
    m: DisplayManager,
    presets: Seq<Preset>,
    selected: int,
    page: DisplayPage,
) -> (DisplayManager, Seq<DrawOp>) {
    let page_changed = m.last_page != Some(page);
    let m1 = if page_changed {
        DisplayManager {
            last_page: Some(page),
            last_preset_idx: NOTHING_DRAWN,
            last_effect_idx: NOTHING_DRAWN,
            last_eff_vals: [NO_VALUE, NO_VALUE, NO_VALUE, NO_VALUE],
        }
    } else {
        m
    };
    match page {
        DisplayPage::PresetList => {
            if page_changed || m1.last_preset_idx != selected {
                (
                    DisplayManager { last_preset_idx: selected as usize, ..m1 },
                    preset_list_ops(selected, m1.last_preset_idx as int, page_changed),
                )
            } else {
                (m1, seq![])
            }
        },
        DisplayPage::EffectList => {
            let p = presets[selected];
            let vals_changed = m1.last_eff_vals != values_of(p);
            if page_changed || m1.last_effect_idx != p.idx || vals_changed {
                (
                    DisplayManager {
                        last_preset_idx: selected as usize,
                        last_effect_idx: p.idx,
                        last_eff_vals: values_of(p),
                        ..m1
                    },
                    effect_list_ops(
                        p,
                        selected,
                        page_changed,
                        m1.last_effect_idx as int,
                        vals_changed,
                    ),
                )
            } else {
                (m1, seq![])
            }
        },
    }
}


impl DisplayManager {
    /// Nothing drawn yet: the next render redraws everything.
    pub fn new() -> (m: Self)
        ensures
            m.last_page is None,
            m.last_preset_idx == NOTHING_DRAWN,
            m.last_effect_idx == NOTHING_DRAWN,
            m.last_eff_vals == [NO_VALUE, NO_VALUE, NO_VALUE, NO_VALUE],
    {
        Self {
            last_page: None,
            last_preset_idx: NOTHING_DRAWN,
            last_effect_idx: NOTHING_DRAWN,
            last_eff_vals: [NO_VALUE, NO_VALUE, NO_VALUE, NO_VALUE],
        }
    }

    /// Plans the drawing of one frame and remembers what it shows. A change
    /// of page redraws the page in full; otherwise only the rows whose
    /// selection changed and, on the effect list, the parameter area when the
    /// selected effect or its values changed.
    pub fn render(&mut self, presets: &[Preset; 5], selected_preset: usize, page: DisplayPage) -> (ops: Vec<DrawOp>)
        requires
            page == DisplayPage::EffectList ==> {
                &&& selected_preset < PRESETS_NUM
                &&& presets@[selected_preset as int].wf()
            },
        ensures
            (*final(self), ops@) == render_outcome(*old(self), presets@, selected_preset as int, page),
    {
        let page_changed = match self.last_page {
            Some(last) => last != page,
            None => true,
        };
        if page_changed {
            self.last_page = Some(page);
            self.last_preset_idx = NOTHING_DRAWN;
            self.last_effect_idx = NOTHING_DRAWN;
            self.last_eff_vals = [NO_VALUE, NO_VALUE, NO_VALUE, NO_VALUE];
        }
        match page {
            DisplayPage::PresetList => {
                if page_changed || self.last_preset_idx != selected_preset {
                    let ops = self.draw_preset_list(selected_preset, page_changed);
                    self.last_preset_idx = selected_preset;
                    ops
                } else {
                    Vec::new()
                }
            },
            DisplayPage::EffectList => {
                let preset = &presets[selected_preset];
                let selected_effect = preset.idx;
                let e = preset.effects[selected_effect];
                let current_vals: [i32; 4] = [e.eff1, e.eff2, e.eff3, e.eff4];
                let effect_changed = self.last_effect_idx != selected_effect;
                let vals_changed = self.last_eff_vals[0] != current_vals[0]
                    || self.last_eff_vals[1] != current_vals[1]
                    || self.last_eff_vals[2] != current_vals[2]
                    || self.last_eff_vals[3] != current_vals[3];
                proof {
                    if !vals_changed {
                        assert(self.last_eff_vals =~= current_vals);
                    }
                }
                if page_changed || effect_changed || vals_changed {
                    self.last_preset_idx = selected_preset;
                    let old_effect = self.last_effect_idx;
                    let ops = self.draw_effect_list(preset, page_changed, old_effect, vals_changed);
                    self.last_effect_idx = selected_effect;
                    self.last_eff_vals = current_vals;
                    ops
                } else {
                    Vec::new()
                }
            },
        }
    }

    /// Plans the preset list: preset `selected` highlighted; without
    /// `force_full` only the rows of `selected` and of the preset highlighted
    /// before are drawn.
    pub fn draw_preset_list(&self, selected: usize, force_full: bool) -> (ops: Vec<DrawOp>)
        ensures
            ops@ == preset_list_ops(selected as int, self.last_preset_idx as int, force_full),
    {
        let mut ops: Vec<DrawOp> = Vec::new();
        if force_full {
            ops.push(DrawOp::ClearBand { y: 0, height: 40 });
            let presets_end_y: i32 = 20 + (PRESETS_NUM as i32 * 20);
            ops.push(DrawOp::ClearBand { y: presets_end_y, height: (220 - presets_end_y) as u32 });
        }
        let ghost head = ops@;
        let mut i: usize = 0;
        while i < PRESETS_NUM
            invariant
                0 <= i <= PRESETS_NUM,
                head == (if force_full {
                    seq![DrawOp::ClearBand { y: 0, height: 40 }, DrawOp::ClearBand { y: 120, height: 100 }]
                } else {
                    seq![]
                }),
                ops@ == head + preset_rows(selected as int, self.last_preset_idx as int, force_full, i as nat),
            decreases PRESETS_NUM - i,
        {
            if force_full || i == selected || i == self.last_preset_idx {
                ops.push(DrawOp::PresetRow { index: i, y: 40 + (i as i32 * 20), highlighted: i == selected });
            }
            i += 1;
            proof {
                assert(ops@ =~= head + preset_rows(selected as int, self.last_preset_idx as int, force_full, i as nat));
            }
        }
        if force_full {
            ops.push(DrawOp::SelectFooter);
        }
        proof {
            assert(ops@ =~= preset_list_ops(selected as int, self.last_preset_idx as int, force_full));
        }
        ops
    }

    /// Plans the effect list of `preset`: its selected effect highlighted;
    /// without `force_full` only the rows of the selected effect and of
    /// `old_selected_effect` are drawn, and the parameter area only when the
    /// selection or the values changed.
    pub fn draw_effect_list(
        &self,
        preset: &Preset,
        force_full: bool,
        old_selected_effect: usize,
        vals_changed: bool,
    ) -> (ops: Vec<DrawOp>)
        requires
            force_full ==> i32::MIN <= (self.last_preset_idx as i32) * 20 && (self.last_preset_idx
                as i32) * 20 + 20 <= i32::MAX,
            (force_full || preset.idx != old_selected_effect || vals_changed) ==> preset.wf(),
        ensures
            ops@ == effect_list_ops(
                *preset,
                (self.last_preset_idx as i32) as int,
                force_full,
                old_selected_effect as int,
                vals_changed,
            ),
    {
        let selected_index = preset.idx;
        let mut ops: Vec<DrawOp> = Vec::new();
        if force_full {
            ops.push(DrawOp::ClearBand { y: 20, height: 40 });
            let row: i32 = self.last_preset_idx as i32;
            ops.push(DrawOp::ClearBand { y: 20 + row * 20, height: 40 });
            ops.push(DrawOp::ClearBand { y: 206, height: 34 });
            ops.push(DrawOp::PresetTitle);
            ops.push(DrawOp::Separator);
        }
        let ghost head = ops@;
        let start_y: i32 = 60;
        let step_y: i32 = 20;
        let mut i: usize = 0;
        while i < EFFECTS_NUM
            invariant
                0 <= i <= EFFECTS_NUM,
                selected_index == preset.idx,
                start_y == 60,
                step_y == 20,
                ops@ == head + effect_rows(*preset, old_selected_effect as int, force_full, i as nat),
            decreases EFFECTS_NUM - i,
        {
            if force_full || i == selected_index || i == old_selected_effect {
                let col = i / 5;
                let row = i % 5;
                let x_pos = col as i32 * 160;
                let y_pos = start_y + (row as i32 * step_y);
                let style = if i == selected_index {
                    RowStyle::Highlight
                } else {
                    match preset.effects[i].enabled {
                        EffectState::On => RowStyle::Normal,
                        EffectState::Off => RowStyle::Disabled,
                    }
                };
                ops.push(DrawOp::EffectRow { index: i, x: x_pos, y: y_pos, style });
            }
            i += 1;
            proof {
                assert(ops@ =~= head + effect_rows(*preset, old_selected_effect as int, force_full, i as nat));
            }
        }
        if force_full || selected_index != old_selected_effect || vals_changed {
            let e = preset.effects[selected_index];
            let labels = effect_labels(e.typ);
            ops.push(column_op(0, labels.0, e.eff1));
            ops.push(column_op(1, labels.1, e.eff2));
            ops.push(column_op(2, labels.2, e.eff3));
            ops.push(column_op(3, labels.3, e.eff4));
        }
        proof {
            assert(ops@ =~= effect_list_ops(
                *preset,
                (self.last_preset_idx as i32) as int,
                force_full,
                old_selected_effect as int,
                vals_changed,
            ));
        }
        ops
    }
}

/// Rendering the same state twice in a row draws nothing the second time.
pub proof fn lemma_render_idempotent(
    m: DisplayManager,
    presets: Seq<Preset>,
    selected: int,
    page: DisplayPage,
)
    requires
        page == DisplayPage::EffectList ==> {
            &&& 0 <= selected < PRESETS_NUM
            &&& presets[selected].wf()
        },
        0 <= selected <= usize::MAX,
        presets.len() == PRESETS_NUM,
    ensures
        render_outcome(render_outcome(m, presets, selected, page).0, presets, selected, page).1
            == Seq::<DrawOp>::empty(),
{
}

} // verus!

verus! {

/// Which parameter columns an effect kind shows a value in: waveform duty
/// and shape; range octave and semitones; all four envelope times; unison
/// voices and detune; FM ratio, shape and amount; all four filter settings.
pub open spec fn column_shows_value(typ: EffectType, k: int) -> bool {
    match typ {
        EffectType::Waveform => k == 1 || k == 2,
        EffectType::MusicalRange => k == 1 || k == 3,
        EffectType::Envelope => true,
        EffectType::Unison => k == 2 || k == 3,
        EffectType::FMMod => k == 1 || k == 2 || k == 3,
        EffectType::Filter => true,
    }
}

/// On the effect list, with the page and the selected effect unchanged, a
/// change of any of the selected effect's four parameters since they were
/// last drawn is redrawn: the plan ends with the four parameter columns,
/// column `k` at `x = 80 * k` showing the current value of parameter `k`
/// (or a blank where the kind does not use it), and the new values are
/// remembered.
pub proof fn lemma_changed_values_are_redrawn(m: DisplayManager, presets: Seq<Preset>, selected: int)
    requires
        0 <= selected < PRESETS_NUM,
        presets.len() == PRESETS_NUM,
        presets[selected].wf(),
        m.last_page == Some(DisplayPage::EffectList),
        m.last_effect_idx == presets[selected].idx,
        ({
            let e = presets[selected].effects@[presets[selected].idx as int];
            m.last_eff_vals@[0] != e.eff1 || m.last_eff_vals@[1] != e.eff2 || m.last_eff_vals@[2]
                != e.eff3 || m.last_eff_vals@[3] != e.eff4
        }),
    ensures
        ({
            let (m2, ops) = render_outcome(m, presets, selected, DisplayPage::EffectList);
            let e = presets[selected].effects@[presets[selected].idx as int];
            let vals = seq![e.eff1, e.eff2, e.eff3, e.eff4];
            &&& m2.last_eff_vals@ == vals
            &&& m2.last_page == Some(DisplayPage::EffectList)
            &&& ops.len() >= 4
            &&& forall|k: int|
                0 <= k < 4 ==> (#[trigger] ops[ops.len() - 4 + k] matches DrawOp::ParamColumn {
                    column,
                    x,
                    value,
                    ..
                } && column == k && x == 80 * k && value == if column_shows_value(e.typ, k) {
                    Some(vals[k])
                } else {
                    None::<i32>
                })
        }),
{
    let p = presets[selected];
    let e = p.effects@[p.idx as int];
    let vals = seq![e.eff1, e.eff2, e.eff3, e.eff4];
    assert(m.last_eff_vals != values_of(p)) by {
        if m.last_eff_vals == values_of(p) {
            assert(m.last_eff_vals@[0] == e.eff1);
            assert(m.last_eff_vals@[1] == e.eff2);
            assert(m.last_eff_vals@[2] == e.eff3);
            assert(m.last_eff_vals@[3] == e.eff4);
        }
    }
    let (m2, ops) = render_outcome(m, presets, selected, DisplayPage::EffectList);
    assert(m2.last_eff_vals@ =~= vals);
    let d = detail_ops(e);
    assert(ops.subrange(ops.len() - 4, ops.len() as int) =~= d);
    assert forall|k: int| 0 <= k < 4 implies (#[trigger] ops[ops.len() - 4 + k] matches DrawOp::ParamColumn {
        column,
        x,
        value,
        ..
    } && column == k && x == 80 * k && value == if column_shows_value(e.typ, k) {
        Some(vals[k])
    } else {
        None::<i32>
    }) by {
        assert(ops[ops.len() - 4 + k] == d[k]);
    }
}

} // verus!
