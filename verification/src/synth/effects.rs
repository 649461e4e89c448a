use vstd::prelude::*;
use crate::synth::adsr::clamp_int;

verus! {

/// Number of presets the synthesizer holds.
pub const PRESETS_NUM: usize = 5;

/// Number of effects in each preset.
pub const EFFECTS_NUM: usize = 6;

/// What an effect slot controls.
#[derive(Clone, Copy, PartialEq, Eq, Structural, Debug)]
pub enum EffectType {
    Waveform,
    MusicalRange,
    Envelope,
    Unison,
    FMMod,
    Filter,
}

/// Whether an effect is switched on.
#[derive(Clone, Copy, PartialEq, Eq, Structural, Debug)]
pub enum EffectState {
    On,
    Off,
}

/// One effect of a preset with its four parameters.
///
/// Parameters are fixed-point numbers in thousandths of a unit (1000 stands
/// for 1.0). A parameter marked fresh has just been selected on the panel:
/// its potentiometer takes it over only once the reading comes within the
/// change's tolerance of the stored value.
#[derive(Clone, Copy, Debug)]
pub struct Effect {
    pub enabled: EffectState,
    pub typ: EffectType,
    pub fresh_change1: bool,
    pub fresh_change2: bool,
    pub fresh_change4: bool,
    pub eff1: i32,
    pub eff2: i32,
    pub eff3: i32,
    pub eff4: i32,
}

/// `|x|`.
pub open spec fn abs_int(x: int) -> int {
    if x < 0 {
        -x
    } else {
        x
    }
}

/// Freshness and value of one parameter after a potentiometer reading.
///
/// A negative reading means "no reading" and changes nothing. A fresh
/// parameter keeps its value; it becomes stale once the reading is within
/// `delta` of it. A stale parameter takes the reading.
pub open spec fn pickup(fresh: bool, stored: int, reading: int, delta: int) -> (bool, int) {
    if reading < 0 {
        (fresh, stored)
    } else if fresh {
        if abs_int(reading - stored) <= delta {
            (false, stored)
        } else {
            (true, stored)
        }
    } else {
        (false, reading)
    }
}

/// The effect after readings `r1`, `r2`, `r4` of its first, second and
/// fourth parameter, with tolerance `delta`.
pub open spec fn apply_readings(e: Effect, r1: int, r2: int, r4: int, delta: int) -> Effect {
    let s1 = pickup(e.fresh_change1, e.eff1 as int, r1, delta);
    let s2 = pickup(e.fresh_change2, e.eff2 as int, r2, delta);
    let s4 = pickup(e.fresh_change4, e.eff4 as int, r4, delta);
    Effect {
        fresh_change1: s1.0,
        eff1: s1.1 as i32,
        fresh_change2: s2.0,
        eff2: s2.1 as i32,
        fresh_change4: s4.0,
        eff4: s4.1 as i32,
        ..e
    }
}

/// An effect with the given switch, kind and parameters, nothing fresh.
pub open spec fn effect_of(
    enabled: EffectState,
    typ: EffectType,
    eff1: i32,
    eff2: i32,
    eff3: i32,
    eff4: i32,
) -> Effect {
    Effect {
        enabled,
        typ,
        fresh_change1: false,
        fresh_change2: false,
        fresh_change4: false,
        eff1,
        eff2,
        eff3,
        eff4,
    }
}

/// The effect after `Effect::change_waveform(typ, duty)`.
pub open spec fn waveform_changed(e: Effect, typ: int, duty: int) -> Effect {
    apply_readings(Effect { eff3: clamp_int(e.eff3 + typ, 0, 3000) as i32, ..e }, -1, duty, -1, 0)
}

/// The effect after `Effect::change_range(octave, semi)`.
pub open spec fn range_changed(e: Effect, octave: int, semi: int) -> Effect {
    apply_readings(e, -1, octave, semi, 0)
}

/// The effect after `Effect::change_envelope(atk, dcy, sus, rel)`.
pub open spec fn envelope_changed(e: Effect, atk: int, dcy: int, sus: int, rel: int) -> Effect {
    apply_readings(Effect { eff3: clamp_int(e.eff3 + sus, 0, 1000) as i32, ..e }, atk, dcy, rel, 10)
}

/// The effect after `Effect::change_unison(voices, detune)`.
pub open spec fn unison_changed(e: Effect, voices: int, detune: int) -> Effect {
    apply_readings(
        Effect {
            eff3: clamp_int(e.eff3 + 2 * voices, 0, 5000) as i32,
            enabled: if e.eff3 + 2 * voices == 0 {
                EffectState::Off
            } else {
                EffectState::On
            },
            ..e
        },
        -1,
        -1,
        detune,
        0,
    )
}

/// The effect after `Effect::change_fmmod(ratio, wave, amount)`.
pub open spec fn fmmod_changed(e: Effect, ratio: int, wave: int, amount: int) -> Effect {
    apply_readings(
        Effect {
            eff3: clamp_int(e.eff3 + wave, 0, 2000) as i32,
            enabled: if amount == 0 || ratio == 0 {
                EffectState::Off
            } else {
                EffectState::On
            },
            ..e
        },
        -1,
        ratio,
        amount,
        0,
    )
}

/// The effect after `Effect::change_filter(cutoff, resonance, typ, envelope)`.
pub open spec fn filter_changed(
    e: Effect,
    cutoff: int,
    resonance: int,
    typ: int,
    envelope: int,
) -> Effect {
    apply_readings(
        Effect {
            eff3: clamp_int(e.eff3 + typ, 0, 3000) as i32,
            enabled: if clamp_int(e.eff3 + typ, 0, 3000) == 3000 {
                EffectState::Off
            } else {
                EffectState::On
            },
            ..e
        },
        cutoff,
        resonance,
        envelope,
        100,
    )
}

/// `x` moved by `by` and clamped into `[0, hi]`, as an `i32`.
fn shift_clamped(x: i32, by: i64, hi: i32) -> (r: i32)
    requires
        0 <= hi,
        -0x1_0000_0000 <= by <= 0x1_0000_0000,
    ensures
        r == clamp_int(x + by, 0, hi as int),
{
    let t: i64 = x as i64 + by;
    if t < 0 {
        0
    } else if t > hi as i64 {
        hi
    } else {
        t as i32
    }
}

/// New freshness and value of one parameter; see `pickup`.
fn pickup_exec(fresh: bool, stored: i32, reading: i32, delta: i32) -> (r: (bool, i32))
    ensures
        (r.0, r.1 as int) == pickup(fresh, stored as int, reading as int, delta as int),
{
    if reading >= 0 {
        if fresh {
            let d: i64 = reading as i64 - stored as i64;
            let ad: i64 = if d < 0 { -d } else { d };
            if ad <= delta as i64 {
                (false, stored)
            } else {
                (true, stored)
            }
        } else {
            (false, reading)
        }
    } else {
        (fresh, stored)
    }
}

impl Effect {
    /// An effect with the given switch, kind and parameters, nothing fresh.
    pub fn new(
        enabled: EffectState,
        typ: EffectType,
        eff1: i32,
        eff2: i32,
        eff3: i32,
        eff4: i32,
    ) -> (e: Effect)
        ensures
            e == effect_of(enabled, typ, eff1, eff2, eff3, eff4),
    {
        Self {
            enabled,
            typ,
            fresh_change1: false,
            fresh_change2: false,
            fresh_change4: false,
            eff1,
            eff2,
            eff3,
            eff4,
        }
    }

    /// Marks the first, second and fourth parameter fresh.
    pub fn fresh(&mut self)
        ensures
            *final(self) == (Effect {
                fresh_change1: true,
                fresh_change2: true,
                fresh_change4: true,
                ..*old(self)
            }),
    {
        self.fresh1();
        self.fresh2();
        self.fresh4();
    }

    /// Marks the first parameter fresh.
    pub fn fresh1(&mut self)
        ensures
            *final(self) == (Effect { fresh_change1: true, ..*old(self) }),
    {
        self.fresh_change1 = true;
    }

    /// Marks the first parameter stale.
    pub fn stale1(&mut self)
        ensures
            *final(self) == (Effect { fresh_change1: false, ..*old(self) }),
    {
        self.fresh_change1 = false;
    }

    /// Marks the second parameter fresh.
    pub fn fresh2(&mut self)
        ensures
            *final(self) == (Effect { fresh_change2: true, ..*old(self) }),
    {
        self.fresh_change2 = true;
    }

    /// Marks the second parameter stale.
    pub fn stale2(&mut self)
        ensures
            *final(self) == (Effect { fresh_change2: false, ..*old(self) }),
    {
        self.fresh_change2 = false;
    }

    /// Marks the fourth parameter fresh.
    pub fn fresh4(&mut self)
        ensures
            *final(self) == (Effect { fresh_change4: true, ..*old(self) }),
    {
        self.fresh_change4 = true;
    }

    /// Marks the fourth parameter stale.
    pub fn stale4(&mut self)
        ensures
            *final(self) == (Effect { fresh_change4: false, ..*old(self) }),
    {
        self.fresh_change4 = false;
    }

    /// Switches the effect on.
    pub fn enable(&mut self)
        ensures
            *final(self) == (Effect { enabled: EffectState::On, ..*old(self) }),
    {
        self.enabled = EffectState::On;
    }

    /// Switches the effect off.
    pub fn disable(&mut self)
        ensures
            *final(self) == (Effect { enabled: EffectState::Off, ..*old(self) }),
    {
        self.enabled = EffectState::Off;
    }

    /// Applies potentiometer readings of the first, second and fourth
    /// parameter (negative: no reading) with tolerance `delta`.
    pub fn change_eff(&mut self, eff1: i32, eff2: i32, eff4: i32, delta: i32)
        ensures
            *final(self) == apply_readings(*old(self), eff1 as int, eff2 as int, eff4 as int, delta as int),
    {
        let (f1, v1) = pickup_exec(self.fresh_change1, self.eff1, eff1, delta);
        let (f2, v2) = pickup_exec(self.fresh_change2, self.eff2, eff2, delta);
        let (f4, v4) = pickup_exec(self.fresh_change4, self.eff4, eff4, delta);
        self.fresh_change1 = f1;
        self.eff1 = v1;
        self.fresh_change2 = f2;
        self.eff2 = v2;
        self.fresh_change4 = f4;
        self.eff4 = v4;
    }

    /// Steps the wave shape (third parameter, kept in `[0, 3000]`) by `typ`
    /// and reads the duty cycle into the second parameter.
    pub fn change_waveform(&mut self, typ: i32, duty: i32)
        ensures
            *final(self) == waveform_changed(*old(self), typ as int, duty as int),
    {
        self.eff3 = shift_clamped(self.eff3, typ as i64, 3000);
        self.change_eff(-1, duty, -1, 0);
    }

    /// Reads the octave into the second and the semitone shift into the
    /// fourth parameter.
    pub fn change_range(&mut self, octave: i32, semi: i32)
        ensures
            *final(self) == range_changed(*old(self), octave as int, semi as int),
    {
        self.change_eff(-1, octave, semi, 0);
    }

    /// Steps the sustain level (third parameter, kept in `[0, 1000]`) by
    /// `sus` and reads attack, decay and release with a tolerance of 10.
    pub fn change_envelope(&mut self, atk: i32, dcy: i32, sus: i32, rel: i32)
        ensures
            *final(self) == envelope_changed(*old(self), atk as int, dcy as int, sus as int, rel as int),
    {
        self.eff3 = shift_clamped(self.eff3, sus as i64, 1000);
        self.change_eff(atk, dcy, rel, 10);
    }

    /// Steps the voice count (third parameter, kept in `[0, 5000]`) by twice
    /// `voices`, and reads the detune into the fourth parameter. The effect
    /// is off when the stepped count, before clamping, is zero, else on.
    pub fn change_unison(&mut self, voices: i32, detune: i32)
        ensures
            *final(self) == unison_changed(*old(self), voices as int, detune as int),
    {
        let stepped: i64 = self.eff3 as i64 + 2 * voices as i64;
        if stepped == 0 {
            self.disable();
        } else {
            self.enable();
        }
        self.eff3 = shift_clamped(self.eff3, 2 * voices as i64, 5000);
        self.change_eff(-1, -1, detune, 0);
    }

    /// Steps the modulator shape (third parameter, kept in `[0, 2000]`) by
    /// `wave`, reads ratio and amount into the second and fourth parameter;
    /// the effect is off when the given amount or ratio is zero, else on.
    pub fn change_fmmod(&mut self, ratio: i32, wave: i32, amount: i32)
        ensures
            *final(self) == fmmod_changed(*old(self), ratio as int, wave as int, amount as int),
    {
        self.eff3 = shift_clamped(self.eff3, wave as i64, 2000);
        if amount == 0 || ratio == 0 {
            self.disable();
        } else {
            self.enable();
        }
        self.change_eff(-1, ratio, amount, 0);
    }

    /// Steps the filter type (third parameter, kept in `[0, 3000]`; 3000
    /// means no filter, which switches the effect off) by `typ`, and reads
    /// cutoff, resonance and envelope amount with a tolerance of 100.
    pub fn change_filter(&mut self, cutoff: i32, resonance: i32, typ: i32, envelope: i32)
        ensures
            *final(self) == filter_changed(*old(self), cutoff as int, resonance as int, typ as int, envelope as int),
    {
        self.eff3 = shift_clamped(self.eff3, typ as i64, 3000);
        if self.eff3 == 3000 {
            self.disable();
        } else {
            self.enable();
        }
        self.change_eff(cutoff, resonance, envelope, 100);
    }
}

} // verus!

verus! {

/// The effect with its first, second and fourth parameter marked fresh.
pub open spec fn freshened(e: Effect) -> Effect {
    Effect { fresh_change1: true, fresh_change2: true, fresh_change4: true, ..e }
}

/// Effects of a preset made with `Preset::new`: pulse-free sine wave, third
/// octave range, 50/400/800/400 envelope, no unison, FM or filter.
pub open spec fn default_effects() -> Seq<Effect> {
    seq![
        effect_of(EffectState::On, EffectType::Waveform, 0, 0, 1000, 0),
        effect_of(EffectState::On, EffectType::MusicalRange, 0, 2000, 0, 0),
        effect_of(EffectState::On, EffectType::Envelope, 50, 400, 800, 400),
        effect_of(EffectState::Off, EffectType::Unison, 0, 0, 1000, 0),
        effect_of(EffectState::Off, EffectType::FMMod, 1000, 1000, 0, 0),
        effect_of(EffectState::Off, EffectType::Filter, 0, 0, 3000, 0),
    ]
}

/// A named set of effects and the effect selected among them.
#[derive(Clone, Copy, Debug)]
pub struct Preset {
    pub name: &'static str,
    pub effects: [Effect; 6],
    pub idx: usize,
}

/// The effects of a preset, one entry per `EffectType`, in this order:
/// waveform, musical range, envelope, unison, FM modulation, filter.
fn default_effect_array() -> (a: [Effect; 6])
    ensures
        a@ == default_effects(),
{
    let a = [
        Effect::new(EffectState::On, EffectType::Waveform, 0, 0, 1000, 0),
        Effect::new(EffectState::On, EffectType::MusicalRange, 0, 2000, 0, 0),
        Effect::new(EffectState::On, EffectType::Envelope, 50, 400, 800, 400),
        Effect::new(EffectState::Off, EffectType::Unison, 0, 0, 1000, 0),
        Effect::new(EffectState::Off, EffectType::FMMod, 1000, 1000, 0, 0),
        Effect::new(EffectState::Off, EffectType::Filter, 0, 0, 3000, 0),
    ];
    assert(a@ =~= default_effects());
    a
}

impl Preset {
    /// The selected effect is one of the preset's effects.
    pub open spec fn wf(&self) -> bool {
        self.idx < EFFECTS_NUM
    }

    /// A preset with the default effects, the first one selected.
    pub fn new(name: &'static str) -> (p: Preset)
        ensures
            p.name == name,
            p.effects@ == default_effects(),
            p.idx == 0,
            p.effects@[0] == effect_of(EffectState::On, EffectType::Waveform, 0, 0, 1000, 0),
            p.effects@[1] == effect_of(EffectState::On, EffectType::MusicalRange, 0, 2000, 0, 0),
            p.effects@[2] == effect_of(EffectState::On, EffectType::Envelope, 50, 400, 800, 400),
            p.effects@[3] == effect_of(EffectState::Off, EffectType::Unison, 0, 0, 1000, 0),
            p.effects@[4] == effect_of(EffectState::Off, EffectType::FMMod, 1000, 1000, 0, 0),
            p.effects@[5] == effect_of(EffectState::Off, EffectType::Filter, 0, 0, 3000, 0),
    {
        Self { name: name, effects: default_effect_array(), idx: 0 }
    }

    /// A preset with the given effects, the first one selected.
    pub fn with_effects(name: &'static str, effects: [Effect; EFFECTS_NUM]) -> (p: Self)
        ensures
            p.name == name,
            p.effects == effects,
            p.idx == 0,
    {
        Self { name, effects, idx: 0 }
    }

    /// Selects the next effect, unless the last one is selected, and marks
    /// the newly selected effect fresh.
    pub fn next_effect(&mut self)
        ensures
            old(self).wf() ==> final(self).wf(),
            next_effect_rel(*old(self), *final(self)),
    {
        if self.idx < EFFECTS_NUM - 1 {
            self.idx += 1;
            let mut e = self.effects[self.idx];
            e.fresh();
            self.effects[self.idx] = e;
        }
    }

    /// Selects the previous effect, unless the first one is selected, and
    /// marks the newly selected effect fresh.
    pub fn prev_effect(&mut self)
        requires
            old(self).idx <= EFFECTS_NUM,
        ensures
            old(self).wf() ==> final(self).wf(),
            prev_effect_rel(*old(self), *final(self)),
    {
        if self.idx > 0 {
            self.idx -= 1;
            let mut e = self.effects[self.idx];
            e.fresh();
            self.effects[self.idx] = e;
        }
    }
}

/// `q` is `p` after `Preset::next_effect`: the next effect, if any, is
/// selected and marked fresh; the name is kept.
pub open spec fn next_effect_rel(p: Preset, q: Preset) -> bool {
    &&& q.name == p.name
    &&& p.idx < EFFECTS_NUM - 1 ==> {
        &&& q.idx == p.idx + 1
        &&& q.effects@ == p.effects@.update(p.idx + 1, freshened(p.effects@[p.idx + 1]))
    }
    &&& p.idx >= EFFECTS_NUM - 1 ==> q == p
}

/// `q` is `p` after `Preset::prev_effect`: the previous effect, if any, is
/// selected and marked fresh; the name is kept.
pub open spec fn prev_effect_rel(p: Preset, q: Preset) -> bool {
    &&& q.name == p.name
    &&& p.idx > 0 ==> {
        &&& q.idx == p.idx - 1
        &&& q.effects@ == p.effects@.update(p.idx - 1, freshened(p.effects@[p.idx - 1]))
    }
    &&& p.idx == 0 ==> q == p
}

/// Which screen the display shows.
#[derive(Clone, Copy, PartialEq, Eq, Structural, Debug)]
pub enum DisplayPage {
    PresetList,
    EffectList,
}

/// Effects of the "Bells" preset.
pub open spec fn bells_effects() -> Seq<Effect> {
    seq![
        effect_of(EffectState::On, EffectType::Waveform, 0, 0, 1000, 0),
        effect_of(EffectState::On, EffectType::MusicalRange, 0, 2000, 0, 0),
        effect_of(EffectState::On, EffectType::Envelope, 0, 0, 1000, 1000),
        effect_of(EffectState::Off, EffectType::Unison, 0, 0, 1000, 0),
        effect_of(EffectState::Off, EffectType::FMMod, 0, 3500, 0, 4000),
        effect_of(EffectState::Off, EffectType::Filter, 0, 0, 3000, 0),
    ]
}

/// Effects of the "Bass" preset.
pub open spec fn bass_effects() -> Seq<Effect> {
    seq![
        effect_of(EffectState::On, EffectType::Waveform, 0, 0, 3000, 0),
        effect_of(EffectState::On, EffectType::MusicalRange, 0, 0, 0, 0),
        effect_of(EffectState::On, EffectType::Envelope, 50, 400, 800, 400),
        effect_of(EffectState::Off, EffectType::Unison, 0, 0, 1000, 0),
        effect_of(EffectState::Off, EffectType::FMMod, 0, 500, 0, 1000),
        effect_of(EffectState::Off, EffectType::Filter, 0, 0, 3000, 0),
    ]
}

/// Effects of the "Cat" preset.
pub open spec fn cat_effects() -> Seq<Effect> {
    seq![
        effect_of(EffectState::On, EffectType::Waveform, 0, 0, 3000, 0),
        effect_of(EffectState::On, EffectType::MusicalRange, 0, 2000, 0, 0),
        effect_of(EffectState::On, EffectType::Envelope, 50, 400, 800, 400),
        effect_of(EffectState::Off, EffectType::Unison, 0, 0, 1000, 0),
        effect_of(EffectState::Off, EffectType::FMMod, 0, 1000, 0, 0),
        effect_of(EffectState::Off, EffectType::Filter, 200, 850, 0, 500),
    ]
}

/// Effects of the "Chorus" preset.
pub open spec fn chorus_effects() -> Seq<Effect> {
    seq![
        effect_of(EffectState::On, EffectType::Waveform, 0, 0, 3000, 0),
        effect_of(EffectState::On, EffectType::MusicalRange, 0, 1000, 0, 0),
        effect_of(EffectState::On, EffectType::Envelope, 800, 0, 1000, 1000),
        effect_of(EffectState::Off, EffectType::Unison, 0, 0, 3000, 10),
        effect_of(EffectState::Off, EffectType::FMMod, 0, 1000, 0, 0),
        effect_of(EffectState::Off, EffectType::Filter, 0, 0, 3000, 0),
    ]
}

/// The whole synthesizer state that the panel edits: the presets, the
/// selected preset and the page shown.
pub struct SynthState {
    pub presets: [Preset; 5],
    pub idx: usize,
    pub page: DisplayPage,
}

impl SynthState {
    /// The selected preset exists and every preset's selected effect exists.
    pub open spec fn wf(&self) -> bool {
        &&& self.idx < PRESETS_NUM
        &&& forall|i: int| 0 <= i < PRESETS_NUM ==> (#[trigger] self.presets@[i]).wf()
    }

    /// The five factory presets "Bells", "Simple", "Bass", "Cat" and
    /// "Chorus", the first selected, on the preset list page.
    pub fn new() -> (s: SynthState)
        ensures
            s.wf(),
            s.idx == 0,
            s.page == DisplayPage::PresetList,
            s.presets@[0].name@ == "Bells"@,
            s.presets@[1].name@ == "Simple"@,
            s.presets@[2].name@ == "Bass"@,
            s.presets@[3].name@ == "Cat"@,
            s.presets@[4].name@ == "Chorus"@,
            s.presets@[0].effects@ == bells_effects(),
            s.presets@[1].effects@ == default_effects(),
            s.presets@[2].effects@ == bass_effects(),
            s.presets@[3].effects@ == cat_effects(),
            s.presets@[4].effects@ == chorus_effects(),
            forall|i: int| 0 <= i < PRESETS_NUM ==> (#[trigger] s.presets@[i]).idx == 0,
            s.presets@[0].effects@[0] == effect_of(EffectState::On, EffectType::Waveform, 0, 0, 1000, 0),
            s.presets@[0].effects@[1] == effect_of(EffectState::On, EffectType::MusicalRange, 0, 2000, 0, 0),
            s.presets@[0].effects@[2] == effect_of(EffectState::On, EffectType::Envelope, 0, 0, 1000, 1000),
            s.presets@[0].effects@[3] == effect_of(EffectState::Off, EffectType::Unison, 0, 0, 1000, 0),
            s.presets@[0].effects@[4] == effect_of(EffectState::Off, EffectType::FMMod, 0, 3500, 0, 4000),
            s.presets@[0].effects@[5] == effect_of(EffectState::Off, EffectType::Filter, 0, 0, 3000, 0),
            s.presets@[1].effects@[0] == effect_of(EffectState::On, EffectType::Waveform, 0, 0, 1000, 0),
            s.presets@[1].effects@[1] == effect_of(EffectState::On, EffectType::MusicalRange, 0, 2000, 0, 0),
            s.presets@[1].effects@[2] == effect_of(EffectState::On, EffectType::Envelope, 50, 400, 800, 400),
            s.presets@[1].effects@[3] == effect_of(EffectState::Off, EffectType::Unison, 0, 0, 1000, 0),
            s.presets@[1].effects@[4] == effect_of(EffectState::Off, EffectType::FMMod, 1000, 1000, 0, 0),
            s.presets@[1].effects@[5] == effect_of(EffectState::Off, EffectType::Filter, 0, 0, 3000, 0),
            s.presets@[2].effects@[0] == effect_of(EffectState::On, EffectType::Waveform, 0, 0, 3000, 0),
            s.presets@[2].effects@[1] == effect_of(EffectState::On, EffectType::MusicalRange, 0, 0, 0, 0),
            s.presets@[2].effects@[2] == effect_of(EffectState::On, EffectType::Envelope, 50, 400, 800, 400),
            s.presets@[2].effects@[3] == effect_of(EffectState::Off, EffectType::Unison, 0, 0, 1000, 0),
            s.presets@[2].effects@[4] == effect_of(EffectState::Off, EffectType::FMMod, 0, 500, 0, 1000),
            s.presets@[2].effects@[5] == effect_of(EffectState::Off, EffectType::Filter, 0, 0, 3000, 0),
            s.presets@[3].effects@[0] == effect_of(EffectState::On, EffectType::Waveform, 0, 0, 3000, 0),
            s.presets@[3].effects@[1] == effect_of(EffectState::On, EffectType::MusicalRange, 0, 2000, 0, 0),
            s.presets@[3].effects@[2] == effect_of(EffectState::On, EffectType::Envelope, 50, 400, 800, 400),
            s.presets@[3].effects@[3] == effect_of(EffectState::Off, EffectType::Unison, 0, 0, 1000, 0),
            s.presets@[3].effects@[4] == effect_of(EffectState::Off, EffectType::FMMod, 0, 1000, 0, 0),
            s.presets@[3].effects@[5] == effect_of(EffectState::Off, EffectType::Filter, 200, 850, 0, 500),
            s.presets@[4].effects@[0] == effect_of(EffectState::On, EffectType::Waveform, 0, 0, 3000, 0),
            s.presets@[4].effects@[1] == effect_of(EffectState::On, EffectType::MusicalRange, 0, 1000, 0, 0),
            s.presets@[4].effects@[2] == effect_of(EffectState::On, EffectType::Envelope, 800, 0, 1000, 1000),
            s.presets@[4].effects@[3] == effect_of(EffectState::Off, EffectType::Unison, 0, 0, 3000, 10),
            s.presets@[4].effects@[4] == effect_of(EffectState::Off, EffectType::FMMod, 0, 1000, 0, 0),
            s.presets@[4].effects@[5] == effect_of(EffectState::Off, EffectType::Filter, 0, 0, 3000, 0),
    {
        let bells = [
            Effect::new(EffectState::On, EffectType::Waveform, 0, 0, 1000, 0),
            Effect::new(EffectState::On, EffectType::MusicalRange, 0, 2000, 0, 0),
            Effect::new(EffectState::On, EffectType::Envelope, 0, 0, 1000, 1000),
            Effect::new(EffectState::Off, EffectType::Unison, 0, 0, 1000, 0),
            Effect::new(EffectState::Off, EffectType::FMMod, 0, 3500, 0, 4000),
            Effect::new(EffectState::Off, EffectType::Filter, 0, 0, 3000, 0),
        ];
        let bass = [
            Effect::new(EffectState::On, EffectType::Waveform, 0, 0, 3000, 0),
            Effect::new(EffectState::On, EffectType::MusicalRange, 0, 0, 0, 0),
            Effect::new(EffectState::On, EffectType::Envelope, 50, 400, 800, 400),
            Effect::new(EffectState::Off, EffectType::Unison, 0, 0, 1000, 0),
            Effect::new(EffectState::Off, EffectType::FMMod, 0, 500, 0, 1000),
            Effect::new(EffectState::Off, EffectType::Filter, 0, 0, 3000, 0),
        ];
        let cat = [
            Effect::new(EffectState::On, EffectType::Waveform, 0, 0, 3000, 0),
            Effect::new(EffectState::On, EffectType::MusicalRange, 0, 2000, 0, 0),
            Effect::new(EffectState::On, EffectType::Envelope, 50, 400, 800, 400),
            Effect::new(EffectState::Off, EffectType::Unison, 0, 0, 1000, 0),
            Effect::new(EffectState::Off, EffectType::FMMod, 0, 1000, 0, 0),
            Effect::new(EffectState::Off, EffectType::Filter, 200, 850, 0, 500),
        ];
        let chorus = [
            Effect::new(EffectState::On, EffectType::Waveform, 0, 0, 3000, 0),
            Effect::new(EffectState::On, EffectType::MusicalRange, 0, 1000, 0, 0),
            Effect::new(EffectState::On, EffectType::Envelope, 800, 0, 1000, 1000),
            Effect::new(EffectState::Off, EffectType::Unison, 0, 0, 3000, 10),
            Effect::new(EffectState::Off, EffectType::FMMod, 0, 1000, 0, 0),
            Effect::new(EffectState::Off, EffectType::Filter, 0, 0, 3000, 0),
        ];
        assert(bells@ =~= bells_effects());
        assert(bass@ =~= bass_effects());
        assert(cat@ =~= cat_effects());
        assert(chorus@ =~= chorus_effects());
        let s = Self {
            presets: [
                Preset::with_effects("Bells", bells),
                Preset::new("Simple"),
                Preset::with_effects("Bass", bass),
                Preset::with_effects("Cat", cat),
                Preset::with_effects("Chorus", chorus),
            ],
            idx: 0,
            page: DisplayPage::PresetList,
        };
        assert forall|i: int| 0 <= i < PRESETS_NUM implies (#[trigger] s.presets@[i]).wf() && s.presets@[i].idx == 0 by {
            assert(0 <= i < 5);
        }
        s
    }

    /// The selected preset.
    pub fn active_preset(&self) -> (p: &Preset)
        requires
            self.idx < PRESETS_NUM,
        ensures
            *p == self.presets@[self.idx as int],
    {
        &self.presets[self.idx]
    }

    /// The selected preset, for editing.
    pub fn active_preset_mut(&mut self) -> (p: &mut Preset)
        requires
            old(self).idx < PRESETS_NUM,
        ensures
            *p == old(self).presets@[old(self).idx as int],
            final(self).presets@ == old(self).presets@.update(old(self).idx as int, *final(p)),
            final(self).idx == old(self).idx,
            final(self).page == old(self).page,
    {
        &mut self.presets[self.idx]
    }

    /// Selects the next preset, unless the last one is selected.
    pub fn next_preset(&mut self)
        ensures
            old(self).wf() ==> final(self).wf(),
            final(self).idx == if old(self).idx < PRESETS_NUM - 1 {
                (old(self).idx + 1) as usize
            } else {
                old(self).idx
            },
            final(self).presets == old(self).presets,
            final(self).page == old(self).page,
    {
        if self.idx < PRESETS_NUM - 1 {
            self.idx += 1;
        }
    }

    /// Selects the previous preset, unless the first one is selected.
    pub fn prev_preset(&mut self)
        ensures
            old(self).wf() ==> final(self).wf(),
            final(self).idx == if old(self).idx > 0 {
                (old(self).idx - 1) as usize
            } else {
                old(self).idx
            },
            final(self).presets == old(self).presets,
            final(self).page == old(self).page,
    {
        if self.idx > 0 {
            self.idx -= 1;
        }
    }

    /// Shows the effect list.
    pub fn next_page(&mut self)
        ensures
            old(self).wf() ==> final(self).wf(),
            final(self).page == DisplayPage::EffectList,
            final(self).presets == old(self).presets,
            final(self).idx == old(self).idx,
    {
        let page = match self.page {
            DisplayPage::PresetList => DisplayPage::EffectList,
            DisplayPage::EffectList => DisplayPage::EffectList,
        };
        self.page = page;
    }

    /// Shows the preset list.
    pub fn prev_page(&mut self)
        ensures
            old(self).wf() ==> final(self).wf(),
            final(self).page == DisplayPage::PresetList,
            final(self).presets == old(self).presets,
            final(self).idx == old(self).idx,
    {
        let page = match self.page {
            DisplayPage::PresetList => DisplayPage::PresetList,
            DisplayPage::EffectList => DisplayPage::PresetList,
        };
        self.page = page;
    }
}

} // verus!

verus! {

/// Soft takeover: a fresh parameter never jumps to a reading; it turns
/// stale once a reading comes within the tolerance, and a stale parameter
/// follows every reading; a negative reading changes nothing.
pub proof fn lemma_pickup(fresh: bool, stored: int, reading: int, delta: int)
    ensures
        fresh ==> pickup(fresh, stored, reading, delta).1 == stored,
        (fresh && reading >= 0 && abs_int(reading - stored) <= delta) ==> !pickup(
            fresh,
            stored,
            reading,
            delta,
        ).0,
        (fresh && abs_int(reading - stored) > delta) ==> pickup(fresh, stored, reading, delta).0,
        (!fresh && reading >= 0) ==> pickup(fresh, stored, reading, delta) == (false, reading),
        reading < 0 ==> pickup(fresh, stored, reading, delta) == (fresh, stored),
{
}

/// Stepped parameters stay in range: wave shape and filter type in
/// `[0, 3000]`, sustain in `[0, 1000]`, unison voices in `[0, 5000]`,
/// modulator shape in `[0, 2000]`; the filter is off exactly at type 3000.
pub proof fn lemma_stepped_parameters_in_range(e: Effect, step: int, r1: int, r2: int, r4: int)
    requires
        -0x1_0000_0000 <= step <= 0x1_0000_0000,
    ensures
        0 <= waveform_changed(e, step, r2).eff3 <= 3000,
        0 <= envelope_changed(e, r1, r2, step, r4).eff3 <= 1000,
        0 <= unison_changed(e, step, r4).eff3 <= 5000,
        0 <= fmmod_changed(e, r2, step, r4).eff3 <= 2000,
        0 <= filter_changed(e, r1, r2, step, r4).eff3 <= 3000,
        (filter_changed(e, r1, r2, step, r4).enabled == EffectState::Off) <==> (filter_changed(
            e,
            r1,
            r2,
            step,
            r4,
        ).eff3 == 3000),
{
}

/// Moving to the next effect and back returns to the same effect, with
/// every parameter value unchanged.
pub proof fn lemma_next_then_prev_effect(p: Preset, q: Preset, r: Preset)
    requires
        p.wf(),
        p.idx < EFFECTS_NUM - 1,
        next_effect_rel(p, q),
        prev_effect_rel(q, r),
    ensures
        r.idx == p.idx,
        r.name == p.name,
        forall|i: int|
            0 <= i < EFFECTS_NUM ==> {
                let a = #[trigger] r.effects@[i];
                let b = p.effects@[i];
                a.eff1 == b.eff1 && a.eff2 == b.eff2 && a.eff3 == b.eff3 && a.eff4 == b.eff4
                    && a.enabled == b.enabled && a.typ == b.typ
            },
{
    assert forall|i: int| 0 <= i < EFFECTS_NUM implies ({
        let a = #[trigger] r.effects@[i];
        let b = p.effects@[i];
        a.eff1 == b.eff1 && a.eff2 == b.eff2 && a.eff3 == b.eff3 && a.eff4 == b.eff4
            && a.enabled == b.enabled && a.typ == b.typ
    }) by {
        if i == p.idx {
        } else if i == p.idx + 1 {
        } else {
        }
    }
}

} // verus!

verus! {

/// The FM effect is switched off exactly when the ratio reading or the
/// amount reading is zero; any other pair of readings switches it on,
/// whatever the shape step, and the switch does not depend on the effect's
/// earlier state.
pub proof fn lemma_fm_switch(e: Effect, ratio: int, wave: int, amount: int)
    ensures
        (fmmod_changed(e, ratio, wave, amount).enabled == EffectState::Off) <==> (ratio == 0
            || amount == 0),
        (fmmod_changed(e, ratio, wave, amount).enabled == EffectState::On) <==> (ratio != 0
            && amount != 0),
{
}

} // verus!
