use vstd::prelude::*;
use crate::input::{key_held, KEYS_NUM};
use crate::synth::adsr::{
    AdsrEnvelope, AdsrStage, LEVEL_ONE, clamp_int, step_for, level_of_milli, with_params,
    tick_outcome,
};
use crate::synth::effects::Preset;

verus! {

/// Number of voices that can sound at once.
pub const VOICES_NUM: usize = 5;

/// The key of a voice that plays no key.
pub const NO_KEY: usize = 99;

/// Number of notes in the note table (C2 to F5).
pub const NOTES_NUM: usize = 42;

/// Sample rate of the audio engine, in Hz.
pub const SAMPLE_RATE: u32 = 48000;

/// Equal-tempered note frequencies from C2 to F5, in hundredths of a Hz.
pub open spec fn note_table() -> Seq<u32> {
    seq![
        6541, 6930, 7342, 7778, 8241, 8731, 9250, 9800, 10383, 11000, 11654, 12347,
        13081, 13859, 14683, 15556, 16481, 17461, 18500, 19600, 20765, 22000, 23308, 24694,
        26163, 27718, 29366, 31113, 32963, 34923, 36999, 39200, 41530, 44000, 46616, 49388,
        52325, 55437, 58733, 62225, 65925, 69846,
    ]
}

/// Frequency of note `idx` of the note table, in hundredths of a Hz.
pub fn note_freq_centi_hz(idx: usize) -> (r: u32)
    requires
        idx < NOTES_NUM,
    ensures
        r == note_table()[idx as int],
{
    let table: [u32; 42] = [
        6541, 6930, 7342, 7778, 8241, 8731, 9250, 9800, 10383, 11000, 11654, 12347,
        13081, 13859, 14683, 15556, 16481, 17461, 18500, 19600, 20765, 22000, 23308, 24694,
        26163, 27718, 29366, 31113, 32963, 34923, 36999, 39200, 41530, 44000, 46616, 49388,
        52325, 55437, 58733, 62225, 65925, 69846,
    ];
    assert(table@ =~= note_table());
    table[idx]
}

/// One voice: its envelope, the note it plays (an index into the note table)
/// and the key that started it (`NO_KEY` once released).
#[derive(Clone, Copy, Debug)]
pub struct Voice {
    pub adsr: AdsrEnvelope,
    pub active_note: usize,
    pub active_key: usize,
}

impl Voice {
    /// A silent voice at the engine's sample rate that plays no key.
    pub fn new() -> (v: Voice)
        ensures
            v.adsr.stage == AdsrStage::Off,
            v.adsr.value == 0,
            v.adsr.attack_step == step_for(1000, 50, SAMPLE_RATE as int),
            v.adsr.decay_step == step_for(200, 400, SAMPLE_RATE as int),
            v.adsr.sustain_level == level_of_milli(800),
            v.adsr.release_step == step_for(1000, 400, SAMPLE_RATE as int),
            v.active_note == 0,
            v.active_key == NO_KEY,
    {
        Voice { adsr: AdsrEnvelope::new(SAMPLE_RATE), active_note: 0, active_key: NO_KEY }
    }
}

/// `v` is the first voice whose envelope is off.
pub open spec fn is_first_free(vs: Seq<Voice>, v: int) -> bool {
    &&& 0 <= v < vs.len()
    &&& vs[v].adsr.stage == AdsrStage::Off
    &&& forall|u: int| 0 <= u < v ==> vs[u].adsr.stage != AdsrStage::Off
}

/// Some voice's envelope is off.
pub open spec fn has_free(vs: Seq<Voice>) -> bool {
    exists|v: int| 0 <= v < vs.len() && vs[v].adsr.stage == AdsrStage::Off
}

/// The voice started for key `key` playing note `note`.
pub open spec fn started(v: Voice, key: int, note: int) -> Voice {
    Voice {
        adsr: AdsrEnvelope { stage: AdsrStage::Attack, ..v.adsr },
        active_note: note as usize,
        active_key: key as usize,
    }
}

/// The voice released: its envelope releases and it plays no key.
pub open spec fn released(v: Voice) -> Voice {
    Voice { adsr: AdsrEnvelope { stage: AdsrStage::Release, ..v.adsr }, active_key: NO_KEY, ..v }
}

/// The voices after key `key` went down: the first voice whose envelope is
/// off starts note `note`; with no such voice nothing changes.
pub open spec fn pressed(vs: Seq<Voice>, key: int, note: int) -> Seq<Voice> {
    if has_free(vs) {
        let v = choose|v: int| is_first_free(vs, v);
        vs.update(v, started(vs[v], key, note))
    } else {
        vs
    }
}

/// The voices after key `key` went up: every sounding voice that plays it
/// is released.
pub open spec fn lifted(vs: Seq<Voice>, key: int) -> Seq<Voice> {
    Seq::new(
        vs.len(),
        |v: int|
            if vs[v].active_key == key && vs[v].adsr.stage != AdsrStage::Off {
                released(vs[v])
            } else {
                vs[v]
            },
    )
}

/// The voices after key `key` was compared between the masks; the key's
/// note is `base + key`.
pub open spec fn key_applied(vs: Seq<Voice>, key: int, last: u16, current: u16, base: int) -> Seq<
    Voice,
> {
    if key_held(current, key) && !key_held(last, key) {
        pressed(vs, key, base + key)
    } else if !key_held(current, key) && key_held(last, key) {
        lifted(vs, key)
    } else {
        vs
    }
}

/// The voices after keys `0..n` were compared, in that order.
pub open spec fn keys_applied(vs: Seq<Voice>, last: u16, current: u16, base: int, n: nat) -> Seq<
    Voice,
>
    decreases n,
{
    if n == 0 {
        vs
    } else {
        key_applied(
            keys_applied(vs, last, current, base, (n - 1) as nat),
            n - 1,
            last,
            current,
            base,
        )
    }
}

/// The note that key 0 plays for a range setting: `octave` octaves and
/// `semi` semitones above C2.
pub open spec fn base_note(octave: int, semi: int) -> int {
    octave * 12 + semi
}

/// The first voice whose envelope is off, if any.
fn find_free(voices: &[Voice; 5]) -> (r: Option<usize>)
    ensures
        r matches Some(v) ==> is_first_free(voices@, v as int),
        r is None ==> !has_free(voices@),
{
    let mut v: usize = 0;
    while v < VOICES_NUM
        invariant
            0 <= v <= VOICES_NUM,
            voices@.len() == VOICES_NUM,
            forall|u: int| 0 <= u < v ==> voices@[u].adsr.stage != AdsrStage::Off,
        decreases VOICES_NUM - v,
    {
        if voices[v].adsr.stage == AdsrStage::Off {
            return Some(v);
        }
        v += 1;
    }
    None
}

/// Starts or releases voices for every key whose state differs between
/// `last_mask` and `current_mask`, keys in ascending order. A key going down
/// starts the first voice whose envelope is off, on note
/// `octave * 12 + semi + key`; a key going up releases every sounding voice
/// that plays it.
pub fn process_keys(
    voices: &mut [Voice; 5],
    last_mask: u16,
    current_mask: u16,
    octave: usize,
    semi: usize,
)
    requires
        forall|i: int|
            0 <= i < KEYS_NUM && key_held(current_mask, i) && !key_held(last_mask, i)
                ==> base_note(octave as int, semi as int) + i <= usize::MAX,
    ensures
        final(voices)@ == keys_applied(
            old(voices)@,
            last_mask,
            current_mask,
            base_note(octave as int, semi as int),
            KEYS_NUM as nat,
        ),
{
    if current_mask == last_mask {
        proof {
            lemma_same_masks_change_nothing(old(voices)@, last_mask, octave * 12 + semi, KEYS_NUM as nat);
        }
        return;
    }
    let ghost base = base_note(octave as int, semi as int);
    let mut i: usize = 0;
    while i < KEYS_NUM
        invariant
            0 <= i <= KEYS_NUM,
            base == base_note(octave as int, semi as int),
            forall|k: int|
                0 <= k < KEYS_NUM && key_held(current_mask, k) && !key_held(last_mask, k)
                    ==> base + k <= usize::MAX,
            voices@ == keys_applied(old(voices)@, last_mask, current_mask, base, i as nat),
        decreases KEYS_NUM - i,
    {
        let sh = i as u16;
        let is_pressed = (current_mask >> sh) & 1 == 1;
        let was_pressed = (last_mask >> sh) & 1 == 1;
        let ghost before = voices@;
        if is_pressed && !was_pressed {
            match find_free(voices) {
                Some(v) => {
                    assert(key_held(current_mask, i as int) && !key_held(last_mask, i as int));
                    let mut voice = voices[v];
                    voice.adsr.note_on();
                    voice.active_note = octave * 12 + semi + i;
                    voice.active_key = i;
                    voices[v] = voice;
                    proof {
                        assert(has_free(before));
                        let w = choose|w: int| is_first_free(before, w);
                        assert(w == v as int) by {
                            if w < v as int {
                            } else if w > v as int {
                            }
                        }
                        assert(voices@ =~= pressed(before, i as int, base + i));
                    }
                },
                None => {},
            }
        } else if !is_pressed && was_pressed {
            let mut v: usize = 0;
            while v < VOICES_NUM
                invariant
                    0 <= v <= VOICES_NUM,
                    before.len() == VOICES_NUM,
                    voices@.len() == VOICES_NUM,
                    forall|u: int|
                        0 <= u < v ==> voices@[u] == (if before[u].active_key == i
                            && before[u].adsr.stage != AdsrStage::Off {
                            released(before[u])
                        } else {
                            before[u]
                        }),
                    forall|u: int| v <= u < VOICES_NUM ==> voices@[u] == before[u],
                decreases VOICES_NUM - v,
            {
                if voices[v].active_key == i && voices[v].adsr.stage != AdsrStage::Off {
                    let mut voice = voices[v];
                    voice.adsr.note_off();
                    voice.active_key = NO_KEY;
                    voices[v] = voice;
                }
                v += 1;
            }
            assert(voices@ =~= lifted(before, i as int));
        }
        i += 1;
    }
}

/// Equal masks start and release nothing.
proof fn lemma_same_masks_change_nothing(vs: Seq<Voice>, mask: u16, base: int, n: nat)
    ensures
        keys_applied(vs, mask, mask, base, n) == vs,
    decreases n,
{
    if n > 0 {
        lemma_same_masks_change_nothing(vs, mask, base, (n - 1) as nat);
    }
}

} // verus!

verus! {

/// Whole units of a parameter given in thousandths, rounded toward zero;
/// negative values give 0.
pub open spec fn whole_units(milli: int) -> int {
    if milli <= 0 {
        0
    } else {
        milli / 1000
    }
}

fn whole_u32(milli: i32) -> (r: u32)
    ensures
        r == whole_units(milli as int),
{
    if milli <= 0 {
        0
    } else {
        (milli / 1000) as u32
    }
}

fn whole_usize(milli: i32) -> (r: usize)
    ensures
        r == whole_units(milli as int),
{
    if milli <= 0 {
        0
    } else {
        (milli / 1000) as usize
    }
}

/// The preset's parameters as the audio engine reads them once per buffer.
/// Parameters are in thousandths; shapes, modes and counts in whole units.
#[derive(Clone, Copy, Debug)]
pub struct FrameParams {
    pub duty: i32,
    pub mode: u32,
    pub octave: usize,
    pub semi: usize,
    pub atk: i32,
    pub dcy: i32,
    pub sus: i32,
    pub rel: i32,
    pub unison_voices: usize,
    pub detune: i32,
    pub fm_ratio: i32,
    pub fm_shape: u32,
    pub fm_amt: i32,
    pub cutoff: i32,
    pub res: i32,
    pub filter_type: u32,
    pub filter_env: i32,
}

/// A wave table shape.
#[derive(Clone, Copy, PartialEq, Eq, Structural, Debug)]
pub enum Wave {
    Sine,
    Triangle,
    Saw,
}

/// What a voice's main oscillator plays.
#[derive(Clone, Copy, PartialEq, Eq, Structural, Debug)]
pub enum MainSource {
    Pulse,
    Table(Wave),
    Silent,
}

/// Which output of the state-variable filter a voice uses.
#[derive(Clone, Copy, PartialEq, Eq, Structural, Debug)]
pub enum FilterTap {
    /// The filter does not run; the raw sample passes.
    Bypass,
    LowPass,
    HighPass,
    BandPass,
    /// The filter runs but the raw sample passes.
    Raw,
}

impl FrameParams {
    /// Reads the parameters of a preset: waveform (duty, shape), range
    /// (octave, semitones), envelope, unison (voices, detune), FM (ratio,
    /// shape, amount) and filter (cutoff, resonance, type, envelope amount).
    pub fn from_preset(p: &Preset) -> (f: FrameParams)
        ensures
            f.duty == p.effects@[0].eff2,
            f.mode == whole_units(p.effects@[0].eff3 as int),
            f.octave == whole_units(p.effects@[1].eff2 as int),
            f.semi == whole_units(p.effects@[1].eff4 as int),
            f.atk == p.effects@[2].eff1,
            f.dcy == p.effects@[2].eff2,
            f.sus == p.effects@[2].eff3,
            f.rel == p.effects@[2].eff4,
            f.unison_voices == whole_units(p.effects@[3].eff3 as int),
            f.detune == p.effects@[3].eff4,
            f.fm_ratio == p.effects@[4].eff2,
            f.fm_shape == whole_units(p.effects@[4].eff3 as int),
            f.fm_amt == p.effects@[4].eff4,
            f.cutoff == p.effects@[5].eff1,
            f.res == p.effects@[5].eff2,
            f.filter_type == whole_units(p.effects@[5].eff3 as int),
            f.filter_env == p.effects@[5].eff4,
    {
        FrameParams {
            duty: p.effects[0].eff2,
            mode: whole_u32(p.effects[0].eff3),
            octave: whole_usize(p.effects[1].eff2),
            semi: whole_usize(p.effects[1].eff4),
            atk: p.effects[2].eff1,
            dcy: p.effects[2].eff2,
            sus: p.effects[2].eff3,
            rel: p.effects[2].eff4,
            unison_voices: whole_usize(p.effects[3].eff3),
            detune: p.effects[3].eff4,
            fm_ratio: p.effects[4].eff2,
            fm_shape: whole_u32(p.effects[4].eff3),
            fm_amt: p.effects[4].eff4,
            cutoff: p.effects[5].eff1,
            res: p.effects[5].eff2,
            filter_type: whole_u32(p.effects[5].eff3),
            filter_env: p.effects[5].eff4,
        }
    }

    /// Frequency modulation runs unless its ratio or its amount is zero.
    pub fn fm_enabled(&self) -> (r: bool)
        ensures
            r == !(self.fm_ratio == 0 || self.fm_amt == 0),
    {
        !(self.fm_ratio == 0 || self.fm_amt == 0)
    }

    /// The main oscillator: 0 pulse, 1 sine, 2 triangle, 3 saw, else silence.
    pub fn main_source(&self) -> (r: MainSource)
        ensures
            r == match self.mode {
                0 => MainSource::Pulse,
                1 => MainSource::Table(Wave::Sine),
                2 => MainSource::Table(Wave::Triangle),
                3 => MainSource::Table(Wave::Saw),
                _ => MainSource::Silent,
            },
    {
        match self.mode {
            0 => MainSource::Pulse,
            1 => MainSource::Table(Wave::Sine),
            2 => MainSource::Table(Wave::Triangle),
            3 => MainSource::Table(Wave::Saw),
            _ => MainSource::Silent,
        }
    }

    /// The modulator's shape: 1 triangle, 2 saw, else sine.
    pub fn modulator_wave(&self) -> (r: Wave)
        ensures
            r == match self.fm_shape {
                1 => Wave::Triangle,
                2 => Wave::Saw,
                _ => Wave::Sine,
            },
    {
        match self.fm_shape {
            1 => Wave::Triangle,
            2 => Wave::Saw,
            _ => Wave::Sine,
        }
    }

    /// The filter output used: type 3 switches the filter off; 0 low-pass,
    /// 1 high-pass, 2 band-pass; other types run the filter but pass the raw
    /// sample.
    pub fn filter_tap(&self) -> (r: FilterTap)
        ensures
            r == match self.filter_type {
                3 => FilterTap::Bypass,
                0 => FilterTap::LowPass,
                1 => FilterTap::HighPass,
                2 => FilterTap::BandPass,
                _ => FilterTap::Raw,
            },
    {
        if self.filter_type == 3 {
            FilterTap::Bypass
        } else {
            match self.filter_type {
                0 => FilterTap::LowPass,
                1 => FilterTap::HighPass,
                2 => FilterTap::BandPass,
                _ => FilterTap::Raw,
            }
        }
    }
}

/// Gives every voice's envelope the frame's attack, decay, sustain and
/// release.
pub fn apply_envelope_params(voices: &mut [Voice; 5], params: &FrameParams)
    ensures
        forall|v: int|
            0 <= v < VOICES_NUM ==> #[trigger] final(voices)@[v] == (Voice {
                adsr: with_params(old(voices)@[v].adsr, params.atk, params.dcy, params.sus, params.rel),
                ..old(voices)@[v]
            }),
{
    let mut v: usize = 0;
    while v < VOICES_NUM
        invariant
            0 <= v <= VOICES_NUM,
            voices@.len() == VOICES_NUM,
            forall|u: int|
                0 <= u < v ==> #[trigger] voices@[u] == (Voice {
                    adsr: with_params(old(voices)@[u].adsr, params.atk, params.dcy, params.sus, params.rel),
                    ..old(voices)@[u]
                }),
            forall|u: int| v <= u < VOICES_NUM ==> #[trigger] voices@[u] == old(voices)@[u],
        decreases VOICES_NUM - v,
    {
        let mut voice = voices[v];
        voice.adsr.set_params(params.atk, params.dcy, params.sus, params.rel);
        voices[v] = voice;
        v += 1;
    }
}

} // verus!

verus! {

/// An envelope stage in which a voice holds its key: attack, decay or
/// sustain.
pub open spec fn holding_stage(s: AdsrStage) -> bool {
    s == AdsrStage::Attack || s == AdsrStage::Decay || s == AdsrStage::Sustain
}

/// Key `key` counts as down after keys `0..n` were compared: keys below `n`
/// by the current mask, the others by the last one.
pub open spec fn held_after(last: u16, current: u16, n: int, key: int) -> bool {
    if key < n {
        key_held(current, key)
    } else {
        key_held(last, key)
    }
}

/// Every voice that plays a key plays a key that is down and holds it in
/// attack, decay or sustain, and no key is played by two voices.
pub open spec fn voices_consistent_with(vs: Seq<Voice>, last: u16, current: u16, n: int) -> bool {
    &&& forall|v: int|
        0 <= v < vs.len() && #[trigger] vs[v].active_key != NO_KEY ==> {
            &&& vs[v].active_key < KEYS_NUM
            &&& held_after(last, current, n, vs[v].active_key as int)
            &&& holding_stage(vs[v].adsr.stage)
        }
    &&& forall|v: int, u: int|
        0 <= v < vs.len() && 0 <= u < vs.len() && v != u && #[trigger] vs[v].active_key
            != NO_KEY ==> vs[v].active_key != #[trigger] vs[u].active_key
}

/// Every voice that plays a key plays a key held in `mask`, and holds it in
/// attack, decay or sustain; no key is played by two voices.
pub open spec fn voices_consistent(vs: Seq<Voice>, mask: u16) -> bool {
    voices_consistent_with(vs, mask, mask, 0)
}

proof fn lemma_first_free_below(vs: Seq<Voice>, w: int)
    requires
        0 <= w < vs.len(),
        vs[w].adsr.stage == AdsrStage::Off,
    ensures
        exists|v: int| is_first_free(vs, v),
    decreases w,
{
    if forall|u: int| 0 <= u < w ==> vs[u].adsr.stage != AdsrStage::Off {
        assert(is_first_free(vs, w));
    } else {
        let u = choose|u: int| 0 <= u < w && vs[u].adsr.stage == AdsrStage::Off;
        lemma_first_free_below(vs, u);
    }
}

proof fn lemma_key_step_consistent(vs: Seq<Voice>, last: u16, current: u16, base: int, n: int)
    requires
        0 <= n < KEYS_NUM,
        voices_consistent_with(vs, last, current, n),
    ensures
        voices_consistent_with(key_applied(vs, n, last, current, base), last, current, n + 1),
{
    let ws = key_applied(vs, n, last, current, base);
    if key_held(current, n) && !key_held(last, n) {
        if has_free(vs) {
            let w0 = choose|w: int| 0 <= w < vs.len() && vs[w].adsr.stage == AdsrStage::Off;
            lemma_first_free_below(vs, w0);
            let v = choose|v: int| is_first_free(vs, v);
            assert(vs[v].active_key == NO_KEY) by {
                if vs[v].active_key != NO_KEY {
                    assert(holding_stage(vs[v].adsr.stage));
                }
            }
            assert forall|u: int| 0 <= u < vs.len() && u != v && #[trigger] vs[u].active_key != NO_KEY implies
                vs[u].active_key != n by {
                assert(held_after(last, current, n, vs[u].active_key as int));
            }
        }
    } else if !key_held(current, n) && key_held(last, n) {
        assert forall|u: int| 0 <= u < vs.len() && #[trigger] vs[u].active_key == n implies
            vs[u].adsr.stage != AdsrStage::Off by {
            assert(holding_stage(vs[u].adsr.stage));
        }
        assert(ws.len() == vs.len());
        assert forall|v: int| 0 <= v < ws.len() && #[trigger] ws[v].active_key != NO_KEY implies
            ws[v].active_key == vs[v].active_key && ws[v] == vs[v] by {
        }
    } else {
    }
}

proof fn lemma_keys_consistent(vs: Seq<Voice>, last: u16, current: u16, base: int, n: nat)
    requires
        n <= KEYS_NUM,
        voices_consistent(vs, last),
    ensures
        voices_consistent_with(keys_applied(vs, last, current, base, n), last, current, n as int),
    decreases n,
{
    if n == 0 {
        assert forall|v: int| 0 <= v < vs.len() && #[trigger] vs[v].active_key != NO_KEY implies
            held_after(last, current, 0, vs[v].active_key as int) by {
            assert(held_after(last, last, 0, vs[v].active_key as int));
        }
    } else {
        lemma_keys_consistent(vs, last, current, base, (n - 1) as nat);
        lemma_key_step_consistent(
            keys_applied(vs, last, current, base, (n - 1) as nat),
            last,
            current,
            base,
            n - 1,
        );
    }
}

/// Key handling keeps the voices consistent with the keyboard: if before
/// it every playing voice held a key of the last mask, in attack, decay or
/// sustain, and no key had two voices, the same holds afterwards for the
/// current mask.
pub proof fn lemma_process_keys_consistent(vs: Seq<Voice>, last: u16, current: u16, base: int)
    requires
        voices_consistent(vs, last),
    ensures
        voices_consistent(keys_applied(vs, last, current, base, KEYS_NUM as nat), current),
{
    lemma_keys_consistent(vs, last, current, base, KEYS_NUM as nat);
    let ws = keys_applied(vs, last, current, base, KEYS_NUM as nat);
    assert forall|v: int| 0 <= v < ws.len() && #[trigger] ws[v].active_key != NO_KEY implies
        held_after(current, current, 0, ws[v].active_key as int) by {
        assert(held_after(last, current, KEYS_NUM as int, ws[v].active_key as int));
    }
}

/// Running a voice's envelope for one sample (or changing its parameters)
/// keeps the voices consistent with the keyboard: a voice holding a key
/// stays in attack, decay or sustain.
pub proof fn lemma_tick_keeps_consistent(
    vs: Seq<Voice>,
    mask: u16,
    v: int,
    w: Voice,
    level: int,
    attack: int,
    decay: int,
    sustain: int,
    release: int,
    floor: int,
)
    requires
        voices_consistent(vs, mask),
        0 <= v < vs.len(),
        w.active_key == vs[v].active_key,
        vs[v].adsr.stage == AdsrStage::Off || w.adsr.stage == tick_outcome(
            vs[v].adsr.stage,
            level,
            attack,
            decay,
            sustain,
            release,
            floor,
        ).0 || w.adsr.stage == vs[v].adsr.stage,
    ensures
        voices_consistent(vs.update(v, w), mask),
{
    let ws = vs.update(v, w);
    if vs[v].active_key != NO_KEY {
        assert(holding_stage(vs[v].adsr.stage));
    }
    assert forall|a: int, b: int|
        0 <= a < ws.len() && 0 <= b < ws.len() && a != b && #[trigger] ws[a].active_key
            != NO_KEY implies ws[a].active_key != #[trigger] ws[b].active_key by {
        assert(vs[a].active_key != NO_KEY);
    }
}

} // verus!

verus! {

/// Full scale of a filter cutoff: a cutoff of `CUTOFF_ONE` stands for 1.0
/// (a thousandth of an envelope level's full scale per thousandth).
pub const CUTOFF_ONE: i64 = 1099511627776000;

/// Filter cutoff of a voice, as a fraction of `CUTOFF_ONE`: the preset's
/// cutoff (in thousandths) raised by the envelope level (a fraction of
/// `LEVEL_ONE`) times the envelope amount (in thousandths), clamped into
/// `[0, CUTOFF_ONE]`. No rounding takes place.
pub open spec fn cutoff_with_envelope(cutoff: int, level: int, amount: int) -> int {
    clamp_int(cutoff * LEVEL_ONE + level * amount, 0, CUTOFF_ONE as int)
}

/// The filter cutoff for the current envelope level; see
/// `cutoff_with_envelope`.
pub fn dynamic_cutoff(cutoff: i32, level: u64, amount: i32) -> (r: i64)
    ensures
        r == cutoff_with_envelope(cutoff as int, level as int, amount as int),
        0 <= r <= CUTOFF_ONE,
{
    assert(-(0x8000_0000 * 0xffff_ffff_ffff_ffff) <= (level as int) * (amount as int)
        <= 0x8000_0000 * 0xffff_ffff_ffff_ffff) by (nonlinear_arith)
        requires 0 <= level <= 0xffff_ffff_ffff_ffffu64, -0x8000_0000 <= amount < 0x8000_0000;
    assert(-(0x8000_0000 * LEVEL_ONE) <= (cutoff as int) * LEVEL_ONE <= 0x8000_0000 * LEVEL_ONE)
        by (nonlinear_arith)
        requires -0x8000_0000 <= cutoff < 0x8000_0000;
    let sum: i128 = cutoff as i128 * (LEVEL_ONE as i128) + level as i128 * amount as i128;
    if sum < 0 {
        0
    } else if sum > CUTOFF_ONE as i128 {
        CUTOFF_ONE
    } else {
        sum as i64
    }
}

/// Loudest sample the converter receives, either way.
pub const DAC_LIMIT: i32 = 20000;

/// The 16-bit word sent to the converter for a scaled sample: clamped into
/// `[-DAC_LIMIT, DAC_LIMIT]`, in two's complement.
pub fn dac_word(sample: i32) -> (r: u16)
    ensures
        r == (clamp_int(sample as int, -20000, 20000) + 65536) % 65536,
{
    let c: i32 = if sample < -DAC_LIMIT {
        -DAC_LIMIT
    } else if sample > DAC_LIMIT {
        DAC_LIMIT
    } else {
        sample
    };
    if c < 0 {
        (c + 65536) as u16
    } else {
        c as u16
    }
}

} // verus!

verus! {

/// The note table is equal-tempered from C2 up: every note is higher than
/// the one below it, a note twelve semitones up has twice the frequency
/// (within two hundredths of a hertz of rounding), and the A above middle
/// C (note 33) is 440 Hz.
pub proof fn lemma_note_table_tempered()
    ensures
        note_table().len() == NOTES_NUM,
        forall|i: int| 0 <= i < NOTES_NUM - 1 ==> #[trigger] note_table()[i] < note_table()[i + 1],
        forall|i: int|
            0 <= i < NOTES_NUM - 12 ==> -2 <= #[trigger] note_table()[i + 12] - 2 * note_table()[i]
                <= 2,
        note_table()[33] == 44000,
{
    let t = note_table();
    assert(t[0] == 6541 && t[1] == 6930 && t[2] == 7342 && t[3] == 7778 && t[4] == 8241);
    assert(t[5] == 8731 && t[6] == 9250 && t[7] == 9800 && t[8] == 10383 && t[9] == 11000);
    assert(t[10] == 11654 && t[11] == 12347 && t[12] == 13081 && t[13] == 13859);
    assert(t[14] == 14683 && t[15] == 15556 && t[16] == 16481 && t[17] == 17461);
    assert(t[18] == 18500 && t[19] == 19600 && t[20] == 20765 && t[21] == 22000);
    assert(t[22] == 23308 && t[23] == 24694 && t[24] == 26163 && t[25] == 27718);
    assert(t[26] == 29366 && t[27] == 31113 && t[28] == 32963 && t[29] == 34923);
    assert(t[30] == 36999 && t[31] == 39200 && t[32] == 41530 && t[33] == 44000);
    assert(t[34] == 46616 && t[35] == 49388 && t[36] == 52325 && t[37] == 55437);
    assert(t[38] == 58733 && t[39] == 62225 && t[40] == 65925 && t[41] == 69846);
}

} // verus!
