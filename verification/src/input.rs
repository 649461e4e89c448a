use vstd::prelude::*;
use crate::synth::adsr::{clamp_int, div_toward_zero};
use crate::synth::effects::{
    DisplayPage, Effect, EffectType, SynthState, Preset, PRESETS_NUM, next_effect_rel,
    prev_effect_rel, waveform_changed, range_changed, envelope_changed, unison_changed,
    fmmod_changed, filter_changed,
};

verus! {

/// Lowest potentiometer reading that counts; lower readings count as this.
pub const POT_MIN: u32 = 2000;

/// Highest potentiometer reading that counts; higher readings count as this.
pub const POT_MAX: u32 = 13000;

/// Number of keys on the keyboard.
pub const KEYS_NUM: usize = 13;

/// A reading mapped onto `0..=n` evenly over `[POT_MIN, POT_MAX]`, rounded to
/// the nearest step (halves round up).
pub open spec fn pot_steps(val: int, n: int) -> int {
    ((clamp_int(val, POT_MIN as int, POT_MAX as int) - POT_MIN) * n + (POT_MAX - POT_MIN) / 2)
        / ((POT_MAX - POT_MIN) as int)
}

/// The reading in `pot_steps(val, n)`.
fn discrete_steps(val: u32, n: u32) -> (r: u32)
    requires
        n <= 100,
    ensures
        r == pot_steps(val as int, n as int),
{
    let clamped: u32 = if val < POT_MIN {
        POT_MIN
    } else if val > POT_MAX {
        POT_MAX
    } else {
        val
    };
    let adjusted = clamped - POT_MIN;
    let range = POT_MAX - POT_MIN;
    assert(adjusted * n <= 11000 * 100) by (nonlinear_arith)
        requires adjusted <= 11000, n <= 100;
    (adjusted * n + range / 2) / range
}

/// Volume in percent, `0..=100`.
pub open spec fn volume_of(val: int) -> int {
    pot_steps(val, 100)
}

/// Position `0.0..=0.5` in steps of 0.005, in thousandths.
pub open spec fn milli_0_05(val: int) -> int {
    pot_steps(val, 100) * 5
}

/// Position `0.0..=1.0` in steps of 0.1, in thousandths.
pub open spec fn milli_0_1(val: int) -> int {
    pot_steps(val, 10) * 100
}

/// Position `0.0..=10.0` in steps of 0.5, in thousandths.
pub open spec fn milli_0_10(val: int) -> int {
    pot_steps(val, 20) * 500
}

/// Octave selector: 0, 1 or 2 (in thousandths) by thirds of the raw range.
pub open spec fn milli_octave(val: int) -> int {
    if val < 5000 {
        0
    } else if val > 10000 {
        2000
    } else {
        1000
    }
}

/// Semitone shift `0..=5`, in thousandths.
pub open spec fn milli_semi(val: int) -> int {
    pot_steps(val, 5) * 1000
}

/// Position `0.0..=1.0` in steps of 0.01, in thousandths.
pub open spec fn milli_0_1_fine(val: int) -> int {
    pot_steps(val, 100) * 10
}

/// Volume in percent.
pub fn pot_to_volume(val: u32) -> (r: i16)
    ensures
        r == volume_of(val as int),
        0 <= r <= 100,
{
    let s = discrete_steps(val, 100);
    proof {
        lemma_pot_steps_at_most(val as int, 100);
    }
    s as i16
}

/// Position `0.0..=0.5`, in thousandths.
pub fn pot_to_0_05(val: u32) -> (r: i32)
    ensures
        r == milli_0_05(val as int),
{
    let s = discrete_steps(val, 100);
    proof {
        lemma_pot_steps_at_most(val as int, 100);
    }
    s as i32 * 5
}

/// Position `0.0..=1.0` in tenths, in thousandths.
pub fn pot_to_0_1(val: u32) -> (r: i32)
    ensures
        r == milli_0_1(val as int),
{
    let s = discrete_steps(val, 10);
    proof {
        lemma_pot_steps_at_most(val as int, 10);
    }
    s as i32 * 100
}

/// Position `0.0..=10.0` in halves, in thousandths.
pub fn pot_to_0_10(val: u32) -> (r: i32)
    ensures
        r == milli_0_10(val as int),
{
    let s = discrete_steps(val, 20);
    proof {
        lemma_pot_steps_at_most(val as int, 20);
    }
    s as i32 * 500
}

/// Octave 0, 1 or 2, in thousandths.
pub fn pot_to_octave(val: u32) -> (r: i32)
    ensures
        r == milli_octave(val as int),
{
    if val < 5000 {
        0
    } else if val > 10000 {
        2000
    } else {
        1000
    }
}

/// Semitone shift `0..=5`, in thousandths.
pub fn pot_to_semi(val: u32) -> (r: i32)
    ensures
        r == milli_semi(val as int),
{
    let s = discrete_steps(val, 5);
    proof {
        lemma_pot_steps_at_most(val as int, 5);
    }
    s as i32 * 1000
}

/// Position `0.0..=1.0` in hundredths, in thousandths.
pub fn pot_to_0_1_fine(val: u32) -> (r: i32)
    ensures
        r == milli_0_1_fine(val as int),
{
    let s = discrete_steps(val, 100);
    proof {
        lemma_pot_steps_at_most(val as int, 100);
    }
    s as i32 * 10
}

/// A mapped reading never exceeds the number of steps; the lowest reading
/// maps to 0 and the highest to `n`.
pub proof fn lemma_pot_steps_at_most(val: int, n: int)
    requires
        0 <= n,
    ensures
        0 <= pot_steps(val, n) <= n,
        val <= POT_MIN ==> pot_steps(val, n) == 0,
        val >= POT_MAX ==> pot_steps(val, n) == n,
{
    let c = clamp_int(val, POT_MIN as int, POT_MAX as int) - POT_MIN;
    assert(0 <= c * n <= 11000 * n) by (nonlinear_arith)
        requires 0 <= c <= 11000, 0 <= n;
    assert(0 <= (c * n + 5500) / 11000 <= n) by (nonlinear_arith)
        requires 0 <= c * n <= 11000 * n, 0 <= n;
    if val <= POT_MIN {
        assert(c * n == 0) by (nonlinear_arith)
            requires c == 0;
    }
    if val >= POT_MAX {
        assert((11000 * n + 5500) / 11000 == n) by (nonlinear_arith)
            requires 0 <= n;
    }
}

/// Turning a potentiometer up never lowers its mapped value.
pub proof fn lemma_pot_steps_monotonic(a: int, b: int, n: int)
    requires
        a <= b,
        0 <= n,
    ensures
        pot_steps(a, n) <= pot_steps(b, n),
{
    let ca = clamp_int(a, POT_MIN as int, POT_MAX as int) - POT_MIN;
    let cb = clamp_int(b, POT_MIN as int, POT_MAX as int) - POT_MIN;
    assert(ca * n <= cb * n) by (nonlinear_arith)
        requires ca <= cb, 0 <= n;
    vstd::arithmetic::div_mod::lemma_div_is_ordered(ca * n + 5500, cb * n + 5500, 11000);
}

/// Key `key` is held in the bit mask `mask`.
pub open spec fn key_held(mask: u16, key: int) -> bool {
    (mask >> (key as u16)) & 1 == 1
}

/// The mask bit of key `idx`.
pub fn key_bit(idx: usize) -> (r: u16)
    requires
        idx < 16,
    ensures
        forall|j: int| 0 <= j < 16 ==> (key_held(r, j) <==> j == idx),
{
    let i = idx as u16;
    let r: u16 = 1u16 << i;
    assert forall|j: int| 0 <= j < 16 implies (key_held(r, j) <==> j == idx) by {
        let jj = j as u16;
        assert(((1u16 << i) >> jj) & 1 == 1 <==> jj == i) by (bit_vector)
            requires i < 16, jj < 16;
    }
    r
}

/// One reading of the rotary encoder's counter, decoded into whole detents.
#[derive(Clone, Copy, Debug)]
pub struct EncoderTurn {
    /// Whole detents turned (four counts each), toward zero.
    pub rotation: i16,
    /// Counts turned since the last consumed position, as a signed value.
    pub delta: i16,
    /// The position after consuming the whole detents.
    pub last: u16,
}

/// Counts from `last` to `current` on a 16-bit counter that wraps, as a
/// signed value in `[-32768, 32767]`.
pub open spec fn signed_delta(last: u16, current: u16) -> int {
    let d = (current - last) % 65536;
    if d >= 32768 {
        d - 65536
    } else {
        d
    }
}

/// Decodes the encoder counter: the signed counts since `last`, the whole
/// detents among them (counts divided by four toward zero; a turn under four
/// counts is no detent), and the position after consuming those detents.
pub fn decode_encoder(last: u16, current: u16) -> (t: EncoderTurn)
    ensures
        t.delta == signed_delta(last, current),
        t.rotation == div_toward_zero(t.delta as int, 4),
        t.last == (last + 4 * t.rotation) % 65536,
{
    let d: u32 = (current as u32 + 65536 - last as u32) % 65536;
    let delta: i32 = if d >= 32768 {
        d as i32 - 65536
    } else {
        d as i32
    };
    let rot: i32 = if delta >= 4 || delta <= -4 {
        if delta >= 0 {
            delta / 4
        } else {
            -((-delta) / 4)
        }
    } else {
        0
    };
    let moved: u32 = (last as i32 + 4 * rot + 65536) as u32;
    EncoderTurn { rotation: rot as i16, delta: delta as i16, last: (moved % 65536) as u16 }
}

/// Decoding consumes whole detents only: what is left of the turn is under
/// four counts, and decoding again from the new position sees exactly it.
pub proof fn lemma_encoder_remainder(last: u16, current: u16, rotation: int, new_last: u16)
    requires
        rotation == div_toward_zero(signed_delta(last, current), 4),
        new_last == (last + 4 * rotation) % 65536,
    ensures
        -4 < signed_delta(last, current) - 4 * rotation < 4,
        signed_delta(new_last, current) == signed_delta(last, current) - 4 * rotation,
{
    let delta = signed_delta(last, current);
    let rest = delta - 4 * rotation;
    assert(-4 < rest < 4);
    let d = (current - last) % 65536;
    assert(delta == d || delta == d - 65536);
    assert((current - new_last) % 65536 == (current - last - 4 * rotation) % 65536) by {
        vstd::arithmetic::div_mod::lemma_mod_sub_multiples_vanish(0, 65536);
        let k = (last + 4 * rotation) / 65536;
        vstd::arithmetic::div_mod::lemma_fundamental_div_mod(last + 4 * rotation, 65536);
        vstd::arithmetic::div_mod::lemma_mod_multiples_vanish(k, current - last - 4 * rotation, 65536);
    }
    assert((current - last - 4 * rotation) % 65536 == (delta - 4 * rotation) % 65536) by {
        vstd::arithmetic::div_mod::lemma_fundamental_div_mod(current - last, 65536);
        let q = (current - last) / 65536;
        if delta == d {
            vstd::arithmetic::div_mod::lemma_mod_multiples_vanish(q, delta - 4 * rotation, 65536);
        } else {
            vstd::arithmetic::div_mod::lemma_mod_multiples_vanish(q + 1, delta - 4 * rotation, 65536);
        }
    }
}

} // verus!

verus! {

/// Encoder turn handed to a stepped parameter, in thousandths: the detents
/// when the encoder moved at all, else nothing.
pub open spec fn turn_milli(delta_eff3: int, rot_eff3: int) -> int {
    if delta_eff3 != 0 {
        rot_eff3 * 1000
    } else {
        0
    }
}

/// The selected effect after the panel's potentiometers and parameter
/// encoder were read, by the effect's kind.
pub open spec fn effect_edited(
    e: Effect,
    delta_eff3: int,
    rot_eff3: int,
    pot1: int,
    pot2: int,
    pot4: int,
) -> Effect {
    match e.typ {
        EffectType::Waveform => waveform_changed(
            e,
            turn_milli(delta_eff3, rot_eff3),
            milli_0_1(pot2),
        ),
        EffectType::MusicalRange => range_changed(e, milli_octave(pot2), milli_semi(pot4)),
        EffectType::Envelope => envelope_changed(
            e,
            milli_0_1_fine(pot1),
            milli_0_1_fine(pot2),
            rot_eff3 * 100,
            milli_0_1_fine(pot4),
        ),
        EffectType::Unison => unison_changed(
            e,
            turn_milli(delta_eff3, rot_eff3),
            milli_0_05(pot4),
        ),
        EffectType::FMMod => fmmod_changed(
            e,
            milli_0_10(pot2),
            turn_milli(delta_eff3, rot_eff3),
            milli_0_10(pot4),
        ),
        EffectType::Filter => filter_changed(
            e,
            milli_0_1_fine(pot1),
            milli_0_1_fine(pot2),
            turn_milli(delta_eff3, rot_eff3),
            milli_0_1_fine(pot4),
        ),
    }
}

/// Applies the readings to the selected effect.
fn edit_effect(e: &mut Effect, delta_eff3: i16, rot_eff3: i16, pot1: u32, pot2: u32, pot4: u32)
    ensures
        *final(e) == effect_edited(
            *old(e),
            delta_eff3 as int,
            rot_eff3 as int,
            pot1 as int,
            pot2 as int,
            pot4 as int,
        ),
{
    let turn: i32 = if delta_eff3 != 0 {
        rot_eff3 as i32 * 1000
    } else {
        0
    };
    match e.typ {
        EffectType::Waveform => {
            e.change_waveform(turn, pot_to_0_1(pot2));
        },
        EffectType::MusicalRange => {
            e.change_range(pot_to_octave(pot2), pot_to_semi(pot4));
        },
        EffectType::Envelope => {
            let sustain_diff: i32 = rot_eff3 as i32 * 100;
            e.change_envelope(
                pot_to_0_1_fine(pot1),
                pot_to_0_1_fine(pot2),
                sustain_diff,
                pot_to_0_1_fine(pot4),
            );
        },
        EffectType::Unison => {
            e.change_unison(turn, pot_to_0_05(pot4));
        },
        EffectType::FMMod => {
            e.change_fmmod(pot_to_0_10(pot2), turn, pot_to_0_10(pot4));
        },
        EffectType::Filter => {
            e.change_filter(
                pot_to_0_1_fine(pot1),
                pot_to_0_1_fine(pot2),
                turn,
                pot_to_0_1_fine(pot4),
            );
        },
    }
}

/// Applies one round of panel input to the synthesizer state.
///
/// On the preset list the selection encoder moves between presets. On the
/// effect list it moves between the selected preset's effects; when it did
/// not turn, the potentiometers and the parameter encoder edit the selected
/// effect (see `effect_edited`).
pub fn apply_controls(
    state: &mut SynthState,
    rot_select: i16,
    delta_eff3: i16,
    rot_eff3: i16,
    pot1: u32,
    pot2: u32,
    pot4: u32,
)
    requires
        old(state).page == DisplayPage::EffectList ==> {
            &&& old(state).idx < PRESETS_NUM
            &&& old(state).presets@[old(state).idx as int].wf()
        },
    ensures
        old(state).wf() ==> final(state).wf(),
        final(state).page == old(state).page,
        old(state).page == DisplayPage::PresetList ==> {
            &&& final(state).presets == old(state).presets
            &&& final(state).idx == if rot_select > 0 && old(state).idx < PRESETS_NUM - 1 {
                (old(state).idx + 1) as usize
            } else if rot_select < 0 && old(state).idx > 0 {
                (old(state).idx - 1) as usize
            } else {
                old(state).idx
            }
        },
        old(state).page == DisplayPage::EffectList ==> {
            let i = old(state).idx as int;
            let p = old(state).presets@[i];
            let q = final(state).presets@[i];
            &&& final(state).idx == old(state).idx
            &&& forall|j: int|
                0 <= j < PRESETS_NUM && j != i ==> final(state).presets@[j] == old(
                    state,
                ).presets@[j]
            &&& rot_select > 0 ==> next_effect_rel(p, q)
            &&& rot_select < 0 ==> prev_effect_rel(p, q)
            &&& rot_select == 0 ==> q == (Preset {
                effects: q.effects,
                ..p
            }) && q.effects@ == p.effects@.update(
                p.idx as int,
                effect_edited(
                    p.effects@[p.idx as int],
                    delta_eff3 as int,
                    rot_eff3 as int,
                    pot1 as int,
                    pot2 as int,
                    pot4 as int,
                ),
            )
        },
{
    if state.page == DisplayPage::PresetList {
        if rot_select > 0 {
            state.next_preset();
        } else if rot_select < 0 {
            state.prev_preset();
        }
    } else {
        let preset = state.active_preset_mut();
        if rot_select > 0 {
            preset.next_effect();
        } else if rot_select < 0 {
            preset.prev_effect();
        } else {
            let k = preset.idx;
            let mut eff = preset.effects[k];
            edit_effect(&mut eff, delta_eff3, rot_eff3, pot1, pot2, pot4);
            preset.effects[k] = eff;
        }
    }
}

/// A press of a page button: button 1 shows the effect list, any other the
/// preset list.
pub fn page_button(state: &mut SynthState, idx: u16)
    ensures
        final(state).page == if idx == 1 {
            DisplayPage::EffectList
        } else {
            DisplayPage::PresetList
        },
        final(state).presets == old(state).presets,
        final(state).idx == old(state).idx,
{
    match idx {
        1 => state.next_page(),
        _ => state.prev_page(),
    }
}

/// Running sums of the four potentiometers over several readings.
pub struct PotAverager {
    pub sums: [u32; 4],
    pub count: u32,
}

impl PotAverager {
    /// No readings yet.
    pub fn new() -> (a: Self)
        ensures
            a.count == 0,
            forall|k: int| 0 <= k < 4 ==> a.sums@[k] == 0,
    {
        PotAverager { sums: [0; 4], count: 0 }
    }

    /// Every sum is at most `count` full-scale readings.
    pub open spec fn wf(&self) -> bool {
        forall|k: int| 0 <= k < 4 ==> self.sums@[k] <= self.count * 65535
    }

    /// Adds one reading of each potentiometer.
    pub fn add(&mut self, readings: [u16; 4])
        requires
            old(self).wf(),
            old(self).count < 65536,
        ensures
            final(self).wf(),
            final(self).count == old(self).count + 1,
            forall|k: int|
                0 <= k < 4 ==> final(self).sums@[k] == old(self).sums@[k] + readings@[k],
    {
        let mut k: usize = 0;
        while k < 4
            invariant
                0 <= k <= 4,
                self.count == old(self).count,
                old(self).count < 65536,
                forall|j: int| 0 <= j < k ==> self.sums@[j] == old(self).sums@[j] + readings@[j],
                forall|j: int| k <= j < 4 ==> self.sums@[j] == old(self).sums@[j],
                forall|j: int| 0 <= j < 4 ==> old(self).sums@[j] <= old(self).count * 65535,
            decreases 4 - k,
        {
            let ghost c = old(self).count as int;
            assert(c * 65535 + 65535 <= 65536 * 65535) by (nonlinear_arith)
                requires c < 65536;
            self.sums[k] = self.sums[k] + readings[k] as u32;
            k += 1;
        }
        self.count = self.count + 1;
        assert forall|j: int| 0 <= j < 4 implies self.sums@[j] <= self.count * 65535 by {
            assert(old(self).sums@[j] + readings@[j] <= old(self).count * 65535 + 65535);
        }
    }

    /// The mean reading of each potentiometer, rounded down.
    pub fn averages(&self) -> (r: [u32; 4])
        requires
            self.count > 0,
        ensures
            forall|k: int| 0 <= k < 4 ==> r@[k] == self.sums@[k] / self.count,
    {
        let r = [
            self.sums[0] / self.count,
            self.sums[1] / self.count,
            self.sums[2] / self.count,
            self.sums[3] / self.count,
        ];
        assert forall|k: int| 0 <= k < 4 implies r@[k] == self.sums@[k] / self.count by {
            assert(0 <= k < 4);
        }
        r
    }
}

} // verus!

verus! {

/// The volume to store after a reading: the mapped volume when it differs
/// from `last`, else nothing.
pub fn volume_update(last: i16, reading: u32) -> (r: Option<i16>)
    ensures
        r == if volume_of(reading as int) != last {
            Some(volume_of(reading as int) as i16)
        } else {
            None::<i16>
        },
{
    let v = pot_to_volume(reading);
    if v != last {
        Some(v)
    } else {
        None
    }
}

} // verus!

verus! {

/// Each potentiometer edits the parameter of its own column: with no
/// parameter fresh, the first parameter follows pot 1 alone, the second
/// pot 2 alone and the fourth pot 4 alone (turning another pot leaves it
/// unchanged), it rises with its own pot, and it reaches the ends of its
/// range at the ends of the pot's travel: 0 to 1.0 for envelope times and
/// filter settings, 0 to 10.0 for FM ratio and amount, 0 to 1.0 for the
/// duty cycle, octave 0 to 2 and 0 to 5 semitones for the range, 0 to 0.5
/// for the unison detune. Parameters a kind does not read keep their value.
#[verifier::spinoff_prover]
#[verifier::rlimit(80)]
pub proof fn lemma_pots_edit_their_own_columns(
    e: Effect,
    d: int,
    r: int,
    p1: int,
    p2: int,
    p4: int,
    q1: int,
    q2: int,
    q4: int,
)
    requires
        !e.fresh_change1,
        !e.fresh_change2,
        !e.fresh_change4,
    ensures
        ({
            let a = effect_edited(e, d, r, p1, p2, p4);
            &&& effect_edited(e, d, r, p1, q2, q4).eff1 == a.eff1
            &&& effect_edited(e, d, r, q1, p2, q4).eff2 == a.eff2
            &&& effect_edited(e, d, r, q1, q2, p4).eff4 == a.eff4
            &&& p1 <= q1 ==> a.eff1 <= effect_edited(e, d, r, q1, p2, p4).eff1
            &&& p2 <= q2 ==> a.eff2 <= effect_edited(e, d, r, p1, q2, p4).eff2
            &&& p4 <= q4 ==> a.eff4 <= effect_edited(e, d, r, p1, p2, q4).eff4
            &&& (e.typ == EffectType::Envelope || e.typ == EffectType::Filter) ==> {
                &&& (p1 <= POT_MIN ==> a.eff1 == 0) && (p1 >= POT_MAX ==> a.eff1 == 1000)
                &&& (p2 <= POT_MIN ==> a.eff2 == 0) && (p2 >= POT_MAX ==> a.eff2 == 1000)
                &&& (p4 <= POT_MIN ==> a.eff4 == 0) && (p4 >= POT_MAX ==> a.eff4 == 1000)
            }
            &&& e.typ == EffectType::FMMod ==> {
                &&& a.eff1 == e.eff1
                &&& (p2 <= POT_MIN ==> a.eff2 == 0) && (p2 >= POT_MAX ==> a.eff2 == 10000)
                &&& (p4 <= POT_MIN ==> a.eff4 == 0) && (p4 >= POT_MAX ==> a.eff4 == 10000)
            }
            &&& e.typ == EffectType::Waveform ==> {
                &&& a.eff1 == e.eff1 && a.eff4 == e.eff4
                &&& (p2 <= POT_MIN ==> a.eff2 == 0) && (p2 >= POT_MAX ==> a.eff2 == 1000)
            }
            &&& e.typ == EffectType::MusicalRange ==> {
                &&& a.eff1 == e.eff1
                &&& (p2 <= POT_MIN ==> a.eff2 == 0) && (p2 >= POT_MAX ==> a.eff2 == 2000)
                &&& (p4 <= POT_MIN ==> a.eff4 == 0) && (p4 >= POT_MAX ==> a.eff4 == 5000)
            }
            &&& e.typ == EffectType::Unison ==> {
                &&& a.eff1 == e.eff1 && a.eff2 == e.eff2
                &&& (p4 <= POT_MIN ==> a.eff4 == 0) && (p4 >= POT_MAX ==> a.eff4 == 500)
            }
        }),
{
    lemma_pot_steps_at_most(p1, 100);
    lemma_pot_steps_at_most(p2, 100);
    lemma_pot_steps_at_most(p4, 100);
    lemma_pot_steps_at_most(q1, 100);
    lemma_pot_steps_at_most(q2, 100);
    lemma_pot_steps_at_most(q4, 100);
    lemma_pot_steps_at_most(p2, 10);
    lemma_pot_steps_at_most(q2, 10);
    lemma_pot_steps_at_most(p2, 20);
    lemma_pot_steps_at_most(q2, 20);
    lemma_pot_steps_at_most(p4, 20);
    lemma_pot_steps_at_most(q4, 20);
    lemma_pot_steps_at_most(p4, 5);
    lemma_pot_steps_at_most(q4, 5);
    if p1 <= q1 {
        lemma_pot_steps_monotonic(p1, q1, 100);
    }
    if p2 <= q2 {
        lemma_pot_steps_monotonic(p2, q2, 100);
        lemma_pot_steps_monotonic(p2, q2, 10);
        lemma_pot_steps_monotonic(p2, q2, 20);
    }
    if p4 <= q4 {
        lemma_pot_steps_monotonic(p4, q4, 100);
        lemma_pot_steps_monotonic(p4, q4, 20);
        lemma_pot_steps_monotonic(p4, q4, 5);
    }
}

} // verus!
