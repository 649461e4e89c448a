use vstd::prelude::*;

verus! {

/// Number of steps in a sequence.
pub const SEQ_STEPS: usize = 8;

/// A step sequencer: eight steps of up to four notes each.
#[derive(Clone, Copy)]
pub struct Sequencer {
    pub steps: [[Option<usize>; 4]; 8],
    pub length: usize,
    pub is_recording: bool,
    pub is_playing: bool,
    pub rec_step: usize,
}

/// Every note slot of every step is empty.
pub open spec fn all_steps_empty(steps: [[Option<usize>; 4]; 8]) -> bool {
    forall|i: int, j: int| 0 <= i < 8 && 0 <= j < 4 ==> #[trigger] steps@[i]@[j] is None
}

impl Sequencer {
    /// An empty, stopped sequence of full length.
    pub fn new() -> (s: Self)
        ensures
            all_steps_empty(s.steps),
            s.length == SEQ_STEPS,
            !s.is_recording,
            !s.is_playing,
            s.rec_step == 0,
    {
        Self {
            steps: [[None; 4]; 8],
            length: 8,
            is_recording: false,
            is_playing: false,
            rec_step: 0,
        }
    }

    /// Empties every step and stops recording and playback; the length is kept.
    pub fn clear(&mut self)
        ensures
            all_steps_empty(final(self).steps),
            final(self).length == old(self).length,
            !final(self).is_recording,
            !final(self).is_playing,
            final(self).rec_step == 0,
    {
        self.steps = [[None; 4]; 8];
        self.rec_step = 0;
        self.is_recording = false;
        self.is_playing = false;
    }
}

/// Empty steps are all alike: what `clear` leaves is exactly what `new`
/// starts with.
pub proof fn lemma_empty_steps_unique(a: [[Option<usize>; 4]; 8], b: [[Option<usize>; 4]; 8])
    requires
        all_steps_empty(a),
        all_steps_empty(b),
    ensures
        a == b,
{
    assert forall|i: int| 0 <= i < 8 implies a@[i] == b@[i] by {
        assert forall|j: int| 0 <= j < 4 implies a@[i]@[j] == b@[i]@[j] by {
            assert(a@[i]@[j] is None);
            assert(b@[i]@[j] is None);
        }
        assert(a@[i]@ =~= b@[i]@);
        vstd::array::axiom_array_ext_equal(a@[i], b@[i]);
        assert(a@[i] =~= b@[i]);
    }
    assert(a@ =~= b@);
    vstd::array::axiom_array_ext_equal(a, b);
    assert(a =~= b);
}

} // verus!
