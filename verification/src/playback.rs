//! One decoded audio file being mixed into the render output.
//!
//! Holds the decoded sample sequence (immutable once created), a read
//! cursor, and a per-file gain fixed at creation.  `mix_into` sums the next
//! samples onto an output buffer — on top of whatever is already there —
//! and reports whether anything is left to play.

use crate::sample::{clamp_gain, clamp_gain_exec, mix_add, mix_add_exec, GAIN_UNIT};
use vstd::prelude::*;

verus! {

/// `out0` with the samples of `samples` starting at `pos` summed on top,
/// each scaled by `gain` thousandths; slots past the end of `samples` keep
/// their old value.
pub open spec fn mixed_with(out0: Seq<i32>, samples: Seq<i32>, pos: int, gain: int) -> Seq<i32> {
    Seq::new(
        out0.len(),
        |k: int|
            if pos + k < samples.len() {
                mix_add(out0[k] as int, samples[pos + k] as int, gain) as i32
            } else {
                out0[k]
            },
    )
}

/// A decoded file with a read cursor and a fixed per-file gain.
pub struct FilePlayback {
    samples: Vec<i32>,
    position: usize,
    gain: u32,
}

impl FilePlayback {
    /// The decoded sample sequence.
    pub closed spec fn samples_spec(self) -> Seq<i32> {
        self.samples@
    }

    /// The read cursor: how many samples have been consumed.
    pub closed spec fn pos_spec(self) -> int {
        self.position as int
    }

    /// The per-file gain, in thousandths.
    pub closed spec fn gain_spec(self) -> int {
        self.gain as int
    }

    /// The cursor has not run past the end and the gain is a valid gain.
    pub open spec fn wf(self) -> bool {
        &&& self.pos_spec() <= self.samples_spec().len()
        &&& 0 <= self.gain_spec() <= GAIN_UNIT as int
    }

    /// Number of samples not yet consumed.
    pub open spec fn remaining(self) -> int {
        self.samples_spec().len() - self.pos_spec()
    }

    /// A playback source at the start of `samples`, with the requested gain
    /// clamped into `[0, GAIN_UNIT]`.
    pub fn new(samples: Vec<i32>, gain_raw: i64) -> (r: FilePlayback)
        ensures
            r.wf(),
            r.samples_spec() == samples@,
            r.pos_spec() == 0,
            r.gain_spec() == clamp_gain(gain_raw as int),
    {
        let gain = clamp_gain_exec(gain_raw);
        FilePlayback { samples, position: 0, gain }
    }

    /// Sum the next samples onto `out`, scaled by the per-file gain, and
    /// advance the cursor; stop at whichever ends first.  Returns whether
    /// samples remain after this call — `false` from the call that consumes
    /// the last sample onward.
    #[verifier::loop_isolation(false)]
    pub fn mix_into(&mut self, out: &mut Vec<i32>) -> (more: bool)
        requires
            old(self).wf(),
        ensures
            final(self).wf(),
            final(self).samples_spec() == old(self).samples_spec(),
            final(self).gain_spec() == old(self).gain_spec(),
            final(self).pos_spec() == old(self).pos_spec() + if old(out)@.len() as int
                <= old(self).remaining() {
                old(out)@.len() as int
            } else {
                old(self).remaining()
            },
            final(out)@.len() == old(out)@.len(),
            final(out)@ == mixed_with(
                old(out)@,
                old(self).samples_spec(),
                old(self).pos_spec(),
                old(self).gain_spec(),
            ),
            more == (final(self).pos_spec() < final(self).samples_spec().len() as int),
    {
        let len = self.samples.len();
        let n = if out.len() <= len - self.position {
            out.len()
        } else {
            len - self.position
        };
        let mut i: usize = 0;
        while i < n
            invariant
                i <= n,
                n <= out@.len(),
                self.position + n <= len,
                *self == *old(self),
                out@.len() == old(out)@.len(),
                forall|k: int|
                    0 <= k < i ==> out@[k] as int == mix_add(
                        old(out)@[k] as int,
                        self.samples@[self.position + k] as int,
                        self.gain as int,
                    ),
                forall|k: int| i <= k < out@.len() ==> out@[k] == old(out)@[k],
            decreases n - i,
        {
            let v = mix_add_exec(out[i], self.samples[self.position + i], self.gain);
            out.set(i, v);
            i = i + 1;
        }
        self.position = self.position + n;
        proof {
            assert(out@ =~= mixed_with(
                old(out)@,
                old(self).samples_spec(),
                old(self).pos_spec(),
                old(self).gain_spec(),
            ));
        }
        self.position < len
    }
}

} // verus!
