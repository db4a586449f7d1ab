//! A bounded, time-weighted window of recent frame-time samples.
//!
//! The scheduler appends one `(timestamp, duration)` sample per frame; the
//! window keeps at most [`MAX_SAMPLES`] samples and drops samples older than
//! [`MAX_AGE_NANOS`].  From it the backend reports a smoothed CPU time (mean
//! sample duration) and an FPS figure (reciprocal of the mean inter-frame
//! interval).  All times are nanoseconds on a non-decreasing clock.

use vstd::prelude::*;

verus! {

/// Capacity of the sample window.
pub const MAX_SAMPLES: usize = 1000;

/// Maximum age of a retained sample, in nanoseconds.
pub const MAX_AGE_NANOS: u64 = 1_000_000_000;

/// Sample timestamps never decrease.
pub open spec fn times_sorted(s: Seq<(u64, u64)>) -> bool {
    forall|i: int, j: int| 0 <= i <= j < s.len() ==> (#[trigger] s[i]).0 <= (#[trigger] s[j]).0
}

/// Drops samples from the front while the window is over capacity or the
/// oldest sample has aged out.
pub open spec fn spec_flush(s: Seq<(u64, u64)>, now: u64) -> Seq<(u64, u64)>
    decreases s.len(),
{
    if s.len() > MAX_SAMPLES || (s.len() > 0 && s[0].0 + MAX_AGE_NANOS < now) {
        spec_flush(s.drop_first(), now)
    } else {
        s
    }
}

/// Sum of the sample durations.
pub open spec fn spec_sum_durations(s: Seq<(u64, u64)>) -> int
    decreases s.len(),
{
    if s.len() == 0 {
        0
    } else {
        spec_sum_durations(s.drop_last()) + s.last().1
    }
}

/// Mean sample duration; zero for an empty window.
pub open spec fn spec_mean_duration(s: Seq<(u64, u64)>) -> int {
    if s.len() == 0 {
        0
    } else {
        spec_sum_durations(s) / s.len() as int
    }
}

/// Frames per second, in millihertz: `(n - 1) / span` for `n` samples
/// spanning `span` nanoseconds.  Zero (never a division by zero) when the
/// window holds fewer than two samples or all samples share one timestamp.
pub open spec fn spec_fps_millihertz(s: Seq<(u64, u64)>) -> int {
    if s.len() < 2 {
        0
    } else {
        let span = s.last().0 - s[0].0;
        if span == 0 {
            0
        } else {
            (s.len() - 1) * 1_000_000_000_000 / span
        }
    }
}

/// Bounded ring of recent `(timestamp, duration)` samples.
pub struct FrameTimingWindow {
    samples: Vec<(u64, u64)>,
}

/// True when the front sample must be evicted: over capacity or aged out.
fn needs_evict(samples: &Vec<(u64, u64)>, now: u64) -> (r: bool)
    requires
        samples@.len() > 0 ==> samples@[0].0 <= now,
        now + MAX_AGE_NANOS <= u64::MAX,
    ensures
        r == (samples@.len() > MAX_SAMPLES || (samples@.len() > 0 && samples@[0].0
            + MAX_AGE_NANOS < now)),
{
    if samples.len() > MAX_SAMPLES {
        true
    } else if samples.len() > 0 {
        let front: (u64, u64) = samples[0];
        front.0 + MAX_AGE_NANOS < now
    } else {
        false
    }
}

impl FrameTimingWindow {
    /// The retained samples, oldest first.
    pub closed spec fn samples_seq(self) -> Seq<(u64, u64)> {
        self.samples@
    }

    /// Well-formed: within capacity, timestamps non-decreasing.
    pub open spec fn wf(self) -> bool {
        &&& times_sorted(self.samples_seq())
        &&& self.samples_seq().len() <= MAX_SAMPLES
    }

    /// An empty window.
    pub fn new() -> (r: FrameTimingWindow)
        ensures
            r.samples_seq() == Seq::<(u64, u64)>::empty(),
            r.wf(),
    {
        FrameTimingWindow { samples: Vec::new() }
    }

    /// Number of retained samples.
    pub fn len(&self) -> (r: usize)
        ensures
            r == self.samples_seq().len(),
    {
        self.samples.len()
    }

    /// Appends a sample taken at `now`, then evicts samples that are over
    /// capacity or older than [`MAX_AGE_NANOS`].
    pub fn add(&mut self, now: u64, duration_nanos: u64)
        requires
            old(self).wf(),
            old(self).samples_seq().len() > 0 ==> old(self).samples_seq().last().0 <= now,
            now + MAX_AGE_NANOS <= u64::MAX,
        ensures
            final(self).samples_seq() == spec_flush(
                old(self).samples_seq().push((now, duration_nanos)),
                now,
            ),
            final(self).wf(),
    {
        self.samples.push((now, duration_nanos));
        let ghost target = spec_flush(self.samples@, now);
        proof {
            let s = self.samples@;
            let s0 = old(self).samples_seq();
            assert forall|i: int, j: int| 0 <= i <= j < s.len() implies (#[trigger] s[i]).0
                <= (#[trigger] s[j]).0 by {
                if j < s.len() - 1 {
                    assert(s0[i].0 <= s0[j].0);
                } else if i < s.len() - 1 {
                    assert(s0[i].0 <= s0.last().0);
                }
            }
            assert forall|k: int| 0 <= k < s.len() implies (#[trigger] s[k]).0 <= now by {
                assert(s[k].0 <= s[s.len() - 1].0);
            }
        }
        while needs_evict(&self.samples, now)
            invariant
                times_sorted(self.samples@),
                forall|k: int| 0 <= k < self.samples@.len() ==> (#[trigger] self.samples@[k]).0
                    <= now,
                spec_flush(self.samples@, now) == target,
                now + MAX_AGE_NANOS <= u64::MAX,
            decreases self.samples.len(),
        {
            let ghost before = self.samples@;
            proof {
                assert(spec_flush(before, now) == spec_flush(before.drop_first(), now));
            }
            self.samples.remove(0);
            proof {
                assert(self.samples@ =~= before.drop_first());
            }
        }
        proof {
            assert(spec_flush(self.samples@, now) == self.samples@);
        }
    }

    /// Mean duration of the retained samples, in nanoseconds; zero when the
    /// window is empty.
    pub fn cpu_time_nanos(&self) -> (r: u64)
        requires
            self.wf(),
        ensures
            r == spec_mean_duration(self.samples_seq()),
    {
        let n = self.samples.len();
        if n == 0 {
            return 0;
        }
        let mut total: u128 = 0;
        let mut i: usize = 0;
        while i < n
            invariant
                i <= n,
                n == self.samples@.len(),
                n <= MAX_SAMPLES,
                total == spec_sum_durations(self.samples@.take(i as int)),
                total <= i * (u64::MAX as int),
            decreases n - i,
        {
            let ghost prefix = self.samples@.take(i as int);
            total = total + (self.samples[i].1 as u128);
            proof {
                assert(self.samples@.take(i + 1).drop_last() =~= prefix);
            }
            i = i + 1;
        }
        proof {
            assert(self.samples@.take(n as int) =~= self.samples@);
            assert(total as int / (n as int) <= u64::MAX) by (nonlinear_arith)
                requires
                    total <= n * (u64::MAX as int),
                    0 < n,
            {
            }
        }
        (total / (n as u128)) as u64
    }

    /// Frames per second in millihertz; zero (never a division by zero) when
    /// fewer than two samples are retained or the span is zero.
    pub fn fps_millihertz(&self) -> (r: u64)
        requires
            self.wf(),
        ensures
            r == spec_fps_millihertz(self.samples_seq()),
    {
        let n = self.samples.len();
        if n < 2 {
            return 0;
        }
        let first: (u64, u64) = self.samples[0];
        let last: (u64, u64) = self.samples[n - 1];
        proof {
            assert(self.samples@[0].0 <= self.samples@[n - 1].0);
        }
        let span = last.0 - first.0;
        if span == 0 {
            return 0;
        }
        ((n - 1) as u64) * 1_000_000_000_000u64 / span
    }
}

} // verus!
