//! Sliding-window history of one metric stream.

use std::collections::VecDeque;
use vstd::prelude::*;

verus! {

/// One reading of a metric stream: the IEEE-754 bit pattern of a
/// single-precision value. The library stores and moves samples but never
/// does arithmetic on them, so the pattern is all it needs.
pub type Sample = u32;

/// The sample that pads a window: the bit pattern of positive zero.
pub const ZERO_SAMPLE: Sample = 0;

/// A window of `n` zero samples.
pub open spec fn zeros(n: nat) -> Seq<Sample> {
    Seq::new(n, |i: int| ZERO_SAMPLE)
}

/// The window `s` after one more sample arrived: the oldest entry leaves,
/// the new one becomes the newest. A window without room stays empty.
pub open spec fn shifted(s: Seq<Sample>, sample: Sample) -> Seq<Sample> {
    if s.len() == 0 {
        s
    } else {
        s.subrange(1, s.len() as int).push(sample)
    }
}

/// The window `s` brought to length `n`: the newest `n` entries when it
/// shrinks, zero samples in front of the old entries when it grows.
pub open spec fn resized(s: Seq<Sample>, n: nat) -> Seq<Sample> {
    if n <= s.len() {
        s.subrange(s.len() - n, s.len() as int)
    } else {
        zeros((n - s.len()) as nat) + s
    }
}

/// The window `s` after every sample of `pushed` arrived, in order.
pub open spec fn after_pushes(s: Seq<Sample>, pushed: Seq<Sample>) -> Seq<Sample>
    decreases pushed.len(),
{
    if pushed.len() == 0 {
        s
    } else {
        shifted(after_pushes(s, pushed.drop_last()), pushed.last())
    }
}

/// A fixed-length window over one time series, oldest entry first.
pub struct HistoryBuffer {
    samples: VecDeque<Sample>,
}

impl View for HistoryBuffer {
    type V = Seq<Sample>;

    closed spec fn view(&self) -> Seq<Sample> {
        self.samples@
    }
}

impl HistoryBuffer {
    /// A window of `capacity` zero samples.
    pub fn new(capacity: usize) -> (buffer: HistoryBuffer)
        ensures
            buffer@ == zeros(capacity as nat),
    {
        let mut samples: VecDeque<Sample> = VecDeque::new();
        let mut filled: usize = 0;
        while filled < capacity
            invariant
                filled <= capacity,
                samples@ == zeros(filled as nat),
            decreases capacity - filled,
        {
            samples.push_back(ZERO_SAMPLE);
            filled = filled + 1;
        }
        HistoryBuffer { samples }
    }

    /// Number of entries the window holds; it never changes under `push`.
    pub fn capacity(&self) -> (n: usize)
        ensures
            n == self@.len(),
    {
        self.samples.len()
    }

    /// Records one sample: drops the oldest entry and appends the new one.
    pub fn push(&mut self, sample: Sample)
        ensures
            final(self)@ == shifted(old(self)@, sample),
    {
        match self.samples.pop_front() {
            Some(_) => {
                self.samples.push_back(sample);
            },
            None => {},
        }
    }

    /// Brings the window to `new_capacity` entries, keeping the newest
    /// samples and padding with zeros in front where it grows.
    pub fn resize(&mut self, new_capacity: usize)
        ensures
            final(self)@ == resized(old(self)@, new_capacity as nat),
    {
        let ghost before = self.samples@;
        if self.samples.len() > new_capacity {
            while self.samples.len() > new_capacity
                invariant
                    new_capacity <= self.samples@.len() <= before.len(),
                    self.samples@ == before.subrange(
                        before.len() - self.samples@.len(),
                        before.len() as int,
                    ),
                decreases self.samples@.len(),
            {
                self.samples.pop_front();
            }
        } else {
            while self.samples.len() < new_capacity
                invariant
                    before.len() <= self.samples@.len() <= new_capacity,
                    self.samples@ == zeros((self.samples@.len() - before.len()) as nat) + before,
                decreases new_capacity - self.samples@.len(),
            {
                self.samples.push_front(ZERO_SAMPLE);
            }
        }
    }

    /// The entries in order, oldest first.
    pub fn snapshot(&self) -> (entries: Vec<Sample>)
        ensures
            entries@ == self@,
    {
        let mut entries: Vec<Sample> = Vec::new();
        let mut i: usize = 0;
        while i < self.samples.len()
            invariant
                i <= self.samples@.len(),
                entries@ == self.samples@.subrange(0, i as int),
            decreases self.samples@.len() - i,
        {
            entries.push(self.samples[i]);
            i = i + 1;
        }
        entries
    }

    /// The newest entry, if the window has room for one.
    pub fn latest(&self) -> (newest: Option<Sample>)
        ensures
            newest == if self@.len() == 0 {
                None
            } else {
                Some(self@.last())
            },
    {
        let n = self.samples.len();
        if n == 0 {
            None
        } else {
            Some(self.samples[n - 1])
        }
    }
}

/// After any run of pushes the window is as long as before, and holds the
/// tail of what was in it followed by what was pushed. Once at least as many
/// samples were pushed as the window holds, it holds exactly the last of
/// them, in the order they came.
pub proof fn lemma_pushes_keep_newest(s: Seq<Sample>, pushed: Seq<Sample>)
    ensures
        after_pushes(s, pushed).len() == s.len(),
        after_pushes(s, pushed) == (s + pushed).subrange(
            pushed.len() as int,
            (s.len() + pushed.len()) as int,
        ),
        pushed.len() >= s.len() ==> after_pushes(s, pushed) == pushed.subrange(
            pushed.len() - s.len(),
            pushed.len() as int,
        ),
    decreases pushed.len(),
{
    if pushed.len() > 0 {
        lemma_pushes_keep_newest(s, pushed.drop_last());
    }
}

} // verus!
