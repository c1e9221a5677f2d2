//! The shared capture buffer: a bounded first-in-first-out sequence of mono
//! samples, filled opportunistically by the audio path and drained by the
//! spectrum analyzer. Overflow evicts the oldest samples; a seek clears it.
//!
//! Samples are carried as the 32-bit patterns of the stream's floating-point
//! values; this crate never does arithmetic on them, it only keeps their
//! order and their count.

use vstd::prelude::*;

verus! {

/// One step of the push discipline: append one sample, evicting the oldest
/// one first when the buffer is full.
pub open spec fn push_once(s: Seq<u32>, x: u32, cap: int) -> Seq<u32> {
    if s.len() < cap {
        s.push(x)
    } else {
        s.drop_first().push(x)
    }
}

/// The contents after pushing the run `p` (oldest first) onto contents `s`.
pub open spec fn after_pushes(s: Seq<u32>, p: Seq<u32>, cap: int) -> Seq<u32>
    decreases p.len(),
{
    if p.len() == 0 {
        s
    } else {
        after_pushes(push_once(s, p[0], cap), p.drop_first(), cap)
    }
}

/// Bounded first-in-first-out buffer of samples, oldest first.
pub struct SampleBuffer {
    pub data: Vec<u32>,
    pub cap: usize,
}

impl SampleBuffer {
    /// The contents never exceed the fixed capacity.
    pub open spec fn wf(&self) -> bool {
        self.cap > 0 && self.data@.len() <= self.cap as int
    }

    /// An empty buffer that will hold at most `cap` samples.
    pub fn new(cap: usize) -> (b: SampleBuffer)
        requires
            cap > 0,
        ensures
            b.wf(),
            b.cap == cap,
            b.data@.len() == 0,
    {
        SampleBuffer { data: Vec::new(), cap }
    }

    pub fn len(&self) -> (n: usize)
        ensures
            n == self.data@.len(),
    {
        self.data.len()
    }

    /// Append one sample; when the buffer is full the oldest sample leaves.
    pub fn push(&mut self, x: u32)
        requires
            old(self).wf(),
        ensures
            final(self).wf(),
            final(self).cap == old(self).cap,
            final(self).data@ == push_once(old(self).data@, x, old(self).cap as int),
            final(self).data@.len() <= old(self).cap as int,
    {
        if self.data.len() == self.cap {
            self.data.remove(0);
            assert(self.data@ =~= old(self).data@.drop_first());
        }
        self.data.push(x);
    }

    /// The most recent `n` samples, oldest first, or nothing when fewer than
    /// `n` samples are buffered (the analyzer then skips its cycle).
    pub fn latest(&self, n: usize) -> (r: Option<Vec<u32>>)
        ensures
            r is Some <==> n <= self.data@.len(),
            r is Some ==> r->0@ == self.data@.subrange(
                self.data@.len() - n as int,
                self.data@.len() as int,
            ),
    {
        let len = self.data.len();
        if len < n {
            return None;
        }
        let mut out: Vec<u32> = Vec::new();
        let start = len - n;
        for i in start..len
            invariant
                n <= len == self.data@.len(),
                start == len - n,
                out@ =~= self.data@.subrange(start as int, i as int),
        {
            out.push(self.data[i]);
        }
        Some(out)
    }

    /// Forget everything buffered (the seek contract: stale pre-seek samples
    /// must never be analyzed as if they were current).
    pub fn clear(&mut self)
        ensures
            old(self).cap > 0 ==> final(self).wf(),
            final(self).cap == old(self).cap,
            final(self).data@.len() == 0,
    {
        self.data.clear();
    }
}

/// The push discipline in full: starting within capacity, any run of pushes
/// leaves exactly the most recently pushed samples, up to capacity, oldest
/// evicted first — and so the length never exceeds the capacity.
pub proof fn law_pushes_keep_most_recent(s: Seq<u32>, p: Seq<u32>, cap: int)
    requires
        cap > 0,
        s.len() <= cap,
    ensures
        after_pushes(s, p, cap) == (s + p).skip(
            if s.len() + p.len() <= cap {
                0
            } else {
                s.len() + p.len() - cap
            },
        ),
        after_pushes(s, p, cap).len() <= cap,
    decreases p.len(),
{
    let total = s.len() + p.len();
    let skip = if total <= cap {
        0int
    } else {
        total - cap
    };
    if p.len() == 0 {
        assert(after_pushes(s, p, cap) =~= (s + p).skip(skip));
    } else {
        let x = p[0];
        let rest = p.drop_first();
        let s1 = push_once(s, x, cap);
        if s.len() < cap {
            assert(s1 =~= s.push(x));
            law_pushes_keep_most_recent(s1, rest, cap);
            assert(s1 + rest =~= s + p);
        } else {
            assert(s.len() == cap);
            assert(s1 =~= s.drop_first().push(x));
            law_pushes_keep_most_recent(s1, rest, cap);
            let skip1 = if s1.len() + rest.len() <= cap {
                0int
            } else {
                s1.len() + rest.len() - cap
            };
            assert(s1 + rest =~= (s + p).skip(1));
            assert((s1 + rest).skip(skip1) =~= (s + p).skip(skip));
        }
    }
}

} // verus!
