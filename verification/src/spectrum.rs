//! The integer half of the spectrum analyzer: the 32 logarithmically spaced
//! frequency buckets over the positive-frequency bins, the decibel
//! normalization onto a 0..100 bar scale, and the asymmetric temporal
//! smoothing (fast attack, slow release) of the published snapshot.
//!
//! Bars are kept in centi-units, 0..=10000 standing for 0..=100, so the
//! magic blend constants (20/80 on a rise, 55/45 on a fall) and the
//! normalization `(dB + 20) / 55 * 100` act exactly, in integers. The
//! magnitude-to-decibel conversion itself is floating point and happens
//! outside this crate; it hands each bucket's level over as centi-decibels.

use vstd::prelude::*;

verus! {

/// Samples per analysis window — a power of two.
pub const FFT_SIZE: usize = 2048;
/// Number of output frequency bars.
pub const NUM_BARS: usize = 32;
/// Non-redundant positive-frequency bins of one window.
pub const HALF: usize = FFT_SIZE / 2;
/// Capture-buffer capacity: four analysis windows.
pub const BUFFER_CAP: usize = FFT_SIZE * 4;
/// A bar at full scale, in centi-units (100.00).
pub const BAR_MAX_CENTI: u32 = 10000;

/// `HALF` raised to `i / NUM_BARS`, truncated to an integer: the raw
/// logarithmic bucket edge before clamping, for `HALF == 1024`.
pub open spec fn raw_edge(i: int) -> int {
    if i <= 0 {
        1
    } else if i == 1 {
        1
    } else if i == 2 {
        1
    } else if i == 3 {
        1
    } else if i == 4 {
        2
    } else if i == 5 {
        2
    } else if i == 6 {
        3
    } else if i == 7 {
        4
    } else if i == 8 {
        5
    } else if i == 9 {
        7
    } else if i == 10 {
        8
    } else if i == 11 {
        10
    } else if i == 12 {
        13
    } else if i == 13 {
        16
    } else if i == 14 {
        20
    } else if i == 15 {
        25
    } else if i == 16 {
        32
    } else if i == 17 {
        39
    } else if i == 18 {
        49
    } else if i == 19 {
        61
    } else if i == 20 {
        76
    } else if i == 21 {
        94
    } else if i == 22 {
        117
    } else if i == 23 {
        145
    } else if i == 24 {
        181
    } else if i == 25 {
        224
    } else if i == 26 {
        279
    } else if i == 27 {
        346
    } else if i == 28 {
        430
    } else if i == 29 {
        534
    } else if i == 30 {
        663
    } else if i == 31 {
        824
    } else {
        1024
    }
}

/// The raw edge table is monotone, starts at 1, and stays below `HALF`
/// until the last entry, which is exactly `HALF`.
proof fn lemma_raw_edge_facts(i: int)
    requires
        0 <= i < NUM_BARS as int,
    ensures
        1 <= raw_edge(i) <= raw_edge(i + 1),
        raw_edge(i) <= 824,
        raw_edge(NUM_BARS as int) == HALF as int,
{
}

/// The raw logarithmic bucket edge, as executable code.
pub fn raw_edge_at(i: usize) -> (r: usize)
    requires
        i <= NUM_BARS,
    ensures
        r as int == raw_edge(i as int),
{
    match i {
        0 => 1,
        1 => 1,
        2 => 1,
        3 => 1,
        4 => 2,
        5 => 2,
        6 => 3,
        7 => 4,
        8 => 5,
        9 => 7,
        10 => 8,
        11 => 10,
        12 => 13,
        13 => 16,
        14 => 20,
        15 => 25,
        16 => 32,
        17 => 39,
        18 => 49,
        19 => 61,
        20 => 76,
        21 => 94,
        22 => 117,
        23 => 145,
        24 => 181,
        25 => 224,
        26 => 279,
        27 => 346,
        28 => 430,
        29 => 534,
        30 => 663,
        31 => 824,
        _ => 1024,
    }
}

/// A raw upper edge clamped into `[lo + 1, HALF]`, so the bucket above `lo`
/// covers at least one bin and never reaches past the last bin.
pub open spec fn clamped_hi(raw: int, lo: int) -> int {
    if raw < lo + 1 {
        lo + 1
    } else if raw > HALF as int {
        HALF as int
    } else {
        raw
    }
}

/// The 32 bucket ranges `[lo, hi)` over bin indexes. The first lower edge is
/// clamped up to bin 1 (bin 0 is the direct-current bin and is skipped); each
/// upper edge is the truncated logarithmic edge clamped into `[lo + 1, HALF]`
/// so every bucket covers at least one bin; and each bucket starts exactly
/// where the previous one ends, so together the ranges cover bins
/// `1 .. HALF - 1` exactly once.
pub fn bucket_ranges() -> (r: Vec<(usize, usize)>)
    ensures
        r@.len() == NUM_BARS as int,
        r@[0].0 == 1,
        r@[NUM_BARS as int - 1].1 == HALF as int,
        forall|i: int|
            0 <= i < NUM_BARS as int ==> (#[trigger] r@[i]).1 as int == clamped_hi(
                raw_edge(i + 1),
                r@[i].0 as int,
            ),
        forall|i: int|
            0 <= i < NUM_BARS as int ==> 1 <= (#[trigger] r@[i]).0 < r@[i].1 <= HALF as int,
        forall|i: int| 0 <= i < NUM_BARS as int - 1 ==> (#[trigger] r@[i + 1]).0 == r@[i].1,
{
    let mut out: Vec<(usize, usize)> = Vec::new();
    let mut lo: usize = 1;
    for i in 0..NUM_BARS
        invariant
            out@.len() == i as int,
            1 <= lo,
            lo as int <= raw_edge(i as int) + i,
            i > 0 ==> out@[i as int - 1].1 == lo as int,
            i == 0 ==> lo == 1,
            i as int == NUM_BARS as int ==> lo as int == HALF as int,
            forall|j: int| 0 <= j < i as int ==> 1 <= (#[trigger] out@[j]).0 < out@[j].1 <= HALF as int,
            forall|j: int|
                0 <= j < i as int ==> (#[trigger] out@[j]).1 as int == clamped_hi(
                    raw_edge(j + 1),
                    out@[j].0 as int,
                ),
            forall|j: int| 0 <= j < i as int - 1 ==> (#[trigger] out@[j + 1]).0 == out@[j].1,
            i > 0 ==> out@[0].0 == 1,
    {
        proof {
            lemma_raw_edge_facts(i as int);
        }
        let raw_hi = raw_edge_at(i + 1);
        let mut hi = if raw_hi > lo + 1 {
            raw_hi
        } else {
            lo + 1
        };
        if hi > HALF {
            hi = HALF;
        }
        out.push((lo, hi));
        lo = hi;
    }
    out
}

/// Every bin in `1 .. HALF - 1` falls into some bucket (existence half of the
/// coverage law): walks the contiguous ranges up from `from`.
proof fn lemma_bucket_covers_from(r: Seq<(usize, usize)>, b: int, from: int)
    requires
        r.len() == NUM_BARS as int,
        r[NUM_BARS as int - 1].1 == HALF as int,
        forall|i: int| 0 <= i < NUM_BARS as int ==> 1 <= (#[trigger] r[i]).0 < r[i].1 <= HALF as int,
        forall|i: int| 0 <= i < NUM_BARS as int - 1 ==> (#[trigger] r[i + 1]).0 == r[i].1,
        0 <= from < NUM_BARS as int,
        r[from].0 <= b < HALF as int,
    ensures
        exists|i: int| 0 <= i < NUM_BARS as int && (#[trigger] r[i]).0 <= b < r[i].1,
    decreases NUM_BARS as int - from,
{
    if b < r[from].1 {
        assert(r[from].0 <= b < r[from].1);
    } else {
        assert(from < NUM_BARS as int - 1) by {
            assert(r[NUM_BARS as int - 1].1 == HALF as int);
        }
        assert(r[from + 1].0 == r[from].1);
        lemma_bucket_covers_from(r, b, from + 1);
    }
}

/// Bucket lower edges grow along the sequence: from bucket `i` to bucket `j`.
proof fn lemma_bucket_mono(r: Seq<(usize, usize)>, i: int, j: int)
    requires
        r.len() == NUM_BARS as int,
        forall|k: int| 0 <= k < NUM_BARS as int ==> 1 <= (#[trigger] r[k]).0 < r[k].1 <= HALF as int,
        forall|k: int| 0 <= k < NUM_BARS as int - 1 ==> (#[trigger] r[k + 1]).0 == r[k].1,
        0 <= i < j < NUM_BARS as int,
    ensures
        r[i].1 <= r[j].0,
    decreases j - i,
{
    if j == i + 1 {
    } else {
        lemma_bucket_mono(r, i, j - 1);
        assert(r[(j - 1) + 1].0 == r[j - 1].1);
    }
}

/// The coverage law: ranges shaped as `bucket_ranges` builds them assign
/// every bin in `1 .. HALF - 1` to exactly one bucket — no gaps, no
/// double-counting.
pub proof fn law_buckets_cover_each_bin_once(r: Seq<(usize, usize)>, b: int)
    requires
        r.len() == NUM_BARS as int,
        r[0].0 == 1,
        r[NUM_BARS as int - 1].1 == HALF as int,
        forall|i: int| 0 <= i < NUM_BARS as int ==> 1 <= (#[trigger] r[i]).0 < r[i].1 <= HALF as int,
        forall|i: int| 0 <= i < NUM_BARS as int - 1 ==> (#[trigger] r[i + 1]).0 == r[i].1,
        1 <= b < HALF as int,
    ensures
        exists|i: int| 0 <= i < NUM_BARS as int && (#[trigger] r[i]).0 <= b < r[i].1,
        forall|i: int, j: int|
            0 <= i < NUM_BARS as int && 0 <= j < NUM_BARS as int && i != j && (#[trigger] r[i]).0
                <= b < r[i].1 ==> !((#[trigger] r[j]).0 <= b < r[j].1),
{
    lemma_bucket_covers_from(r, b, 0);
    assert forall|i: int, j: int|
        0 <= i < NUM_BARS as int && 0 <= j < NUM_BARS as int && i != j && (#[trigger] r[i]).0 <= b
            < r[i].1 implies !((#[trigger] r[j]).0 <= b < r[j].1) by {
        if i < j {
            lemma_bucket_mono(r, i, j);
        } else {
            lemma_bucket_mono(r, j, i);
        }
    }
}

/// A bucket level of `d` centi-decibels normalized onto the centi-unit bar
/// scale: `(dB + 20) / 55 * 100`, clamped into `0 ..= 100` (in centi-units,
/// `0 ..= 10000`).
pub open spec fn normalized_centi(d: int) -> int {
    if d <= -2000 {
        0
    } else if (d + 2000) * 100 / 55 > BAR_MAX_CENTI as int {
        BAR_MAX_CENTI as int
    } else {
        (d + 2000) * 100 / 55
    }
}

/// Asymmetric temporal smoothing in centi-units: a rising bar blends
/// `previous * 0.2 + new * 0.8` (fast attack), a falling one
/// `previous * 0.55 + new * 0.45` (slow release).
pub open spec fn smoothed_centi(prev: int, new: int) -> int {
    if new > prev {
        (prev * 20 + new * 80) / 100
    } else {
        (prev * 55 + new * 45) / 100
    }
}

/// Normalization lands on the bar scale whatever the decibel level was.
pub proof fn law_normalized_in_range(d: int)
    ensures
        0 <= normalized_centi(d) <= BAR_MAX_CENTI as int,
{
}

/// Smoothing keeps a bar on the bar scale.
pub proof fn law_smoothed_in_range(prev: int, new: int)
    requires
        0 <= prev <= BAR_MAX_CENTI as int,
        0 <= new <= BAR_MAX_CENTI as int,
    ensures
        0 <= smoothed_centi(prev, new) <= BAR_MAX_CENTI as int,
{
}

/// Silence normalizes to the floor of the bar scale: any level at or below
/// -20 dB (the decibel floor `20 * log10(1e-10)` of a silent window lies far
/// below it) reads as 0.
pub proof fn law_silence_normalizes_to_zero(d: int)
    requires
        d <= -2000,
    ensures
        normalized_centi(d) == 0,
{
}

/// Fed silence, a bar decays monotonically toward 0 and never becomes
/// negative; while it is still positive it strictly falls, so it reaches 0.
pub proof fn law_silence_decays(prev: int)
    requires
        0 <= prev <= BAR_MAX_CENTI as int,
    ensures
        smoothed_centi(prev, 0) == prev * 55 / 100,
        0 <= smoothed_centi(prev, 0) <= prev,
        prev > 0 ==> smoothed_centi(prev, 0) < prev,
{
    if prev > 0 {
        assert(prev * 55 / 100 < prev) by (nonlinear_arith)
            requires
                prev >= 1,
        ;
    }
}

/// The published snapshot: 32 bars in centi-units, each within the bar
/// scale, smoothed against their previous values. The analyzer owns one and
/// publishes copies of it; readers never see a partial update.
pub struct SpectrumState {
    pub bars: Vec<u32>,
}

impl SpectrumState {
    /// Exactly one bar per bucket, every bar on the bar scale.
    pub open spec fn wf(&self) -> bool {
        self.bars@.len() == NUM_BARS as int && forall|i: int|
            0 <= i < NUM_BARS as int ==> (#[trigger] self.bars@[i]) <= BAR_MAX_CENTI
    }

    /// A silent snapshot: every bar at 0.
    pub fn new() -> (s: SpectrumState)
        ensures
            s.wf(),
            forall|i: int| 0 <= i < NUM_BARS as int ==> (#[trigger] s.bars@[i]) == 0,
    {
        SpectrumState { bars: vec![0u32; NUM_BARS] }
    }

    /// One analysis cycle's worth of smoothing: take the fresh bucket levels
    /// in centi-decibels, normalize each onto the bar scale, and blend it
    /// against the previous snapshot (fast attack, slow release).
    pub fn apply_levels(&mut self, bar_dbs: &Vec<i32>)
        requires
            old(self).wf(),
            bar_dbs@.len() == NUM_BARS as int,
        ensures
            final(self).wf(),
            forall|i: int|
                0 <= i < NUM_BARS as int ==> (#[trigger] final(self).bars@[i]) as int
                    == smoothed_centi(
                    old(self).bars@[i] as int,
                    normalized_centi(bar_dbs@[i] as int),
                ),
    {
        for i in 0..NUM_BARS
            invariant
                self.bars@.len() == NUM_BARS as int,
                bar_dbs@.len() == NUM_BARS as int,
                forall|j: int|
                    i as int <= j < NUM_BARS as int ==> (#[trigger] self.bars@[j]) == old(
                        self,
                    ).bars@[j],
                forall|j: int|
                    i as int <= j < NUM_BARS as int ==> (#[trigger] self.bars@[j])
                        <= BAR_MAX_CENTI,
                forall|j: int|
                    0 <= j < i as int ==> (#[trigger] self.bars@[j]) as int == smoothed_centi(
                        old(self).bars@[j] as int,
                        normalized_centi(bar_dbs@[j] as int),
                    ),
                forall|j: int|
                    0 <= j < i as int ==> (#[trigger] self.bars@[j]) <= BAR_MAX_CENTI,
        {
            let d = bar_dbs[i];
            let fresh = normalize_level(d);
            let prev = self.bars[i];
            let blended = smooth_bar(prev, fresh);
            self.bars.set(i, blended);
        }
    }

    /// A copy of the snapshot rounded to whole units, each bar in `0 ..= 100`.
    pub fn spectrum(&self) -> (r: Vec<u64>)
        requires
            self.wf(),
        ensures
            r@.len() == NUM_BARS as int,
            forall|i: int|
                0 <= i < NUM_BARS as int ==> (#[trigger] r@[i]) as int == (self.bars@[i] + 50)
                    / 100,
            forall|i: int| 0 <= i < NUM_BARS as int ==> (#[trigger] r@[i]) <= 100,
    {
        let mut out: Vec<u64> = Vec::new();
        for i in 0..NUM_BARS
            invariant
                self.wf(),
                out@.len() == i as int,
                forall|j: int|
                    0 <= j < i as int ==> (#[trigger] out@[j]) as int == (self.bars@[j] + 50)
                        / 100,
                forall|j: int| 0 <= j < i as int ==> (#[trigger] out@[j]) <= 100,
        {
            let c = self.bars[i];
            out.push(((c + 50) / 100) as u64);
        }
        out
    }

    /// Forget the picture (track change or seek): every bar back to 0.
    pub fn clear(&mut self)
        ensures
            final(self).wf(),
            forall|i: int| 0 <= i < NUM_BARS as int ==> (#[trigger] final(self).bars@[i]) == 0,
    {
        self.bars = vec![0u32; NUM_BARS];
    }
}

/// A bucket level in centi-decibels, normalized onto the centi-unit bar
/// scale (executable half of `normalized_centi`).
pub fn normalize_level(d: i32) -> (r: u32)
    ensures
        r as int == normalized_centi(d as int),
        r <= BAR_MAX_CENTI,
{
    if d <= -2000 {
        return 0;
    }
    let scaled = ((d as i64 + 2000) as u64) * 100 / 55;
    if scaled > BAR_MAX_CENTI as u64 {
        BAR_MAX_CENTI
    } else {
        scaled as u32
    }
}

/// Blend a fresh bar level against the previous one (executable half of
/// `smoothed_centi`).
pub fn smooth_bar(prev: u32, new: u32) -> (r: u32)
    requires
        prev <= BAR_MAX_CENTI,
        new <= BAR_MAX_CENTI,
    ensures
        r as int == smoothed_centi(prev as int, new as int),
        r <= BAR_MAX_CENTI,
{
    if new > prev {
        (prev * 20 + new * 80) / 100
    } else {
        (prev * 55 + new * 45) / 100
    }
}

/// Channel counts reported as 0 (unset) are analyzed as mono.
pub fn effective_channels(ch: u16) -> (r: u16)
    ensures
        r == if ch == 0 {
            1u16
        } else {
            ch
        },
        r >= 1,
{
    if ch == 0 {
        1
    } else {
        ch
    }
}

} // verus!
