//! Three-band equalizer state: per-band gains stored as clamped
//! centi-decibel integers, and the policy that decides when the filter
//! coefficients must be rebuilt from those gains.
//!
//! The coefficients themselves (and the per-sample biquad arithmetic) are
//! floating point and are computed outside this crate; everything here is
//! the exact integer bookkeeping that drives them.

use vstd::prelude::*;

verus! {

/// Lowest storable gain, in centi-decibels (-12 dB).
pub const MIN_CENTI_DB: i32 = -1200;
/// Highest storable gain, in centi-decibels (+12 dB).
pub const MAX_CENTI_DB: i32 = 1200;
/// Number of bands (bass, mid, treble).
pub const BAND_COUNT: usize = 3;
/// Samples between two checks of the gain triple.
pub const COEF_UPDATE_INTERVAL: usize = 256;

/// What a requested gain (already scaled to centi-decibels) is stored as.
pub open spec fn clamped_centi(c: int) -> int {
    if c < MIN_CENTI_DB as int {
        MIN_CENTI_DB as int
    } else if c > MAX_CENTI_DB as int {
        MAX_CENTI_DB as int
    } else {
        c
    }
}

/// A stored gain lies within the allowed range.
pub open spec fn gain_in_range(c: int) -> bool {
    MIN_CENTI_DB as int <= c <= MAX_CENTI_DB as int
}

/// Clamp a requested gain, scaled to centi-decibels, into the storable range.
pub fn clamp_centi(c: i64) -> (r: i32)
    ensures
        r as int == clamped_centi(c as int),
        gain_in_range(r as int),
{
    if c < MIN_CENTI_DB as i64 {
        MIN_CENTI_DB
    } else if c > MAX_CENTI_DB as i64 {
        MAX_CENTI_DB
    } else {
        c as i32
    }
}

/// Gain in centi-decibels per band. A value of 100 is +1 dB.
pub struct EqGains {
    pub bass: i32,
    pub mid: i32,
    pub treble: i32,
}

impl EqGains {
    /// Every stored gain is within the clamping range.
    pub open spec fn wf(&self) -> bool {
        gain_in_range(self.bass as int) && gain_in_range(self.mid as int) && gain_in_range(
            self.treble as int,
        )
    }

    /// The gain stored for a band index (0 = bass, 1 = mid, 2 = treble).
    pub open spec fn band_spec(&self, band: int) -> int {
        if band == 0 {
            self.bass as int
        } else if band == 1 {
            self.mid as int
        } else if band == 2 {
            self.treble as int
        } else {
            0
        }
    }

    /// Fresh gains: every band flat at 0 dB.
    pub fn new() -> (g: EqGains)
        ensures
            g.wf(),
            g.bass == 0 && g.mid == 0 && g.treble == 0,
    {
        EqGains { bass: 0, mid: 0, treble: 0 }
    }

    pub fn bass_centi(&self) -> (r: i32)
        ensures
            r == self.bass,
    {
        self.bass
    }

    pub fn mid_centi(&self) -> (r: i32)
        ensures
            r == self.mid,
    {
        self.mid
    }

    pub fn treble_centi(&self) -> (r: i32)
        ensures
            r == self.treble,
    {
        self.treble
    }

    pub fn set_bass_centi(&mut self, raw: i64)
        ensures
            final(self).bass as int == clamped_centi(raw as int),
            final(self).mid == old(self).mid,
            final(self).treble == old(self).treble,
    {
        self.bass = clamp_centi(raw);
    }

    pub fn set_mid_centi(&mut self, raw: i64)
        ensures
            final(self).mid as int == clamped_centi(raw as int),
            final(self).bass == old(self).bass,
            final(self).treble == old(self).treble,
    {
        self.mid = clamp_centi(raw);
    }

    pub fn set_treble_centi(&mut self, raw: i64)
        ensures
            final(self).treble as int == clamped_centi(raw as int),
            final(self).bass == old(self).bass,
            final(self).mid == old(self).mid,
    {
        self.treble = clamp_centi(raw);
    }

    /// The gain stored for a band index; bands beyond the last read as flat.
    pub fn band_centi(&self, band: usize) -> (r: i32)
        ensures
            r as int == self.band_spec(band as int),
    {
        if band == 0 {
            self.bass
        } else if band == 1 {
            self.mid
        } else if band == 2 {
            self.treble
        } else {
            0
        }
    }

    /// Store a requested gain for a band index; requests for band indexes
    /// beyond the last change nothing.
    pub fn set_band_centi(&mut self, band: usize, raw: i64)
        ensures
            band < BAND_COUNT ==> final(self).band_spec(band as int) == clamped_centi(raw as int),
            forall|b: int| 0 <= b < BAND_COUNT && b != band ==> final(self).band_spec(b) == old(
                self,
            ).band_spec(b),
            band >= BAND_COUNT ==> *final(self) == *old(self),
    {
        if band == 0 {
            self.set_bass_centi(raw);
        } else if band == 1 {
            self.set_mid_centi(raw);
        } else if band == 2 {
            self.set_treble_centi(raw);
        }
    }

    /// Raise a band one whole decibel, stopping at the top of the range.
    pub fn band_step_up(&mut self, band: usize)
        ensures
            band < BAND_COUNT ==> final(self).band_spec(band as int) == clamped_centi(
                old(self).band_spec(band as int) + 100,
            ),
            forall|b: int| 0 <= b < BAND_COUNT && b != band ==> final(self).band_spec(b) == old(
                self,
            ).band_spec(b),
            band >= BAND_COUNT ==> *final(self) == *old(self),
    {
        let c = self.band_centi(band);
        self.set_band_centi(band, c as i64 + 100);
    }

    /// Lower a band one whole decibel, stopping at the bottom of the range.
    pub fn band_step_down(&mut self, band: usize)
        ensures
            band < BAND_COUNT ==> final(self).band_spec(band as int) == clamped_centi(
                old(self).band_spec(band as int) - 100,
            ),
            forall|b: int| 0 <= b < BAND_COUNT && b != band ==> final(self).band_spec(b) == old(
                self,
            ).band_spec(b),
            band >= BAND_COUNT ==> *final(self) == *old(self),
    {
        let c = self.band_centi(band);
        self.set_band_centi(band, c as i64 - 100);
    }

    /// All three gains at once, in band order.
    pub fn load_centi(&self) -> (r: (i32, i32, i32))
        ensures
            r.0 == self.bass && r.1 == self.mid && r.2 == self.treble,
    {
        (self.bass, self.mid, self.treble)
    }
}

impl Default for EqGains {
    fn default() -> (g: EqGains)
        ensures
            g.wf(),
            g.bass == 0 && g.mid == 0 && g.treble == 0,
    {
        EqGains::new()
    }
}

/// Decides when the filter coefficients must be rebuilt. A sample counter is
/// advanced once per sample; every `COEF_UPDATE_INTERVAL` samples the current
/// gain triple is compared against the triple the coefficients were last
/// built from, and only a difference forces a rebuild (coefficient derivation
/// is expensive and must not run every sample).
pub struct CoeffRefresh {
    /// Samples seen since the last interval boundary.
    pub n: usize,
    /// The gain triple the active coefficients were built from.
    pub last_gains: (i32, i32, i32),
}

/// Whether one more sample, seeing the stored gains `cur`, forces a rebuild:
/// only at an interval boundary, and only if the gains moved.
pub open spec fn refresh_fires(s: CoeffRefresh, cur: (i32, i32, i32)) -> bool {
    s.n + 1 == COEF_UPDATE_INTERVAL as int && cur != s.last_gains
}

/// The policy state after one more sample that saw the stored gains `cur`.
pub open spec fn refresh_next(s: CoeffRefresh, cur: (i32, i32, i32)) -> CoeffRefresh {
    CoeffRefresh {
        n: if s.n + 1 == COEF_UPDATE_INTERVAL as int {
            0
        } else {
            (s.n + 1) as usize
        },
        last_gains: if refresh_fires(s, cur) {
            cur
        } else {
            s.last_gains
        },
    }
}

/// Whether any sample of the run `inputs` (the gain triple seen at each
/// sample, oldest first) forces a rebuild, starting from policy state `s`.
pub open spec fn refresh_fires_during(s: CoeffRefresh, inputs: Seq<(i32, i32, i32)>) -> bool
    decreases inputs.len(),
{
    if inputs.len() == 0 {
        false
    } else {
        refresh_fires(s, inputs[0]) || refresh_fires_during(
            refresh_next(s, inputs[0]),
            inputs.drop_first(),
        )
    }
}

impl CoeffRefresh {
    /// The counter never reaches the interval between ticks.
    pub open spec fn wf(&self) -> bool {
        (self.n as int) < COEF_UPDATE_INTERVAL as int
    }

    /// A policy whose coefficients were just built from `gains`.
    pub fn new(gains: (i32, i32, i32)) -> (s: CoeffRefresh)
        ensures
            s.wf(),
            s.n == 0,
            s.last_gains == gains,
    {
        CoeffRefresh { n: 0, last_gains: gains }
    }

    /// Whether the next sample lands on an interval boundary — the only
    /// moment the stored gains need to be read at all.
    pub fn at_boundary(&self) -> (r: bool)
        requires
            self.wf(),
        ensures
            r == (self.n + 1 == COEF_UPDATE_INTERVAL as int),
    {
        self.n + 1 == COEF_UPDATE_INTERVAL
    }

    /// The gain triple the active coefficients were built from.
    pub fn last_gains(&self) -> (r: (i32, i32, i32))
        ensures
            r == self.last_gains,
    {
        self.last_gains
    }

    /// Advance by one sample that saw the stored gains `cur`. Returns true
    /// exactly when the caller must rebuild its coefficients from `cur`.
    pub fn tick(&mut self, cur: (i32, i32, i32)) -> (recompute: bool)
        requires
            old(self).wf(),
        ensures
            final(self).wf(),
            recompute == refresh_fires(*old(self), cur),
            *final(self) == refresh_next(*old(self), cur),
    {
        self.n = self.n + 1;
        if self.n < COEF_UPDATE_INTERVAL {
            return false;
        }
        self.n = 0;
        if cur.0 == self.last_gains.0 && cur.1 == self.last_gains.1 && cur.2
            == self.last_gains.2 {
            return false;
        }
        self.last_gains = cur;
        true
    }
}

/// While the stored gains stay equal to the triple the coefficients were
/// built from, no sample of the run — however long, interval boundaries
/// included — forces a rebuild, and the remembered triple never moves.
pub proof fn law_unchanged_gains_never_recompute(s: CoeffRefresh, inputs: Seq<(i32, i32, i32)>)
    requires
        forall|i: int| 0 <= i < inputs.len() ==> inputs[i] == s.last_gains,
    ensures
        !refresh_fires_during(s, inputs),
        inputs.len() > 0 ==> refresh_next(s, inputs[0]).last_gains == s.last_gains,
    decreases inputs.len(),
{
    if inputs.len() > 0 {
        assert(!refresh_fires(s, inputs[0]));
        let s2 = refresh_next(s, inputs[0]);
        assert(s2.last_gains == s.last_gains);
        assert(forall|i: int|
            0 <= i < inputs.drop_first().len() ==> inputs.drop_first()[i] == s2.last_gains);
        law_unchanged_gains_never_recompute(s2, inputs.drop_first());
    }
}

/// A gain change observed at an interval boundary forces exactly one rebuild,
/// and the rebuilt coefficients remember the changed triple.
pub proof fn law_changed_gains_recompute_at_boundary(s: CoeffRefresh, cur: (i32, i32, i32))
    requires
        s.n + 1 == COEF_UPDATE_INTERVAL as int,
        cur != s.last_gains,
    ensures
        refresh_fires(s, cur),
        refresh_next(s, cur).last_gains == cur,
        refresh_next(s, cur).n == 0,
{
}

} // verus!
