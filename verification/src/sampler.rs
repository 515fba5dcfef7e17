//! Windowed aggregation of raw analog samples. Each cycle the embedding takes
//! `WINDOW_LEN` readings at a fixed inter-sample delay and hands them here; a
//! failed read arrives as `None` and is recorded as the zero reading, so the
//! aggregation is total. The window is reduced to the exact sum of squared
//! samples, from which the embedding derives the decibel-like loudness
//! 20·log10(√(sum / WINDOW_LEN)); a silent window (sum zero), where that map is
//! undefined, is reported as the explicit `Silence` sentinel instead.

use vstd::prelude::*;

verus! {

/// Number of raw readings aggregated into one loudness value.
pub const WINDOW_LEN: usize = 5;

/// The value a reading contributes to the window: a failed read counts as the
/// zero reading rather than aborting the cycle.
pub open spec fn sample_value(reading: Option<u16>) -> u16 {
    match reading {
        Some(v) => v,
        None => 0u16,
    }
}

/// Sum of the squares of the samples.
pub open spec fn sum_squares(s: Seq<u16>) -> int
    decreases s.len(),
{
    if s.len() == 0 {
        0
    } else {
        sum_squares(s.drop_last()) + s.last() * s.last()
    }
}

/// The square of one sample never exceeds 65535², so the sum is bounded by the
/// window length times that.
pub proof fn lemma_sum_squares_bounds(s: Seq<u16>)
    ensures
        0 <= sum_squares(s) <= s.len() * 0xfffe0001,
    decreases s.len(),
{
    if s.len() > 0 {
        lemma_sum_squares_bounds(s.drop_last());
        assert(s.last() * s.last() <= 0xfffe0001) by (nonlinear_arith)
            requires
                0 <= s.last() <= 0xffff,
        ;
        assert((s.len() - 1) * 0xfffe0001 + 0xfffe0001 == s.len() * 0xfffe0001) by (nonlinear_arith);
    }
}

/// One cycle's window of raw readings, collected one sample at a time.
pub struct SampleWindow {
    samples: Vec<u16>,
}

impl View for SampleWindow {
    type V = Seq<u16>;

    closed spec fn view(&self) -> Seq<u16> {
        self.samples@
    }
}

/// A loudness reading derived from one full window.
#[derive(Clone, Copy, PartialEq, Eq, Structural, Debug)]
pub enum LoudnessReading {
    /// The window was silent: its sum of squares is zero, where the decibel
    /// map 20·log10(√(sum / WINDOW_LEN)) is undefined. The embedding renders
    /// this sentinel as its minimum level (negative infinity) rather than
    /// letting an undefined value propagate.
    Silence,
    /// A measurable window, carrying the exact sum of squared samples.
    Level { sum_squares: u64 },
}

impl SampleWindow {
    /// An empty window, ready for one aggregation cycle.
    pub fn new() -> (w: SampleWindow)
        ensures
            w@ == Seq::<u16>::empty(),
    {
        let w = SampleWindow { samples: Vec::new() };
        proof {
            assert(w@ =~= Seq::<u16>::empty());
        }
        w
    }

    pub fn len(&self) -> (n: usize)
        ensures
            n == self@.len(),
    {
        self.samples.len()
    }

    /// Records one reading; a failed read (`None`) is stored as zero, so a
    /// single corrupted sample never prevents the window from completing.
    pub fn record(&mut self, reading: Option<u16>)
        requires
            old(self)@.len() < WINDOW_LEN,
        ensures
            final(self)@ == old(self)@.push(sample_value(reading)),
    {
        match reading {
            Some(v) => self.samples.push(v),
            None => self.samples.push(0),
        }
    }

    /// The exact sum of squared samples in the window.
    pub fn sum_squares(&self) -> (total: u64)
        requires
            self@.len() <= WINDOW_LEN,
        ensures
            total == sum_squares(self@),
    {
        let n: usize = self.samples.len();
        let mut total: u64 = 0;
        let mut i: usize = 0;
        while i < n
            invariant
                i <= n,
                n == self@.len() <= WINDOW_LEN,
                total == sum_squares(self@.take(i as int)),
            decreases n - i,
        {
            let v: u16 = self.samples[i];
            proof {
                lemma_sum_squares_bounds(self@.take(i as int));
                assert(v * v <= 0xfffe0001) by (nonlinear_arith)
                    requires
                        0 <= v <= 0xffff,
                ;
                assert(self@.take(i + 1).drop_last() =~= self@.take(i as int));
                assert(self@.take(i + 1).last() == self@[i as int]);
            }
            total = total + (v as u64) * (v as u64);
            i = i + 1;
        }
        proof {
            assert(self@.take(n as int) =~= self@);
        }
        total
    }

    /// Reduces a full window to its loudness reading: the `Silence` sentinel
    /// exactly when the sum of squares is zero, otherwise the exact sum.
    pub fn loudness(&self) -> (r: LoudnessReading)
        requires
            self@.len() == WINDOW_LEN,
        ensures
            sum_squares(self@) == 0 ==> r == LoudnessReading::Silence,
            sum_squares(self@) != 0 ==> r == (LoudnessReading::Level {
                sum_squares: sum_squares(self@) as u64,
            }),
    {
        let total = self.sum_squares();
        if total == 0 {
            LoudnessReading::Silence
        } else {
            LoudnessReading::Level { sum_squares: total }
        }
    }
}

/// The samples a cycle's readings produce, failed reads replaced by zero.
pub open spec fn window_of(readings: Seq<Option<u16>>) -> Seq<u16> {
    readings.map_values(|r: Option<u16>| sample_value(r))
}

/// One whole aggregation cycle on the readings the embedding collected:
/// records every reading (zero for a failed read) and reduces the window.
pub fn measure(readings: &Vec<Option<u16>>) -> (r: LoudnessReading)
    requires
        readings@.len() == WINDOW_LEN,
    ensures
        sum_squares(window_of(readings@)) == 0 ==> r == LoudnessReading::Silence,
        sum_squares(window_of(readings@)) != 0 ==> r == (LoudnessReading::Level {
            sum_squares: sum_squares(window_of(readings@)) as u64,
        }),
{
    let mut window = SampleWindow::new();
    let mut i: usize = 0;
    while i < WINDOW_LEN
        invariant
            i <= WINDOW_LEN,
            readings@.len() == WINDOW_LEN,
            window@ == window_of(readings@.take(i as int)),
        decreases WINDOW_LEN - i,
    {
        window.record(readings[i]);
        proof {
            assert(window@ =~= window_of(readings@.take(i + 1)));
        }
        i = i + 1;
    }
    proof {
        assert(readings@.take(WINDOW_LEN as int) =~= readings@);
    }
    window.loudness()
}

/// A window is reported silent exactly when every sample in it is zero: the
/// sentinel can never mask a non-zero sample.
pub proof fn lemma_silence_iff_all_zero(s: Seq<u16>)
    ensures
        sum_squares(s) == 0 <==> (forall|i: int| 0 <= i < s.len() ==> s[i] == 0),
    decreases s.len(),
{
    if s.len() > 0 {
        lemma_silence_iff_all_zero(s.drop_last());
        lemma_sum_squares_bounds(s.drop_last());
        assert(s.last() * s.last() >= 0) by (nonlinear_arith);
        assert(s.last() != 0 ==> s.last() * s.last() > 0) by (nonlinear_arith);
        if sum_squares(s) == 0 {
            assert(forall|i: int| 0 <= i < s.len() - 1 ==> s[i] == s.drop_last()[i]);
        }
    }
}

/// The loudness is monotone in the window: raising no sample and keeping the
/// length never raises the sum of squares, and hence never raises the
/// root-mean-square the decibel value is derived from.
pub proof fn lemma_sum_squares_monotone(a: Seq<u16>, b: Seq<u16>)
    requires
        a.len() == b.len(),
        forall|i: int| 0 <= i < a.len() ==> a[i] <= b[i],
    ensures
        sum_squares(a) <= sum_squares(b),
    decreases a.len(),
{
    if a.len() > 0 {
        assert(forall|i: int| 0 <= i < a.len() - 1 ==> a.drop_last()[i] == a[i]);
        assert(forall|i: int| 0 <= i < b.len() - 1 ==> b.drop_last()[i] == b[i]);
        lemma_sum_squares_monotone(a.drop_last(), b.drop_last());
        assert(a.last() * a.last() <= b.last() * b.last()) by (nonlinear_arith)
            requires
                0 <= a.last() <= b.last(),
        ;
    }
}

/// Replacing one sample by zero (what a failed read does to an otherwise valid
/// window) perturbs the sum of squares by exactly that sample's square.
pub proof fn lemma_zeroed_sample_effect(s: Seq<u16>, j: int)
    requires
        0 <= j < s.len(),
    ensures
        sum_squares(s.update(j, 0u16)) == sum_squares(s) - s[j] * s[j],
    decreases s.len(),
{
    let z = s.update(j, 0u16);
    if j == s.len() - 1 {
        assert(z.drop_last() =~= s.drop_last());
        assert(z.last() == 0);
    } else {
        lemma_zeroed_sample_effect(s.drop_last(), j);
        assert(z.drop_last() =~= s.drop_last().update(j, 0u16));
        assert(z.last() == s.last());
    }
}

} // verus!
