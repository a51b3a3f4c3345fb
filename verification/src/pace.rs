//! The pace learner: from how long the presenter took over past cues to the
//! speed at which playback should cruise.

use vstd::prelude::*;
use crate::rate::{Rate, MILLION};

verus! {

/// The sum of the samples, in millionths.
pub open spec fn sum_millionths(samples: Seq<Rate>) -> int
    decreases samples.len(),
{
    if samples.len() == 0 {
        0
    } else {
        sum_millionths(samples.drop_last()) + samples.last().millionths
    }
}

/// The target speed that follows from the samples, in millionths: their
/// arithmetic mean, rounded down, and normal speed where there are none.
pub open spec fn mean_millionths(samples: Seq<Rate>) -> int {
    if samples.len() == 0 {
        MILLION as int
    } else {
        sum_millionths(samples) / (samples.len() as int)
    }
}

/// The sample that one reading gives, in millionths: the cue's nominal
/// length over the time the presenter took, rounded down, or the largest
/// `Rate` where the quotient is beyond it. Both times are in nanoseconds and
/// `elapsed` is positive.
pub open spec fn ratio_millionths(nominal: int, elapsed: int) -> int {
    let exact = nominal * MILLION / elapsed;
    if exact > u32::MAX {
        u32::MAX as int
    } else {
        exact
    }
}

proof fn lemma_sum_bounds(samples: Seq<Rate>)
    ensures
        0 <= sum_millionths(samples) <= samples.len() * u32::MAX,
    decreases samples.len(),
{
    if samples.len() > 0 {
        lemma_sum_bounds(samples.drop_last());
        assert((samples.len() - 1) * u32::MAX + u32::MAX == samples.len() * u32::MAX)
            by (nonlinear_arith);
    }
}

proof fn lemma_sum_step(samples: Seq<Rate>, i: int)
    requires
        0 <= i < samples.len(),
    ensures
        sum_millionths(samples.take(i + 1)) == sum_millionths(samples.take(i))
            + samples[i].millionths,
{
    assert(samples.take(i + 1).drop_last() =~= samples.take(i));
}

proof fn lemma_mean_fits(sum: int, count: int)
    by (nonlinear_arith)
    requires
        0 <= sum <= count * u32::MAX,
        0 < count,
    ensures
        0 <= sum / count <= u32::MAX,
{
}

proof fn lemma_ratio_nonnegative(scaled: int, elapsed: int)
    by (nonlinear_arith)
    requires
        0 <= scaled,
        0 < elapsed,
    ensures
        0 <= scaled / elapsed,
{
}

/// The mean of any samples is itself a speed that a `Rate` can hold.
pub proof fn lemma_mean_is_rate(samples: Seq<Rate>)
    ensures
        0 <= mean_millionths(samples) <= u32::MAX,
{
    if samples.len() > 0 {
        lemma_sum_bounds(samples);
        lemma_mean_fits(sum_millionths(samples), samples.len() as int);
    }
}

/// The target speed that follows from `samples`: their arithmetic mean, and
/// normal speed where there are none. Every sample counts the same, however
/// old it is.
pub fn mean_rate(samples: &Vec<Rate>) -> (mean: Rate)
    ensures
        mean.millionths == mean_millionths(samples@),
{
    let n: usize = samples.len();
    if n == 0 {
        return Rate::one();
    }
    let mut sum: u128 = 0;
    let mut i: usize = 0;
    while i < n
        invariant
            n == samples@.len(),
            i <= n,
            sum == sum_millionths(samples@.take(i as int)),
            sum <= i * u32::MAX,
        decreases n - i,
    {
        proof {
            lemma_sum_step(samples@, i as int);
            lemma_sum_bounds(samples@.take(i + 1));
            assert(i * u32::MAX <= 0xffff_ffff_ffff_ffff * 0xffff_ffff) by (nonlinear_arith)
                requires
                    0 <= i <= 0xffff_ffff_ffff_ffff,
            ;
        }
        sum = sum + samples[i].millionths as u128;
        i = i + 1;
    }
    proof {
        assert(samples@.take(n as int) =~= samples@);
        lemma_mean_fits(sum as int, n as int);
    }
    let mean: u128 = sum / (n as u128);
    Rate { millionths: mean as u32 }
}

/// The sample that one reading gives: the cue's nominal length over the
/// time the presenter took over it, both in nanoseconds.
pub fn reading_ratio(nominal: u64, elapsed: u64) -> (ratio: Rate)
    requires
        elapsed > 0,
    ensures
        ratio.millionths == ratio_millionths(nominal as int, elapsed as int),
{
    assert((nominal as int) * MILLION <= 0xffff_ffff_ffff_ffff * 1_000_000);
    let scaled: u128 = (nominal as u128) * (MILLION as u128);
    proof {
        lemma_ratio_nonnegative(scaled as int, elapsed as int);
    }
    let exact: u128 = scaled / (elapsed as u128);
    if exact > u32::MAX as u128 {
        Rate::max()
    } else {
        Rate { millionths: exact as u32 }
    }
}

/// What the pace learner holds, mathematically.
pub struct PaceView {
    /// The samples, oldest first.
    pub history: Seq<Rate>,
    /// The target speed kept beside them.
    pub target: Rate,
}

impl PaceView {
    /// The target speed kept is the one that follows from the samples.
    pub open spec fn wf(self) -> bool {
        self.target.millionths == mean_millionths(self.history)
    }
}

/// The presenter's pace so far: one sample for every cue read, and the
/// target speed that follows from them.
#[derive(Debug)]
pub struct PaceLearner {
    history: Vec<Rate>,
    target: Rate,
}

impl View for PaceLearner {
    type V = PaceView;

    closed spec fn view(&self) -> PaceView {
        PaceView { history: self.history@, target: self.target }
    }
}

impl PaceLearner {
    /// The target speed kept is the one that follows from the samples.
    pub open spec fn wf(&self) -> bool {
        self@.wf()
    }

    /// A learner that has seen nothing: no samples, normal speed.
    pub fn new() -> (learner: PaceLearner)
        ensures
            learner.wf(),
            learner@ == (PaceView { history: Seq::empty(), target: Rate { millionths: MILLION } }),
    {
        PaceLearner { history: Vec::new(), target: Rate::one() }
    }

    /// Takes in one reading: a cue of `nominal` nanoseconds that the
    /// presenter took `elapsed` nanoseconds over. A reading that took no
    /// time gives no sample and is dropped; any other adds its sample, and
    /// the target speed becomes the mean of all samples. Says whether the
    /// reading was taken in.
    pub fn record(&mut self, nominal: u64, elapsed: u64) -> (taken: bool)
        requires
            old(self).wf(),
        ensures
            final(self).wf(),
            taken == (elapsed > 0),
            taken ==> final(self)@.history == old(self)@.history.push(
                Rate { millionths: ratio_millionths(nominal as int, elapsed as int) as u32 },
            ),
            !taken ==> final(self)@ == old(self)@,
    {
        if elapsed == 0 {
            return false;
        }
        let ratio = reading_ratio(nominal, elapsed);
        self.history.push(ratio);
        self.target = mean_rate(&self.history);
        true
    }

    /// Forgets every sample and goes back to normal speed.
    pub fn reset(&mut self)
        ensures
            final(self).wf(),
            final(self)@ == (PaceView { history: Seq::empty(), target: Rate { millionths: MILLION } }),
    {
        self.history.clear();
        self.target = Rate::one();
    }

    /// The target speed: the mean of the samples, and normal speed where
    /// there are none.
    pub fn target_rate(&self) -> (rate: Rate)
        ensures
            rate == self@.target,
    {
        self.target
    }

    /// The samples, oldest first.
    pub fn history(&self) -> (samples: &Vec<Rate>)
        ensures
            samples@ == self@.history,
    {
        &self.history
    }
}

} // verus!
