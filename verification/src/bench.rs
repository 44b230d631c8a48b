//! Benchmark mode: the canned job and the running mean of its run times.
//!
//! Run times are kept as whole nanoseconds, so that the mean is exact.

use crate::job::Job;
use vstd::prelude::*;
use vstd::string::StringExecFns;

verus! {

/// The id of the canned job, and so the key that its results are pushed to
/// and that is cleared before the job is enqueued again.
pub const BENCHMARK_JOB_ID: &'static str = "1";

/// The pattern of the canned job.
pub const BENCHMARK_PATTERN: &'static str = "([dD])efendant|(Pp)laintiff";

/// The canned job that benchmark mode runs over and over.
pub fn benchmark_job() -> (job: Job)
    ensures
        job.id@ == BENCHMARK_JOB_ID@,
        job.pattern@ == BENCHMARK_PATTERN@,
{
    Job { id: String::from_str(BENCHMARK_JOB_ID), pattern: String::from_str(BENCHMARK_PATTERN) }
}

/// The sum of `samples`.
pub open spec fn sum_of(samples: Seq<u64>) -> int
    decreases samples.len(),
{
    if samples.len() == 0 {
        0
    } else {
        sum_of(samples.drop_last()) + samples.last()
    }
}

/// The arithmetic mean of some samples as an exact fraction: the samples sum
/// to `whole * count + remainder`, so the mean is `whole + remainder / count`.
#[derive(Clone, Copy, Debug, PartialEq, Eq, Structural)]
pub struct Mean {
    pub whole: u64,
    pub remainder: usize,
    pub count: usize,
}

/// The run times of the iterations completed so far, in nanoseconds and in
/// the order in which they were recorded.
pub struct TimingLog {
    samples: Vec<u64>,
}

impl View for TimingLog {
    type V = Seq<u64>;

    closed spec fn view(&self) -> Seq<u64> {
        self.samples@
    }
}

/// No sample is over `u64::MAX`, so neither is their mean.
pub proof fn lemma_sum_bounded(samples: Seq<u64>)
    ensures
        sum_of(samples) <= samples.len() * u64::MAX,
    decreases samples.len(),
{
    if samples.len() > 0 {
        lemma_sum_bounded(samples.drop_last());
        assert(samples.len() * u64::MAX == (samples.len() - 1) * u64::MAX + u64::MAX)
            by (nonlinear_arith);
    }
}

impl TimingLog {
    /// A log without samples.
    pub fn new() -> (log: TimingLog)
        ensures
            log@ == Seq::<u64>::empty(),
    {
        TimingLog { samples: Vec::new() }
    }

    /// Appends the run time of one more iteration.
    pub fn record(&mut self, nanos: u64)
        ensures
            final(self)@ == old(self)@.push(nanos),
    {
        self.samples.push(nanos);
    }

    /// The number of iterations recorded.
    pub fn len(&self) -> (n: usize)
        ensures
            n == self@.len(),
    {
        self.samples.len()
    }

    /// The sum of all run times recorded.
    pub fn total(&self) -> (sum: u128)
        ensures
            sum == sum_of(self@),
    {
        let mut sum: u128 = 0;
        let mut i: usize = 0;
        while i < self.samples.len()
            invariant
                i <= self.samples.len(),
                sum == sum_of(self.samples@.take(i as int)),
            decreases self.samples.len() - i,
        {
            proof {
                let next = self.samples@.take(i + 1);
                assert(next.drop_last() =~= self.samples@.take(i as int));
                lemma_sum_bounded(next);
                assert(next.len() * u64::MAX <= usize::MAX * u64::MAX) by (nonlinear_arith)
                    requires
                        next.len() <= usize::MAX,
                ;
                assert(usize::MAX * u64::MAX <= u128::MAX) by (nonlinear_arith)
                    requires
                        usize::MAX <= u64::MAX,
                ;
            }
            sum = sum + self.samples[i] as u128;
            i = i + 1;
        }
        assert(self.samples@.take(i as int) =~= self.samples@);
        sum
    }

    /// The mean of the run times recorded, exactly: with `K` samples
    /// `t1..tK` it is `(t1 + ... + tK) / K`, given as whole part and
    /// remainder. A log without samples has no mean.
    pub fn mean(&self) -> (mean: Option<Mean>)
        ensures
            self@.len() == 0 <==> mean is None,
            mean matches Some(m) ==> {
                &&& m.count == self@.len()
                &&& m.whole == sum_of(self@) / (m.count as int)
                &&& m.remainder == sum_of(self@) % (m.count as int)
                &&& m.remainder < m.count
                &&& m.whole * m.count + m.remainder == sum_of(self@)
            },
    {
        let count = self.samples.len();
        if count == 0 {
            return None;
        }
        let sum = self.total();
        let whole = sum / (count as u128);
        let remainder = sum % (count as u128);
        proof {
            lemma_sum_bounded(self@);
            let s = sum as int;
            let k = count as int;
            assert(s == (s / k) * k + s % k && 0 <= s % k < k) by (nonlinear_arith)
                requires
                    k > 0,
                    s >= 0,
            ;
            assert(s / k <= u64::MAX) by (nonlinear_arith)
                requires
                    k > 0,
                    0 <= s <= k * u64::MAX,
            ;
        }
        Some(Mean { whole: whole as u64, remainder: remainder as usize, count })
    }
}

} // verus!
