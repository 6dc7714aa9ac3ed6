//! The shared priority-fee estimate and its refresh rule.

use vstd::prelude::*;

verus! {

/// Percentile of recent fees that is sampled, in hundredths of a percent (the 25th).
pub const FEE_PERCENTILE: u64 = 2500;

/// Time between two fee samples, in milliseconds.
pub const FEE_REFRESH_INTERVAL_MS: u64 = 5000;

/// The current priority-fee estimate, in micro-lamports per compute unit.
#[derive(Clone, Copy, Debug, PartialEq, Eq)]
pub struct FeeEstimate {
    pub micro_lamports_per_cu: u64,
}

/// The estimate after one sample: a successful sample replaces it, a failed one
/// (`None`) leaves it as it was.
pub open spec fn next_estimate(current: u64, sample: Option<u64>) -> u64 {
    match sample {
        Some(fee) => fee,
        None => current,
    }
}

impl FeeEstimate {
    /// The estimate before any sample succeeded: zero.
    pub fn new() -> (r: FeeEstimate)
        ensures
            r.micro_lamports_per_cu == 0,
    {
        FeeEstimate { micro_lamports_per_cu: 0 }
    }

    /// The value to use as the compute-unit price.
    pub fn current(&self) -> (r: u64)
        ensures
            r == self.micro_lamports_per_cu,
    {
        self.micro_lamports_per_cu
    }

    /// Takes the outcome of one fee sample into account.
    pub fn refresh(&mut self, sample: Option<u64>)
        ensures
            final(self).micro_lamports_per_cu == next_estimate(
                old(self).micro_lamports_per_cu,
                sample,
            ),
    {
        if let Some(fee) = sample {
            self.micro_lamports_per_cu = fee;
        }
    }
}

/// Two failed samples in a row leave the estimate as it was, and the next
/// successful sample replaces it at once.
pub proof fn lemma_failed_samples_keep_estimate(current: u64, fee: u64)
    ensures
        next_estimate(current, None) == current,
        next_estimate(next_estimate(current, None), None) == current,
        next_estimate(next_estimate(next_estimate(current, None), None), Some(fee)) == fee,
{
}

/// The sum of the fee samples.
pub open spec fn sum_fees(s: Seq<u64>) -> int
    decreases s.len(),
{
    if s.len() == 0 {
        0
    } else {
        sum_fees(s.drop_last()) + s.last() as int
    }
}

proof fn lemma_sum_fees_bound(s: Seq<u64>)
    ensures
        0 <= sum_fees(s) <= s.len() * (u64::MAX as int),
    decreases s.len(),
{
    if s.len() > 0 {
        lemma_sum_fees_bound(s.drop_last());
    }
}

/// The mean of the recent fee samples, rounded down; `None` when there are none.
pub fn mean_priority_fee(samples: &Vec<u64>) -> (r: Option<u64>)
    ensures
        samples@.len() == 0 ==> r is None,
        samples@.len() > 0 ==> r == Some((sum_fees(samples@) / (samples@.len() as int)) as u64),
{
    if samples.len() == 0 {
        return None;
    }
    let mut total: u128 = 0;
    let mut i: usize = 0;
    while i < samples.len()
        invariant
            i <= samples@.len(),
            total as int == sum_fees(samples@.subrange(0, i as int)),
        decreases samples@.len() - i,
    {
        proof {
            assert(samples@.subrange(0, i as int + 1).drop_last() =~= samples@.subrange(0, i as int));
            lemma_sum_fees_bound(samples@.subrange(0, i as int));
            assert(i * (u64::MAX as int) <= 0x1_0000_0000_0000_0000 * (u64::MAX as int))
                by (nonlinear_arith)
                requires
                    i <= usize::MAX,
            ;
        }
        total = total + samples[i] as u128;
        i = i + 1;
    }
    proof {
        assert(samples@.subrange(0, samples@.len() as int) =~= samples@);
        lemma_sum_fees_bound(samples@);
        let n = samples@.len() as int;
        let t = total as int;
        assert(t / n <= u64::MAX as int) by (nonlinear_arith)
            requires
                n > 0,
                0 <= t <= n * (u64::MAX as int),
        ;
    }
    Some((total / (samples.len() as u128)) as u64)
}

} // verus!
