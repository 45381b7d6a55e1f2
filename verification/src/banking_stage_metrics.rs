//! Running latency counters for the banking-stage pipeline segments.
//!
//! Every segment keeps a wrapping sum and a running maximum of the
//! microsecond durations recorded for it; a separate counter tracks how many
//! batches went through the pipeline.

use vstd::prelude::*;
use vstd::arithmetic::div_mod::{lemma_add_mod_noop, lemma_small_mod};

verus! {

/// The modulus of `u64` arithmetic.
pub open spec fn u64_modulus() -> nat {
    0x1_0000_0000_0000_0000
}

/// What a wrapping `u64` addition yields.
pub open spec fn wrapped_sum(total: u64, value: u64) -> u64 {
    ((total + value) % (u64_modulus() as int)) as u64
}

/// The larger of a running maximum and a new value.
pub open spec fn running_max(current: u64, value: u64) -> u64 {
    if value > current {
        value
    } else {
        current
    }
}

/// The exact (unbounded) sum of a sequence of durations.
pub open spec fn seq_total(values: Seq<u64>) -> nat
    decreases values.len(),
{
    if values.len() == 0 {
        0
    } else {
        seq_total(values.drop_last()) + values.last() as nat
    }
}

/// The largest duration of a sequence, `0` when it is empty.
pub open spec fn seq_largest(values: Seq<u64>) -> u64
    decreases values.len(),
{
    if values.len() == 0 {
        0
    } else {
        running_max(seq_largest(values.drop_last()), values.last())
    }
}

/// The pipeline segments whose durations are counted.
#[derive(Clone, Copy, Debug, PartialEq, Eq, Structural)]
pub enum Stage {
    QueueDelay,
    BuildBatch,
    Lock,
    Execution,
    Results,
}

/// The measured durations, in microseconds, of the segments of one batch.
#[derive(Clone, Copy, Debug, PartialEq, Eq, Structural)]
pub struct SegmentDurations {
    pub queue_delay_us: u64,
    pub build_batch_us: u64,
    pub lock_us: u64,
    pub execution_us: u64,
    pub record_us: u64,
    pub total_us: u64,
}

/// Latency counters for one harness run.
#[derive(Debug)]
pub struct BankingStageMetrics {
    pub queue_delay_us_sum: u64,
    pub queue_delay_us_max: u64,
    pub build_batch_us_sum: u64,
    pub build_batch_us_max: u64,
    pub lock_us_sum: u64,
    pub lock_us_max: u64,
    pub execution_us_sum: u64,
    pub execution_us_max: u64,
    pub record_us_sum: u64,
    pub record_us_max: u64,
    pub processed_batches: u64,
}

impl BankingStageMetrics {
    /// All counters at zero.
    pub open spec fn zeroed() -> Self {
        BankingStageMetrics {
            queue_delay_us_sum: 0,
            queue_delay_us_max: 0,
            build_batch_us_sum: 0,
            build_batch_us_max: 0,
            lock_us_sum: 0,
            lock_us_max: 0,
            execution_us_sum: 0,
            execution_us_max: 0,
            record_us_sum: 0,
            record_us_max: 0,
            processed_batches: 0,
        }
    }

    /// The wrapping sum kept for `stage`.
    pub open spec fn stage_sum(self, stage: Stage) -> u64 {
        match stage {
            Stage::QueueDelay => self.queue_delay_us_sum,
            Stage::BuildBatch => self.build_batch_us_sum,
            Stage::Lock => self.lock_us_sum,
            Stage::Execution => self.execution_us_sum,
            Stage::Results => self.record_us_sum,
        }
    }

    /// The running maximum kept for `stage`.
    pub open spec fn stage_max(self, stage: Stage) -> u64 {
        match stage {
            Stage::QueueDelay => self.queue_delay_us_max,
            Stage::BuildBatch => self.build_batch_us_max,
            Stage::Lock => self.lock_us_max,
            Stage::Execution => self.execution_us_max,
            Stage::Results => self.record_us_max,
        }
    }

    /// The counters after one duration `value` is recorded for `stage`:
    /// that stage's sum grows by `value` (wrapping), its maximum takes
    /// `value` into account, and nothing else changes.
    pub open spec fn with_sample(self, stage: Stage, value: u64) -> Self {
        let sum = wrapped_sum(self.stage_sum(stage), value);
        let max = running_max(self.stage_max(stage), value);
        match stage {
            Stage::QueueDelay => BankingStageMetrics {
                queue_delay_us_sum: sum,
                queue_delay_us_max: max,
                ..self
            },
            Stage::BuildBatch => BankingStageMetrics {
                build_batch_us_sum: sum,
                build_batch_us_max: max,
                ..self
            },
            Stage::Lock => BankingStageMetrics { lock_us_sum: sum, lock_us_max: max, ..self },
            Stage::Execution => BankingStageMetrics {
                execution_us_sum: sum,
                execution_us_max: max,
                ..self
            },
            Stage::Results => BankingStageMetrics { record_us_sum: sum, record_us_max: max, ..self },
        }
    }

    /// The counters after the durations of `values` are recorded, in order,
    /// for `stage`.
    pub open spec fn with_samples(self, stage: Stage, values: Seq<u64>) -> Self
        decreases values.len(),
    {
        if values.len() == 0 {
            self
        } else {
            self.with_samples(stage, values.drop_last()).with_sample(stage, values.last())
        }
    }

    /// The counters after one more processed batch.
    pub open spec fn with_batch(self) -> Self {
        BankingStageMetrics {
            processed_batches: wrapped_sum(self.processed_batches, 1),
            ..self
        }
    }

    /// The counters after `n` more processed batches.
    pub open spec fn with_batches(self, n: nat) -> Self
        decreases n,
    {
        if n == 0 {
            self
        } else {
            self.with_batches((n - 1) as nat).with_batch()
        }
    }

    /// The counters after one batch with the segment durations `d`: each
    /// segment's duration is recorded for its stage, then the batch is counted.
    pub open spec fn with_batch_durations(self, d: SegmentDurations) -> Self {
        self.with_sample(Stage::QueueDelay, d.queue_delay_us).with_sample(
            Stage::BuildBatch,
            d.build_batch_us,
        ).with_sample(Stage::Lock, d.lock_us).with_sample(Stage::Execution, d.execution_us).with_sample(
            Stage::Results,
            d.record_us,
        ).with_batch()
    }

    /// Whether, for every stage, the maximum is at most the sum and is zero
    /// exactly when the sum is: what the counters keep as long as no sum wraps.
    pub open spec fn sums_bound_maxima(self) -> bool {
        forall|stage: Stage|
            #![trigger self.stage_max(stage)]
            self.stage_max(stage) <= self.stage_sum(stage) && (self.stage_max(stage) == 0
                <==> self.stage_sum(stage) == 0)
    }

    /// Creates the counters with every sum, maximum and count at zero.
    pub fn new() -> (metrics: Self)
        ensures
            metrics == Self::zeroed(),
    {
        BankingStageMetrics {
            queue_delay_us_sum: 0,
            queue_delay_us_max: 0,
            build_batch_us_sum: 0,
            build_batch_us_max: 0,
            lock_us_sum: 0,
            lock_us_max: 0,
            execution_us_sum: 0,
            execution_us_max: 0,
            record_us_sum: 0,
            record_us_max: 0,
            processed_batches: 0,
        }
    }

    /// Adds `value` to a wrapping sum and folds it into a running maximum.
    fn accumulate(sum: &mut u64, max: &mut u64, value: u64)
        ensures
            *final(sum) == wrapped_sum(*old(sum), value),
            *final(max) == running_max(*old(max), value),
    {
        proof {
            lemma_wrapping_add_is_mod(*sum, value);
        }
        *sum = sum.wrapping_add(value);
        if value > *max {
            *max = value;
        }
    }

    /// Records the time from ingress until the first processing attempt.
    pub fn record_queue_delay(&mut self, value: u64)
        ensures
            *final(self) == old(self).with_sample(Stage::QueueDelay, value),
    {
        Self::accumulate(&mut self.queue_delay_us_sum, &mut self.queue_delay_us_max, value);
    }

    /// Records the time spent constructing a batch.
    pub fn record_build_batch(&mut self, value: u64)
        ensures
            *final(self) == old(self).with_sample(Stage::BuildBatch, value),
    {
        Self::accumulate(&mut self.build_batch_us_sum, &mut self.build_batch_us_max, value);
    }

    /// Records the time spent in account locking and scheduling.
    pub fn record_lock(&mut self, value: u64)
        ensures
            *final(self) == old(self).with_sample(Stage::Lock, value),
    {
        Self::accumulate(&mut self.lock_us_sum, &mut self.lock_us_max, value);
    }

    /// Records the time spent executing transactions.
    pub fn record_execution(&mut self, value: u64)
        ensures
            *final(self) == old(self).with_sample(Stage::Execution, value),
    {
        Self::accumulate(&mut self.execution_us_sum, &mut self.execution_us_max, value);
    }

    /// Records the time spent recording results.
    pub fn record_results(&mut self, value: u64)
        ensures
            *final(self) == old(self).with_sample(Stage::Results, value),
    {
        Self::accumulate(&mut self.record_us_sum, &mut self.record_us_max, value);
    }

    /// Accounts one batch: records the queue delay, batch construction,
    /// locking, execution and result-recording durations of `durations`
    /// for their stages, and counts the batch.
    pub fn record_segments(&mut self, durations: &SegmentDurations)
        ensures
            *final(self) == old(self).with_batch_durations(*durations),
    {
        self.record_queue_delay(durations.queue_delay_us);
        self.record_build_batch(durations.build_batch_us);
        self.record_lock(durations.lock_us);
        self.record_execution(durations.execution_us);
        self.record_results(durations.record_us);
        self.record_batch();
    }

    /// Counts one more processed batch (wrapping).
    pub fn record_batch(&mut self)
        ensures
            *final(self) == old(self).with_batch(),
    {
        proof {
            lemma_wrapping_add_is_mod(self.processed_batches, 1);
        }
        self.processed_batches = self.processed_batches.wrapping_add(1);
    }
}

impl Default for BankingStageMetrics {
    fn default() -> (metrics: Self)
        ensures
            metrics == Self::zeroed(),
    {
        Self::new()
    }
}

/// The wrapping addition of `u64` is addition modulo 2^64.
pub proof fn lemma_wrapping_add_is_mod(total: u64, value: u64)
    ensures
        vstd::wrapping::u64_specs::wrapping_add(total, value) == wrapped_sum(total, value),
{
    let m = u64_modulus() as int;
    if total + value > u64::MAX {
        assert((total + value) % m == total + value - m) by (nonlinear_arith)
            requires
                m <= total + value < 2 * m,
                m == 0x1_0000_0000_0000_0000int,
        ;
    } else {
        lemma_small_mod((total + value) as nat, m as nat);
    }
}

/// Recording the durations of `values` for a stage adds their exact total
/// to that stage's sum modulo 2^64, raises its maximum to the largest of
/// them, and leaves every other counter as it was.
pub proof fn lemma_samples_sum_and_max(metrics: BankingStageMetrics, stage: Stage, values: Seq<u64>)
    ensures
        metrics.with_samples(stage, values).stage_sum(stage) == (metrics.stage_sum(stage)
            + seq_total(values)) % (u64_modulus() as int),
        metrics.with_samples(stage, values).stage_max(stage) == running_max(
            metrics.stage_max(stage),
            seq_largest(values),
        ),
        forall|other: Stage|
            other != stage ==> {
                &&& #[trigger] metrics.with_samples(stage, values).stage_sum(other)
                    == metrics.stage_sum(other)
                &&& metrics.with_samples(stage, values).stage_max(other) == metrics.stage_max(other)
            },
        metrics.with_samples(stage, values).processed_batches == metrics.processed_batches,
    decreases values.len(),
{
    let m = u64_modulus() as int;
    if values.len() == 0 {
        lemma_small_mod(metrics.stage_sum(stage) as nat, m as nat);
    } else {
        let prefix = values.drop_last();
        lemma_samples_sum_and_max(metrics, stage, prefix);
        let before = metrics.with_samples(stage, prefix);
        let x = metrics.stage_sum(stage) + seq_total(prefix);
        let v = values.last();
        lemma_small_mod(v as nat, m as nat);
        lemma_add_mod_noop(x, v as int, m);
        assert(seq_total(values) == seq_total(prefix) + v);
        assert forall|other: Stage| other != stage implies {
            &&& #[trigger] metrics.with_samples(stage, values).stage_sum(other)
                == metrics.stage_sum(other)
            &&& metrics.with_samples(stage, values).stage_max(other) == metrics.stage_max(other)
        } by {
            assert(before.stage_sum(other) == metrics.stage_sum(other));
            assert(before.stage_max(other) == metrics.stage_max(other));
        }
    }
}

/// Starting from fresh counters, the sum kept for a stage is the total of
/// the recorded durations modulo 2^64 and the maximum is the largest of them:
/// no recorded duration exceeds it, and it is one of them when any was recorded.
pub proof fn lemma_fresh_samples(stage: Stage, values: Seq<u64>)
    ensures
        BankingStageMetrics::zeroed().with_samples(stage, values).stage_sum(stage) == (seq_total(
            values,
        ) as int) % (u64_modulus() as int),
        BankingStageMetrics::zeroed().with_samples(stage, values).stage_max(stage)
            == seq_largest(values),
        forall|i: int|
            0 <= i < values.len() ==> values[i] <= BankingStageMetrics::zeroed().with_samples(
                stage,
                values,
            ).stage_max(stage),
        values.len() > 0 ==> values.contains(
            BankingStageMetrics::zeroed().with_samples(stage, values).stage_max(stage),
        ),
{
    lemma_samples_sum_and_max(BankingStageMetrics::zeroed(), stage, values);
    lemma_largest_bounds(values);
}

/// `seq_largest` bounds every element and, for a non-empty sequence, is one of them.
pub proof fn lemma_largest_bounds(values: Seq<u64>)
    ensures
        forall|i: int| 0 <= i < values.len() ==> values[i] <= seq_largest(values),
        values.len() > 0 ==> values.contains(seq_largest(values)),
    decreases values.len(),
{
    if values.len() > 0 {
        let prefix = values.drop_last();
        lemma_largest_bounds(prefix);
        assert forall|i: int| 0 <= i < values.len() implies values[i] <= seq_largest(values) by {
            if i < values.len() - 1 {
                assert(values[i] == prefix[i]);
            }
        }
        if values.last() > seq_largest(prefix) || prefix.len() == 0 {
            assert(values[values.len() - 1] == values.last());
        } else {
            let j = choose|j: int| 0 <= j < prefix.len() && prefix[j] == seq_largest(prefix);
            assert(values[j] == prefix[j]);
        }
    }
}

/// Recording two durations gives the same counters in either order, whether
/// for one stage or for two: the counters do not depend on the order in
/// which the pipeline segments report.
pub proof fn lemma_samples_commute(
    metrics: BankingStageMetrics,
    first: Stage,
    a: u64,
    second: Stage,
    b: u64,
)
    ensures
        metrics.with_sample(first, a).with_sample(second, b) == metrics.with_sample(
            second,
            b,
        ).with_sample(first, a),
{
    let m = u64_modulus() as int;
    if first == second {
        let s = metrics.stage_sum(first) as int;
        lemma_small_mod(a as nat, m as nat);
        lemma_small_mod(b as nat, m as nat);
        lemma_add_mod_noop(s + a, b as int, m);
        lemma_add_mod_noop(s + b, a as int, m);
        assert(s + a + b == s + b + a);
    }
}

/// Counting `n` batches on fresh counters leaves `n` modulo 2^64 in
/// `processed_batches` and every duration counter at zero.
pub proof fn lemma_fresh_batches(n: nat)
    ensures
        BankingStageMetrics::zeroed().with_batches(n).processed_batches == (n as int) % (
        u64_modulus() as int),
        BankingStageMetrics::zeroed().with_batches(n) == (BankingStageMetrics {
            processed_batches: BankingStageMetrics::zeroed().with_batches(n).processed_batches,
            ..BankingStageMetrics::zeroed()
        }),
    decreases n,
{
    let m = u64_modulus() as int;
    if n == 0 {
        lemma_small_mod(0, m as nat);
    } else {
        lemma_fresh_batches((n - 1) as nat);
        lemma_small_mod(1, m as nat);
        lemma_add_mod_noop((n - 1) as int, 1, m);
    }
}

/// Fresh counters have every maximum bounded by its sum, and recording a
/// duration keeps that so whenever the stage's sum does not wrap; counting a
/// batch keeps it too. So counters built only by the `record_*` methods keep,
/// until a sum wraps, each maximum at most its sum and zero exactly when the
/// sum is.
pub proof fn lemma_sums_bound_maxima(metrics: BankingStageMetrics, stage: Stage, value: u64)
    ensures
        BankingStageMetrics::zeroed().sums_bound_maxima(),
        metrics.sums_bound_maxima() ==> metrics.with_batch().sums_bound_maxima(),
        metrics.sums_bound_maxima() && metrics.stage_sum(stage) + value <= u64::MAX
            ==> metrics.with_sample(stage, value).sums_bound_maxima(),
{
    let m = u64_modulus() as int;
    assert(BankingStageMetrics::zeroed().sums_bound_maxima()) by {
        assert forall|s: Stage| #![trigger BankingStageMetrics::zeroed().stage_max(s)]
            BankingStageMetrics::zeroed().stage_max(s) <= BankingStageMetrics::zeroed().stage_sum(s)
            by {}
    }
    if metrics.sums_bound_maxima() {
        let batched = metrics.with_batch();
        assert forall|s: Stage| #![trigger batched.stage_max(s)]
            batched.stage_max(s) <= batched.stage_sum(s) && (batched.stage_max(s) == 0
                <==> batched.stage_sum(s) == 0) by {
            assert(metrics.stage_max(s) <= metrics.stage_sum(s));
        }
        if metrics.stage_sum(stage) + value <= u64::MAX {
            let next = metrics.with_sample(stage, value);
            lemma_small_mod((metrics.stage_sum(stage) + value) as nat, m as nat);
            assert forall|s: Stage| #![trigger next.stage_max(s)]
                next.stage_max(s) <= next.stage_sum(s) && (next.stage_max(s) == 0
                    <==> next.stage_sum(s) == 0) by {
                assert(metrics.stage_max(s) <= metrics.stage_sum(s));
                assert(metrics.stage_max(stage) <= metrics.stage_sum(stage));
            }
        }
    }
}

} // verus!
