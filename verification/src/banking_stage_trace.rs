//! Timing of pipeline segments and the per-batch latency record.

use vstd::prelude::*;
use std::time::{Duration, Instant};
use tracing::Span;
use crate::banking_stage_metrics::SegmentDurations;
use crate::profile::{Profile, profile_name};

verus! {

/// Lets `std::time::Instant` stand in signatures and fields.
#[verifier::external_type_specification]
#[verifier::external_body]
pub struct ExInstant(std::time::Instant);

/// Lets `tracing::Span` stand in signatures and fields.
#[verifier::external_type_specification]
#[verifier::external_body]
pub struct ExSpan(tracing::Span);

/// Reads the monotonic clock (`Instant::now`); nothing is stated of the
/// instant it returns.
#[verifier::external_body]
fn clock_now() -> Instant {
    Instant::now()
}

/// The time that has passed since `at` (`Instant::elapsed`); it depends on
/// the clock, so nothing is stated of it.
#[verifier::external_body]
fn elapsed_since(at: &Instant) -> Duration {
    at.elapsed()
}

/// The whole microseconds of a duration (`Duration::as_micros`); the
/// duration is opaque here, so nothing is stated of the count.
#[verifier::external_body]
fn whole_micros(duration: &Duration) -> u128 {
    duration.as_micros()
}

/// Sets the field `field` of `span` to `value` (`Span::record`); a span is
/// opaque here, so nothing is stated of its fields.
#[verifier::external_body]
fn record_span_field(span: &Span, field: &str, value: u64) {
    span.record(field, value);
}

/// A microsecond count narrowed to 64 bits the way `as u64` narrows it:
/// modulo 2^64.
pub fn micros_as_u64(micros: u128) -> (narrowed: u64)
    ensures
        narrowed == micros % 0x1_0000_0000_0000_0000,
{
    let narrowed = micros as u64;
    proof {
        assert(micros as u64 == micros % 0x1_0000_0000_0000_0000) by (bit_vector);
    }
    narrowed
}

/// The moment a batch entered the queue.
#[derive(Clone, Copy, Debug)]
pub struct EnqueueTimestamp {
    pub at: Instant,
}

impl EnqueueTimestamp {
    /// The current moment.
    pub fn now() -> Self {
        EnqueueTimestamp { at: clock_now() }
    }

    /// Microseconds since the batch entered the queue, narrowed to 64 bits.
    pub fn elapsed_us(self) -> u64 {
        let elapsed = elapsed_since(&self.at);
        micros_as_u64(whole_micros(&elapsed))
    }
}

/// Times one pipeline segment and reports its duration on a tracing span.
pub struct StageTimer {
    start: Instant,
    span: Span,
}

impl StageTimer {
    /// The span on which the timer reports.
    pub closed spec fn span(self) -> Span {
        self.span
    }

    /// Starts timing a segment that reports on `span`.
    pub fn start(span: Span) -> (timer: Self)
        ensures
            timer.span() == span,
    {
        StageTimer { start: clock_now(), span }
    }

    /// Stops the timer, sets the span's `elapsed_us` field to the elapsed
    /// microseconds, and returns them.
    pub fn finish(self) -> u64 {
        let elapsed = elapsed_since(&self.start);
        let elapsed_us = micros_as_u64(whole_micros(&elapsed));
        record_span_field(&self.span, "elapsed_us", elapsed_us);
        elapsed_us
    }

    /// Sets the span's `queue_delay_us` field to `value`.
    pub fn record_queue_delay(&self, value: u64) {
        record_span_field(&self.span, "queue_delay_us", value);
    }
}

/// The durations of one batch as the harness writes them to its trace.
#[derive(Debug, Clone)]
pub struct BankingLatencyRecord {
    /// Harness profile that produced this record.
    pub profile: String,
    /// Number of simulated transactions/items in this batch.
    pub batch_size: usize,
    /// Time from simulated enqueue/ingress until first processing attempt.
    pub queue_delay_us: u64,
    /// Time spent constructing the simulated batch.
    pub build_batch_us: u64,
    /// Time spent in account-locking and scheduling-shaped work.
    pub lock_us: u64,
    /// Time spent in transaction-execution-shaped work.
    pub execution_us: u64,
    /// Time spent recording results and bookkeeping.
    pub record_us: u64,
    /// End-to-end time for the simulated batch pipeline.
    pub total_us: u64,
    /// Monotonic batch index used as a slot-like identifier.
    pub slot: u64,
    /// Thread that emitted the record.
    pub thread: String,
}

impl BankingLatencyRecord {
    /// The record of batch `slot` of `profile`, holding `batch_size` items,
    /// with the segment durations `durations`, emitted by thread `thread`.
    pub fn new(
        profile: Profile,
        batch_size: usize,
        slot: u64,
        durations: &SegmentDurations,
        thread: String,
    ) -> (record: Self)
        ensures
            record.profile@ == profile_name(profile),
            record.batch_size == batch_size,
            record.queue_delay_us == durations.queue_delay_us,
            record.build_batch_us == durations.build_batch_us,
            record.lock_us == durations.lock_us,
            record.execution_us == durations.execution_us,
            record.record_us == durations.record_us,
            record.total_us == durations.total_us,
            record.slot == slot,
            record.thread@ == thread@,
    {
        BankingLatencyRecord {
            profile: profile.as_str().to_owned(),
            batch_size,
            queue_delay_us: durations.queue_delay_us,
            build_batch_us: durations.build_batch_us,
            lock_us: durations.lock_us,
            execution_us: durations.execution_us,
            record_us: durations.record_us,
            total_us: durations.total_us,
            slot,
            thread,
        }
    }
}

} // verus!
