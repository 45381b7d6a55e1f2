//! The synthetic work that stands in for each banking-stage segment.

use vstd::prelude::*;
use crate::banking_stage_metrics::{wrapped_sum, lemma_wrapping_add_is_mod};
use crate::profile::Profile;

verus! {

/// `value` rotated left by `amount` bits, for `amount < 64`.
pub open spec fn rotated(value: u64, amount: u32) -> u64 {
    if amount == 0 {
        value
    } else {
        (value << amount) | (value >> ((64 - amount) as u32))
    }
}

/// Rotates `value` left by `amount` bits, as `u64::rotate_left` does.
pub fn rotate_left(value: u64, amount: u32) -> (rotated_value: u64)
    requires
        amount < 64,
    ensures
        rotated_value == rotated(value, amount),
{
    if amount == 0 {
        value
    } else {
        (value << amount) | (value >> (64 - amount))
    }
}

/// Hands `value` back unchanged while keeping the optimizer from removing the
/// work that produced it.
#[verifier::external_body]
fn keep_opaque<T>(value: T) -> (same: T)
    ensures
        same == value,
{
    std::hint::black_box(value)
}

/// The term that busy work adds for `index`.
pub open spec fn work_term(index: u64) -> u64 {
    rotated(index, (index % 17) as u32)
}

/// The wrapping sum of the terms of the first `n` indices.
pub open spec fn cpu_checksum(n: nat) -> u64
    decreases n,
{
    if n == 0 {
        0
    } else {
        wrapped_sum(cpu_checksum((n - 1) as nat), work_term((n - 1) as u64))
    }
}

/// Computes the wrapping sum of `iterations` rotated indices.
pub fn cpu_work_checksum(iterations: u64) -> (acc: u64)
    ensures
        acc == cpu_checksum(iterations as nat),
{
    let mut acc: u64 = 0;
    let mut value: u64 = 0;
    while value < iterations
        invariant
            value <= iterations,
            acc == cpu_checksum(value as nat),
        decreases iterations - value,
    {
        let term = rotate_left(value, (value % 17) as u32);
        proof {
            lemma_wrapping_add_is_mod(acc, term);
        }
        acc = acc.wrapping_add(term);
        value = value + 1;
    }
    acc
}

/// Burns CPU time proportional to `iterations` and returns the checksum of
/// the work, kept opaque to the optimizer.
pub fn cpu_work(iterations: u64) -> (checksum: u64)
    ensures
        checksum == cpu_checksum(iterations as nat),
{
    let acc = cpu_work_checksum(iterations);
    keep_opaque(acc)
}

/// How long, in microseconds, a batch of `profile` waits in the queue.
pub open spec fn queue_wait_for(profile: Profile, slot: u64) -> u64 {
    match profile {
        Profile::Baseline => 250,
        Profile::CpuSaturation => if slot % 20 == 0 {
            2_500
        } else {
            500
        },
        Profile::IoStall => 400,
        Profile::AllocatorPressure => 500,
    }
}

/// How long, in microseconds, the batch of `slot` waits in the queue: every
/// twentieth slot of the CPU saturation profile waits five times longer.
pub fn queue_wait_micros(profile: Profile, slot: u64) -> (micros: u64)
    ensures
        micros == queue_wait_for(profile, slot),
{
    match profile {
        Profile::Baseline => 250,
        Profile::CpuSaturation => if slot % 20 == 0 {
            2_500
        } else {
            500
        },
        Profile::IoStall => 400,
        Profile::AllocatorPressure => 500,
    }
}

/// Under CPU saturation a batch waits either the short 500 µs or the long
/// 2500 µs, five times as long; the long wait falls exactly on the slots
/// divisible by 20, so it recurs every twentieth slot. The other profiles
/// wait the same for every slot.
pub proof fn lemma_queue_wait_spikes(slot: u64, other: u64)
    ensures
        queue_wait_for(Profile::CpuSaturation, slot) == 500 || queue_wait_for(
            Profile::CpuSaturation,
            slot,
        ) == 2_500,
        queue_wait_for(Profile::CpuSaturation, slot) == 2_500 <==> slot % 20 == 0,
        queue_wait_for(Profile::CpuSaturation, slot) == 2_500 ==> queue_wait_for(
            Profile::CpuSaturation,
            slot,
        ) == 5 * queue_wait_for(Profile::CpuSaturation, (slot + 1) as u64) || slot
            == u64::MAX,
        slot + 20 <= u64::MAX ==> queue_wait_for(Profile::CpuSaturation, slot) == queue_wait_for(
            Profile::CpuSaturation,
            (slot + 20) as u64,
        ),
        queue_wait_for(Profile::Baseline, slot) == queue_wait_for(Profile::Baseline, other),
        queue_wait_for(Profile::IoStall, slot) == queue_wait_for(Profile::IoStall, other),
        queue_wait_for(Profile::AllocatorPressure, slot) == queue_wait_for(
            Profile::AllocatorPressure,
            other,
        ),
{
}

/// The busy-work iterations of dequeuing under `profile`.
pub open spec fn dequeue_spins_for(profile: Profile) -> u64 {
    match profile {
        Profile::Baseline => 1_000,
        Profile::CpuSaturation => 5_000,
        Profile::IoStall => 1_500,
        Profile::AllocatorPressure => 2_000,
    }
}

/// The busy-work iterations per batch item of account locking and scheduling.
pub open spec fn lock_multiplier_for(profile: Profile) -> u64 {
    match profile {
        Profile::CpuSaturation => 700,
        Profile::AllocatorPressure => 500,
        _ => 300,
    }
}

/// The busy-work iterations per batch item of transaction execution.
pub open spec fn execution_multiplier_for(profile: Profile) -> u64 {
    match profile {
        Profile::CpuSaturation => 1_600,
        Profile::AllocatorPressure => 900,
        Profile::IoStall => 700,
        Profile::Baseline => 650,
    }
}

/// The busy-work iterations per batch item of building a batch, outside the
/// allocator pressure profile.
pub const BUILD_BATCH_SPINS_PER_ITEM: u64 = 200;

/// The chunks that one batch item allocates under allocator pressure.
pub const CHUNKS_PER_ITEM: usize = 8;

/// The size in bytes of each allocated chunk.
pub const CHUNK_BYTES: usize = 4096;

/// Dequeue-shaped busy work: `dequeue_spins_for(profile)` iterations.
pub fn simulate_dequeue(profile: Profile) -> (checksum: u64)
    ensures
        checksum == cpu_checksum(dequeue_spins_for(profile) as nat),
{
    let spins: u64 = match profile {
        Profile::Baseline => 1_000,
        Profile::CpuSaturation => 5_000,
        Profile::IoStall => 1_500,
        Profile::AllocatorPressure => 2_000,
    };
    cpu_work(spins)
}

/// A chunk of `CHUNK_BYTES` bytes, each `byte`.
fn filled_chunk(byte: u8) -> (chunk: Vec<u8>)
    ensures
        chunk@ == Seq::new(CHUNK_BYTES as nat, |j: int| byte),
{
    let chunk = vec![byte; CHUNK_BYTES];
    proof {
        assert(chunk@ =~= Seq::new(CHUNK_BYTES as nat, |j: int| byte));
    }
    chunk
}

/// The temporary allocations of building a batch under allocator pressure:
/// `count` chunks, where chunk `i` holds `CHUNK_BYTES` copies of `i` modulo 256.
pub fn allocation_chunks(count: usize) -> (chunks: Vec<Vec<u8>>)
    ensures
        chunks.len() == count,
        forall|i: int|
            0 <= i < count ==> #[trigger] chunks[i]@ == Seq::new(
                CHUNK_BYTES as nat,
                |j: int| (i % 256) as u8,
            ),
{
    let mut chunks: Vec<Vec<u8>> = Vec::with_capacity(count);
    let mut idx: usize = 0;
    while idx < count
        invariant
            idx <= count,
            chunks.len() == idx,
            forall|i: int|
                0 <= i < idx ==> #[trigger] chunks[i]@ == Seq::new(
                    CHUNK_BYTES as nat,
                    |j: int| (i % 256) as u8,
                ),
        decreases count - idx,
    {
        let chunk = filled_chunk((idx % 256) as u8);
        chunks.push(chunk);
        idx = idx + 1;
    }
    chunks
}

/// What building a batch does.
#[derive(Debug, PartialEq, Eq, Structural)]
pub enum BuildBatchWork {
    /// Allocate `chunks` chunks of `CHUNK_BYTES` bytes.
    Allocate { chunks: usize },
    /// Burn `spins` iterations of busy work.
    Compute { spins: u64 },
}

/// Whether building a batch of `batch_size` items under `profile` can be
/// sized without overflow: the chunk count under allocator pressure, the
/// busy-work count otherwise.
pub open spec fn build_batch_fits(profile: Profile, batch_size: usize) -> bool {
    &&& profile == Profile::AllocatorPressure ==> batch_size * CHUNKS_PER_ITEM <= usize::MAX
    &&& profile != Profile::AllocatorPressure ==> batch_size * BUILD_BATCH_SPINS_PER_ITEM
        <= u64::MAX
}

/// What building a batch of `batch_size` items does under `profile`:
/// `CHUNKS_PER_ITEM` chunks per item under allocator pressure,
/// `BUILD_BATCH_SPINS_PER_ITEM` iterations of busy work per item otherwise.
pub open spec fn build_batch_work_for(profile: Profile, batch_size: usize) -> BuildBatchWork {
    if profile == Profile::AllocatorPressure {
        BuildBatchWork::Allocate { chunks: (batch_size * CHUNKS_PER_ITEM) as usize }
    } else {
        BuildBatchWork::Compute { spins: (batch_size * BUILD_BATCH_SPINS_PER_ITEM) as u64 }
    }
}

/// Plans the work of building a batch of `batch_size` items under `profile`.
pub fn plan_build_batch(profile: Profile, batch_size: usize) -> (work: BuildBatchWork)
    requires
        build_batch_fits(profile, batch_size),
    ensures
        work == build_batch_work_for(profile, batch_size),
{
    match profile {
        Profile::AllocatorPressure => BuildBatchWork::Allocate {
            chunks: batch_size * CHUNKS_PER_ITEM,
        },
        _ => BuildBatchWork::Compute { spins: batch_size as u64 * BUILD_BATCH_SPINS_PER_ITEM },
    }
}

/// What building a batch did.
#[derive(Debug, PartialEq, Eq, Structural)]
pub enum BuildBatchDone {
    /// This many chunks were allocated and handed to the optimizer barrier.
    Allocated { chunks: usize },
    /// Busy work ran, with this checksum.
    Computed { checksum: u64 },
}

/// What carrying out `work` yields.
pub open spec fn build_batch_done_for(work: BuildBatchWork) -> BuildBatchDone {
    match work {
        BuildBatchWork::Allocate { chunks } => BuildBatchDone::Allocated { chunks },
        BuildBatchWork::Compute { spins } => BuildBatchDone::Computed {
            checksum: cpu_checksum(spins as nat),
        },
    }
}

/// Batch-construction-shaped work: carries out `plan_build_batch`, that is,
/// allocations under allocator pressure and busy work otherwise.
pub fn simulate_build_batch(profile: Profile, batch_size: usize) -> (done: BuildBatchDone)
    requires
        build_batch_fits(profile, batch_size),
    ensures
        done == build_batch_done_for(build_batch_work_for(profile, batch_size)),
{
    match plan_build_batch(profile, batch_size) {
        BuildBatchWork::Allocate { chunks } => {
            let allocated = keep_opaque(allocation_chunks(chunks));
            BuildBatchDone::Allocated { chunks: allocated.len() }
        },
        BuildBatchWork::Compute { spins } => BuildBatchDone::Computed { checksum: cpu_work(spins) },
    }
}

/// Account-locking-and-scheduling-shaped busy work:
/// `lock_multiplier_for(profile)` iterations per batch item.
pub fn simulate_lock_and_schedule(profile: Profile, batch_size: usize) -> (checksum: u64)
    requires
        batch_size * lock_multiplier_for(profile) <= u64::MAX,
    ensures
        checksum == cpu_checksum((batch_size * lock_multiplier_for(profile)) as nat),
{
    let multiplier: u64 = match profile {
        Profile::CpuSaturation => 700,
        Profile::AllocatorPressure => 500,
        _ => 300,
    };
    cpu_work(batch_size as u64 * multiplier)
}

/// Transaction-execution-shaped busy work:
/// `execution_multiplier_for(profile)` iterations per batch item.
pub fn simulate_execution(profile: Profile, batch_size: usize) -> (checksum: u64)
    requires
        batch_size * execution_multiplier_for(profile) <= u64::MAX,
    ensures
        checksum == cpu_checksum((batch_size * execution_multiplier_for(profile)) as nat),
{
    let multiplier: u64 = match profile {
        Profile::CpuSaturation => 1_600,
        Profile::AllocatorPressure => 900,
        Profile::IoStall => 700,
        Profile::Baseline => 650,
    };
    cpu_work(batch_size as u64 * multiplier)
}

/// The busy-work iterations of recording results without a file.
pub const RECORD_RESULTS_SPINS: u64 = 1_000;

/// How long, in milliseconds, recording stalls after a flush.
pub const FLUSH_STALL_MS: u64 = 2;

/// What recording the results of a batch does.
#[derive(Debug, PartialEq, Eq, Structural)]
pub enum RecordResultsWork {
    /// Append the line `slot=<slot>` to the stall file, and, when
    /// `flush_stall_ms` is given, flush it and sleep that many milliseconds.
    AppendSlotLine { slot: u64, flush_stall_ms: Option<u64> },
    /// Burn `spins` iterations of busy work.
    Compute { spins: u64 },
}

/// What recording results does for `slot`: under the I/O stall profile, with
/// a stall file open, a line per slot and a flush followed by a stall every
/// fifth slot; otherwise busy work.
pub fn plan_record_results(profile: Profile, slot: u64, has_io_file: bool) -> (work: RecordResultsWork)
    ensures
        work == (if profile == Profile::IoStall && has_io_file {
            RecordResultsWork::AppendSlotLine {
                slot,
                flush_stall_ms: if slot % 5 == 0 {
                    Some(FLUSH_STALL_MS)
                } else {
                    None
                },
            }
        } else {
            RecordResultsWork::Compute { spins: RECORD_RESULTS_SPINS }
        }),
{
    match profile {
        Profile::IoStall if has_io_file => RecordResultsWork::AppendSlotLine {
            slot,
            flush_stall_ms: if slot % 5 == 0 {
                Some(FLUSH_STALL_MS)
            } else {
                None
            },
        },
        _ => RecordResultsWork::Compute { spins: RECORD_RESULTS_SPINS },
    }
}

/// How many rounds of busy work each CPU pressure worker runs.
pub const CPU_PRESSURE_ROUNDS: u64 = 300;

/// The busy-work iterations of one round of a CPU pressure worker.
pub const CPU_PRESSURE_SPINS: u64 = 25_000;

/// How many CPU pressure workers to start: one fewer than the available
/// parallelism, at most four, and one when the parallelism is unknown.
pub fn cpu_pressure_worker_count(available: Option<usize>) -> (workers: usize)
    ensures
        workers == match available {
            Some(count) => if count == 0 {
                0
            } else if count - 1 > 4 {
                4
            } else {
                (count - 1) as usize
            },
            None => 1,
        },
{
    match available {
        Some(count) => {
            let spare = count.saturating_sub(1);
            if spare < 4 {
                spare
            } else {
                4
            }
        },
        None => 1,
    }
}

} // verus!
