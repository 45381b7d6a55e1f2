use votor_measurement_harness::profile::Profile;
use votor_measurement_harness::workload::{
    allocation_chunks, cpu_pressure_worker_count, cpu_work, cpu_work_checksum, plan_build_batch,
    plan_record_results, queue_wait_micros, rotate_left, simulate_build_batch, simulate_dequeue,
    simulate_execution, simulate_lock_and_schedule, BuildBatchDone, BuildBatchWork,
    RecordResultsWork,
};

fn reference_checksum(iterations: u64) -> u64 {
    let mut acc = 0_u64;
    for value in 0..iterations {
        acc = acc.wrapping_add(value.rotate_left((value % 17) as u32));
    }
    acc
}

#[test]
fn checksum_matches_rotating_sum() {
    assert_eq!(cpu_work_checksum(0), 0);
    assert_eq!(cpu_work_checksum(1), 0);
    assert_eq!(cpu_work_checksum(2), 2);
    assert_eq!(cpu_work_checksum(3), 10);
    assert_eq!(cpu_work_checksum(4), 34);
    for n in [17, 18, 100, 1_000, 25_000] {
        assert_eq!(cpu_work_checksum(n), reference_checksum(n));
    }
}

#[test]
fn rotation_matches_std() {
    for value in [0u64, 1, 3, 0x8000_0000_0000_0001, u64::MAX, 0x0123_4567_89ab_cdef] {
        for amount in 0..64u32 {
            assert_eq!(rotate_left(value, amount), value.rotate_left(amount));
        }
    }
}

#[test]
fn simulated_work_does_the_planned_amount() {
    assert_eq!(cpu_work(10), reference_checksum(10));
    assert_eq!(simulate_dequeue(Profile::Baseline), reference_checksum(1_000));
    assert_eq!(simulate_dequeue(Profile::CpuSaturation), reference_checksum(5_000));
    assert_eq!(
        simulate_build_batch(Profile::Baseline, 4),
        BuildBatchDone::Computed { checksum: reference_checksum(800) }
    );
    assert_eq!(
        simulate_build_batch(Profile::AllocatorPressure, 2),
        BuildBatchDone::Allocated { chunks: 16 }
    );
    assert_eq!(simulate_lock_and_schedule(Profile::CpuSaturation, 2), reference_checksum(1_400));
    assert_eq!(simulate_lock_and_schedule(Profile::IoStall, 2), reference_checksum(600));
    assert_eq!(simulate_execution(Profile::IoStall, 2), reference_checksum(1_400));
    assert_eq!(simulate_execution(Profile::Baseline, 3), reference_checksum(1_950));
}

#[test]
fn build_batch_plans() {
    assert_eq!(
        plan_build_batch(Profile::AllocatorPressure, 192),
        BuildBatchWork::Allocate { chunks: 1_536 }
    );
    assert_eq!(plan_build_batch(Profile::Baseline, 128), BuildBatchWork::Compute { spins: 25_600 });
    assert_eq!(plan_build_batch(Profile::IoStall, 96), BuildBatchWork::Compute { spins: 19_200 });
    assert_eq!(
        plan_build_batch(Profile::CpuSaturation, 1_000_000),
        BuildBatchWork::Compute { spins: 200_000_000 }
    );
}

#[test]
fn queue_waits() {
    assert_eq!(queue_wait_micros(Profile::Baseline, 0), 250);
    assert_eq!(queue_wait_micros(Profile::CpuSaturation, 0), 2_500);
    assert_eq!(queue_wait_micros(Profile::CpuSaturation, 20), 2_500);
    assert_eq!(queue_wait_micros(Profile::CpuSaturation, 21), 500);
    assert_eq!(queue_wait_micros(Profile::IoStall, 3), 400);
    assert_eq!(queue_wait_micros(Profile::AllocatorPressure, 3), 500);
}

#[test]
fn allocation_chunks_hold_their_index() {
    let chunks = allocation_chunks(300);
    assert_eq!(chunks.len(), 300);
    assert!(chunks.iter().all(|chunk| chunk.len() == 4096));
    assert!(chunks[0].iter().all(|byte| *byte == 0));
    assert!(chunks[7].iter().all(|byte| *byte == 7));
    assert!(chunks[257].iter().all(|byte| *byte == 1));
}

#[test]
fn record_results_plans() {
    assert_eq!(
        plan_record_results(Profile::IoStall, 10, true),
        RecordResultsWork::AppendSlotLine { slot: 10, flush_stall_ms: Some(2) }
    );
    assert_eq!(
        plan_record_results(Profile::IoStall, 11, true),
        RecordResultsWork::AppendSlotLine { slot: 11, flush_stall_ms: None }
    );
    assert_eq!(
        plan_record_results(Profile::IoStall, 10, false),
        RecordResultsWork::Compute { spins: 1_000 }
    );
    assert_eq!(
        plan_record_results(Profile::Baseline, 10, true),
        RecordResultsWork::Compute { spins: 1_000 }
    );
}

#[test]
fn pressure_worker_counts() {
    assert_eq!(cpu_pressure_worker_count(None), 1);
    assert_eq!(cpu_pressure_worker_count(Some(1)), 0);
    assert_eq!(cpu_pressure_worker_count(Some(2)), 1);
    assert_eq!(cpu_pressure_worker_count(Some(5)), 4);
    assert_eq!(cpu_pressure_worker_count(Some(64)), 4);
}
