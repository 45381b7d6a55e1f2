use std::time::{Duration, Instant};
use votor_measurement_harness::banking_stage_metrics::SegmentDurations;
use votor_measurement_harness::banking_stage_trace::{
    micros_as_u64, BankingLatencyRecord, EnqueueTimestamp, StageTimer,
};
use votor_measurement_harness::profile::Profile;

fn wait_for(duration: Duration) {
    let started = Instant::now();
    while started.elapsed() < duration {
        std::hint::spin_loop();
    }
}

#[test]
fn queue_delay_is_measured_from_ingress() {
    let enqueued_at = EnqueueTimestamp::now();

    wait_for(Duration::from_millis(5));

    assert!(enqueued_at.elapsed_us() >= 5_000);
}

#[test]
fn stage_timer_reports_elapsed_time() {
    let timer = StageTimer::start(tracing::Span::none());
    timer.record_queue_delay(17);
    wait_for(Duration::from_millis(2));
    assert!(timer.finish() >= 2_000);
}

#[test]
fn micros_narrow_modulo_two_to_the_64() {
    assert_eq!(micros_as_u64(1_234), 1_234);
    assert_eq!(micros_as_u64((1u128 << 64) + 5), 5);
    assert_eq!(micros_as_u64(u64::MAX as u128), u64::MAX);
}

#[test]
fn records_carry_the_batch() {
    let durations = SegmentDurations {
        queue_delay_us: 11,
        build_batch_us: 12,
        lock_us: 13,
        execution_us: 14,
        record_us: 15,
        total_us: 70,
    };
    let record = BankingLatencyRecord::new(Profile::IoStall, 96, 42, &durations, "main".to_string());
    assert_eq!(record.profile, "io_stall");
    assert_eq!(record.batch_size, 96);
    assert_eq!(record.queue_delay_us, 11);
    assert_eq!(record.build_batch_us, 12);
    assert_eq!(record.lock_us, 13);
    assert_eq!(record.execution_us, 14);
    assert_eq!(record.record_us, 15);
    assert_eq!(record.total_us, 70);
    assert_eq!(record.slot, 42);
    assert_eq!(record.thread, "main");
}
