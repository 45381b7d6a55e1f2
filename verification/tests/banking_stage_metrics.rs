use votor_measurement_harness::banking_stage_metrics::{BankingStageMetrics, SegmentDurations};

#[test]
fn banking_stage_metrics_record_max_and_sum() {
    let mut metrics = BankingStageMetrics::new();

    metrics.record_queue_delay(10);
    metrics.record_queue_delay(25);
    metrics.record_execution(7);
    metrics.record_execution(12);
    metrics.record_batch();

    assert_eq!(metrics.queue_delay_us_sum, 35);
    assert_eq!(metrics.queue_delay_us_max, 25);
    assert_eq!(metrics.execution_us_sum, 19);
    assert_eq!(metrics.execution_us_max, 12);
    assert_eq!(metrics.processed_batches, 1);
}

#[test]
fn every_stage_keeps_its_own_counters() {
    let mut metrics = BankingStageMetrics::default();
    metrics.record_build_batch(3);
    metrics.record_lock(4);
    metrics.record_results(5);
    metrics.record_lock(2);

    assert_eq!(metrics.build_batch_us_sum, 3);
    assert_eq!(metrics.build_batch_us_max, 3);
    assert_eq!(metrics.lock_us_sum, 6);
    assert_eq!(metrics.lock_us_max, 4);
    assert_eq!(metrics.record_us_sum, 5);
    assert_eq!(metrics.record_us_max, 5);
    assert_eq!(metrics.queue_delay_us_sum, 0);
    assert_eq!(metrics.execution_us_max, 0);
    assert_eq!(metrics.processed_batches, 0);
}

#[test]
fn sums_wrap_and_maxima_stay() {
    let mut metrics = BankingStageMetrics::new();
    metrics.record_queue_delay(u64::MAX);
    metrics.record_queue_delay(3);
    assert_eq!(metrics.queue_delay_us_sum, 2);
    assert_eq!(metrics.queue_delay_us_max, u64::MAX);

    let mut batches = BankingStageMetrics::new();
    batches.processed_batches = u64::MAX;
    batches.record_batch();
    assert_eq!(batches.processed_batches, 0);
}

#[test]
fn recording_order_does_not_matter() {
    let mut forward = BankingStageMetrics::new();
    let mut backward = BankingStageMetrics::new();
    for value in [9u64, 1, 40, 7] {
        forward.record_lock(value);
    }
    for value in [7u64, 40, 1, 9] {
        backward.record_lock(value);
    }
    assert_eq!(forward.lock_us_sum, backward.lock_us_sum);
    assert_eq!(forward.lock_us_max, backward.lock_us_max);
    assert_eq!(forward.lock_us_sum, 57);
    assert_eq!(forward.lock_us_max, 40);
}

#[test]
fn a_batch_feeds_each_stage_once() {
    let mut metrics = BankingStageMetrics::new();
    let durations = SegmentDurations {
        queue_delay_us: 1,
        build_batch_us: 2,
        lock_us: 3,
        execution_us: 4,
        record_us: 5,
        total_us: 20,
    };
    metrics.record_segments(&durations);
    metrics.record_segments(&SegmentDurations { lock_us: 9, ..durations });
    assert_eq!(metrics.queue_delay_us_sum, 2);
    assert_eq!(metrics.queue_delay_us_max, 1);
    assert_eq!(metrics.build_batch_us_sum, 4);
    assert_eq!(metrics.lock_us_sum, 12);
    assert_eq!(metrics.lock_us_max, 9);
    assert_eq!(metrics.execution_us_sum, 8);
    assert_eq!(metrics.record_us_sum, 10);
    assert_eq!(metrics.record_us_max, 5);
    assert_eq!(metrics.processed_batches, 2);
}

#[test]
fn maxima_stay_within_sums() {
    let mut metrics = BankingStageMetrics::new();
    for value in [0u64, 5, 0, 12, 3] {
        metrics.record_execution(value);
        assert!(metrics.execution_us_max <= metrics.execution_us_sum);
        assert_eq!(metrics.execution_us_max == 0, metrics.execution_us_sum == 0);
    }
}
