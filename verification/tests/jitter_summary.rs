use votor_measurement_harness::jitter_summary::{
    largest, percentile_us, render_markdown, summarize_samples, summary_row, LatencySample, Summary,
};

fn sample(profile: &str, queue: u64, total: u64) -> LatencySample {
    LatencySample {
        profile: profile.to_string(),
        queue_delay_us: queue,
        build_batch_us: queue + 1,
        lock_us: queue + 2,
        execution_us: queue + 3,
        record_us: queue + 4,
        total_us: total,
    }
}

fn float_percentile(values: &[u64], q: f64) -> u64 {
    let mut sorted = values.to_vec();
    sorted.sort_unstable();
    let idx = ((sorted.len() - 1) as f64 * q).round() as usize;
    sorted[idx]
}

#[test]
fn percentiles_by_nearest_rank() {
    let mut values: Vec<u64> = (1..=20).rev().collect();
    assert_eq!(percentile_us(&mut values, 95), Some(19));
    assert_eq!(values, (1..=20).collect::<Vec<u64>>());
    assert_eq!(percentile_us(&mut vec![5, 1], 50), Some(5));
    assert_eq!(percentile_us(&mut vec![3, 9, 1], 0), Some(1));
    assert_eq!(percentile_us(&mut vec![3, 9, 1], 100), Some(9));
    assert_eq!(percentile_us(&mut Vec::new(), 99), None);
    assert_eq!(percentile_us(&mut vec![8], 7_000), Some(8));
    assert_eq!(percentile_us(&mut vec![8, 2], 101), Some(8));
}

#[test]
fn percentiles_agree_with_float_rounding() {
    for n in 1..=250u64 {
        let values: Vec<u64> = (0..n).map(|i| (i * 7919) % 1000).collect();
        for (percent, q) in [(50u64, 0.50f64), (95, 0.95), (99, 0.99)] {
            let mut copy = values.clone();
            assert_eq!(percentile_us(&mut copy, percent), Some(float_percentile(&values, q)));
        }
    }
}

#[test]
fn largest_of_values() {
    assert_eq!(largest(&vec![4, 11, 2]), Some(11));
    assert_eq!(largest(&Vec::new()), None);
}

#[test]
fn summary_of_samples() {
    let samples = vec![
        sample("baseline", 10, 300),
        sample("other", 30, 100),
        sample("baseline", 20, 200),
    ];
    let summary = summarize_samples(&samples, "path/trace.json".to_string());
    assert_eq!(summary.profile, "baseline");
    assert_eq!(summary.count, 3);
    assert_eq!(summary.total_p50_us, Some(200));
    assert_eq!(summary.total_p95_us, Some(300));
    assert_eq!(summary.total_p99_us, Some(300));
    assert_eq!(summary.total_max_us, Some(300));
    assert_eq!(summary.queue_p95_us, Some(30));
    assert_eq!(summary.build_p95_us, Some(31));
    assert_eq!(summary.lock_p95_us, Some(32));
    assert_eq!(summary.execution_p95_us, Some(33));
    assert_eq!(summary.record_p95_us, Some(34));

    let empty = summarize_samples(&Vec::new(), "path/trace.json".to_string());
    assert_eq!(empty.profile, "path/trace.json");
    assert_eq!(empty.count, 0);
    assert_eq!(empty.total_p50_us, None);
    assert_eq!(empty.total_max_us, None);
}

fn summary(profile: &str, count: usize, value: Option<u64>) -> Summary {
    Summary {
        profile: profile.to_string(),
        count,
        total_p50_us: value,
        total_p95_us: value,
        total_p99_us: value,
        total_max_us: value,
        queue_p95_us: value,
        build_p95_us: value,
        lock_p95_us: value,
        execution_p95_us: value,
        record_p95_us: value,
    }
}

#[test]
fn rows_use_milliseconds_with_three_decimals() {
    let row = summary_row(&summary("baseline", 20, Some(5_894)));
    assert_eq!(
        row,
        "| baseline | 20 | 5.894 | 5.894 | 5.894 | 5.894 | 5.894 | 5.894 | 5.894 | 5.894 | 5.894 |\n"
    );
    let row = summary_row(&summary("io_stall", 0, None));
    assert_eq!(row, "| io_stall | 0 | n/a | n/a | n/a | n/a | n/a | n/a | n/a | n/a | n/a |\n");
    let mut mixed = summary("x", 1, Some(7));
    mixed.total_max_us = Some(1_234_005);
    mixed.record_p95_us = Some(40);
    assert_eq!(
        summary_row(&mixed),
        "| x | 1 | 0.007 | 0.007 | 0.007 | 1234.005 | 0.007 | 0.007 | 0.007 | 0.007 | 0.040 |\n"
    );
    for us in [0u64, 1, 999, 1_000, 4_051, 400_000, 123_456_789] {
        let row = summary_row(&summary("p", 1, Some(us)));
        let expected = format!("{:.3}", us as f64 / 1000.0);
        assert!(row.contains(&format!("| {} |", expected)), "{row} {expected}");
    }
}

#[test]
fn markdown_document() {
    let markdown = render_markdown(&vec![summary("a", 2, Some(1_500)), summary("b", 0, None)]);
    let expected = String::from("# Banking Jitter Summary\n\n")
        + "| Profile | Count | Total p50 ms | Total p95 ms | Total p99 ms | Total max ms | Queue p95 ms | Build p95 ms | Lock p95 ms | Execution p95 ms | Record p95 ms |\n"
        + "| --- | ---: | ---: | ---: | ---: | ---: | ---: | ---: | ---: | ---: | ---: |\n"
        + "| a | 2 | 1.500 | 1.500 | 1.500 | 1.500 | 1.500 | 1.500 | 1.500 | 1.500 | 1.500 |\n"
        + "| b | 0 | n/a | n/a | n/a | n/a | n/a | n/a | n/a | n/a | n/a |\n";
    assert_eq!(markdown, expected);
    let empty = render_markdown(&Vec::new());
    assert!(empty.ends_with("---: |\n"));
}

#[test]
fn joined_lists_render_as_one_document() {
    let first = vec![summary("a", 1, Some(10))];
    let second = vec![summary("b", 2, None), summary("c", 3, Some(2_000))];
    let head = render_markdown(&Vec::new());
    let joined = render_markdown(&vec![
        summary("a", 1, Some(10)),
        summary("b", 2, None),
        summary("c", 3, Some(2_000)),
    ]);
    let first_doc = render_markdown(&first);
    let second_doc = render_markdown(&second);
    assert!(first_doc.starts_with(&head));
    assert_eq!(joined, first_doc + &second_doc[head.len()..]);
    assert_eq!(joined.lines().count(), 4 + 3);
}
