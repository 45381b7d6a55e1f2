# votor-measurement-harness

A laptop-safe harness that runs banking-stage-shaped synthetic workloads,
times each pipeline segment, and summarizes the jitter against block-time
budgets. The logic is written in Verus and proved against its contracts.

- `src/banking_stage_metrics.rs`: per-segment wrapping sums and running maxima,
  with laws on sequences of recordings.
- `src/banking_stage_trace.rs`: segment timers and the per-batch latency record.
- `src/profile.rs`: the workload profiles and their sizes.
- `src/config.rs`: reading a run's settings from the environment and arguments.
- `src/workload.rs`: the synthetic work of each segment.
- `src/jitter_summary.rs`: percentiles, maxima and the markdown summary table.
- `src/text.rs`: string comparison and decimal formatting.
- `app/`: the program itself (clock, sleeps, files, threads, tracing setup,
  JSON), which also acts as the summarizer when invoked as
  `summarize_banking_jitter`.
