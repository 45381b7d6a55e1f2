//! Summaries of recorded batch latencies: percentiles, maxima, and a
//! markdown table of them in milliseconds.

use vstd::prelude::*;
use vstd::relations::{sorted_by, total_ordering};
use vstd::seq_lib::lemma_sorted_unique;
use crate::banking_stage_metrics::seq_largest;
use crate::text::{decimal_text, digit_char, digit, push_char, push_decimal};

verus! {

/// The order in which durations are ranked.
pub open spec fn ascending() -> spec_fn(u64, u64) -> bool {
    |a: u64, b: u64| a <= b
}

/// `values` in ascending order.
pub open spec fn sorted_values(values: Seq<u64>) -> Seq<u64> {
    values.sort_by(ascending())
}

/// The position, in a sorted sequence of `n > 0` values, of the
/// `percent`-th percentile: `(n - 1) * percent / 100` rounded to the
/// nearest integer, halves rounded up.
pub open spec fn percentile_rank(n: nat, percent: nat) -> int {
    ((n - 1) * percent * 2 + 100) / 200
}

/// The `percent`-th percentile of `values` by nearest rank, `None` when
/// there are no values.
pub open spec fn percentile_of(values: Seq<u64>, percent: nat) -> Option<u64> {
    if values.len() == 0 {
        None
    } else {
        Some(sorted_values(values)[percentile_rank(values.len(), percent)])
    }
}

/// The largest of `values`, `None` when there are none.
pub open spec fn largest_of(values: Seq<u64>) -> Option<u64> {
    if values.len() == 0 {
        None
    } else {
        Some(seq_largest(values))
    }
}

/// `<=` on `u64` is a total order.
pub proof fn lemma_ascending_total()
    ensures
        total_ordering(ascending()),
{
}

/// Sorting keeps the values and puts them in ascending order.
pub proof fn lemma_sorted_values(values: Seq<u64>)
    ensures
        sorted_values(values).to_multiset() == values.to_multiset(),
        sorted_by(sorted_values(values), ascending()),
        sorted_values(values).len() == values.len(),
{
    lemma_ascending_total();
    values.lemma_sort_by_ensures(ascending());
    vstd::seq_lib::to_multiset_len(values);
    vstd::seq_lib::to_multiset_len(sorted_values(values));
}

/// Sorts `values` in ascending order.
#[verifier::external_body]
fn sort_ascending(values: &mut Vec<u64>)
    ensures
        final(values)@.to_multiset() == old(values)@.to_multiset(),
        sorted_by(final(values)@, ascending()),
{
    values.sort_unstable();
}

/// Sorts `values` in ascending order and reads the `percent`-th percentile
/// off the sorted values by nearest rank; the rank must fall inside the
/// values, as reading the sorted values there demands.
pub fn percentile_us(values: &mut Vec<u64>, percent: u64) -> (result: Option<u64>)
    requires
        old(values).len() == 0 || percentile_rank(old(values).len() as nat, percent as nat) < old(
            values,
        ).len(),
    ensures
        final(values)@ == sorted_values(old(values)@),
        result == percentile_of(old(values)@, percent as nat),
{
    let ghost original = values@;
    sort_ascending(values);
    proof {
        lemma_sorted_values(original);
        lemma_ascending_total();
        lemma_sorted_unique(values@, sorted_values(original), ascending());
    }
    let n = values.len();
    if n == 0 {
        return None;
    }
    let below: u128 = (n - 1) as u128;
    proof {
        let x = below * percent * 2 + 100;
        assert(x < 200 * (x / 200) + 200) by (nonlinear_arith)
            requires
                0 <= x,
        ;
        assert(x / 200 < n);
        assert(below * percent < 100 * 0x1_0000_0000_0000_0000) by (nonlinear_arith)
            requires
                below * percent * 2 + 100 < 200 * n,
                n <= 0xffff_ffff_ffff_ffff,
        ;
    }
    let wide: u128 = below * (percent as u128) * 2 + 100;
    let rank: u128 = wide / 200;
    let index = rank as usize;
    Some(values[index])
}

/// A percentile is one of the values it is taken of.
pub proof fn lemma_percentile_is_a_value(values: Seq<u64>, percent: nat)
    requires
        values.len() > 0,
        percent <= 100,
    ensures
        values.contains(percentile_of(values, percent).unwrap()),
{
    broadcast use vstd::seq_lib::group_to_multiset_ensures;

    lemma_percentile_rank_bounds(values.len(), percent);
    lemma_sorted_values(values);
    let sorted = sorted_values(values);
    let v = sorted[percentile_rank(values.len(), percent)];
    assert(sorted.contains(v));
    assert(sorted.to_multiset().count(v) > 0);
}

/// The rank of a percentile lies inside the sorted values, and a higher
/// percentile never has a lower rank.
pub proof fn lemma_percentile_rank_bounds(n: nat, percent: nat)
    requires
        n > 0,
        percent <= 100,
    ensures
        0 <= percentile_rank(n, percent) < n,
        percent == 0 ==> percentile_rank(n, percent) == 0,
        percent == 100 ==> percentile_rank(n, percent) == n - 1,
{
    let m = (n - 1) as int;
    assert(0 <= m * percent * 2 <= m * 200) by (nonlinear_arith)
        requires
            0 <= m,
            percent <= 100,
    ;
    assert((m * 200 + 100) / 200 == m) by (nonlinear_arith)
        requires
            0 <= m,
    ;
    assert(percentile_rank(n, percent) <= m) by (nonlinear_arith)
        requires
            percentile_rank(n, percent) == (m * percent * 2 + 100) / 200,
            0 <= m * percent * 2 <= m * 200,
            (m * 200 + 100) / 200 == m,
    ;
    assert(percentile_rank(n, percent) >= 0) by (nonlinear_arith)
        requires
            percentile_rank(n, percent) == (m * percent * 2 + 100) / 200,
            0 <= m * percent * 2,
    ;
    if percent == 0 {
        assert(m * percent * 2 == 0) by (nonlinear_arith)
            requires
                percent == 0,
        ;
    }
}

/// A higher percentile is never smaller than a lower one.
pub proof fn lemma_percentile_monotone(values: Seq<u64>, low: nat, high: nat)
    requires
        values.len() > 0,
        low <= high <= 100,
    ensures
        percentile_of(values, low).unwrap() <= percentile_of(values, high).unwrap(),
{
    let n = values.len();
    let m = (n - 1) as int;
    lemma_percentile_rank_bounds(n, low);
    lemma_percentile_rank_bounds(n, high);
    assert(m * low * 2 + 100 <= m * high * 2 + 100) by (nonlinear_arith)
        requires
            0 <= m,
            low <= high,
    ;
    vstd::arithmetic::div_mod::lemma_div_is_ordered(m * low * 2 + 100, m * high * 2 + 100, 200);
    lemma_sorted_values(values);
    let sorted = sorted_values(values);
    let i = percentile_rank(n, low);
    let j = percentile_rank(n, high);
    if i < j {
        assert((ascending())(sorted[i], sorted[j]));
    }
}

/// The 0th percentile is the smallest value and the 100th percentile is the
/// largest one.
pub proof fn lemma_percentile_extremes(values: Seq<u64>)
    requires
        values.len() > 0,
    ensures
        forall|i: int| 0 <= i < values.len() ==> percentile_of(values, 0).unwrap() <= values[i],
        percentile_of(values, 100) == largest_of(values),
{
    broadcast use vstd::seq_lib::group_to_multiset_ensures;

    let n = values.len();
    lemma_percentile_rank_bounds(n, 0);
    lemma_percentile_rank_bounds(n, 100);
    lemma_sorted_values(values);
    let sorted = sorted_values(values);
    assert forall|i: int| 0 <= i < values.len() implies percentile_of(values, 0).unwrap()
        <= values[i] by {
        assert(values.to_multiset().count(values[i]) > 0);
        assert(sorted.contains(values[i]));
        let k = choose|k: int| 0 <= k < sorted.len() && sorted[k] == values[i];
        if k > 0 {
            assert((ascending())(sorted[0], sorted[k]));
        }
    }
    crate::banking_stage_metrics::lemma_largest_bounds(values);
    let top = sorted[n - 1];
    assert(sorted.contains(top));
    assert(values.to_multiset().count(top) > 0);
    assert(values.contains(seq_largest(values)));
    let b = choose|b: int| 0 <= b < values.len() && values[b] == seq_largest(values);
    assert(sorted.to_multiset().count(values[b]) > 0);
    assert(sorted.contains(values[b]));
    let k = choose|k: int| 0 <= k < sorted.len() && sorted[k] == values[b];
    if k < n - 1 {
        assert((ascending())(sorted[k], sorted[n - 1]));
    }
}

/// Percentiles depend only on which values were recorded, not on their order.
pub proof fn lemma_percentile_ignores_order(first: Seq<u64>, second: Seq<u64>, percent: nat)
    requires
        first.to_multiset() == second.to_multiset(),
    ensures
        percentile_of(first, percent) == percentile_of(second, percent),
{
    broadcast use vstd::seq_lib::group_to_multiset_ensures;

    lemma_sorted_values(first);
    lemma_sorted_values(second);
    lemma_ascending_total();
    lemma_sorted_unique(sorted_values(first), sorted_values(second), ascending());
    vstd::seq_lib::to_multiset_len(first);
    vstd::seq_lib::to_multiset_len(second);
}

/// The durations of one batch as read back from a trace file.
#[derive(Debug)]
pub struct LatencySample {
    pub profile: String,
    pub queue_delay_us: u64,
    pub build_batch_us: u64,
    pub lock_us: u64,
    pub execution_us: u64,
    pub record_us: u64,
    pub total_us: u64,
}

/// A duration field of a sample.
#[derive(Clone, Copy, Debug, PartialEq, Eq, Structural)]
pub enum Column {
    QueueDelay,
    BuildBatch,
    Lock,
    Execution,
    Record,
    Total,
}

/// The value of `column` in `sample`.
pub open spec fn column_value(sample: LatencySample, column: Column) -> u64 {
    match column {
        Column::QueueDelay => sample.queue_delay_us,
        Column::BuildBatch => sample.build_batch_us,
        Column::Lock => sample.lock_us,
        Column::Execution => sample.execution_us,
        Column::Record => sample.record_us,
        Column::Total => sample.total_us,
    }
}

/// The values of `column` over `samples`, in order.
pub open spec fn column_of(samples: Seq<LatencySample>, column: Column) -> Seq<u64> {
    Seq::new(samples.len(), |i: int| column_value(samples[i], column))
}

/// Collects the values of `column` over `samples`.
pub fn column_values(samples: &Vec<LatencySample>, column: Column) -> (values: Vec<u64>)
    ensures
        values@ == column_of(samples@, column),
{
    let mut values: Vec<u64> = Vec::new();
    let mut i: usize = 0;
    while i < samples.len()
        invariant
            i <= samples.len(),
            values@ == column_of(samples@.take(i as int), column),
        decreases samples.len() - i,
    {
        let sample = &samples[i];
        let value = match column {
            Column::QueueDelay => sample.queue_delay_us,
            Column::BuildBatch => sample.build_batch_us,
            Column::Lock => sample.lock_us,
            Column::Execution => sample.execution_us,
            Column::Record => sample.record_us,
            Column::Total => sample.total_us,
        };
        values.push(value);
        i = i + 1;
        proof {
            assert(values@ =~= column_of(samples@.take(i as int), column));
        }
    }
    proof {
        assert(samples@.take(i as int) =~= samples@);
    }
    values
}

/// The largest of `values`, `None` when there are none.
pub fn largest(values: &Vec<u64>) -> (result: Option<u64>)
    ensures
        result == largest_of(values@),
{
    if values.len() == 0 {
        return None;
    }
    let mut best: u64 = 0;
    let mut i: usize = 0;
    while i < values.len()
        invariant
            i <= values.len(),
            best == seq_largest(values@.take(i as int)),
        decreases values.len() - i,
    {
        proof {
            assert(values@.take(i + 1).drop_last() =~= values@.take(i as int));
        }
        if values[i] > best {
            best = values[i];
        }
        i = i + 1;
    }
    proof {
        assert(values@.take(i as int) =~= values@);
    }
    Some(best)
}

/// The latency summary of one trace, in microseconds.
#[derive(Debug)]
pub struct Summary {
    pub profile: String,
    pub count: usize,
    pub total_p50_us: Option<u64>,
    pub total_p95_us: Option<u64>,
    pub total_p99_us: Option<u64>,
    pub total_max_us: Option<u64>,
    pub queue_p95_us: Option<u64>,
    pub build_p95_us: Option<u64>,
    pub lock_p95_us: Option<u64>,
    pub execution_p95_us: Option<u64>,
    pub record_p95_us: Option<u64>,
}

/// Summarizes the samples of one trace: the profile of its first sample
/// (`fallback_profile` when there is none), the number of samples, the 50th,
/// 95th and 99th percentiles and the maximum of the end-to-end durations, and
/// the 95th percentile of each segment.
pub fn summarize_samples(samples: &Vec<LatencySample>, fallback_profile: String) -> (summary: Summary)
    ensures
        summary.profile@ == (if samples.len() > 0 {
            samples@[0].profile@
        } else {
            fallback_profile@
        }),
        summary.count == samples.len(),
        summary.total_p50_us == percentile_of(column_of(samples@, Column::Total), 50),
        summary.total_p95_us == percentile_of(column_of(samples@, Column::Total), 95),
        summary.total_p99_us == percentile_of(column_of(samples@, Column::Total), 99),
        summary.total_max_us == largest_of(column_of(samples@, Column::Total)),
        summary.queue_p95_us == percentile_of(column_of(samples@, Column::QueueDelay), 95),
        summary.build_p95_us == percentile_of(column_of(samples@, Column::BuildBatch), 95),
        summary.lock_p95_us == percentile_of(column_of(samples@, Column::Lock), 95),
        summary.execution_p95_us == percentile_of(column_of(samples@, Column::Execution), 95),
        summary.record_p95_us == percentile_of(column_of(samples@, Column::Record), 95),
{
    let profile = if samples.len() > 0 {
        samples[0].profile.clone()
    } else {
        fallback_profile
    };
    let mut total = column_values(samples, Column::Total);
    let mut queue = column_values(samples, Column::QueueDelay);
    let mut build = column_values(samples, Column::BuildBatch);
    let mut lock = column_values(samples, Column::Lock);
    let mut execution = column_values(samples, Column::Execution);
    let mut record = column_values(samples, Column::Record);
    let total_max_us = largest(&total);
    let mut total_for_p50 = total.clone();
    let mut total_for_p95 = total.clone();
    proof {
        assert(total_for_p50@ =~= total@);
        assert(total_for_p95@ =~= total@);
    }
    Summary {
        profile,
        count: samples.len(),
        total_p50_us: percentile_us(&mut total_for_p50, 50),
        total_p95_us: percentile_us(&mut total_for_p95, 95),
        total_p99_us: percentile_us(&mut total, 99),
        total_max_us,
        queue_p95_us: percentile_us(&mut queue, 95),
        build_p95_us: percentile_us(&mut build, 95),
        lock_p95_us: percentile_us(&mut lock, 95),
        execution_p95_us: percentile_us(&mut execution, 95),
        record_p95_us: percentile_us(&mut record, 95),
    }
}

/// Three decimal digits of `r < 1000`, with leading zeros.
pub open spec fn three_digits(r: nat) -> Seq<char> {
    seq![digit_char(r / 100), digit_char((r / 10) % 10), digit_char(r % 10)]
}

/// A duration of `us` microseconds written in milliseconds with three decimals.
pub open spec fn millis_text(us: u64) -> Seq<char> {
    decimal_text((us / 1000) as nat) + seq!['.'] + three_digits((us % 1000) as nat)
}

/// A table cell for an optional duration: its milliseconds, or `n/a`.
pub open spec fn cell_text(value: Option<u64>) -> Seq<char> {
    match value {
        Some(us) => millis_text(us),
        None => "n/a"@,
    }
}

/// The table row of one summary.
#[verifier::opaque]
pub open spec fn row_text(summary: Summary) -> Seq<char> {
    "| "@ + summary.profile@ + " | "@ + decimal_text(summary.count as nat) + " | "@ + cell_text(
        summary.total_p50_us,
    ) + " | "@ + cell_text(summary.total_p95_us) + " | "@ + cell_text(summary.total_p99_us)
        + " | "@ + cell_text(summary.total_max_us) + " | "@ + cell_text(summary.queue_p95_us)
        + " | "@ + cell_text(summary.build_p95_us) + " | "@ + cell_text(summary.lock_p95_us)
        + " | "@ + cell_text(summary.execution_p95_us) + " | "@ + cell_text(summary.record_p95_us)
        + " |\n"@
}

/// The title of the summary document.
pub open spec fn title_text() -> Seq<char> {
    "# Banking Jitter Summary\n\n"@
}

/// A column of the summary table.
pub enum TableColumn {
    Profile,
    Count,
    TotalP50,
    TotalP95,
    TotalP99,
    TotalMax,
    QueueP95,
    BuildP95,
    LockP95,
    ExecutionP95,
    RecordP95,
}

/// The columns of the summary table, from left to right.
pub open spec fn table_columns() -> Seq<TableColumn> {
    seq![
        TableColumn::Profile,
        TableColumn::Count,
        TableColumn::TotalP50,
        TableColumn::TotalP95,
        TableColumn::TotalP99,
        TableColumn::TotalMax,
        TableColumn::QueueP95,
        TableColumn::BuildP95,
        TableColumn::LockP95,
        TableColumn::ExecutionP95,
        TableColumn::RecordP95,
    ]
}

/// The header label of a column.
pub open spec fn column_label(column: TableColumn) -> Seq<char> {
    match column {
        TableColumn::Profile => "Profile"@,
        TableColumn::Count => "Count"@,
        TableColumn::TotalP50 => "Total p50 ms"@,
        TableColumn::TotalP95 => "Total p95 ms"@,
        TableColumn::TotalP99 => "Total p99 ms"@,
        TableColumn::TotalMax => "Total max ms"@,
        TableColumn::QueueP95 => "Queue p95 ms"@,
        TableColumn::BuildP95 => "Build p95 ms"@,
        TableColumn::LockP95 => "Lock p95 ms"@,
        TableColumn::ExecutionP95 => "Execution p95 ms"@,
        TableColumn::RecordP95 => "Record p95 ms"@,
    }
}

/// What a summary shows in a column.
pub open spec fn column_cell(column: TableColumn, summary: Summary) -> Seq<char> {
    match column {
        TableColumn::Profile => summary.profile@,
        TableColumn::Count => decimal_text(summary.count as nat),
        TableColumn::TotalP50 => cell_text(summary.total_p50_us),
        TableColumn::TotalP95 => cell_text(summary.total_p95_us),
        TableColumn::TotalP99 => cell_text(summary.total_p99_us),
        TableColumn::TotalMax => cell_text(summary.total_max_us),
        TableColumn::QueueP95 => cell_text(summary.queue_p95_us),
        TableColumn::BuildP95 => cell_text(summary.build_p95_us),
        TableColumn::LockP95 => cell_text(summary.lock_p95_us),
        TableColumn::ExecutionP95 => cell_text(summary.execution_p95_us),
        TableColumn::RecordP95 => cell_text(summary.record_p95_us),
    }
}

/// The labels of the table's columns, from left to right.
pub open spec fn column_labels() -> Seq<Seq<char>> {
    Seq::new(table_columns().len(), |k: int| column_label(table_columns()[k]))
}

/// The cells of a summary's row, from left to right.
pub open spec fn summary_cells(summary: Summary) -> Seq<Seq<char>> {
    Seq::new(table_columns().len(), |k: int| column_cell(table_columns()[k], summary))
}

/// The opening bar and the first `n` cells of a table row, separated by bars.
pub open spec fn row_prefix(cells: Seq<Seq<char>>, n: nat) -> Seq<char>
    decreases n,
{
    if n == 0 {
        "| "@
    } else if n == 1 {
        "| "@ + cells[0]
    } else {
        row_prefix(cells, (n - 1) as nat) + " | "@ + cells[n - 1]
    }
}

/// A markdown table row holding `cells`.
pub open spec fn table_row(cells: Seq<Seq<char>>) -> Seq<char> {
    row_prefix(cells, cells.len()) + " |\n"@
}

/// The header row of the summary table: the column labels.
pub open spec fn header_text() -> Seq<char> {
    table_row(column_labels())
}

/// How a column is aligned: the profile to the left, numbers to the right.
pub open spec fn column_alignment(column: TableColumn) -> Seq<char> {
    match column {
        TableColumn::Profile => "---"@,
        _ => "---:"@,
    }
}

/// The row under the header, which right-aligns every numeric column.
pub open spec fn alignment_text() -> Seq<char> {
    table_row(Seq::new(table_columns().len(), |k: int| column_alignment(table_columns()[k])))
}

/// The rows of `summaries`, one per summary, in order.
pub open spec fn rows_text(summaries: Seq<Summary>) -> Seq<char>
    decreases summaries.len(),
{
    if summaries.len() == 0 {
        Seq::empty()
    } else {
        rows_text(summaries.drop_last()) + row_text(summaries.last())
    }
}

/// The markdown document of `summaries`: title, table header, and a row per summary.
pub open spec fn markdown_text(summaries: Seq<Summary>) -> Seq<char> {
    title_text() + header_text() + alignment_text() + rows_text(summaries)
}

/// Appends a duration of `us` microseconds in milliseconds with three decimals.
fn push_millis(text: &mut String, us: u64)
    ensures
        final(text)@ == old(text)@ + millis_text(us),
{
    push_decimal(text, us / 1000);
    push_char(text, '.');
    let rest = us % 1000;
    push_char(text, digit(rest / 100));
    push_char(text, digit((rest / 10) % 10));
    push_char(text, digit(rest % 10));
    proof {
        assert(text@ =~= old(text)@ + millis_text(us));
    }
}

/// Appends the table cell of an optional duration.
fn push_cell(text: &mut String, value: Option<u64>)
    ensures
        final(text)@ == old(text)@ + cell_text(value),
{
    match value {
        Some(us) => push_millis(text, us),
        None => text.append("n/a"),
    }
}

/// The table row of one summary.
pub fn summary_row(summary: &Summary) -> (row: String)
    ensures
        row@ == row_text(*summary),
{
    let mut row = "| ".to_owned();
    row.append(summary.profile.as_str());
    row.append(" | ");
    push_decimal(&mut row, summary.count as u64);
    row.append(" | ");
    push_cell(&mut row, summary.total_p50_us);
    row.append(" | ");
    push_cell(&mut row, summary.total_p95_us);
    row.append(" | ");
    push_cell(&mut row, summary.total_p99_us);
    row.append(" | ");
    push_cell(&mut row, summary.total_max_us);
    row.append(" | ");
    push_cell(&mut row, summary.queue_p95_us);
    row.append(" | ");
    push_cell(&mut row, summary.build_p95_us);
    row.append(" | ");
    push_cell(&mut row, summary.lock_p95_us);
    row.append(" | ");
    push_cell(&mut row, summary.execution_p95_us);
    row.append(" | ");
    push_cell(&mut row, summary.record_p95_us);
    row.append(" |\n");
    proof {
        reveal(row_text);
    }
    row
}

/// The header row of the summary table.
pub fn header_row() -> (header: String)
    ensures
        header@ == header_text(),
{
    let mut header = "| ".to_owned();
    header.append("Profile");
    header.append(" | ");
    header.append("Count");
    header.append(" | ");
    header.append("Total p50 ms");
    header.append(" | ");
    header.append("Total p95 ms");
    header.append(" | ");
    header.append("Total p99 ms");
    header.append(" | ");
    header.append("Total max ms");
    header.append(" | ");
    header.append("Queue p95 ms");
    header.append(" | ");
    header.append("Build p95 ms");
    header.append(" | ");
    header.append("Lock p95 ms");
    header.append(" | ");
    header.append("Execution p95 ms");
    header.append(" | ");
    header.append("Record p95 ms");
    header.append(" |\n");
    proof {
        reveal_with_fuel(row_prefix, 12);
    }
    header
}

/// The row under the header of the summary table.
pub fn alignment_row() -> (alignment: String)
    ensures
        alignment@ == alignment_text(),
{
    let mut alignment = "| ".to_owned();
    alignment.append("---");
    let mut k: usize = 1;
    while k < 11
        invariant
            1 <= k <= 11,
            alignment@ == row_prefix(
                Seq::new(table_columns().len(), |i: int| column_alignment(table_columns()[i])),
                k as nat,
            ),
        decreases 11 - k,
    {
        alignment.append(" | ");
        alignment.append("---:");
        k = k + 1;
    }
    alignment.append(" |\n");
    alignment
}

/// A summary's row and the table header are built alike from the same
/// columns, in the same order: the cell in each position of the row is what
/// the summary holds for the column whose label heads that position (its
/// 95th percentile under `Total p95 ms`, its 99th under `Total p99 ms`, and
/// so on).
pub proof fn lemma_row_lines_up_with_header(summary: Summary)
    ensures
        header_text() == table_row(column_labels()),
        row_text(summary) == table_row(summary_cells(summary)),
        summary_cells(summary).len() == column_labels().len(),
{
    reveal(row_text);
    reveal_with_fuel(row_prefix, 12);
    assert(row_text(summary) =~= table_row(summary_cells(summary)));
}

/// Renders the summaries as a markdown document with one table row each.
pub fn render_markdown(summaries: &Vec<Summary>) -> (markdown: String)
    ensures
        markdown@ == markdown_text(summaries@),
{
    let mut markdown = "# Banking Jitter Summary\n\n".to_owned();
    let header = header_row();
    markdown.append(header.as_str());
    let alignment = alignment_row();
    markdown.append(alignment.as_str());
    let ghost head = markdown@;
    let mut i: usize = 0;
    proof {
        assert(markdown@ =~= head + rows_text(summaries@.take(0)));
    }
    while i < summaries.len()
        invariant
            i <= summaries.len(),
            head == title_text() + header_text() + alignment_text(),
            markdown@ == head + rows_text(summaries@.take(i as int)),
        decreases summaries.len() - i,
    {
        let row = summary_row(&summaries[i]);
        let ghost before = markdown@;
        markdown.append(row.as_str());
        proof {
            assert(summaries@.take(i + 1).drop_last() =~= summaries@.take(i as int));
            assert(summaries@.take(i + 1).last() == summaries@[i as int]);
            assert(markdown@ =~= head + rows_text(summaries@.take(i + 1)));
        }
        i = i + 1;
    }
    proof {
        assert(summaries@.take(i as int) =~= summaries@);
    }
    markdown
}

/// The number of line breaks in `text`; a text that ends with a line break
/// has that many lines.
pub open spec fn newline_count(text: Seq<char>) -> nat
    decreases text.len(),
{
    if text.len() == 0 {
        0
    } else {
        newline_count(text.drop_last()) + if text.last() == '\n' {
            1nat
        } else {
            0nat
        }
    }
}

/// Line breaks add up over concatenation.
pub broadcast proof fn lemma_newline_count_concat(a: Seq<char>, b: Seq<char>)
    ensures
        #[trigger] newline_count(a + b) == newline_count(a) + newline_count(b),
    decreases b.len(),
{
    if b.len() == 0 {
        assert(a + b =~= a);
    } else {
        lemma_newline_count_concat(a, b.drop_last());
        assert((a + b).drop_last() =~= a + b.drop_last());
    }
}

/// A text without a line break counts none.
pub proof fn lemma_no_newline(text: Seq<char>)
    requires
        !text.contains('\n'),
    ensures
        newline_count(text) == 0,
    decreases text.len(),
{
    if text.len() > 0 {
        let prefix = text.drop_last();
        if prefix.contains('\n') {
            let k = choose|k: int| 0 <= k < prefix.len() && prefix[k] == '\n';
            assert(text[k] == '\n');
        }
        lemma_no_newline(prefix);
        assert(text[text.len() - 1] == text.last());
    }
}

/// Decimal numbers hold no line break.
pub proof fn lemma_decimal_no_newline(n: nat)
    ensures
        newline_count(decimal_text(n)) == 0,
    decreases n,
{
    if n >= 10 {
        lemma_decimal_no_newline(n / 10);
        assert(decimal_text(n).drop_last() =~= decimal_text(n / 10));
    } else {
        reveal_with_fuel(newline_count, 2);
    }
}

/// A cell holds no line break.
pub proof fn lemma_cell_no_newline(value: Option<u64>)
    ensures
        newline_count(cell_text(value)) == 0,
{
    broadcast use lemma_newline_count_concat;

    match value {
        Some(us) => {
            lemma_decimal_no_newline((us / 1000) as nat);
            let r = (us % 1000) as nat;
            assert(newline_count(seq!['.']) == 0) by {
                reveal_with_fuel(newline_count, 2);
            }
            assert(newline_count(three_digits(r)) == 0) by {
                reveal_with_fuel(newline_count, 4);
            }
        },
        None => {
            reveal_strlit("n/a");
            assert(newline_count("n/a"@) == 0) by {
                reveal_with_fuel(newline_count, 4);
            }
        },
    }
}

/// A row of a summary whose profile holds no line break is one line.
pub proof fn lemma_row_one_line(summary: Summary)
    requires
        !summary.profile@.contains('\n'),
    ensures
        newline_count(row_text(summary)) == 1,
{
    lemma_row_lines_up_with_header(summary);
    let cells = summary_cells(summary);
    assert forall|k: int| 0 <= k < cells.len() implies newline_count(#[trigger] cells[k]) == 0 by {
        let column = table_columns()[k];
        match column {
            TableColumn::Profile => lemma_no_newline(summary.profile@),
            TableColumn::Count => lemma_decimal_no_newline(summary.count as nat),
            TableColumn::TotalP50 => lemma_cell_no_newline(summary.total_p50_us),
            TableColumn::TotalP95 => lemma_cell_no_newline(summary.total_p95_us),
            TableColumn::TotalP99 => lemma_cell_no_newline(summary.total_p99_us),
            TableColumn::TotalMax => lemma_cell_no_newline(summary.total_max_us),
            TableColumn::QueueP95 => lemma_cell_no_newline(summary.queue_p95_us),
            TableColumn::BuildP95 => lemma_cell_no_newline(summary.build_p95_us),
            TableColumn::LockP95 => lemma_cell_no_newline(summary.lock_p95_us),
            TableColumn::ExecutionP95 => lemma_cell_no_newline(summary.execution_p95_us),
            TableColumn::RecordP95 => lemma_cell_no_newline(summary.record_p95_us),
        }
    }
    lemma_table_row_one_line(cells);
}

/// The title of the document is two lines: the title and an empty line.
proof fn lemma_title_lines()
    ensures
        newline_count(title_text()) == 2,
{
    reveal_strlit("# Banking Jitter Summary\n\n");
    reveal_with_fuel(newline_count, 30);
}

/// No column label holds a line break.
proof fn lemma_label_no_newline(column: TableColumn)
    ensures
        newline_count(column_label(column)) == 0,
{
    reveal_strlit("Profile");
    reveal_strlit("Count");
    reveal_strlit("Total p50 ms");
    reveal_strlit("Total p95 ms");
    reveal_strlit("Total p99 ms");
    reveal_strlit("Total max ms");
    reveal_strlit("Queue p95 ms");
    reveal_strlit("Build p95 ms");
    reveal_strlit("Lock p95 ms");
    reveal_strlit("Execution p95 ms");
    reveal_strlit("Record p95 ms");
    reveal_with_fuel(newline_count, 20);
}

/// The opening of a row whose cells hold no line break holds none.
proof fn lemma_row_prefix_no_newline(cells: Seq<Seq<char>>, n: nat)
    requires
        n <= cells.len(),
        forall|k: int| 0 <= k < n ==> newline_count(#[trigger] cells[k]) == 0,
    ensures
        newline_count(row_prefix(cells, n)) == 0,
    decreases n,
{
    reveal_strlit("| ");
    reveal_strlit(" | ");
    assert(newline_count("| "@) == 0) by {
        reveal_with_fuel(newline_count, 3);
    }
    assert(newline_count(" | "@) == 0) by {
        reveal_with_fuel(newline_count, 4);
    }
    if n == 1 {
        lemma_newline_count_concat("| "@, cells[0]);
    } else if n > 1 {
        lemma_row_prefix_no_newline(cells, (n - 1) as nat);
        lemma_newline_count_concat(row_prefix(cells, (n - 1) as nat), " | "@);
        lemma_newline_count_concat(row_prefix(cells, (n - 1) as nat) + " | "@, cells[n - 1]);
    }
}

/// A table row whose cells hold no line break is one line.
proof fn lemma_table_row_one_line(cells: Seq<Seq<char>>)
    requires
        forall|k: int| 0 <= k < cells.len() ==> newline_count(#[trigger] cells[k]) == 0,
    ensures
        newline_count(table_row(cells)) == 1,
{
    lemma_row_prefix_no_newline(cells, cells.len());
    reveal_strlit(" |\n");
    assert(newline_count(" |\n"@) == 1) by {
        reveal_with_fuel(newline_count, 4);
    }
    lemma_newline_count_concat(row_prefix(cells, cells.len()), " |\n"@);
}

/// The header row is one line.
proof fn lemma_header_lines()
    ensures
        newline_count(header_text()) == 1,
{
    let labels = column_labels();
    assert forall|k: int| 0 <= k < labels.len() implies newline_count(#[trigger] labels[k]) == 0 by {
        lemma_label_no_newline(table_columns()[k]);
    }
    lemma_table_row_one_line(labels);
}

/// The alignment row is one line.
proof fn lemma_alignment_lines()
    ensures
        newline_count(alignment_text()) == 1,
{
    reveal_strlit("---");
    reveal_strlit("---:");
    let cells = Seq::new(table_columns().len(), |k: int| column_alignment(table_columns()[k]));
    assert forall|k: int| 0 <= k < cells.len() implies newline_count(#[trigger] cells[k]) == 0 by {
        reveal_with_fuel(newline_count, 5);
    }
    lemma_table_row_one_line(cells);
}

/// The title and the two header rows of the document are four lines.
pub proof fn lemma_head_four_lines()
    ensures
        newline_count(title_text() + header_text() + alignment_text()) == 4,
{
    lemma_title_lines();
    lemma_header_lines();
    lemma_alignment_lines();
    lemma_newline_count_concat(title_text(), header_text());
    lemma_newline_count_concat(title_text() + header_text(), alignment_text());
}

/// The rows of two lists of summaries, one after the other, are the rows of
/// the joined list.
#[verifier::rlimit(40)]
pub proof fn lemma_rows_concat(first: Seq<Summary>, second: Seq<Summary>)
    ensures
        rows_text(first + second) == rows_text(first) + rows_text(second),
    decreases second.len(),
{
    if second.len() == 0 {
        assert(first + second =~= first);
        assert(rows_text(first) + rows_text(second) =~= rows_text(first));
    } else {
        let shorter = second.drop_last();
        lemma_rows_concat(first, shorter);
        assert((first + second).drop_last() =~= first + shorter);
        assert((first + second).last() == second.last());
        let a = rows_text(first);
        let b = rows_text(shorter);
        let r = row_text(second.last());
        assert(rows_text(first + second) == (a + b) + r);
        assert((a + b) + r =~= a + (b + r));
    }
}

/// Every document starts with the document of no summaries; the document of
/// two joined lists is the document of the first followed by the rows of the
/// second, that is, the second's document without its leading part; and a
/// document of summaries whose profiles hold no line break has four lines
/// more than it has summaries.
#[verifier::rlimit(40)]
pub proof fn lemma_markdown_structure(first: Seq<Summary>, second: Seq<Summary>)
    ensures
        markdown_text(first).subrange(0, markdown_text(Seq::empty()).len() as int)
            == markdown_text(Seq::empty()),
        markdown_text(first + second) == markdown_text(first) + markdown_text(second).subrange(
            markdown_text(Seq::empty()).len() as int,
            markdown_text(second).len() as int,
        ),
        (forall|i: int| 0 <= i < first.len() ==> !(#[trigger] first[i]).profile@.contains('\n'))
            ==> newline_count(markdown_text(first)) == 4 + first.len(),
{
    let head = title_text() + header_text() + alignment_text();
    assert(rows_text(Seq::<Summary>::empty()) =~= Seq::<char>::empty());
    assert(markdown_text(Seq::empty()) =~= head);
    assert(markdown_text(first).subrange(0, head.len() as int) =~= head);
    assert(markdown_text(second).subrange(head.len() as int, markdown_text(second).len() as int)
        =~= rows_text(second));
    lemma_rows_concat(first, second);
    assert(markdown_text(first + second) =~= markdown_text(first) + rows_text(second));
    if forall|i: int| 0 <= i < first.len() ==> !(#[trigger] first[i]).profile@.contains('\n') {
        lemma_rows_lines(first);
        lemma_head_four_lines();
        lemma_newline_count_concat(head, rows_text(first));
    }
}

/// The rows of summaries whose profiles hold no line break are one line each.
pub proof fn lemma_rows_lines(summaries: Seq<Summary>)
    requires
        forall|i: int|
            0 <= i < summaries.len() ==> !(#[trigger] summaries[i]).profile@.contains('\n'),
    ensures
        newline_count(rows_text(summaries)) == summaries.len(),
    decreases summaries.len(),
{
    if summaries.len() > 0 {
        let prefix = summaries.drop_last();
        assert forall|i: int| 0 <= i < prefix.len() implies !(#[trigger] prefix[i]).profile@.contains(
            '\n',
        ) by {
            assert(prefix[i] == summaries[i]);
        }
        lemma_rows_lines(prefix);
        assert(summaries[summaries.len() - 1] == summaries.last());
        lemma_row_one_line(summaries.last());
        lemma_newline_count_concat(rows_text(prefix), row_text(summaries.last()));
    } else {
        reveal_with_fuel(newline_count, 1);
    }
}

} // verus!
