use tantivy_ingest::config::{IndexingConfig, DOC_QUEUE_CAPACITY, LINE_QUEUE_CAPACITY};
use tantivy_ingest::counters::{bytes_per_second, docs_per_hour, report_due, IngestionCounters};

#[test]
fn zero_thread_budget_is_clamped_to_one() {
    let cfg = IndexingConfig::new(0, 1_000_000_000, false, false);
    assert_eq!(cfg.num_threads, 1);
    assert_eq!(cfg.parser_threads, 1);
    assert_eq!(cfg.buffer_size_per_thread, 1_000_000_000);
}

#[test]
fn parser_pool_is_a_quarter_of_the_budget() {
    let cfg = IndexingConfig::new(8, 800, false, false);
    assert_eq!(cfg.num_threads, 8);
    assert_eq!(cfg.parser_threads, 2);
    assert_eq!(cfg.buffer_size_per_thread, 100);
}

#[test]
fn small_thread_budget_still_gets_one_parser() {
    let cfg = IndexingConfig::new(3, 1_000_000_000, true, true);
    assert_eq!(cfg.num_threads, 3);
    assert_eq!(cfg.parser_threads, 1);
    assert_eq!(cfg.buffer_size_per_thread, 333_333_333);
    assert!(cfg.no_merge);
    assert!(cfg.force_merge);
}

#[test]
fn queue_capacities_are_bounded_constants() {
    assert_eq!(LINE_QUEUE_CAPACITY, 100);
    assert_eq!(DOC_QUEUE_CAPACITY, 100);
}

#[test]
fn counters_account_documents_and_bytes() {
    let mut c = IngestionCounters::new();
    c.record(10);
    c.record(30);
    assert_eq!(c.docs_total, 2);
    assert_eq!(c.bytes_total, 40);
    assert_eq!(c.docs_interval, 2);
    assert_eq!(c.bytes_interval, 40);
}

#[test]
fn interval_reset_keeps_run_totals() {
    let mut c = IngestionCounters::new();
    c.record(100);
    c.record(200);
    c.reset_interval();
    assert_eq!(c.docs_total, 2);
    assert_eq!(c.bytes_total, 300);
    assert_eq!(c.docs_interval, 0);
    assert_eq!(c.bytes_interval, 0);
}

#[test]
fn counters_saturate_instead_of_wrapping() {
    let mut c = IngestionCounters::new();
    c.record(u64::MAX);
    c.record(u64::MAX);
    assert_eq!(c.docs_total, 2);
    assert_eq!(c.bytes_total, u64::MAX);
}

#[test]
fn report_due_needs_a_full_second() {
    assert!(!report_due(1_000_000));
    assert!(report_due(1_000_001));
}

#[test]
fn docs_per_hour_is_exact() {
    // 3600 documents in one second is 3600 * 3600 documents per hour.
    assert_eq!(docs_per_hour(3600, 1_000_000), 12_960_000);
    // One document in one hour.
    assert_eq!(docs_per_hour(1, 3_600_000_000), 1);
    assert_eq!(docs_per_hour(100, 0), 0);
}

#[test]
fn bytes_per_second_is_exact() {
    assert_eq!(bytes_per_second(1_000_000, 1_000_000), 1_000_000);
    assert_eq!(bytes_per_second(500, 2_000_000), 250);
    assert_eq!(bytes_per_second(123, 0), 0);
}

#[test]
fn rates_pin_at_the_maximum() {
    assert_eq!(docs_per_hour(u64::MAX, 1), u64::MAX);
    assert_eq!(bytes_per_second(u64::MAX, 1), u64::MAX);
}
