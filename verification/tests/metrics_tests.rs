use scylla::transport::metrics::{Metrics, MetricsView};

#[test]
fn counters_count() {
    let mut metrics = Metrics::new();
    assert_eq!(MetricsView::new(metrics).get_latency_avg_ms(), None);
    metrics.inc_total_nonpaged_queries();
    metrics.inc_total_nonpaged_queries();
    metrics.inc_failed_nonpaged_queries();
    metrics.inc_total_paged_queries();
    metrics.inc_total_paged_queries();
    metrics.inc_total_paged_queries();
    metrics.inc_failed_paged_queries();
    metrics.log_query_latency(7);
    metrics.log_query_latency(10);
    let view = MetricsView::new(metrics);
    assert_eq!(view.get_queries_num(), 2);
    assert_eq!(view.get_errors_num(), 1);
    assert_eq!(view.get_queries_iter_num(), 3);
    assert_eq!(view.get_errors_iter_num(), 1);
    assert_eq!(view.get_latency_avg_ms(), Some(8));
}

#[test]
fn full_counters_start_again() {
    let mut metrics = Metrics::new();
    metrics.total_nonpaged_queries = u64::MAX;
    metrics.latency_sum_ms = u64::MAX - 1;
    metrics.inc_total_nonpaged_queries();
    metrics.log_query_latency(5);
    assert_eq!(metrics.total_nonpaged_queries, 0);
    assert_eq!(metrics.latency_sum_ms, 3);
    assert_eq!(metrics.latency_count, 1);
}
