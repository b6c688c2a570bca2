//! Counters of what a session did.

use vstd::prelude::*;

verus! {

/// What a session counts: the requests it sent and those that failed, for
/// single requests and for pages, and the time that the successful ones
/// took. A counter that is full starts again at zero.
#[derive(Debug, Clone, Copy, PartialEq, Eq, Structural)]
pub struct Metrics {
    pub total_nonpaged_queries: u64,
    pub failed_nonpaged_queries: u64,
    pub total_paged_queries: u64,
    pub failed_paged_queries: u64,
    pub latency_count: u64,
    pub latency_sum_ms: u64,
}

/// The number that follows `n` in a counter.
pub open spec fn counted(n: u64) -> u64 {
    if n == u64::MAX {
        0
    } else {
        (n + 1) as u64
    }
}

/// The sum of `n` and `by`, as a counter holds it.
pub open spec fn counted_by(n: u64, by: u64) -> u64 {
    if n + by > u64::MAX {
        (n + by - u64::MAX - 1) as u64
    } else {
        (n + by) as u64
    }
}

fn count(n: u64) -> (r: u64)
    ensures
        r == counted(n),
{
    if n == u64::MAX {
        0
    } else {
        n + 1
    }
}

impl Metrics {
    /// Counters that have counted nothing.
    pub open spec fn new_spec() -> Metrics {
        Metrics {
            total_nonpaged_queries: 0,
            failed_nonpaged_queries: 0,
            total_paged_queries: 0,
            failed_paged_queries: 0,
            latency_count: 0,
            latency_sum_ms: 0,
        }
    }

    /// Counters that have counted nothing.
    pub fn new() -> (r: Self)
        ensures
            r == Metrics::new_spec(),
    {
        Metrics {
            total_nonpaged_queries: 0,
            failed_nonpaged_queries: 0,
            total_paged_queries: 0,
            failed_paged_queries: 0,
            latency_count: 0,
            latency_sum_ms: 0,
        }
    }

    /// Counts a single request that was sent.
    pub fn inc_total_nonpaged_queries(&mut self)
        ensures
            *final(self) == (Metrics {
                total_nonpaged_queries: counted(old(self).total_nonpaged_queries),
                ..*old(self)
            }),
    {
        self.total_nonpaged_queries = count(self.total_nonpaged_queries);
    }

    /// Counts a single request that failed.
    pub fn inc_failed_nonpaged_queries(&mut self)
        ensures
            *final(self) == (Metrics {
                failed_nonpaged_queries: counted(old(self).failed_nonpaged_queries),
                ..*old(self)
            }),
    {
        self.failed_nonpaged_queries = count(self.failed_nonpaged_queries);
    }

    /// Counts a request for a page that was sent.
    pub fn inc_total_paged_queries(&mut self)
        ensures
            *final(self) == (Metrics {
                total_paged_queries: counted(old(self).total_paged_queries),
                ..*old(self)
            }),
    {
        self.total_paged_queries = count(self.total_paged_queries);
    }

    /// Counts a request for a page that failed.
    pub fn inc_failed_paged_queries(&mut self)
        ensures
            *final(self) == (Metrics {
                failed_paged_queries: counted(old(self).failed_paged_queries),
                ..*old(self)
            }),
    {
        self.failed_paged_queries = count(self.failed_paged_queries);
    }

    /// Records how long a successful request took, in milliseconds.
    pub fn log_query_latency(&mut self, latency_ms: u64)
        ensures
            *final(self) == (Metrics {
                latency_count: counted(old(self).latency_count),
                latency_sum_ms: counted_by(old(self).latency_sum_ms, latency_ms),
                ..*old(self)
            }),
    {
        self.latency_count = count(self.latency_count);
        self.latency_sum_ms = self.latency_sum_ms.wrapping_add(latency_ms);
    }
}

/// The counters of a session as they stood at one moment.
#[derive(Debug, Clone, Copy, PartialEq, Eq, Structural)]
pub struct MetricsView {
    metrics: Metrics,
}

impl MetricsView {
    /// A copy of the counters as they stand.
    pub fn new(metrics: Metrics) -> (r: Self)
        ensures
            r.counters() == metrics,
    {
        MetricsView { metrics }
    }

    /// The counters.
    pub closed spec fn counters(&self) -> Metrics {
        self.metrics
    }

    /// The number of single requests that were sent.
    pub fn get_queries_num(&self) -> (r: u64)
        ensures
            r == self.counters().total_nonpaged_queries,
    {
        self.metrics.total_nonpaged_queries
    }

    /// The number of single requests that failed.
    pub fn get_errors_num(&self) -> (r: u64)
        ensures
            r == self.counters().failed_nonpaged_queries,
    {
        self.metrics.failed_nonpaged_queries
    }

    /// The number of requests for a page that were sent.
    pub fn get_queries_iter_num(&self) -> (r: u64)
        ensures
            r == self.counters().total_paged_queries,
    {
        self.metrics.total_paged_queries
    }

    /// The number of requests for a page that failed.
    pub fn get_errors_iter_num(&self) -> (r: u64)
        ensures
            r == self.counters().failed_paged_queries,
    {
        self.metrics.failed_paged_queries
    }

    /// The mean time that a successful request took, in milliseconds, if
    /// any succeeded.
    pub fn get_latency_avg_ms(&self) -> (r: Option<u64>)
        ensures
            r == (if self.counters().latency_count == 0 {
                None
            } else {
                Some(self.counters().latency_sum_ms / self.counters().latency_count)
            }),
    {
        if self.metrics.latency_count == 0 {
            None
        } else {
            Some(self.metrics.latency_sum_ms / self.metrics.latency_count)
        }
    }
}

} // verus!
