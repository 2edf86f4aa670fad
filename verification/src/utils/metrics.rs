//! Performance monitoring

use crate::utils::time::{instant_elapsed_ms_u64, instant_now};
use vstd::prelude::*;

verus! {

/// Performance counter: request totals and accumulated response time.
/// Counters saturate rather than wrap at the top of their range.
pub struct PerformanceCounter {
    /// Requests started
    pub total_requests: u64,
    /// Requests completed successfully
    pub successful_requests: u64,
    /// Requests completed with a failure
    pub failed_requests: u64,
    /// Accumulated response time in milliseconds
    pub total_response_time_ms: u64,
}

/// Performance statistics: a copy of the counters at one moment.
pub struct PerformanceStats {
    /// Requests started
    pub total_requests: u64,
    /// Requests completed successfully
    pub successful_requests: u64,
    /// Requests completed with a failure
    pub failed_requests: u64,
    /// Accumulated response time in milliseconds
    pub total_response_time_ms: u64,
}

/// Add saturating at the top of the range.
pub open spec fn sat_add(a: u64, b: u64) -> u64 {
    if a + b > u64::MAX {
        u64::MAX
    } else {
        (a + b) as u64
    }
}

impl PerformanceCounter {
    /// Create a new performance counter with everything at zero.
    pub fn new() -> (r: Self)
        ensures
            r.total_requests == 0,
            r.successful_requests == 0,
            r.failed_requests == 0,
            r.total_response_time_ms == 0,
    {
        PerformanceCounter {
            total_requests: 0,
            successful_requests: 0,
            failed_requests: 0,
            total_response_time_ms: 0,
        }
    }

    /// Record that a request started; the returned instant is handed back
    /// when the request completes.
    pub fn record_request_start(&mut self) -> (r: std::time::Instant)
        ensures
            final(self).total_requests == sat_add(old(self).total_requests, 1),
            final(self).successful_requests == old(self).successful_requests,
            final(self).failed_requests == old(self).failed_requests,
            final(self).total_response_time_ms == old(self).total_response_time_ms,
    {
        self.total_requests = self.total_requests.saturating_add(1);
        instant_now()
    }

    /// Record that a request completed; its duration joins the accumulated
    /// response time, which never shrinks.
    pub fn record_request_complete(&mut self, start: std::time::Instant, success: bool)
        ensures
            final(self).total_requests == old(self).total_requests,
            final(self).successful_requests == if success {
                sat_add(old(self).successful_requests, 1)
            } else {
                old(self).successful_requests
            },
            final(self).failed_requests == if success {
                old(self).failed_requests
            } else {
                sat_add(old(self).failed_requests, 1)
            },
            final(self).total_response_time_ms >= old(self).total_response_time_ms,
    {
        let duration_ms = instant_elapsed_ms_u64(&start);
        self.total_response_time_ms = self.total_response_time_ms.saturating_add(duration_ms);
        if success {
            self.successful_requests = self.successful_requests.saturating_add(1);
        } else {
            self.failed_requests = self.failed_requests.saturating_add(1);
        }
    }

    /// Get the statistics as they stand.
    pub fn get_stats(&self) -> (r: PerformanceStats)
        ensures
            r.total_requests == self.total_requests,
            r.successful_requests == self.successful_requests,
            r.failed_requests == self.failed_requests,
            r.total_response_time_ms == self.total_response_time_ms,
    {
        PerformanceStats {
            total_requests: self.total_requests,
            successful_requests: self.successful_requests,
            failed_requests: self.failed_requests,
            total_response_time_ms: self.total_response_time_ms,
        }
    }

    /// Reset every counter to zero.
    pub fn reset(&mut self)
        ensures
            final(self).total_requests == 0,
            final(self).successful_requests == 0,
            final(self).failed_requests == 0,
            final(self).total_response_time_ms == 0,
    {
        self.total_requests = 0;
        self.successful_requests = 0;
        self.failed_requests = 0;
        self.total_response_time_ms = 0;
    }
}

impl Default for PerformanceCounter {
    fn default() -> (r: Self)
        ensures
            r.total_requests == 0,
            r.successful_requests == 0,
            r.failed_requests == 0,
            r.total_response_time_ms == 0,
    {
        Self::new()
    }
}

} // verus!
