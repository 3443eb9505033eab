use vstd::prelude::*;

verus! {

/// Successes in one window that trigger a report and a batch commitment.
pub const COMMIT_THRESHOLD: u64 = 50;

/// One throughput report: the successes counted since the start, the time
/// elapsed since the start, and their ratio per second, rounded down (none
/// while no time has elapsed).
#[derive(Clone, Copy, Debug, PartialEq, Eq, Structural)]
pub struct ThroughputReport {
    pub total: u64,
    pub elapsed_ms: u64,
    pub per_second: Option<u128>,
}

/// What the monitor does after one sample.
#[derive(Clone, Copy, Debug, PartialEq, Eq, Structural)]
pub struct MonitorStep {
    /// The report to log, if the window reached the threshold.
    pub report: Option<ThroughputReport>,
    /// Whether to ask the settlement service to commit a batch, addressed to
    /// the designated account.
    pub commit_batch: bool,
    /// The value the success counter holds from now on.
    pub window_after: u64,
    /// Whether every worker has finished, so that the monitor stops.
    pub stop: bool,
}

/// Long-run throughput: `total` successes over `elapsed_ms` milliseconds,
/// per second.
pub open spec fn rate_per_second(total: u64, elapsed_ms: u64) -> Option<u128> {
    if elapsed_ms == 0 {
        None
    } else {
        Some((total as int * 1000 / elapsed_ms as int) as u128)
    }
}

pub fn throughput_per_second(total: u64, elapsed_ms: u64) -> (r: Option<u128>)
    ensures
        r == rate_per_second(total, elapsed_ms),
{
    if elapsed_ms == 0 {
        None
    } else {
        let t = total as u128;
        assert(t * 1000 <= 0xffff_ffff_ffff_ffffu128 * 1000) by (nonlinear_arith)
            requires
                t <= 0xffff_ffff_ffff_ffffu128,
        ;
        Some(t * 1000 / (elapsed_ms as u128))
    }
}

/// Turns the success counter into periodic throughput reports and batch
/// commitments, and notices when the pipeline has shut down.
pub struct Monitor {
    pub threshold: u64,
    /// Successes reported since the start.
    pub total: u64,
}

impl Monitor {
    pub fn new(threshold: u64) -> (r: Monitor)
        ensures
            r.threshold == threshold,
            r.total == 0,
    {
        Monitor { threshold, total: 0 }
    }

    /// One sample: `window` successes counted since the last report,
    /// `finished` of `workers` workers done, `elapsed_ms` since the start.
    /// Reaching the threshold adds the window to the total, reports, resets
    /// the counter to zero and commits a batch; the monitor stops once every
    /// worker has finished.
    pub fn observe(&mut self, window: u64, finished: u64, workers: u64, elapsed_ms: u64) -> (r:
        MonitorStep)
        requires
            window < old(self).threshold || old(self).total + window <= u64::MAX,
        ensures
            final(self).threshold == old(self).threshold,
            r.report is Some <==> window >= old(self).threshold,
            r.commit_batch == r.report is Some,
            r.window_after == (if r.report is Some {
                0
            } else {
                window
            }),
            final(self).total == (if r.report is Some {
                old(self).total + window
            } else {
                old(self).total as int
            }),
            r.report matches Some(rep) ==> rep == (ThroughputReport {
                total: final(self).total,
                elapsed_ms,
                per_second: rate_per_second(final(self).total, elapsed_ms),
            }),
            r.stop == (finished == workers),
    {
        let report = if window >= self.threshold {
            self.total = self.total + window;
            Some(
                ThroughputReport {
                    total: self.total,
                    elapsed_ms,
                    per_second: throughput_per_second(self.total, elapsed_ms),
                },
            )
        } else {
            None
        };
        let reported = report.is_some();
        MonitorStep {
            report,
            commit_batch: reported,
            window_after: if reported {
                0
            } else {
                window
            },
            stop: finished == workers,
        }
    }
}

} // verus!
