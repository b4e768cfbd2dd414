//! Collecting latencies and outcomes during a run, and deriving the
//! reported statistics from them.

use vstd::prelude::*;
use vstd::multiset::Multiset;
use vstd::pervasive::unreached;
use std::time::Duration;
use std::time::Instant;
use crate::perf::histogram::{
    highest_trackable, level_at_percentile, lowest_discernible, max_level, mean_level, min_level,
    recorded, significant_digits, LatencyHistogram,
};
use crate::time::{duration_nanos, nanos_between};

verus! {

/// The longest latency that is told apart, in microseconds: one minute.
/// Longer ones are recorded as this.
pub const MAX_LATENCY_MICROS: u64 = 60_000_000;

/// The significant decimal digits kept of each latency.
pub const LATENCY_DIGITS: u8 = 3;

/// A non-negative quantity held in thousandths: 1500 thousandths stand for
/// one and a half.
#[derive(Debug, Clone, Copy, PartialEq, Eq, Structural)]
pub struct Milli {
    pub thousandths: u128,
}

/// The latency statistics read from the histogram, in microseconds.
#[derive(Debug, Clone, Copy)]
pub struct LatencyLevels {
    pub min: u64,
    pub max: u64,
    pub mean: u64,
    pub p50: u64,
    pub p95: u64,
    pub p99: u64,
}

/// The statistics of a run. Quantities with a fractional part are held in
/// thousandths: latencies and the duration in thousandths of a millisecond
/// (that is, in microseconds), the two rates rounded down to a thousandth.
#[derive(Debug, Clone, Copy)]
pub struct PerfMetrics {
    /// The number of requests made.
    pub total_requests: usize,
    /// The number of successful requests (2xx status).
    pub successful_requests: usize,
    /// The number of failed requests.
    pub failed_requests: usize,
    /// The duration of the run in milliseconds.
    pub total_duration_ms: Milli,
    /// The lowest latency in milliseconds.
    pub latency_min_ms: Milli,
    /// The highest latency in milliseconds.
    pub latency_max_ms: Milli,
    /// The mean latency in milliseconds.
    pub latency_avg_ms: Milli,
    /// The median latency in milliseconds.
    pub latency_p50_ms: Milli,
    /// The latency at the 95th percentile in milliseconds.
    pub latency_p95_ms: Milli,
    /// The latency at the 99th percentile in milliseconds.
    pub latency_p99_ms: Milli,
    /// Requests per second.
    pub requests_per_second: Milli,
    /// The percentage of requests that failed.
    pub error_rate_percent: Milli,
}

/// The error rate in thousandths of a percent: a hundred times the share of
/// failures among all requests, zero where there was no request.
pub open spec fn error_rate_thousandths(failed: nat, total: nat) -> nat {
    if total > 0 {
        (100_000 * failed) / total
    } else {
        0
    }
}

/// The throughput in thousandths of a request per second: the requests
/// divided by the seconds the run took, zero where it took no time.
pub open spec fn throughput_thousandths(total: nat, elapsed_nanos: nat) -> nat {
    if elapsed_nanos > 0 {
        (total * 1_000_000_000_000) / elapsed_nanos
    } else {
        0
    }
}

/// The statistics that follow from the counts of a run, the nanoseconds it
/// took and the latency levels of its histogram.
pub open spec fn snapshot_of(
    successful: nat,
    failed: nat,
    elapsed_nanos: nat,
    levels: LatencyLevels,
) -> PerfMetrics {
    PerfMetrics {
        total_requests: (successful + failed) as usize,
        successful_requests: successful as usize,
        failed_requests: failed as usize,
        total_duration_ms: Milli { thousandths: (elapsed_nanos / 1000) as u128 },
        latency_min_ms: Milli { thousandths: levels.min as u128 },
        latency_max_ms: Milli { thousandths: levels.max as u128 },
        latency_avg_ms: Milli { thousandths: levels.mean as u128 },
        latency_p50_ms: Milli { thousandths: levels.p50 as u128 },
        latency_p95_ms: Milli { thousandths: levels.p95 as u128 },
        latency_p99_ms: Milli { thousandths: levels.p99 as u128 },
        requests_per_second: Milli {
            thousandths: throughput_thousandths(successful + failed, elapsed_nanos) as u128,
        },
        error_rate_percent: Milli {
            thousandths: error_rate_thousandths(failed, successful + failed) as u128,
        },
    }
}

/// The error rate lies between 0 and 100 percent; it is 0 where nothing
/// failed and 100 where requests were made and none succeeded.
pub proof fn lemma_error_rate_bounds(successful: nat, failed: nat)
    ensures
        error_rate_thousandths(failed, successful + failed) <= 100_000,
        failed == 0 ==> error_rate_thousandths(failed, successful + failed) == 0,
        successful == 0 && failed > 0 ==> error_rate_thousandths(failed, successful + failed)
            == 100_000,
{
    let total = successful + failed;
    if total > 0 {
        assert(100_000 * failed <= 100_000 * total);
        assert((100_000 * failed) / total <= 100_000) by (nonlinear_arith)
            requires
                total > 0,
                100_000 * failed <= 100_000 * total,
        ;
        if failed == 0 {
            assert((100_000 * failed) / total == 0) by (nonlinear_arith)
                requires
                    total > 0,
                    failed == 0,
            ;
        }
        if successful == 0 {
            assert((100_000 * failed) / total == 100_000) by (nonlinear_arith)
                requires
                    total > 0,
                    failed == total,
            ;
        }
    }
}

/// The throughput is the requests divided by the seconds of the run where
/// the run took time, and zero where it took none; it is never negative.
pub proof fn lemma_throughput(total: nat, elapsed_nanos: nat)
    ensures
        elapsed_nanos > 0 ==> throughput_thousandths(total, elapsed_nanos) == (total
            * 1_000_000_000_000) / elapsed_nanos,
        elapsed_nanos == 0 ==> throughput_thousandths(total, elapsed_nanos) == 0,
        throughput_thousandths(total, elapsed_nanos) >= 0,
        throughput_thousandths(total, elapsed_nanos) <= total * 1_000_000_000_000,
{
    if elapsed_nanos > 0 {
        let scaled = total * 1_000_000_000_000;
        assert(scaled / elapsed_nanos <= scaled) by (nonlinear_arith)
            requires
                elapsed_nanos > 0,
                scaled >= 0,
        ;
    }
}

impl PerfMetrics {
    /// Derives the statistics from the counts of a run, the nanoseconds it
    /// took and the latency levels of its histogram.
    pub fn compute(successful: usize, failed: usize, elapsed_nanos: u128, levels: LatencyLevels) -> (r:
        PerfMetrics)
        requires
            successful + failed <= usize::MAX,
        ensures
            r == snapshot_of(successful as nat, failed as nat, elapsed_nanos as nat, levels),
            r.total_requests == successful + failed,
            r.error_rate_percent.thousandths <= 100_000,
            failed == 0 ==> r.error_rate_percent.thousandths == 0,
            successful == 0 && failed > 0 ==> r.error_rate_percent.thousandths == 100_000,
            elapsed_nanos == 0 ==> r.requests_per_second.thousandths == 0,
    {
        let total: usize = successful + failed;
        proof {
            lemma_error_rate_bounds(successful as nat, failed as nat);
            lemma_throughput(total as nat, elapsed_nanos as nat);
        }
        let requests_per_second: u128 = if elapsed_nanos > 0 {
            (total as u128 * 1_000_000_000_000) / elapsed_nanos
        } else {
            0
        };
        let error_rate: u128 = if total > 0 {
            (100_000 * (failed as u128)) / (total as u128)
        } else {
            0
        };
        PerfMetrics {
            total_requests: total,
            successful_requests: successful,
            failed_requests: failed,
            total_duration_ms: Milli { thousandths: elapsed_nanos / 1000 },
            latency_min_ms: Milli { thousandths: levels.min as u128 },
            latency_max_ms: Milli { thousandths: levels.max as u128 },
            latency_avg_ms: Milli { thousandths: levels.mean as u128 },
            latency_p50_ms: Milli { thousandths: levels.p50 as u128 },
            latency_p95_ms: Milli { thousandths: levels.p95 as u128 },
            latency_p99_ms: Milli { thousandths: levels.p99 as u128 },
            requests_per_second: Milli { thousandths: requests_per_second },
            error_rate_percent: Milli { thousandths: error_rate },
        }
    }
}

/// The microseconds recorded for a latency: its whole microseconds, or the
/// longest latency told apart where it is longer than that.
pub open spec fn clamped_micros(duration: Duration) -> u64 {
    let micros = duration_nanos(duration) / 1000;
    if micros > MAX_LATENCY_MICROS {
        MAX_LATENCY_MICROS
    } else {
        micros as u64
    }
}

/// Every latency is recorded: as its whole microseconds, or as the longest
/// latency told apart where it is longer. What is recorded is never beyond
/// that longest latency.
pub proof fn lemma_clamped_latency(duration: Duration)
    ensures
        clamped_micros(duration) <= MAX_LATENCY_MICROS,
        duration_nanos(duration) / 1000 <= MAX_LATENCY_MICROS ==> clamped_micros(duration)
            == duration_nanos(duration) / 1000,
        duration_nanos(duration) / 1000 > MAX_LATENCY_MICROS ==> clamped_micros(duration)
            == MAX_LATENCY_MICROS,
{
}

/// The latency levels of a histogram made for latencies that holds the
/// given values.
pub open spec fn levels_of(values: Multiset<u64>) -> LatencyLevels {
    LatencyLevels {
        min: min_level(values, 1, MAX_LATENCY_MICROS, LATENCY_DIGITS),
        max: max_level(values, 1, MAX_LATENCY_MICROS, LATENCY_DIGITS),
        mean: mean_level(values, 1, MAX_LATENCY_MICROS, LATENCY_DIGITS),
        p50: level_at_percentile(values, 1, MAX_LATENCY_MICROS, LATENCY_DIGITS, 50),
        p95: level_at_percentile(values, 1, MAX_LATENCY_MICROS, LATENCY_DIGITS, 95),
        p99: level_at_percentile(values, 1, MAX_LATENCY_MICROS, LATENCY_DIGITS, 99),
    }
}

/// Accumulates the latency of every request of a run, how many succeeded
/// and failed, and when the run started and finished.
pub struct MetricsCollector {
    histogram: LatencyHistogram,
    successful: usize,
    failed: usize,
    start_time: Option<Instant>,
    end_time: Option<Instant>,
}

impl MetricsCollector {
    /// The latencies recorded so far, in microseconds.
    pub closed spec fn samples(&self) -> Multiset<u64> {
        recorded(self.histogram)
    }

    /// The number of successes recorded so far.
    pub closed spec fn successes(&self) -> nat {
        self.successful as nat
    }

    /// The number of failures recorded so far.
    pub closed spec fn failures(&self) -> nat {
        self.failed as nat
    }

    /// When the run started, once it has.
    pub closed spec fn started(&self) -> Option<Instant> {
        self.start_time
    }

    /// When the run finished, once it has.
    pub closed spec fn finished(&self) -> Option<Instant> {
        self.end_time
    }

    /// The histogram is one for latencies of up to a minute, and it holds
    /// one sample for each success and each failure.
    pub closed spec fn wf(&self) -> bool {
        &&& lowest_discernible(self.histogram) == 1
        &&& highest_trackable(self.histogram) == MAX_LATENCY_MICROS
        &&& significant_digits(self.histogram) == LATENCY_DIGITS
        &&& recorded(self.histogram).len() == self.successful + self.failed
        &&& self.successful + self.failed <= usize::MAX
    }

    /// The nanoseconds between start and finish, zero unless both are set.
    pub open spec fn elapsed_nanos(&self) -> nat {
        match (self.started(), self.finished()) {
            (Some(start), Some(end)) => nanos_between(end, start) as nat,
            _ => 0,
        }
    }

    /// The statistics of what has been collected.
    pub open spec fn snapshot(&self) -> PerfMetrics {
        snapshot_of(
            self.successes(),
            self.failures(),
            self.elapsed_nanos(),
            levels_of(self.samples()),
        )
    }

    /// A collector that holds nothing, for latencies of up to one minute
    /// with three significant digits.
    pub fn new() -> (r: Self)
        ensures
            r.wf(),
            r.samples() == Multiset::<u64>::empty(),
            r.successes() == 0,
            r.failures() == 0,
            r.started() is None,
            r.finished() is None,
    {
        let histogram = match LatencyHistogram::new_with_bounds(
            1,
            MAX_LATENCY_MICROS,
            LATENCY_DIGITS,
        ) {
            Ok(h) => h,
            Err(_) => unreached(),
        };
        MetricsCollector { histogram, successful: 0, failed: 0, start_time: None, end_time: None }
    }

    /// Marks `now` as the start of the run.
    pub fn start_at(&mut self, now: Instant)
        requires
            old(self).wf(),
        ensures
            final(self).wf(),
            final(self).started() == Some(now),
            final(self).finished() == old(self).finished(),
            final(self).samples() == old(self).samples(),
            final(self).successes() == old(self).successes(),
            final(self).failures() == old(self).failures(),
    {
        self.start_time = Some(now);
    }

    /// Marks the start of the run at the present moment.
    pub fn start(&mut self)
        requires
            old(self).wf(),
        ensures
            final(self).wf(),
            final(self).started() is Some,
            final(self).finished() == old(self).finished(),
            final(self).samples() == old(self).samples(),
            final(self).successes() == old(self).successes(),
            final(self).failures() == old(self).failures(),
    {
        self.start_at(Instant::now());
    }

    /// Marks `now` as the end of the run.
    pub fn finish_at(&mut self, now: Instant)
        requires
            old(self).wf(),
        ensures
            final(self).wf(),
            final(self).finished() == Some(now),
            final(self).started() == old(self).started(),
            final(self).samples() == old(self).samples(),
            final(self).successes() == old(self).successes(),
            final(self).failures() == old(self).failures(),
    {
        self.end_time = Some(now);
    }

    /// Marks the end of the run at the present moment.
    pub fn finish(&mut self)
        requires
            old(self).wf(),
        ensures
            final(self).wf(),
            final(self).finished() is Some,
            final(self).started() == old(self).started(),
            final(self).samples() == old(self).samples(),
            final(self).successes() == old(self).successes(),
            final(self).failures() == old(self).failures(),
    {
        self.finish_at(Instant::now());
    }

    /// Adds one latency to the histogram, clamped to the longest latency
    /// told apart.
    fn record_latency(&mut self, duration: Duration)
        requires
            old(self).wf(),
        ensures
            recorded(final(self).histogram) == recorded(old(self).histogram).insert(
                clamped_micros(duration),
            ),
            lowest_discernible(final(self).histogram) == 1,
            highest_trackable(final(self).histogram) == MAX_LATENCY_MICROS,
            significant_digits(final(self).histogram) == LATENCY_DIGITS,
            final(self).successful == old(self).successful,
            final(self).failed == old(self).failed,
            final(self).start_time == old(self).start_time,
            final(self).end_time == old(self).end_time,
    {
        let micros: u128 = duration.as_micros();
        let high: u64 = self.histogram.high();
        let clamped: u64 = if micros > high as u128 {
            high
        } else {
            micros as u64
        };
        let _ = self.histogram.record(clamped);
    }

    /// Records a successful request and how long it took. A latency beyond
    /// the longest one told apart is recorded as that one, so every latency
    /// is recorded. The counters must have room for one more request.
    pub fn record_success(&mut self, duration: Duration)
        requires
            old(self).wf(),
            old(self).successes() + old(self).failures() < usize::MAX,
        ensures
            final(self).wf(),
            final(self).samples() == old(self).samples().insert(clamped_micros(duration)),
            final(self).successes() == old(self).successes() + 1,
            final(self).failures() == old(self).failures(),
            final(self).started() == old(self).started(),
            final(self).finished() == old(self).finished(),
    {
        self.record_latency(duration);
        self.successful += 1;
    }

    /// Records a failed request and how long it took. A latency beyond the
    /// longest one told apart is recorded as that one, so every latency is
    /// recorded. The counters must have room for one more request.
    pub fn record_failure(&mut self, duration: Duration)
        requires
            old(self).wf(),
            old(self).successes() + old(self).failures() < usize::MAX,
        ensures
            final(self).wf(),
            final(self).samples() == old(self).samples().insert(clamped_micros(duration)),
            final(self).successes() == old(self).successes(),
            final(self).failures() == old(self).failures() + 1,
            final(self).started() == old(self).started(),
            final(self).finished() == old(self).finished(),
    {
        self.record_latency(duration);
        self.failed += 1;
    }

    /// The nanoseconds between start and finish, zero unless both are set.
    pub fn elapsed(&self) -> (r: u128)
        ensures
            r == self.elapsed_nanos(),
    {
        match (self.start_time, self.end_time) {
            (Some(start), Some(end)) => end.saturating_duration_since(start).as_nanos(),
            _ => 0,
        }
    }

    /// Derives the statistics of what has been collected. The collector is
    /// left as it is, so the same statistics come out each time. The
    /// latency levels are in order: minimum, median, 95th and 99th
    /// percentile, maximum; no recorded latency lies below the minimum or
    /// above the maximum, and all of them are zero while nothing is
    /// recorded.
    pub fn compute_metrics(&self) -> (r: PerfMetrics)
        requires
            self.wf(),
        ensures
            r == self.snapshot(),
            r.total_requests == self.successes() + self.failures(),
            r.successful_requests == self.successes(),
            r.failed_requests == self.failures(),
            r.latency_min_ms.thousandths <= r.latency_p50_ms.thousandths,
            r.latency_p50_ms.thousandths <= r.latency_p95_ms.thousandths,
            r.latency_p95_ms.thousandths <= r.latency_p99_ms.thousandths,
            r.latency_p99_ms.thousandths <= r.latency_max_ms.thousandths,
            forall|latency: u64| #[trigger]
                self.samples().contains(latency) ==> r.latency_min_ms.thousandths <= latency
                    <= r.latency_max_ms.thousandths,
            self.samples().len() == 0 ==> r.latency_min_ms.thousandths == 0
                && r.latency_max_ms.thousandths == 0 && r.latency_avg_ms.thousandths == 0
                && r.latency_p50_ms.thousandths == 0 && r.latency_p95_ms.thousandths == 0
                && r.latency_p99_ms.thousandths == 0,
            r.error_rate_percent.thousandths <= 100_000,
            self.failures() == 0 ==> r.error_rate_percent.thousandths == 0,
            self.successes() == 0 && self.failures() > 0 ==> r.error_rate_percent.thousandths
                == 100_000,
            self.elapsed_nanos() == 0 ==> r.requests_per_second.thousandths == 0,
    {
        let p50 = self.histogram.value_at_percentile(50);
        let p95 = self.histogram.value_at_percentile(95);
        let p99 = self.histogram.value_at_percentile(99);
        let levels = LatencyLevels {
            min: self.histogram.min(),
            max: self.histogram.max(),
            mean: self.histogram.mean(),
            p50,
            p95,
            p99,
        };
        PerfMetrics::compute(self.successful, self.failed, self.elapsed(), levels)
    }
}

impl Default for MetricsCollector {
    fn default() -> (r: Self)
        ensures
            r.wf(),
            r.samples() == Multiset::<u64>::empty(),
            r.successes() == 0,
            r.failures() == 0,
            r.started() is None,
            r.finished() is None,
    {
        Self::new()
    }
}

} // verus!
