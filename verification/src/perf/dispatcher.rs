//! The dispatcher: which planned request is launched next, under the bound
//! on the requests in flight, and the bookkeeping of what has completed.
//!
//! The dispatcher decides; its caller acts. The caller asks for the next
//! [`Action`], launches the request or waits for one in flight to complete,
//! and reports each completion with [`Dispatcher::complete`].

use vstd::prelude::*;
use vstd::multiset::Multiset;
use std::time::Duration;
use std::time::Instant;
use crate::error::RurlError;
use crate::http::request::HttpRequest;
use crate::http::response::HttpResponse;
use crate::perf::dataset::{entry_views, Dataset, DatasetEntry, DatasetEntryView};
use crate::perf::limiter::PermitPool;
use crate::perf::metrics::{
    clamped_micros, lemma_error_rate_bounds, levels_of, snapshot_of, MetricsCollector, PerfMetrics,
};
use crate::perf::planner::{plan, planned};
use crate::perf::runner::{built_request, is_valid_entry, PerfRunner, PerfRunnerView};
use crate::time::{duration_nanos, nanos_between};

verus! {

/// How a request ended.
#[derive(Debug, Clone, Copy, PartialEq, Eq, Structural)]
pub enum Outcome {
    /// A response came back and its status is 2xx.
    Success,
    /// Anything else: no response, a timeout, another status.
    Failure,
}

/// How a request ended and how long it took.
#[derive(Debug, Clone, Copy)]
pub struct ExecutionResult {
    pub outcome: Outcome,
    pub elapsed: Duration,
}

/// How what came back of a request counts: as a success where a response
/// came back with a status from 200 to 299, as a failure otherwise.
pub open spec fn outcome_of<E>(response: Result<HttpResponse, E>) -> Outcome {
    match response {
        Ok(r) => if 200 <= r.status < 300 {
            Outcome::Success
        } else {
            Outcome::Failure
        },
        Err(_) => Outcome::Failure,
    }
}

impl ExecutionResult {
    /// The result of a request that ended without one: a failure that took
    /// no time.
    pub fn aborted() -> (r: Self)
        ensures
            r.outcome == Outcome::Failure,
            duration_nanos(r.elapsed) == 0,
    {
        ExecutionResult { outcome: Outcome::Failure, elapsed: Duration::from_secs(0) }
    }

    /// Classifies what came back of a request that took `elapsed`.
    pub fn classify<E>(response: &Result<HttpResponse, E>, elapsed: Duration) -> (r: Self)
        ensures
            r.outcome == outcome_of(*response),
            r.elapsed == elapsed,
    {
        let outcome = match response {
            Ok(r) => if r.is_success() {
                Outcome::Success
            } else {
                Outcome::Failure
            },
            Err(_) => Outcome::Failure,
        };
        ExecutionResult { outcome, elapsed }
    }
}

/// What the caller of the dispatcher is to do next.
#[derive(Debug)]
pub enum Action {
    /// Launch this request, made from the planned entry `index`, and ask
    /// again without waiting for it.
    Launch { index: usize, request: HttpRequest },
    /// Wait until a request in flight completes, report that, and ask
    /// again.
    Wait,
    /// Every planned request has completed.
    Finished,
}

/// The first position from `from` on whose entry a request can be made
/// from, or the length of the plan if there is none.
pub open spec fn next_valid(plan: Seq<DatasetEntryView>, from: int) -> int
    decreases plan.len() - from,
{
    if from >= plan.len() {
        plan.len() as int
    } else if is_valid_entry(plan[from]) {
        from
    } else {
        next_valid(plan, from + 1)
    }
}

/// `values` with `count` more occurrences of `value`.
pub open spec fn with_copies(values: Multiset<u64>, value: u64, count: nat) -> Multiset<u64>
    decreases count,
{
    if count == 0 {
        values
    } else {
        with_copies(values, value, (count - 1) as nat).insert(value)
    }
}

/// A run in progress: the plan, how far it has been launched, how many
/// requests are in flight, and what has been collected of those that
/// completed.
pub struct Dispatcher {
    runner: PerfRunner,
    plan: Vec<DatasetEntry>,
    launched: usize,
    permits: PermitPool,
    collector: MetricsCollector,
}

impl Dispatcher {
    /// The settings of the run.
    pub closed spec fn runner(&self) -> PerfRunnerView {
        self.runner@
    }

    /// The planned entries, in the order in which they are launched.
    pub closed spec fn plan(&self) -> Seq<DatasetEntryView> {
        entry_views(self.plan@)
    }

    /// What has been collected of the requests that completed.
    pub closed spec fn collector(&self) -> MetricsCollector {
        self.collector
    }

    /// How many entries of the plan have been dealt with: launched, or
    /// counted as failures because no request can be made from them.
    pub closed spec fn spec_launched(&self) -> usize {
        self.launched
    }

    /// How many requests are in flight: how many permits are held.
    pub closed spec fn spec_in_flight(&self) -> usize {
        self.permits.held()
    }

    /// The number of planned requests.
    pub open spec fn total(&self) -> nat {
        self.plan().len()
    }

    /// The bound on the requests in flight.
    pub open spec fn concurrency(&self) -> nat {
        self.runner().concurrency
    }

    /// The number of successes so far.
    pub open spec fn successes(&self) -> nat {
        self.collector().successes()
    }

    /// The number of failures so far.
    pub open spec fn failures(&self) -> nat {
        self.collector().failures()
    }

    /// The number of planned requests that are accounted for.
    pub open spec fn spec_completed(&self) -> nat {
        self.successes() + self.failures()
    }

    /// Whether every planned request is accounted for.
    pub open spec fn spec_is_done(&self) -> bool {
        self.launched() == self.total() && self.in_flight() == 0
    }

    /// The plan has been launched in order up to some point, no more
    /// requests are in flight than the bound allows, and each entry dealt
    /// with is either in flight or counted once, as a success or as a
    /// failure.
    pub closed spec fn wf(&self) -> bool {
        &&& self.collector.wf()
        &&& self.permits.wf()
        &&& self.permits.capacity() == self.runner@.concurrency
        &&& self.launched <= self.plan@.len()
        &&& self.collector.successes() + self.collector.failures() + self.permits.held()
            == self.launched
    }

    /// Whether a request may be launched now: an entry is left and fewer
    /// requests are in flight than the bound allows.
    pub open spec fn can_launch(&self) -> bool {
        self.launched() < self.total() && self.in_flight() < self.concurrency()
    }

    /// The position of the entry that is launched next: the first one left
    /// from which a request can be made, where one may be launched now. It
    /// is the length of the plan where no such entry is left, and the
    /// present position where none may be launched.
    pub open spec fn target(&self) -> int {
        if self.can_launch() {
            next_valid(self.plan(), self.launched() as int)
        } else {
            self.launched() as int
        }
    }

    /// The statistics of the run if it ends at `now`.
    pub open spec fn snapshot_at(&self, now: Instant) -> PerfMetrics {
        snapshot_of(
            self.successes(),
            self.failures(),
            match self.collector().started() {
                Some(start) => nanos_between(now, start) as nat,
                None => 0,
            },
            levels_of(self.collector().samples()),
        )
    }

    /// The number of planned requests.
    pub fn total_requests(&self) -> (r: usize)
        ensures
            r == self.total(),
    {
        self.plan.len()
    }

    /// How many entries of the plan have been dealt with.
    #[verifier::when_used_as_spec(spec_launched)]
    pub fn launched(&self) -> (r: usize)
        ensures
            r == self.launched(),
    {
        self.launched
    }

    /// How many requests are in flight.
    #[verifier::when_used_as_spec(spec_in_flight)]
    pub fn in_flight(&self) -> (r: usize)
        ensures
            r == self.in_flight(),
    {
        self.permits.held()
    }

    /// Whether every planned request is accounted for.
    #[verifier::when_used_as_spec(spec_is_done)]
    pub fn is_done(&self) -> (r: bool)
        ensures
            r == self.is_done(),
    {
        self.launched == self.plan.len() && self.permits.held() == 0
    }

    /// The number of planned requests that are accounted for. It never
    /// decreases, so it can drive a progress display.
    pub fn completed(&self) -> (r: usize)
        requires
            self.wf(),
        ensures
            r == self.spec_completed(),
    {
        self.launched - self.permits.held()
    }

    /// Decides what to do next. Entries are taken in planned order, and a
    /// permit is acquired for each before anything else is done with it.
    /// An entry from which no request can be made gives its permit back at
    /// once and is counted as a failure that took no time; the first entry
    /// from which one can be made is launched and keeps its permit until
    /// its completion is reported. Where no permit is free the caller
    /// waits, and so it does where no entry is left, unless nothing is in
    /// flight: then the run has finished. With a bound of at least one the
    /// caller never waits in vain: something is in flight whenever it is
    /// told to wait.
    pub fn next_action(&mut self) -> (action: Action)
        requires
            old(self).wf(),
        ensures
            final(self).wf(),
            final(self).runner() == old(self).runner(),
            final(self).plan() == old(self).plan(),
            final(self).collector().started() == old(self).collector().started(),
            final(self).collector().finished() == old(self).collector().finished(),
            final(self).successes() == old(self).successes(),
            final(self).failures() == old(self).failures() + (old(self).target() - old(
                self,
            ).launched()),
            final(self).collector().samples() == with_copies(
                old(self).collector().samples(),
                0,
                (old(self).target() - old(self).launched()) as nat,
            ),
            old(self).launched() <= old(self).target() <= old(self).total(),
            final(self).spec_completed() >= old(self).spec_completed(),
            action is Wait && old(self).concurrency() > 0 ==> final(self).in_flight() > 0,
            match action {
                Action::Launch { index, request } => {
                    &&& old(self).can_launch()
                    &&& index == old(self).target()
                    &&& index < old(self).total()
                    &&& is_valid_entry(old(self).plan()[index as int])
                    &&& request@ == built_request(old(self).runner(), old(self).plan()[index as int])
                    &&& final(self).launched() == index + 1
                    &&& final(self).in_flight() == old(self).in_flight() + 1
                },
                Action::Wait => {
                    &&& !(old(self).can_launch() && old(self).target() < old(self).total())
                    &&& !(old(self).target() == old(self).total() && old(self).in_flight() == 0)
                    &&& final(self).launched() == old(self).target()
                    &&& final(self).in_flight() == old(self).in_flight()
                },
                Action::Finished => {
                    &&& old(self).target() == old(self).total()
                    &&& old(self).in_flight() == 0
                    &&& final(self).launched() == old(self).total()
                    &&& final(self).in_flight() == 0
                },
            },
    {
        let total = self.plan.len();
        let ghost start = self.launched as int;
        let ghost plan = entry_views(self.plan@);
        loop
            invariant
                self.wf(),
                old(self).wf(),
                total == self.plan@.len(),
                plan == entry_views(self.plan@),
                plan == old(self).plan(),
                self.runner() == old(self).runner(),
                start == old(self).launched(),
                start <= self.launched <= total,
                self.permits.held() == old(self).in_flight(),
                self.launched > start ==> old(self).can_launch(),
                next_valid(plan, start) == next_valid(plan, self.launched as int),
                self.collector.started() == old(self).collector().started(),
                self.collector.finished() == old(self).collector().finished(),
                self.collector.successes() == old(self).successes(),
                self.collector.failures() == old(self).failures() + (self.launched - start),
                self.collector.samples() == with_copies(
                    old(self).collector().samples(),
                    0,
                    (self.launched - start) as nat,
                ),
            decreases total - self.launched,
        {
            if self.launched == total {
                if self.permits.held() == 0 {
                    return Action::Finished;
                } else {
                    return Action::Wait;
                }
            }
            if !self.permits.try_acquire() {
                return Action::Wait;
            }
            let index = self.launched;
            match self.runner.build_request(&self.plan[index]) {
                Ok(request) => {
                    self.launched = index + 1;
                    return Action::Launch { index, request };
                },
                Err(_) => {
                    let _ = self.permits.release();
                    let no_time = Duration::from_secs(0);
                    assert(clamped_micros(no_time) == 0);
                    self.collector.record_failure(no_time);
                    self.launched = index + 1;
                },
            }
        }
    }

    /// Takes note that a request in flight has completed, however it ended:
    /// its permit is given back, and its latency and outcome are recorded.
    /// Where nothing is in flight the report is refused and nothing
    /// changes.
    pub fn complete(&mut self, result: ExecutionResult) -> (accepted: bool)
        requires
            old(self).wf(),
        ensures
            final(self).wf(),
            accepted == (old(self).in_flight() > 0),
            final(self).spec_completed() >= old(self).spec_completed(),
            final(self).runner() == old(self).runner(),
            final(self).plan() == old(self).plan(),
            final(self).launched() == old(self).launched(),
            final(self).collector().started() == old(self).collector().started(),
            final(self).collector().finished() == old(self).collector().finished(),
            accepted ==> {
                &&& final(self).in_flight() == old(self).in_flight() - 1
                &&& final(self).collector().samples() == old(self).collector().samples().insert(
                    clamped_micros(result.elapsed),
                )
                &&& final(self).successes() == old(self).successes() + if result.outcome
                    == Outcome::Success {
                    1nat
                } else {
                    0nat
                }
                &&& final(self).failures() == old(self).failures() + if result.outcome
                    == Outcome::Failure {
                    1nat
                } else {
                    0nat
                }
            },
            !accepted ==> {
                &&& final(self).in_flight() == old(self).in_flight()
                &&& final(self).collector().samples() == old(self).collector().samples()
                &&& final(self).successes() == old(self).successes()
                &&& final(self).failures() == old(self).failures()
            },
    {
        if !self.permits.release() {
            return false;
        }
        match result.outcome {
            Outcome::Success => {
                self.collector.record_success(result.elapsed);
            },
            Outcome::Failure => {
                self.collector.record_failure(result.elapsed);
            },
        }
        true
    }

    /// Ends the run at `now` and derives its statistics from what has been
    /// collected. Where every planned request is accounted for, the
    /// statistics count exactly the planned requests.
    pub fn finish_at(self, now: Instant) -> (r: PerfMetrics)
        requires
            self.wf(),
        ensures
            r == self.snapshot_at(now),
            r.total_requests == self.successes() + self.failures(),
            r.successful_requests == self.successes(),
            r.failed_requests == self.failures(),
            self.is_done() ==> r.total_requests == self.total(),
            r.latency_min_ms.thousandths <= r.latency_p50_ms.thousandths,
            r.latency_p50_ms.thousandths <= r.latency_p95_ms.thousandths,
            r.latency_p95_ms.thousandths <= r.latency_p99_ms.thousandths,
            r.latency_p99_ms.thousandths <= r.latency_max_ms.thousandths,
    {
        let mut collector = self.collector;
        collector.finish_at(now);
        collector.compute_metrics()
    }

    /// Ends the run at the present moment and derives its statistics from
    /// what has been collected. Where every planned request is accounted
    /// for, the statistics count exactly the planned requests.
    pub fn finish(self) -> (r: PerfMetrics)
        requires
            self.wf(),
        ensures
            exists|now: Instant| r == self.snapshot_at(now),
            r.total_requests == self.successes() + self.failures(),
            r.successful_requests == self.successes(),
            r.failed_requests == self.failures(),
            self.is_done() ==> r.total_requests == self.total(),
            r.latency_min_ms.thousandths <= r.latency_p50_ms.thousandths,
            r.latency_p50_ms.thousandths <= r.latency_p95_ms.thousandths,
            r.latency_p95_ms.thousandths <= r.latency_p99_ms.thousandths,
            r.latency_p99_ms.thousandths <= r.latency_max_ms.thousandths,
    {
        let now = Instant::now();
        self.finish_at(now)
    }
}

impl PerfRunner {
    /// Plans the run over `dataset` and starts it at `now`: nothing has been
    /// launched yet. A run over an empty dataset cannot start.
    pub fn start_at(self, dataset: &Dataset, now: Instant) -> (r: Result<Dispatcher, RurlError>)
        ensures
            match r {
                Ok(d) => {
                    &&& dataset@.len() > 0
                    &&& d.wf()
                    &&& d.runner() == self@
                    &&& d.plan() == planned(dataset@, self@.total_requests)
                    &&& d.launched() == 0
                    &&& d.in_flight() == 0
                    &&& d.successes() == 0
                    &&& d.failures() == 0
                    &&& d.collector().samples() == Multiset::<u64>::empty()
                    &&& d.collector().started() == Some(now)
                    &&& d.collector().finished() is None
                },
                Err(e) => dataset@.len() == 0 && e is DatasetError && e.detail()
                    == "Empty dataset"@,
            },
    {
        match plan(&dataset.entries, self.total_requests()) {
            Ok(items) => {
                let mut collector = MetricsCollector::new();
                collector.start_at(now);
                let permits = PermitPool::new(self.concurrency());
                Ok(Dispatcher { runner: self, plan: items, launched: 0, permits, collector })
            },
            Err(e) => Err(e),
        }
    }

    /// Plans the run over `dataset` and starts it at the present moment:
    /// nothing has been launched yet. A run over an empty dataset cannot
    /// start.
    pub fn start(self, dataset: &Dataset) -> (r: Result<Dispatcher, RurlError>)
        ensures
            match r {
                Ok(d) => {
                    &&& dataset@.len() > 0
                    &&& d.wf()
                    &&& d.runner() == self@
                    &&& d.plan() == planned(dataset@, self@.total_requests)
                    &&& d.launched() == 0
                    &&& d.in_flight() == 0
                    &&& d.successes() == 0
                    &&& d.failures() == 0
                    &&& d.collector().samples() == Multiset::<u64>::empty()
                    &&& d.collector().started() is Some
                    &&& d.collector().finished() is None
                },
                Err(e) => dataset@.len() == 0 && e is DatasetError && e.detail()
                    == "Empty dataset"@,
            },
    {
        self.start_at(dataset, Instant::now())
    }
}

/// At no moment of a run are more requests in flight than the bound
/// allows.
pub proof fn lemma_bounded_concurrency(d: Dispatcher)
    requires
        d.wf(),
    ensures
        d.in_flight() <= d.concurrency(),
{
}

/// No planned request is lost or counted twice: those accounted for and
/// those in flight are exactly those dealt with, so once the run is done
/// the successes and failures add up to the planned requests.
pub proof fn lemma_all_accounted(d: Dispatcher)
    requires
        d.wf(),
    ensures
        d.successes() + d.failures() + d.in_flight() == d.launched(),
        d.launched() <= d.total(),
        d.is_done() ==> d.successes() + d.failures() == d.total(),
{
}

/// A run that is done and in which nothing failed has every planned
/// request as a success: its statistics count exactly the planned requests,
/// all of them successful, and its error rate is zero.
pub proof fn lemma_all_succeeded(d: Dispatcher, now: Instant)
    requires
        d.wf(),
        d.is_done(),
        d.failures() == 0,
    ensures
        d.successes() == d.total(),
        d.snapshot_at(now).total_requests == d.total(),
        d.snapshot_at(now).successful_requests == d.total(),
        d.snapshot_at(now).failed_requests == 0,
        d.snapshot_at(now).error_rate_percent.thousandths == 0,
{
    lemma_error_rate_bounds(d.successes(), d.failures());
}

} // verus!
