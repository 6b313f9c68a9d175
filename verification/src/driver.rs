//! The benchmark driver's control state machine: `Idle -> Running ->
//! {Completed, Aborted}`. The driver never starts before the startup
//! rendezvous is complete, aggregates interval statistics monotonically,
//! emits progress only when requested, stops a bounded run once its duration
//! has elapsed, turns an external cancellation into a final snapshot, and
//! aborts the whole run on the first fatal workload error. The surrounding
//! execution loop performs the waiting and dispatching and feeds the
//! resulting events in; every decision is made here.

use vstd::prelude::*;
use crate::interval::RunInterval;
use crate::rendezvous::Rendezvous;
use crate::stats::{BenchmarkStats, GroupStats, StressStats};
use crate::workload::{Workload, WorkloadKind};

verus! {

/// The driver's run state.
#[derive(Clone, Copy, PartialEq, Eq, Structural, Debug)]
pub enum DriverState {
    Idle,
    Running,
    Completed,
    Aborted,
}

/// Why the driver refused to act or gave up the run.
#[derive(Clone, Copy, PartialEq, Eq, Structural, Debug)]
pub enum DriverError {
    /// The startup rendezvous is not complete: no traffic may be sent yet.
    RendezvousIncomplete,
    /// A workload exhausted its retry budget; the run was aborted.
    WorkloadFatal,
}

/// What the execution loop observed during one statistics interval, or an
/// exceptional occurrence.
#[derive(Clone, Copy, PartialEq, Eq, Structural, Debug)]
pub enum DriverEvent {
    /// One statistics interval elapsed. Deltas are per-interval increments;
    /// latencies are the current percentile readings.
    StatInterval {
        seconds: u64,
        shared_counter: Option<GroupStats>,
        transfer_object: Option<GroupStats>,
        retries_delta: u64,
        errors_delta: u64,
        latency_p50_ms: u64,
        latency_p95_ms: u64,
        latency_p99_ms: u64,
    },
    /// A workload reported a fatal submission error after exhausting its
    /// own retries.
    WorkloadFatal,
    /// The external cancellation signal of an unbounded run.
    Cancel,
}

/// What the execution loop must do next.
#[derive(Clone, Copy, PartialEq, Eq, Structural, Debug)]
pub enum DriverAction {
    /// Keep the workloads running; emit a progress line first when asked.
    Continue { emit_progress: bool },
    /// Stop dispatching, drain in-flight requests, and collect the final
    /// snapshot.
    Stop,
}

/// The benchmark driver.
#[derive(Clone, Copy, PartialEq, Eq, Structural, Debug)]
pub struct BenchDriver {
    /// Seconds between statistics snapshots.
    pub stat_collection_interval: u64,
    /// Whether the secondary stress statistics are collected.
    pub stress_stat_collection: bool,
    pub state: DriverState,
    /// Whether a progress line is emitted each interval.
    pub show_progress: bool,
    /// The run-duration policy of the current run.
    pub interval: RunInterval,
    /// Whether the shared-counter workload is part of the run.
    pub shared_counter_active: bool,
    /// Whether the transfer-object workload is part of the run.
    pub transfer_object_active: bool,
    pub elapsed_secs: u64,
    pub committed: u64,
    pub failed: u64,
    pub shared_counter_stats: GroupStats,
    pub transfer_object_stats: GroupStats,
    pub retries: u64,
    pub errors: u64,
    pub latency_p50_ms: u64,
    pub latency_p95_ms: u64,
    pub latency_p99_ms: u64,
}

/// The interval observations an event adds to the driver's counters.
pub open spec fn event_committed(e: DriverEvent) -> int {
    (match e->StatInterval_shared_counter {
        Option::Some(g) => g.committed as int,
        Option::None => 0,
    }) + (match e->StatInterval_transfer_object {
        Option::Some(g) => g.committed as int,
        Option::None => 0,
    })
}

pub open spec fn event_failed(e: DriverEvent) -> int {
    (match e->StatInterval_shared_counter {
        Option::Some(g) => g.failed as int,
        Option::None => 0,
    }) + (match e->StatInterval_transfer_object {
        Option::Some(g) => g.failed as int,
        Option::None => 0,
    })
}

impl BenchDriver {
    /// A fresh driver, idle, with zeroed counters.
    pub fn new(stat_collection_interval: u64, stress_stat_collection: bool) -> (r: Self)
        ensures
            r.state is Idle,
            r.stat_collection_interval == stat_collection_interval,
            r.stress_stat_collection == stress_stat_collection,
            r.elapsed_secs == 0 && r.committed == 0 && r.failed == 0,
            r.retries == 0 && r.errors == 0,
            r.shared_counter_stats == (GroupStats { committed: 0, failed: 0 }),
            r.transfer_object_stats == (GroupStats { committed: 0, failed: 0 }),
            r.latency_p50_ms == 0 && r.latency_p95_ms == 0 && r.latency_p99_ms == 0,
            !r.shared_counter_active && !r.transfer_object_active,
    {
        BenchDriver {
            stat_collection_interval,
            stress_stat_collection,
            state: DriverState::Idle,
            show_progress: false,
            interval: RunInterval::Unbounded,
            shared_counter_active: false,
            transfer_object_active: false,
            elapsed_secs: 0,
            committed: 0,
            failed: 0,
            shared_counter_stats: GroupStats { committed: 0, failed: 0 },
            transfer_object_stats: GroupStats { committed: 0, failed: 0 },
            retries: 0,
            errors: 0,
            latency_p50_ms: 0,
            latency_p95_ms: 0,
            latency_p99_ms: 0,
        }
    }

    /// Starts the run: `Idle -> Running`. Succeeds exactly when the startup
    /// rendezvous is complete — no traffic may be dispatched before both
    /// participants have arrived. Records which workload kinds take part.
    pub fn start(
        &mut self,
        rendezvous: &Rendezvous,
        workloads: &Vec<Workload>,
        interval: RunInterval,
        show_progress: bool,
    ) -> (r: Result<(), DriverError>)
        requires
            old(self).state is Idle,
        ensures
            r is Ok <==> rendezvous.complete(),
            r matches Err(e) ==> e == DriverError::RendezvousIncomplete && *final(self) == *old(
                self,
            ),
            r is Ok ==> {
                &&& final(self).state is Running
                &&& final(self).interval == interval
                &&& final(self).show_progress == show_progress
                &&& final(self).shared_counter_active == (exists|i: int|
                    0 <= i < workloads@.len() && workloads@[i].kind is SharedCounter)
                &&& final(self).transfer_object_active == (exists|i: int|
                    0 <= i < workloads@.len() && workloads@[i].kind is TransferObject)
                &&& final(self).elapsed_secs == old(self).elapsed_secs
                &&& final(self).committed == old(self).committed
                &&& final(self).failed == old(self).failed
                &&& final(self).stat_collection_interval == old(self).stat_collection_interval
                &&& final(self).stress_stat_collection == old(self).stress_stat_collection
            },
    {
        if !rendezvous.is_complete() {
            return Err(DriverError::RendezvousIncomplete);
        }
        let mut has_sc = false;
        let mut has_to = false;
        let n = workloads.len();
        let mut i: usize = 0;
        while i < n
            invariant
                n == workloads@.len(),
                0 <= i <= n,
                has_sc == (exists|j: int| 0 <= j < i && workloads@[j].kind is SharedCounter),
                has_to == (exists|j: int| 0 <= j < i && workloads@[j].kind is TransferObject),
            decreases n - i,
        {
            match workloads[i].kind {
                WorkloadKind::SharedCounter => {
                    has_sc = true;
                },
                WorkloadKind::TransferObject => {
                    has_to = true;
                },
            }
            i = i + 1;
        }
        self.state = DriverState::Running;
        self.interval = interval;
        self.show_progress = show_progress;
        self.shared_counter_active = has_sc;
        self.transfer_object_active = has_to;
        Ok(())
    }

    /// Handles one event of the running loop. Counters only ever grow (a
    /// later snapshot is always >= an earlier one); a bounded run stops once
    /// its duration has elapsed; a cancellation turns into a completed run
    /// with a final snapshot; a fatal workload error aborts the run. A
    /// progress line is emitted exactly when the run keeps going and
    /// progress was requested.
    pub fn step(&mut self, event: DriverEvent) -> (action: DriverAction)
        requires
            old(self).state is Running,
            event matches DriverEvent::StatInterval {
                seconds,
                shared_counter,
                transfer_object,
                retries_delta,
                errors_delta,
                ..
            } ==> {
                &&& old(self).elapsed_secs + seconds <= u64::MAX
                &&& old(self).committed + event_committed(event) <= u64::MAX
                &&& old(self).failed + event_failed(event) <= u64::MAX
                &&& old(self).retries + retries_delta <= u64::MAX
                &&& old(self).errors + errors_delta <= u64::MAX
                &&& (shared_counter matches Some(g) ==> old(self).shared_counter_stats.committed
                    + g.committed <= u64::MAX && old(self).shared_counter_stats.failed + g.failed
                    <= u64::MAX && old(self).shared_counter_active)
                &&& (transfer_object matches Some(g) ==> old(
                    self,
                ).transfer_object_stats.committed + g.committed <= u64::MAX && old(
                    self,
                ).transfer_object_stats.failed + g.failed <= u64::MAX && old(
                    self,
                ).transfer_object_active)
            },
        ensures
            final(self).committed >= old(self).committed,
            final(self).failed >= old(self).failed,
            final(self).elapsed_secs >= old(self).elapsed_secs,
            final(self).stat_collection_interval == old(self).stat_collection_interval,
            final(self).stress_stat_collection == old(self).stress_stat_collection,
            final(self).show_progress == old(self).show_progress,
            final(self).interval == old(self).interval,
            event is WorkloadFatal ==> final(self).state is Aborted && action is Stop,
            event is Cancel ==> final(self).state is Completed && action is Stop,
            event matches DriverEvent::StatInterval { seconds, .. } ==> {
                &&& final(self).elapsed_secs == old(self).elapsed_secs + seconds
                &&& final(self).committed == old(self).committed + event_committed(event)
                &&& final(self).failed == old(self).failed + event_failed(event)
                &&& final(self).retries == old(self).retries + event->StatInterval_retries_delta
                &&& final(self).errors == old(self).errors + event->StatInterval_errors_delta
                &&& final(self).latency_p50_ms == event->StatInterval_latency_p50_ms
                &&& final(self).latency_p95_ms == event->StatInterval_latency_p95_ms
                &&& final(self).latency_p99_ms == event->StatInterval_latency_p99_ms
                &&& (old(self).interval matches RunInterval::Bounded(d) && old(self).elapsed_secs
                    + seconds >= d) ==> final(self).state is Completed && action is Stop
                &&& (old(self).interval is Unbounded || (old(self).interval
                    matches RunInterval::Bounded(d) && old(self).elapsed_secs + seconds < d)) ==> {
                    &&& final(self).state is Running
                    &&& action == (DriverAction::Continue {
                        emit_progress: old(self).show_progress,
                    })
                }
            },
    {
        match event {
            DriverEvent::WorkloadFatal => {
                self.state = DriverState::Aborted;
                DriverAction::Stop
            },
            DriverEvent::Cancel => {
                self.state = DriverState::Completed;
                DriverAction::Stop
            },
            DriverEvent::StatInterval {
                seconds,
                shared_counter,
                transfer_object,
                retries_delta,
                errors_delta,
                latency_p50_ms,
                latency_p95_ms,
                latency_p99_ms,
            } => {
                self.elapsed_secs = self.elapsed_secs + seconds;
                match shared_counter {
                    Some(g) => {
                        self.committed = self.committed + g.committed;
                        self.failed = self.failed + g.failed;
                        self.shared_counter_stats = GroupStats {
                            committed: self.shared_counter_stats.committed + g.committed,
                            failed: self.shared_counter_stats.failed + g.failed,
                        };
                    },
                    None => {},
                }
                match transfer_object {
                    Some(g) => {
                        self.committed = self.committed + g.committed;
                        self.failed = self.failed + g.failed;
                        self.transfer_object_stats = GroupStats {
                            committed: self.transfer_object_stats.committed + g.committed,
                            failed: self.transfer_object_stats.failed + g.failed,
                        };
                    },
                    None => {},
                }
                self.retries = self.retries + retries_delta;
                self.errors = self.errors + errors_delta;
                self.latency_p50_ms = latency_p50_ms;
                self.latency_p95_ms = latency_p95_ms;
                self.latency_p99_ms = latency_p99_ms;
                let done = match self.interval {
                    RunInterval::Bounded(d) => self.elapsed_secs >= d,
                    RunInterval::Unbounded => false,
                };
                if done {
                    self.state = DriverState::Completed;
                    DriverAction::Stop
                } else {
                    DriverAction::Continue { emit_progress: self.show_progress }
                }
            },
        }
    }

    /// Whether the driver currently allows dispatching traffic.
    pub fn is_running(&self) -> (r: bool)
        ensures
            r == (self.state is Running),
    {
        match self.state {
            DriverState::Running => true,
            _ => false,
        }
    }

    /// The outcome of a finished run: the final snapshot of a completed run,
    /// or the fatal-workload error of an aborted one. The stress report is
    /// populated only when stress-stat collection was requested; otherwise
    /// it is the empty default. Stats are produced once, after the run, and
    /// are immutable values thereafter.
    pub fn outcome(&self) -> (r: Result<(BenchmarkStats, StressStats), DriverError>)
        requires
            self.state is Completed || self.state is Aborted,
        ensures
            r is Ok <==> self.state is Completed,
            r matches Err(e) ==> e == DriverError::WorkloadFatal,
            r matches Ok(out) ==> {
                &&& out.0.duration_secs == self.elapsed_secs
                &&& out.0.num_committed == self.committed
                &&& out.0.num_failed == self.failed
                &&& out.0.qps == (if self.elapsed_secs > 0 {
                    self.committed as int / self.elapsed_secs as int
                } else {
                    0
                })
                &&& out.0.latency_p50_ms == self.latency_p50_ms
                &&& out.0.latency_p95_ms == self.latency_p95_ms
                &&& out.0.latency_p99_ms == self.latency_p99_ms
                &&& out.0.shared_counter == (if self.shared_counter_active {
                    Some(self.shared_counter_stats)
                } else {
                    None::<GroupStats>
                })
                &&& out.0.transfer_object == (if self.transfer_object_active {
                    Some(self.transfer_object_stats)
                } else {
                    None::<GroupStats>
                })
                &&& out.1 == (if self.stress_stat_collection {
                    StressStats { num_retries: self.retries, num_errors: self.errors }
                } else {
                    StressStats { num_retries: 0, num_errors: 0 }
                })
            },
    {
        match self.state {
            DriverState::Aborted => Err(DriverError::WorkloadFatal),
            _ => {
                let qps = if self.elapsed_secs > 0 {
                    self.committed / self.elapsed_secs
                } else {
                    0
                };
                let stats = BenchmarkStats {
                    duration_secs: self.elapsed_secs,
                    num_committed: self.committed,
                    num_failed: self.failed,
                    qps,
                    latency_p50_ms: self.latency_p50_ms,
                    latency_p95_ms: self.latency_p95_ms,
                    latency_p99_ms: self.latency_p99_ms,
                    shared_counter: if self.shared_counter_active {
                        Some(self.shared_counter_stats)
                    } else {
                        None
                    },
                    transfer_object: if self.transfer_object_active {
                        Some(self.transfer_object_stats)
                    } else {
                        None
                    },
                };
                let stress = if self.stress_stat_collection {
                    StressStats { num_retries: self.retries, num_errors: self.errors }
                } else {
                    StressStats { num_retries: 0, num_errors: 0 }
                };
                Ok((stats, stress))
            },
        }
    }
}

} // verus!
