//! Health of the child process: its lifecycle state, the outcome of health
//! checks, counters, and a bounded history of recent samples.

use crate::ipc::clock::{
    duration_millis, duration_nanos, duration_secs, instant_elapsed, instant_now, millis_of,
    unix_timestamp,
};
use crate::ipc::{HEALTH_CHECK_INTERVAL_SECS, MAX_RESPAWN_ATTEMPTS};
use std::collections::VecDeque;
use std::time::{Duration, Instant};
use vstd::prelude::*;
use vstd::string::StringExecFns;

verus! {

/// Lifecycle state of the child process.
#[derive(Debug, Clone, Copy, PartialEq, Eq, Structural)]
pub enum SubprocessState {
    /// Not yet started.
    NotStarted,
    /// Starting up.
    Starting,
    /// Running and healthy.
    Running,
    /// Running, with health checks failing.
    Degraded,
    /// Being restarted.
    Restarting,
    /// Shutting down gracefully.
    ShuttingDown,
    /// Stopped normally.
    Stopped,
    /// Crashed unexpectedly.
    Crashed,
    /// Killed forcefully.
    Killed,
}

impl SubprocessState {
    /// The child is running: `Running` or `Degraded`.
    pub open spec fn running(self) -> bool {
        self == SubprocessState::Running || self == SubprocessState::Degraded
    }

    /// The child has ended: `Stopped`, `Crashed` or `Killed`.
    pub open spec fn terminal(self) -> bool {
        self == SubprocessState::Stopped || self == SubprocessState::Crashed || self
            == SubprocessState::Killed
    }

    /// The upper-case name of the state.
    pub open spec fn name_text(self) -> Seq<char> {
        match self {
            SubprocessState::NotStarted => "NOT_STARTED"@,
            SubprocessState::Starting => "STARTING"@,
            SubprocessState::Running => "RUNNING"@,
            SubprocessState::Degraded => "DEGRADED"@,
            SubprocessState::Restarting => "RESTARTING"@,
            SubprocessState::ShuttingDown => "SHUTTING_DOWN"@,
            SubprocessState::Stopped => "STOPPED"@,
            SubprocessState::Crashed => "CRASHED"@,
            SubprocessState::Killed => "KILLED"@,
        }
    }

    /// Whether the child is in a running state.
    pub fn is_running(&self) -> (r: bool)
        ensures
            r == self.running(),
    {
        match self {
            SubprocessState::Running | SubprocessState::Degraded => true,
            _ => false,
        }
    }

    /// Whether the child is in a terminal state.
    pub fn is_terminal(&self) -> (r: bool)
        ensures
            r == self.terminal(),
    {
        match self {
            SubprocessState::Stopped | SubprocessState::Crashed | SubprocessState::Killed => true,
            _ => false,
        }
    }

    /// Whether the child can accept requests: exactly when it is running.
    pub fn can_accept_requests(&self) -> (r: bool)
        ensures
            r == self.running(),
    {
        self.is_running()
    }

    /// Whether the child needs a respawn: exactly when it crashed.
    pub fn needs_respawn(&self) -> (r: bool)
        ensures
            r == (*self == SubprocessState::Crashed),
    {
        match self {
            SubprocessState::Crashed => true,
            _ => false,
        }
    }

    /// The upper-case name of the state.
    pub fn name(&self) -> (s: &'static str)
        ensures
            s@ == self.name_text(),
    {
        match self {
            SubprocessState::NotStarted => "NOT_STARTED",
            SubprocessState::Starting => "STARTING",
            SubprocessState::Running => "RUNNING",
            SubprocessState::Degraded => "DEGRADED",
            SubprocessState::Restarting => "RESTARTING",
            SubprocessState::ShuttingDown => "SHUTTING_DOWN",
            SubprocessState::Stopped => "STOPPED",
            SubprocessState::Crashed => "CRASHED",
            SubprocessState::Killed => "KILLED",
        }
    }
}

/// The outcome of one health check.
#[derive(Debug, Clone)]
pub struct HealthCheckResult {
    /// Seconds since the Unix epoch at which the check was recorded.
    pub timestamp: u64,
    /// Whether the check succeeded.
    pub success: bool,
    /// Response latency in milliseconds, for a check that succeeded.
    pub latency_ms: Option<u64>,
    /// Error text, for a check that failed.
    pub error: Option<String>,
}

/// A health sample as a plain value.
pub struct HealthSample {
    pub timestamp: u64,
    pub success: bool,
    pub latency_ms: Option<u64>,
    pub error: Option<Seq<char>>,
}

impl View for HealthCheckResult {
    type V = HealthSample;

    open spec fn view(&self) -> HealthSample {
        HealthSample {
            timestamp: self.timestamp,
            success: self.success,
            latency_ms: self.latency_ms,
            error: match self.error {
                Some(e) => Some(e@),
                None => None,
            },
        }
    }
}

/// The sample of a check that succeeded.
pub open spec fn success_sample(timestamp: u64, latency: Duration) -> HealthSample {
    HealthSample {
        timestamp,
        success: true,
        latency_ms: Some(duration_millis(latency)),
        error: None,
    }
}

/// The sample of a check that failed.
pub open spec fn failure_sample(timestamp: u64, error: Seq<char>) -> HealthSample {
    HealthSample { timestamp, success: false, latency_ms: None, error: Some(error) }
}

impl HealthCheckResult {
    /// The sample of a successful check recorded at a given time.
    pub fn success_at(timestamp: u64, latency: Duration) -> (r: Self)
        ensures
            r@ == success_sample(timestamp, latency),
    {
        HealthCheckResult {
            timestamp,
            success: true,
            latency_ms: Some(millis_of(&latency)),
            error: None,
        }
    }

    /// The sample of a failed check recorded at a given time.
    pub fn failure_at(timestamp: u64, error: &str) -> (r: Self)
        ensures
            r@ == failure_sample(timestamp, error@),
    {
        HealthCheckResult {
            timestamp,
            success: false,
            latency_ms: None,
            error: Some(String::from_str(error)),
        }
    }

    /// The sample of a successful check, stamped with the wall clock.
    pub fn success(latency: Duration) -> (r: Self)
        ensures
            r@ == success_sample(r.timestamp, latency),
    {
        Self::success_at(unix_timestamp(), latency)
    }

    /// The sample of a failed check, stamped with the wall clock.
    pub fn failure(error: &str) -> (r: Self)
        ensures
            r@ == failure_sample(r.timestamp, error@),
    {
        Self::failure_at(unix_timestamp(), error)
    }

    fn copy(&self) -> (r: Self)
        ensures
            r@ == self@,
    {
        HealthCheckResult {
            timestamp: self.timestamp,
            success: self.success,
            latency_ms: self.latency_ms,
            error: match &self.error {
                Some(e) => Some(e.clone()),
                None => None,
            },
        }
    }
}

/// A snapshot of the monitor.
#[derive(Debug, Clone, Copy)]
pub struct HealthStatus {
    /// Current state of the child.
    pub state: SubprocessState,
    /// Whether the child is considered healthy.
    pub is_healthy: bool,
    /// Seconds since the Unix epoch of the last successful check.
    pub last_success_time: Option<u64>,
    /// Latency of the last successful check in milliseconds.
    pub last_latency_ms: Option<u64>,
    /// Consecutive failures.
    pub consecutive_failures: u32,
    /// Successful checks in total.
    pub total_successes: u64,
    /// Failed checks in total.
    pub total_failures: u64,
    /// Mean latency over the retained samples that carry one.
    pub avg_latency_ms: Option<u64>,
    /// Seconds since the child was started.
    pub uptime_secs: Option<u64>,
    /// Respawn attempts so far.
    pub respawn_attempts: u32,
}

impl Default for HealthStatus {
    fn default() -> (r: Self)
        ensures
            r == (HealthStatus {
                state: SubprocessState::NotStarted,
                is_healthy: false,
                last_success_time: None,
                last_latency_ms: None,
                consecutive_failures: 0,
                total_successes: 0,
                total_failures: 0,
                avg_latency_ms: None,
                uptime_secs: None,
                respawn_attempts: 0,
            }),
    {
        HealthStatus {
            state: SubprocessState::NotStarted,
            is_healthy: false,
            last_success_time: None,
            last_latency_ms: None,
            consecutive_failures: 0,
            total_successes: 0,
            total_failures: 0,
            avg_latency_ms: None,
            uptime_secs: None,
            respawn_attempts: 0,
        }
    }
}

/// Tracks the health of the child process.
pub struct HealthMonitor {
    state: SubprocessState,
    check_interval: Duration,
    max_consecutive_failures: u32,
    max_respawn_attempts: u32,
    is_healthy: bool,
    consecutive_failures: u64,
    total_successes: u64,
    total_failures: u64,
    recent_results: VecDeque<HealthCheckResult>,
    max_history: usize,
    last_success_time: Option<Instant>,
    last_latency: Option<Duration>,
    start_time: Option<Instant>,
    respawn_attempts: u64,
}

/// The monitor as a plain value.
pub struct MonitorModel {
    /// Current state of the child.
    pub state: SubprocessState,
    /// Interval between health checks.
    pub check_interval: Duration,
    /// Consecutive failures at which a running child counts as degraded.
    pub max_consecutive_failures: u32,
    /// Respawn attempts at which the limit counts as exceeded.
    pub max_respawn_attempts: u32,
    /// Whether the child is considered healthy.
    pub healthy: bool,
    /// Consecutive failures.
    pub consecutive_failures: u64,
    /// Successful checks in total.
    pub total_successes: u64,
    /// Failed checks in total.
    pub total_failures: u64,
    /// Retained samples, oldest first.
    pub history: Seq<HealthSample>,
    /// Capacity of the history.
    pub max_history: usize,
    /// Monotonic reading at the last successful check.
    pub last_success: Option<Instant>,
    /// Latency of the last successful check.
    pub last_latency: Option<Duration>,
    /// Monotonic reading at the start of the child.
    pub started: Option<Instant>,
    /// Respawn attempts so far.
    pub respawn_attempts: u64,
}

/// The samples of a history as plain values.
pub open spec fn samples_of(h: Seq<HealthCheckResult>) -> Seq<HealthSample> {
    h.map_values(|r: HealthCheckResult| r@)
}

/// A fresh monitor: nothing recorded, default limits.
pub open spec fn fresh(check_interval: Duration) -> MonitorModel {
    MonitorModel {
        state: SubprocessState::NotStarted,
        check_interval,
        max_consecutive_failures: 3,
        max_respawn_attempts: MAX_RESPAWN_ATTEMPTS,
        healthy: false,
        consecutive_failures: 0,
        total_successes: 0,
        total_failures: 0,
        history: Seq::empty(),
        max_history: 100,
        last_success: None,
        last_latency: None,
        started: None,
        respawn_attempts: 0,
    }
}

/// The monitor with its counters, history and time marks cleared; state,
/// limits and the respawn counter stay.
pub open spec fn cleared(m: MonitorModel) -> MonitorModel {
    MonitorModel {
        healthy: false,
        consecutive_failures: 0,
        total_successes: 0,
        total_failures: 0,
        history: Seq::empty(),
        last_success: None,
        last_latency: None,
        started: None,
        ..m
    }
}

/// The monitor after a transition that sets no time mark: entering `Running`
/// sets the healthy flag; entering `Degraded`, `Crashed`, `Killed` or
/// `ShuttingDown` clears it; entering `Starting` clears everything recorded.
pub open spec fn moved(m: MonitorModel, state: SubprocessState) -> MonitorModel {
    let m1 = MonitorModel { state, ..m };
    match state {
        SubprocessState::Running => MonitorModel { healthy: true, ..m1 },
        SubprocessState::Degraded | SubprocessState::Crashed | SubprocessState::Killed
        | SubprocessState::ShuttingDown => MonitorModel { healthy: false, ..m1 },
        SubprocessState::Starting => cleared(m1),
        _ => m1,
    }
}

/// The monitor after a transition at a given reading of the monotonic clock:
/// as `moved`, and entering `Running` from `Starting` marks the start.
pub open spec fn entered(m: MonitorModel, state: SubprocessState, now: Instant) -> MonitorModel {
    if state == SubprocessState::Running && m.state == SubprocessState::Starting {
        MonitorModel { started: Some(now), ..moved(m, state) }
    } else {
        moved(m, state)
    }
}

/// A history after one more sample: the oldest sample leaves first where the
/// history is at its capacity.
pub open spec fn pushed(h: Seq<HealthSample>, capacity: usize, sample: HealthSample) -> Seq<
    HealthSample,
> {
    if h.len() > 0 && h.len() >= capacity {
        h.drop_first().push(sample)
    } else {
        h.push(sample)
    }
}

/// The monitor after a successful check: one more success, no consecutive
/// failures, healthy, the latency and the time noted, the sample retained,
/// and a degraded child running again.
pub open spec fn succeeded(m: MonitorModel, latency: Duration, now: Instant, timestamp: u64)
    -> MonitorModel {
    let m1 = MonitorModel {
        total_successes: m.total_successes.wrapping_add(1),
        consecutive_failures: 0,
        healthy: true,
        last_latency: Some(latency),
        last_success: Some(now),
        history: pushed(m.history, m.max_history, success_sample(timestamp, latency)),
        ..m
    };
    if m1.state == SubprocessState::Degraded {
        moved(m1, SubprocessState::Running)
    } else {
        m1
    }
}

/// The monitor after a failed check: one more failure, the sample retained,
/// and, once the consecutive failures reach the limit, not healthy and a
/// running child degraded.
pub open spec fn failed(m: MonitorModel, error: Seq<char>, timestamp: u64) -> MonitorModel {
    let failures = m.consecutive_failures.wrapping_add(1);
    let m1 = MonitorModel {
        total_failures: m.total_failures.wrapping_add(1),
        consecutive_failures: failures,
        history: pushed(m.history, m.max_history, failure_sample(timestamp, error)),
        ..m
    };
    if failures >= m.max_consecutive_failures {
        if m1.state == SubprocessState::Running {
            moved(m1, SubprocessState::Degraded)
        } else {
            MonitorModel { healthy: false, ..m1 }
        }
    } else {
        m1
    }
}

/// The sum of the latencies that the samples carry.
pub open spec fn latency_sum(h: Seq<HealthSample>) -> nat
    decreases h.len(),
{
    if h.len() == 0 {
        0
    } else {
        latency_sum(h.drop_last()) + match h.last().latency_ms {
            Some(l) => l as nat,
            None => 0,
        }
    }
}

/// The number of samples that carry a latency.
pub open spec fn latency_count(h: Seq<HealthSample>) -> nat
    decreases h.len(),
{
    if h.len() == 0 {
        0
    } else {
        latency_count(h.drop_last()) + match h.last().latency_ms {
            Some(_) => 1nat,
            None => 0,
        }
    }
}

/// The mean latency over the samples that carry one, rounded down; `None`
/// where no sample carries one.
pub open spec fn mean_latency(h: Seq<HealthSample>) -> Option<u64> {
    if latency_count(h) == 0 {
        None
    } else {
        Some((latency_sum(h) / latency_count(h)) as u64)
    }
}

/// The snapshot of a monitor, given the clock readings it depends on: the
/// wall clock in seconds since the Unix epoch, the time since the start and
/// the time since the last success. A reading is used only where the monitor
/// holds the mark it belongs to.
pub open spec fn snapshot(
    m: MonitorModel,
    now_unix: u64,
    since_start: Duration,
    since_success: Duration,
) -> HealthStatus {
    HealthStatus {
        state: m.state,
        is_healthy: m.healthy,
        last_success_time: if m.last_success is Some {
            Some(
                if now_unix >= duration_secs(since_success) {
                    (now_unix - duration_secs(since_success)) as u64
                } else {
                    0
                },
            )
        } else {
            None
        },
        last_latency_ms: match m.last_latency {
            Some(d) => Some(duration_millis(d)),
            None => None,
        },
        consecutive_failures: (m.consecutive_failures % 0x1_0000_0000) as u32,
        total_successes: m.total_successes,
        total_failures: m.total_failures,
        avg_latency_ms: mean_latency(m.history),
        uptime_secs: if m.started is Some {
            Some(duration_secs(since_start))
        } else {
            None
        },
        respawn_attempts: (m.respawn_attempts % 0x1_0000_0000) as u32,
    }
}

/// Whether a check is due, given the time since the last success: when there
/// was none yet, or when the interval has passed.
pub open spec fn due(m: MonitorModel, since_success: Duration) -> bool {
    m.last_success is None || duration_nanos(since_success) >= duration_nanos(m.check_interval)
}

/// The monitor after a run of failed checks, each given as its error text and
/// the time at which it is recorded, oldest first.
pub open spec fn failed_run(m: MonitorModel, checks: Seq<(Seq<char>, u64)>) -> MonitorModel
    decreases checks.len(),
{
    if checks.len() == 0 {
        m
    } else {
        failed(failed_run(m, checks.drop_last()), checks.last().0, checks.last().1)
    }
}

proof fn lemma_failed_run(m: MonitorModel, checks: Seq<(Seq<char>, u64)>)
    requires
        m.state == SubprocessState::Running,
        m.consecutive_failures + checks.len() <= u64::MAX,
    ensures
        ({
            let after = failed_run(m, checks);
            &&& after.consecutive_failures == m.consecutive_failures + checks.len()
            &&& after.max_consecutive_failures == m.max_consecutive_failures
            &&& after.state == SubprocessState::Running || (after.state
                == SubprocessState::Degraded && !after.healthy)
            &&& checks.len() > 0 && after.consecutive_failures >= m.max_consecutive_failures
                ==> after.state == SubprocessState::Degraded && !after.healthy
        }),
    decreases checks.len(),
{
    if checks.len() > 0 {
        lemma_failed_run(m, checks.drop_last());
    }
}

/// Health degradation: a running child that fails as many checks in a row as
/// the limit says (at least one) is degraded and not healthy afterwards,
/// whatever the errors were; one successful check after that makes it running
/// and healthy again.
pub proof fn lemma_degrades_and_recovers(
    m: MonitorModel,
    checks: Seq<(Seq<char>, u64)>,
    latency: Duration,
    now: Instant,
    timestamp: u64,
)
    requires
        m.state == SubprocessState::Running,
        m.max_consecutive_failures >= 1,
        checks.len() == m.max_consecutive_failures,
        m.consecutive_failures + checks.len() <= u64::MAX,
    ensures
        failed_run(m, checks).state == SubprocessState::Degraded,
        !failed_run(m, checks).healthy,
        succeeded(failed_run(m, checks), latency, now, timestamp).state
            == SubprocessState::Running,
        succeeded(failed_run(m, checks), latency, now, timestamp).healthy,
        succeeded(failed_run(m, checks), latency, now, timestamp).consecutive_failures == 0,
{
    lemma_failed_run(m, checks);
}

/// The history stays within its capacity: a history that holds no more
/// samples than its capacity (or one, where the capacity is zero) still does
/// after one more sample, and the newest sample is the last.
pub proof fn lemma_history_bounded(h: Seq<HealthSample>, capacity: usize, sample: HealthSample)
    ensures
        pushed(h, capacity, sample).last() == sample,
        h.len() <= capacity || h.len() <= 1 ==> pushed(h, capacity, sample).len() <= capacity
            || pushed(h, capacity, sample).len() <= 1,
        h.len() < capacity ==> pushed(h, capacity, sample) == h.push(sample),
        h.len() > 0 && h.len() >= capacity ==> pushed(h, capacity, sample).len() == h.len()
            && forall|i: int| 0 <= i < h.len() - 1 ==> pushed(h, capacity, sample)[i] == h[i + 1],
{
}

proof fn lemma_latency_step(h: Seq<HealthSample>, i: int)
    requires
        0 <= i < h.len(),
    ensures
        latency_sum(h.take(i + 1)) == latency_sum(h.take(i)) + match h[i].latency_ms {
            Some(l) => l as nat,
            None => 0,
        },
        latency_count(h.take(i + 1)) == latency_count(h.take(i)) + match h[i].latency_ms {
            Some(_) => 1nat,
            None => 0,
        },
{
    assert(h.take(i + 1).drop_last() =~= h.take(i));
    assert(h.take(i + 1).last() == h[i]);
}

proof fn lemma_mean_fits(sum: nat, count: nat)
    requires
        count > 0,
        sum <= count * u64::MAX,
    ensures
        sum / count <= u64::MAX,
{
    assert(sum / count <= u64::MAX) by (nonlinear_arith)
        requires
            count > 0,
            sum <= count * u64::MAX,
    ;
}

impl View for HealthMonitor {
    type V = MonitorModel;

    closed spec fn view(&self) -> MonitorModel {
        MonitorModel {
            state: self.state,
            check_interval: self.check_interval,
            max_consecutive_failures: self.max_consecutive_failures,
            max_respawn_attempts: self.max_respawn_attempts,
            healthy: self.is_healthy,
            consecutive_failures: self.consecutive_failures,
            total_successes: self.total_successes,
            total_failures: self.total_failures,
            history: samples_of(self.recent_results@),
            max_history: self.max_history,
            last_success: self.last_success_time,
            last_latency: self.last_latency,
            started: self.start_time,
            respawn_attempts: self.respawn_attempts,
        }
    }
}

impl HealthMonitor {
    /// A fresh monitor with the given interval between checks.
    pub fn new(check_interval: Duration) -> (r: Self)
        ensures
            r@ == fresh(check_interval),
    {
        let r = HealthMonitor {
            state: SubprocessState::NotStarted,
            check_interval,
            max_consecutive_failures: 3,
            max_respawn_attempts: MAX_RESPAWN_ATTEMPTS,
            is_healthy: false,
            consecutive_failures: 0,
            total_successes: 0,
            total_failures: 0,
            recent_results: VecDeque::with_capacity(100),
            max_history: 100,
            last_success_time: None,
            last_latency: None,
            start_time: None,
            respawn_attempts: 0,
        };
        assert(r@.history =~= Seq::empty());
        r
    }

    /// A fresh monitor with the default interval between checks.
    pub fn with_defaults() -> (r: Self)
        ensures
            duration_nanos(r@.check_interval) == HEALTH_CHECK_INTERVAL_SECS as nat * 1_000_000_000,
            r@ == fresh(r@.check_interval),
    {
        Self::new(Duration::from_secs(HEALTH_CHECK_INTERVAL_SECS))
    }

    /// Sets the number of consecutive failures at which a running child
    /// counts as degraded.
    pub fn with_max_failures(self, max: u32) -> (r: Self)
        ensures
            r@ == (MonitorModel { max_consecutive_failures: max, ..self@ }),
    {
        let mut r = self;
        r.max_consecutive_failures = max;
        r
    }

    /// Sets the capacity of the history.
    pub fn with_max_history(self, max: usize) -> (r: Self)
        ensures
            r@ == (MonitorModel { max_history: max, ..self@ }),
    {
        let mut r = self;
        r.max_history = max;
        r
    }

    /// Sets the number of respawn attempts at which the limit counts as
    /// exceeded.
    pub fn with_max_respawn_attempts(self, max: u32) -> (r: Self)
        ensures
            r@ == (MonitorModel { max_respawn_attempts: max, ..self@ }),
    {
        let mut r = self;
        r.max_respawn_attempts = max;
        r
    }

    /// The current state of the child.
    pub fn state(&self) -> (r: SubprocessState)
        ensures
            r == self@.state,
    {
        self.state
    }

    /// Whether the child is considered healthy.
    pub fn is_healthy(&self) -> (r: bool)
        ensures
            r == self@.healthy,
    {
        self.is_healthy
    }

    /// The interval between checks.
    pub fn check_interval(&self) -> (r: Duration)
        ensures
            r == self@.check_interval,
    {
        self.check_interval
    }

    /// Clears counters, history and time marks.
    pub fn reset(&mut self)
        ensures
            final(self)@ == cleared(old(self)@),
    {
        self.is_healthy = false;
        self.consecutive_failures = 0;
        self.total_successes = 0;
        self.total_failures = 0;
        self.recent_results.clear();
        self.last_success_time = None;
        self.last_latency = None;
        self.start_time = None;
        assert(self@.history =~= Seq::empty());
    }

    /// Records a transition, given the reading of the monotonic clock at
    /// which it happens.
    pub fn set_state_at(&mut self, state: SubprocessState, now: Instant)
        ensures
            final(self)@ == entered(old(self)@, state, now),
    {
        let old_state = self.state;
        self.state = state;
        match state {
            SubprocessState::Running => {
                self.is_healthy = true;
                if old_state == SubprocessState::Starting {
                    self.start_time = Some(now);
                }
            },
            SubprocessState::Degraded | SubprocessState::Crashed | SubprocessState::Killed
            | SubprocessState::ShuttingDown => {
                self.is_healthy = false;
            },
            SubprocessState::Starting => {
                self.reset();
            },
            _ => {},
        }
    }

    /// Records a transition. Entering `Running` from `Starting` marks the
    /// start with a reading of the monotonic clock; everything else is fixed
    /// by the state entered.
    pub fn set_state(&mut self, state: SubprocessState)
        ensures
            exists|now: Instant| final(self)@ == entered(old(self)@, state, now),
            final(self)@.state == state,
    {
        let now = instant_now();
        self.set_state_at(state, now);
        assert(self@ == entered(old(self)@, state, now));
    }

    fn add_to_history(&mut self, result: HealthCheckResult)
        ensures
            final(self)@ == (MonitorModel {
                history: pushed(old(self)@.history, old(self)@.max_history, result@),
                ..old(self)@
            }),
    {
        let ghost before = self.recent_results@;
        if self.recent_results.len() >= self.max_history {
            let _ = self.recent_results.pop_front();
        }
        self.recent_results.push_back(result);
        proof {
            if before.len() > 0 && before.len() >= self.max_history {
                assert(self.recent_results@ =~= before.subrange(1, before.len() as int).push(
                    result,
                ));
                assert(samples_of(self.recent_results@) =~= samples_of(before).drop_first().push(
                    result@,
                ));
            } else {
                assert(self.recent_results@ =~= before.push(result));
                assert(samples_of(self.recent_results@) =~= samples_of(before).push(result@));
            }
        }
    }

    /// Records a successful check, given the readings of the monotonic clock
    /// and of the wall clock at which it is recorded.
    pub fn record_success_at(&mut self, latency: Duration, now: Instant, timestamp: u64)
        ensures
            final(self)@ == succeeded(old(self)@, latency, now, timestamp),
    {
        self.total_successes = self.total_successes.wrapping_add(1);
        self.consecutive_failures = 0;
        self.is_healthy = true;
        self.last_latency = Some(latency);
        self.last_success_time = Some(now);
        self.add_to_history(HealthCheckResult::success_at(timestamp, latency));
        if self.state == SubprocessState::Degraded {
            self.set_state_at(SubprocessState::Running, now);
        }
    }

    /// Records a successful check: one more success, no consecutive failures,
    /// healthy, the sample retained, and a degraded child running again.
    pub fn record_success(&mut self, latency: Duration)
        ensures
            exists|now: Instant, timestamp: u64|
                final(self)@ == succeeded(old(self)@, latency, now, timestamp),
    {
        let now = instant_now();
        let timestamp = unix_timestamp();
        self.record_success_at(latency, now, timestamp);
        assert(self@ == succeeded(old(self)@, latency, now, timestamp));
    }

    /// Records a failed check, given the reading of the wall clock at which
    /// it is recorded.
    pub fn record_failure_at(&mut self, error: &str, timestamp: u64)
        ensures
            final(self)@ == failed(old(self)@, error@, timestamp),
    {
        self.total_failures = self.total_failures.wrapping_add(1);
        let failures = self.consecutive_failures.wrapping_add(1);
        self.consecutive_failures = failures;
        self.add_to_history(HealthCheckResult::failure_at(timestamp, error));
        if failures >= self.max_consecutive_failures as u64 {
            self.is_healthy = false;
            if self.state == SubprocessState::Running {
                self.state = SubprocessState::Degraded;
            }
        }
    }

    /// Records a failed check: one more failure, the sample retained, and,
    /// once the consecutive failures reach the limit, not healthy and a
    /// running child degraded.
    pub fn record_failure(&mut self, error: &str)
        ensures
            exists|timestamp: u64| final(self)@ == failed(old(self)@, error@, timestamp),
    {
        let timestamp = unix_timestamp();
        self.record_failure_at(error, timestamp);
        assert(self@ == failed(old(self)@, error@, timestamp));
    }

    fn calculate_avg_latency(&self) -> (r: Option<u64>)
        ensures
            r == mean_latency(self@.history),
    {
        let ghost h = samples_of(self.recent_results@);
        let n = self.recent_results.len();
        let mut sum: u128 = 0;
        let mut count: u64 = 0;
        let mut i: usize = 0;
        while i < n
            invariant
                n == self.recent_results@.len(),
                h == samples_of(self.recent_results@),
                0 <= i <= n,
                sum == latency_sum(h.take(i as int)),
                count == latency_count(h.take(i as int)),
                count <= i,
                sum <= count * u64::MAX,
            decreases n - i,
        {
            proof {
                lemma_latency_step(h, i as int);
            }
            match self.recent_results[i].latency_ms {
                Some(l) => {
                    assert(sum + l <= (count + 1) * u64::MAX) by (nonlinear_arith)
                        requires
                            sum <= count * u64::MAX,
                            l <= u64::MAX,
                    ;
                    assert((count + 1) * u64::MAX <= u128::MAX) by (nonlinear_arith)
                        requires
                            count <= u64::MAX,
                    ;
                    sum = sum + l as u128;
                    count = count + 1;
                },
                None => {},
            }
            i = i + 1;
        }
        assert(h.take(n as int) =~= h);
        if count == 0 {
            None
        } else {
            proof {
                lemma_mean_fits(sum as nat, count as nat);
            }
            Some((sum / (count as u128)) as u64)
        }
    }

    /// The snapshot of the monitor for given clock readings: the wall clock
    /// in seconds since the Unix epoch, the time since the start and the time
    /// since the last success.
    pub fn status_with(&self, now_unix: u64, since_start: Duration, since_success: Duration) -> (r:
        HealthStatus)
        ensures
            r == snapshot(self@, now_unix, since_start, since_success),
    {
        let uptime = match self.start_time {
            Some(_) => Some(since_start.as_secs()),
            None => None,
        };
        let last_success = match self.last_success_time {
            Some(_) => Some(now_unix.saturating_sub(since_success.as_secs())),
            None => None,
        };
        let last_latency = match &self.last_latency {
            Some(d) => Some(millis_of(d)),
            None => None,
        };
        HealthStatus {
            state: self.state,
            is_healthy: self.is_healthy,
            last_success_time: last_success,
            last_latency_ms: last_latency,
            consecutive_failures: (self.consecutive_failures % 0x1_0000_0000) as u32,
            total_successes: self.total_successes,
            total_failures: self.total_failures,
            avg_latency_ms: self.calculate_avg_latency(),
            uptime_secs: uptime,
            respawn_attempts: (self.respawn_attempts % 0x1_0000_0000) as u32,
        }
    }

    /// The snapshot of the monitor. Uptime and the time of the last success
    /// come from the clocks; everything else is fixed by the monitor.
    pub fn status(&self) -> (r: HealthStatus)
        ensures
            exists|now_unix: u64, since_start: Duration, since_success: Duration|
                r == snapshot(self@, now_unix, since_start, since_success),
    {
        let since_start = match &self.start_time {
            Some(t) => instant_elapsed(t),
            None => Duration::from_secs(0),
        };
        let since_success = match &self.last_success_time {
            Some(t) => instant_elapsed(t),
            None => Duration::from_secs(0),
        };
        let now_unix = unix_timestamp();
        let r = self.status_with(now_unix, since_start, since_success);
        assert(r == snapshot(self@, now_unix, since_start, since_success));
        r
    }

    /// The retained samples, oldest first.
    pub fn recent_results(&self) -> (r: Vec<HealthCheckResult>)
        ensures
            samples_of(r@) == self@.history,
    {
        let n = self.recent_results.len();
        let mut out: Vec<HealthCheckResult> = Vec::with_capacity(n);
        let mut i: usize = 0;
        while i < n
            invariant
                n == self.recent_results@.len(),
                0 <= i <= n,
                out@.len() == i,
                samples_of(out@) == samples_of(self.recent_results@).take(i as int),
            decreases n - i,
        {
            let ghost before = out@;
            let copy = self.recent_results[i].copy();
            out.push(copy);
            assert(samples_of(out@) =~= samples_of(self.recent_results@).take(i + 1)) by {
                assert(samples_of(before) == samples_of(self.recent_results@).take(i as int));
                assert(out@ == before.push(copy));
                assert forall|j: int| 0 <= j < i + 1 implies samples_of(out@)[j] == samples_of(
                    self.recent_results@,
                ).take(i + 1)[j] by {
                    if j < i {
                        assert(samples_of(before)[j] == samples_of(self.recent_results@).take(
                            i as int,
                        )[j]);
                    }
                }
            }
            i = i + 1;
        }
        assert(samples_of(self.recent_results@).take(n as int) =~= samples_of(
            self.recent_results@,
        ));
        out
    }

    /// Counts one more respawn attempt and returns the new count.
    pub fn increment_respawn(&mut self) -> (r: u32)
        ensures
            final(self)@ == (MonitorModel {
                respawn_attempts: old(self)@.respawn_attempts.wrapping_add(1),
                ..old(self)@
            }),
            r == (final(self)@.respawn_attempts % 0x1_0000_0000) as u32,
    {
        self.respawn_attempts = self.respawn_attempts.wrapping_add(1);
        (self.respawn_attempts % 0x1_0000_0000) as u32
    }

    /// Sets the respawn counter back to zero.
    pub fn reset_respawn_counter(&mut self)
        ensures
            final(self)@ == (MonitorModel { respawn_attempts: 0, ..old(self)@ }),
    {
        self.respawn_attempts = 0;
    }

    /// Whether the respawn attempts have reached the configured maximum.
    pub fn respawn_limit_exceeded(&self) -> (r: bool)
        ensures
            r == (self@.respawn_attempts >= self@.max_respawn_attempts),
    {
        self.respawn_attempts >= self.max_respawn_attempts as u64
    }

    /// Marks the child as started at a given reading of the monotonic clock.
    pub fn mark_started_at(&mut self, now: Instant)
        ensures
            final(self)@ == (MonitorModel {
                started: Some(now),
                ..moved(old(self)@, SubprocessState::Running)
            }),
    {
        self.start_time = Some(now);
        self.set_state_at(SubprocessState::Running, now);
    }

    /// Marks the child as started: running, healthy, with a fresh start mark.
    pub fn mark_started(&mut self)
        ensures
            final(self)@.started is Some,
            final(self)@ == (MonitorModel {
                started: final(self)@.started,
                ..moved(old(self)@, SubprocessState::Running)
            }),
    {
        let now = instant_now();
        self.mark_started_at(now);
    }

    /// Marks the child as crashed, given the reading of the wall clock at
    /// which the failure is recorded.
    pub fn mark_crashed_at(&mut self, error: &str, timestamp: u64)
        ensures
            final(self)@ == failed(moved(old(self)@, SubprocessState::Crashed), error@, timestamp),
            final(self)@.state == SubprocessState::Crashed,
            !final(self)@.healthy,
    {
        self.state = SubprocessState::Crashed;
        self.is_healthy = false;
        self.record_failure_at(error, timestamp);
    }

    /// Marks the child as crashed: the state is `Crashed`, the child is not
    /// healthy, and a failure with the given text is recorded.
    pub fn mark_crashed(&mut self, error: &str)
        ensures
            exists|timestamp: u64|
                final(self)@ == failed(
                    moved(old(self)@, SubprocessState::Crashed),
                    error@,
                    timestamp,
                ),
            final(self)@.state == SubprocessState::Crashed,
            !final(self)@.healthy,
    {
        let timestamp = unix_timestamp();
        self.mark_crashed_at(error, timestamp);
        assert(self@ == failed(moved(old(self)@, SubprocessState::Crashed), error@, timestamp));
    }

    /// The time since the child was started, where it was.
    pub fn uptime(&self) -> (r: Option<Duration>)
        ensures
            r is Some <==> self@.started is Some,
    {
        match &self.start_time {
            Some(t) => Some(instant_elapsed(t)),
            None => None,
        }
    }

    /// Whether a check is due, given the time since the last success: when
    /// there was none yet, or when the interval has passed.
    pub fn check_due(&self, since_success: Duration) -> (r: bool)
        ensures
            r == due(self@, since_success),
    {
        match self.last_success_time {
            Some(_) => since_success.as_nanos() >= self.check_interval.as_nanos(),
            None => true,
        }
    }

    /// Whether a check is due: always when there was no success yet, else
    /// when the interval has passed on the monotonic clock.
    pub fn should_check(&self) -> (r: bool)
        ensures
            self@.last_success is None ==> r,
            exists|since_success: Duration| r == #[trigger] due(self@, since_success),
    {
        let since_success = match &self.last_success_time {
            Some(t) => instant_elapsed(t),
            None => Duration::from_secs(0),
        };
        let r = self.check_due(since_success);
        assert(r == due(self@, since_success));
        r
    }
}

impl Default for HealthMonitor {
    fn default() -> (r: Self)
        ensures
            r@ == fresh(r@.check_interval),
            duration_nanos(r@.check_interval) == HEALTH_CHECK_INTERVAL_SECS as nat * 1_000_000_000,
    {
        Self::with_defaults()
    }
}

} // verus!
