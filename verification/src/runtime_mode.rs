//! Runtime health: the circuit breaker that guards RPC calls, the health
//! monitor that collects component checks, and the runtime modes.

use vstd::prelude::*;

use crate::strmap::StrMap;

verus! {

/// State of a circuit breaker.
#[derive(Clone, Copy, Debug, PartialEq, Eq, Structural)]
pub enum CircuitBreakerState {
    /// Requests flow; failures are counted.
    Closed,
    /// Requests are blocked until the recovery timeout has passed.
    Open,
    /// Requests flow on trial; successes are counted.
    HalfOpen,
}

/// Consecutive failures that open a closed breaker.
pub const FAILURE_THRESHOLD: u32 = 5;

/// Consecutive successes that close a half-open breaker.
pub const SUCCESS_THRESHOLD: u32 = 2;

/// Milliseconds an open breaker stays open before it may try recovery.
pub const RECOVERY_TIMEOUT_MS: u64 = 50;

/// A circuit breaker over RPC calls.
#[derive(Clone, Copy, Debug)]
pub struct CircuitBreaker {
    /// Current state.
    pub state: CircuitBreakerState,
    /// Consecutive failures while closed.
    pub failure_count: u32,
    /// Consecutive successes while half-open.
    pub success_count: u32,
    /// When the breaker last opened, in milliseconds since the Unix epoch.
    pub opened_at_ms: u64,
}

/// The breaker after a successful request.
pub open spec fn after_success(b: CircuitBreaker) -> CircuitBreaker {
    match b.state {
        CircuitBreakerState::Closed => CircuitBreaker { failure_count: 0, ..b },
        CircuitBreakerState::HalfOpen => if b.success_count + 1 >= SUCCESS_THRESHOLD {
            CircuitBreaker {
                state: CircuitBreakerState::Closed,
                failure_count: 0,
                success_count: 0,
                ..b
            }
        } else {
            CircuitBreaker { success_count: (b.success_count + 1) as u32, ..b }
        },
        CircuitBreakerState::Open => b,
    }
}

/// The breaker after a failed request at time `now_ms`.
pub open spec fn after_failure(b: CircuitBreaker, now_ms: u64) -> CircuitBreaker {
    match b.state {
        CircuitBreakerState::Closed => if b.failure_count + 1 >= FAILURE_THRESHOLD {
            CircuitBreaker {
                state: CircuitBreakerState::Open,
                failure_count: 0,
                success_count: 0,
                opened_at_ms: now_ms,
            }
        } else {
            CircuitBreaker { failure_count: (b.failure_count + 1) as u32, ..b }
        },
        CircuitBreakerState::HalfOpen => CircuitBreaker {
            state: CircuitBreakerState::Open,
            failure_count: 0,
            success_count: 0,
            opened_at_ms: now_ms,
        },
        CircuitBreakerState::Open => b,
    }
}

impl CircuitBreaker {
    /// The counters stay below the thresholds that change the state.
    pub open spec fn wf(self) -> bool {
        &&& self.state is Closed ==> self.failure_count < FAILURE_THRESHOLD
        &&& self.state is HalfOpen ==> self.success_count < SUCCESS_THRESHOLD
    }

    /// A closed breaker with no failures.
    pub fn new() -> (b: CircuitBreaker)
        ensures
            b.wf(),
            b.state is Closed,
            b.failure_count == 0,
            b.success_count == 0,
            b.opened_at_ms == 0,
    {
        CircuitBreaker {
            state: CircuitBreakerState::Closed,
            failure_count: 0,
            success_count: 0,
            opened_at_ms: 0,
        }
    }

    /// The current state.
    pub fn state(&self) -> (s: CircuitBreakerState)
        ensures
            s == self.state,
    {
        self.state
    }

    /// Whether a request may go out: always, unless the breaker is open.
    pub fn allow_request(&self) -> (r: bool)
        ensures
            r == !(self.state is Open),
    {
        match self.state {
            CircuitBreakerState::Open => false,
            _ => true,
        }
    }

    /// Records a successful request: a closed breaker forgets its failures,
    /// a half-open one closes after `SUCCESS_THRESHOLD` successes.
    pub fn record_success(&mut self)
        requires
            old(self).wf(),
        ensures
            final(self).wf(),
            *final(self) == after_success(*old(self)),
    {
        match self.state {
            CircuitBreakerState::Closed => {
                self.failure_count = 0;
            },
            CircuitBreakerState::HalfOpen => {
                if self.success_count + 1 >= SUCCESS_THRESHOLD {
                    self.state = CircuitBreakerState::Closed;
                    self.failure_count = 0;
                    self.success_count = 0;
                } else {
                    self.success_count = self.success_count + 1;
                }
            },
            CircuitBreakerState::Open => {},
        }
    }

    /// Records a failed request at time `now_ms`: a closed breaker opens
    /// after `FAILURE_THRESHOLD` failures, a half-open one opens at once.
    pub fn record_failure_at(&mut self, now_ms: u64)
        requires
            old(self).wf(),
        ensures
            final(self).wf(),
            *final(self) == after_failure(*old(self), now_ms),
    {
        match self.state {
            CircuitBreakerState::Closed => {
                if self.failure_count + 1 >= FAILURE_THRESHOLD {
                    self.state = CircuitBreakerState::Open;
                    self.opened_at_ms = now_ms;
                    self.failure_count = 0;
                    self.success_count = 0;
                } else {
                    self.failure_count = self.failure_count + 1;
                }
            },
            CircuitBreakerState::HalfOpen => {
                self.state = CircuitBreakerState::Open;
                self.opened_at_ms = now_ms;
                self.failure_count = 0;
                self.success_count = 0;
            },
            CircuitBreakerState::Open => {},
        }
    }

    /// Records a failed request now, by the system clock.
    pub fn record_failure(&mut self)
        requires
            old(self).wf(),
        ensures
            final(self).wf(),
            exists|now_ms: u64| *final(self) == #[trigger] after_failure(*old(self), now_ms),
    {
        let now_ms = crate::clock::unix_time_millis();
        self.record_failure_at(now_ms);
    }

    /// Tries recovery at time `now_ms`: an open breaker whose recovery
    /// timeout has passed becomes half-open. Returns whether requests may
    /// go out afterwards.
    pub fn attempt_recovery_at(&mut self, now_ms: u64) -> (r: bool)
        requires
            old(self).wf(),
        ensures
            final(self).wf(),
            (old(self).state is Open && now_ms >= old(self).opened_at_ms + RECOVERY_TIMEOUT_MS) ==> (
            final(self).state is HalfOpen && final(self).success_count == 0 && final(self).failure_count
                == 0 && final(self).opened_at_ms == old(self).opened_at_ms),
            !(old(self).state is Open && now_ms >= old(self).opened_at_ms + RECOVERY_TIMEOUT_MS) ==> *final(self) == *old(self),
            r == !(final(self).state is Open),
    {
        match self.state {
            CircuitBreakerState::Open => {
                if now_ms >= self.opened_at_ms && now_ms - self.opened_at_ms >= RECOVERY_TIMEOUT_MS {
                    self.state = CircuitBreakerState::HalfOpen;
                    self.success_count = 0;
                    self.failure_count = 0;
                    true
                } else {
                    false
                }
            },
            _ => true,
        }
    }

    /// Tries recovery now, by the system clock.
    pub fn attempt_recovery(&mut self) -> (r: bool)
        requires
            old(self).wf(),
        ensures
            final(self).wf(),
            r == !(final(self).state is Open),
            !(old(self).state is Open) ==> *final(self) == *old(self),
            old(self).state is Open ==> (final(self).state is Open && *final(self) == *old(self)) || (
            final(self).state is HalfOpen && final(self).success_count == 0 && final(self).failure_count
                == 0 && final(self).opened_at_ms == old(self).opened_at_ms),
    {
        let now_ms = crate::clock::unix_time_millis();
        self.attempt_recovery_at(now_ms)
    }
}

/// From a fresh breaker, `FAILURE_THRESHOLD` failures in a row open it,
/// and neither a success nor a failure moves an open breaker: only a
/// recovery attempt does.
pub proof fn lemma_failures_open_breaker(b: CircuitBreaker, t1: u64, t2: u64, t3: u64, t4: u64, t5: u64)
    requires
        b.state is Closed,
        b.failure_count == 0,
    ensures
        after_failure(after_failure(after_failure(after_failure(after_failure(b, t1), t2), t3), t4), t5).state
            is Open,
        after_success(after_failure(after_failure(after_failure(after_failure(after_failure(b, t1), t2), t3), t4), t5))
            == after_failure(after_failure(after_failure(after_failure(after_failure(b, t1), t2), t3), t4), t5),
{
}

/// A half-open breaker closes after `SUCCESS_THRESHOLD` successes in a
/// row, with its counters reset.
pub proof fn lemma_successes_close_breaker(b: CircuitBreaker)
    requires
        b.wf(),
        b.state is HalfOpen,
        b.success_count == 0,
    ensures
        after_success(after_success(b)).state is Closed,
        after_success(after_success(b)).failure_count == 0,
        after_success(after_success(b)).success_count == 0,
{
}

/// Operating mode of the runtime.
#[derive(Clone, Copy, Debug, PartialEq, Eq, Structural)]
pub enum RuntimeMode {
    /// Every component is healthy.
    Normal,
    /// Some component failed its latest check.
    Degraded,
    /// Safety checks are relaxed by the operator.
    Unsafe,
}

impl RuntimeMode {
    /// Whether RPC fallback is allowed: outside normal mode.
    pub fn allows_rpc_fallback(&self) -> (r: bool)
        ensures
            r == !(*self is Normal),
    {
        match self {
            RuntimeMode::Normal => false,
            _ => true,
        }
    }

    /// Whether an operator must confirm each operation: in unsafe mode.
    pub fn requires_operator_confirmation(&self) -> (r: bool)
        ensures
            r == (*self is Unsafe),
    {
        match self {
            RuntimeMode::Unsafe => true,
            _ => false,
        }
    }
}

/// Health of the runtime.
#[derive(Clone, Copy, Debug, PartialEq, Eq, Structural)]
pub enum HealthStatus {
    /// Every component's latest check passed.
    Healthy,
    /// Some component's latest check failed.
    Degraded,
}

/// The result of one check of one component.
#[derive(Clone, Debug)]
pub struct HealthCheck {
    /// The checked component.
    pub component: String,
    /// Whether the component is healthy.
    pub healthy: bool,
    /// What failed, if the check did.
    pub error: Option<String>,
    /// When the check ran, in seconds since the Unix epoch.
    pub timestamp_secs: u64,
}

/// The latest check of each component.
pub struct HealthMonitor {
    latest: StrMap<bool>,
}

/// The status that a map of components to their latest health gives.
pub open spec fn health_of(latest: Map<Seq<char>, bool>) -> HealthStatus {
    if exists|k: Seq<char>| latest.contains_key(k) && !#[trigger] latest[k] {
        HealthStatus::Degraded
    } else {
        HealthStatus::Healthy
    }
}

impl HealthMonitor {
    /// Each checked component with the health of its latest check.
    pub closed spec fn latest(self) -> Map<Seq<char>, bool> {
        self.latest.as_map()
    }

    /// A monitor that has seen no check.
    pub fn new() -> (m: HealthMonitor)
        ensures
            m.latest() == Map::<Seq<char>, bool>::empty(),
    {
        HealthMonitor { latest: StrMap::new() }
    }

    /// Records a check; it replaces the component's earlier one.
    pub fn record_check(&mut self, check: HealthCheck)
        ensures
            final(self).latest() == old(self).latest().insert(check.component@, check.healthy),
    {
        self.latest.set(check.component, check.healthy);
    }

    /// The current status.
    pub fn status(&self) -> (s: HealthStatus)
        ensures
            s == health_of(self.latest()),
    {
        self.latest.lemma_well_formed();
        let n = self.latest.len();
        let mut i: usize = 0;
        while i < n
            invariant
                n == self.latest.entries().len(),
                i <= n,
                forall|j: int| 0 <= j < i ==> (#[trigger] self.latest.entries()[j]).1,
            decreases n - i,
        {
            if !self.latest.entry_at(i).1 {
                self.latest.lemma_well_formed();
                proof {
                    let k = self.latest.entries()[i as int].0@;
                    assert(self.latest.as_map().contains_key(k));
                    assert(!self.latest()[k]);
                }
                return HealthStatus::Degraded;
            }
            i = i + 1;
        }
        proof {
            assert forall|k: Seq<char>| self.latest().contains_key(k) implies #[trigger] self.latest()[k] by {
                let j = choose|j: int| 0 <= j < self.latest.entries().len() && (#[trigger] self.latest.entries()[j]).0@ == k;
                assert(self.latest.as_map()[self.latest.entries()[j].0@] == self.latest.entries()[j].1);
            }
        }
        HealthStatus::Healthy
    }

    /// The runtime mode that the current status calls for.
    pub fn mode(&self) -> (m: RuntimeMode)
        ensures
            m == match health_of(self.latest()) {
                HealthStatus::Healthy => RuntimeMode::Normal,
                HealthStatus::Degraded => RuntimeMode::Degraded,
            },
    {
        match self.status() {
            HealthStatus::Healthy => RuntimeMode::Normal,
            HealthStatus::Degraded => RuntimeMode::Degraded,
        }
    }
}

/// A failed check degrades the runtime until the component passes a later
/// check.
pub proof fn lemma_failed_check_degrades(latest: Map<Seq<char>, bool>, component: Seq<char>)
    ensures
        health_of(latest.insert(component, false)) == HealthStatus::Degraded,
{
    assert(latest.insert(component, false).contains_key(component));
    assert(!latest.insert(component, false)[component]);
}

} // verus!
