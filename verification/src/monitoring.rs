//! Fault-tolerance and observability pieces: the circuit breaker's state
//! machine and the exporter handles. Clock-driven recovery and actual
//! metric shipping belong to the surrounding system.

use vstd::prelude::*;

verus! {

/// Health status
#[derive(Debug, Clone, PartialEq)]
pub enum HealthStatus {
    Healthy,
    Degraded(String),
    Unhealthy(String),
}

/// Health check result
#[derive(Debug, PartialEq)]
pub struct HealthCheckResult {
    pub name: String,
    pub status: HealthStatus,
    pub timestamp: u64,
}

/// Auto-scaling decision
#[derive(Debug, Clone, Copy, PartialEq, Eq, Structural)]
pub enum ScalingAction {
    ScaleUp(u32),
    ScaleDown(u32),
    ScaleTo(u32),
}

/// Circuit state
#[derive(Debug, Clone, Copy, PartialEq, Eq, Structural)]
pub enum CircuitState {
    Closed,
    Open,
    HalfOpen,
}

/// Circuit breaker error
#[derive(Debug, PartialEq)]
pub enum CircuitBreakerError {
    CircuitOpen,
    OperationFailed(String),
}

/// Circuit breaker for fault tolerance: closed passes calls through, open
/// rejects them, half-open probes with one call.
pub struct CircuitBreaker {
    pub name: String,
    pub failure_threshold: u32,
    pub recovery_timeout_secs: u64,
    pub state: CircuitState,
}

impl CircuitBreaker {
    /// Create a new circuit breaker, closed.
    pub fn new(name: &str, failure_threshold: u32, recovery_timeout_secs: u64) -> (r:
        CircuitBreaker)
        ensures
            r.name@ == name@,
            r.failure_threshold == failure_threshold,
            r.recovery_timeout_secs == recovery_timeout_secs,
            r.state == CircuitState::Closed,
    {
        CircuitBreaker {
            name: name.to_owned(),
            failure_threshold,
            recovery_timeout_secs,
            state: CircuitState::Closed,
        }
    }

    /// Run one operation under the breaker. Open rejects without calling
    /// the operation; half-open probes once, closing on its success and
    /// opening on its failure; closed passes its outcome through, mapping a
    /// failure to `OperationFailed` with the operation's own message.
    pub fn execute<T, F: FnOnce() -> Result<T, String>>(&mut self, f: F) -> (r: Result<
        T,
        CircuitBreakerError,
    >)
        requires
            call_requires(f, ()),
        ensures
            old(self).state == CircuitState::Open ==> (r matches Err(
                CircuitBreakerError::CircuitOpen,
            ) && final(self).state == CircuitState::Open),
            old(self).state == CircuitState::HalfOpen ==> match r {
                Result::Ok(v) => final(self).state == CircuitState::Closed && call_ensures(
                    f,
                    (),
                    Result::<T, String>::Ok(v),
                ),
                Result::Err(e) => e is CircuitOpen && final(self).state == CircuitState::Open
                    && exists|m: String| call_ensures(f, (), Result::<T, String>::Err(m)),
            },
            old(self).state == CircuitState::Closed ==> final(self).state == CircuitState::Closed
                && match r {
                Result::Ok(v) => call_ensures(f, (), Result::<T, String>::Ok(v)),
                Result::Err(e) => e matches CircuitBreakerError::OperationFailed(m)
                    && call_ensures(f, (), Result::<T, String>::Err(m)),
            },
            final(self).name == old(self).name,
            final(self).failure_threshold == old(self).failure_threshold,
            final(self).recovery_timeout_secs == old(self).recovery_timeout_secs,
    {
        match self.state {
            CircuitState::Open => Err(CircuitBreakerError::CircuitOpen),
            CircuitState::HalfOpen => {
                match f() {
                    Ok(v) => {
                        self.state = CircuitState::Closed;
                        Ok(v)
                    },
                    Err(_) => {
                        self.state = CircuitState::Open;
                        Err(CircuitBreakerError::CircuitOpen)
                    },
                }
            },
            CircuitState::Closed => {
                match f() {
                    Ok(v) => Ok(v),
                    Err(e) => Err(CircuitBreakerError::OperationFailed(e)),
                }
            },
        }
    }

    /// Get current state
    pub fn get_state(&self) -> (r: CircuitState)
        ensures
            r == self.state,
    {
        self.state
    }
}

/// Exporter handle for a pull-based metrics endpoint.
pub struct PrometheusExporter {
    pub endpoint: String,
}

impl PrometheusExporter {
    pub fn new(endpoint: String) -> (r: PrometheusExporter)
        ensures
            r.endpoint@ == endpoint@,
    {
        PrometheusExporter { endpoint }
    }
}

/// Exporter handle for a push-based time-series store.
pub struct InfluxDbExporter {
    pub url: String,
    pub database: String,
    pub token: String,
}

impl InfluxDbExporter {
    pub fn new(url: String, database: String, token: String) -> (r: InfluxDbExporter)
        ensures
            r.url@ == url@,
            r.database@ == database@,
            r.token@ == token@,
    {
        InfluxDbExporter { url, database, token }
    }
}

} // verus!
