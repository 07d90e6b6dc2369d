//! Per-agent circuit breaker: closed, open, half-open.
//!
//! Failures and timeouts count alike; a success resets the closed
//! state and advances the half-open trials.  The clock is supplied by
//! the caller as plain milliseconds.

use vstd::prelude::*;

verus! {

/// Breaker parameters.
#[derive(Debug, Clone, Copy, PartialEq, Eq, Structural)]
pub struct CircuitBreakerConfig {
    /// Consecutive failures that open the breaker
    pub failure_threshold: u32,
    /// How long the breaker stays open, in milliseconds
    pub open_duration_ms: u64,
    /// Successful half-open trials needed to close again
    pub half_open_trials: u32,
}

impl Default for CircuitBreakerConfig {
    /// Five failures open the breaker for thirty seconds; three
    /// successful trials close it again.
    fn default() -> (c: CircuitBreakerConfig)
        ensures
            c.failure_threshold == 5,
            c.open_duration_ms == 30000,
            c.half_open_trials == 3,
    {
        CircuitBreakerConfig {
            failure_threshold: 5,
            open_duration_ms: 30000,
            half_open_trials: 3,
        }
    }
}

/// Breaker state.
#[derive(Debug, Clone, Copy, PartialEq, Eq, Structural)]
pub enum BreakerState {
    /// Calls flow; consecutive failures are counted
    Closed { failures: u32 },
    /// Calls are short-circuited since the given time
    Open { since_ms: u64 },
    /// A limited number of trial calls are allowed through
    HalfOpen { successes: u32 },
}

/// Saturating increment on a 32-bit counter.
pub open spec fn spec_inc32(n: u32) -> u32 {
    if n < u32::MAX { (n + 1) as u32 } else { n }
}

/// The state after one failure or timeout at time `now_ms`.
pub open spec fn spec_on_failure(s: BreakerState, c: CircuitBreakerConfig, now_ms: u64)
    -> BreakerState {
    match s {
        BreakerState::Closed { failures } => {
            if spec_inc32(failures) >= c.failure_threshold {
                BreakerState::Open { since_ms: now_ms }
            } else {
                BreakerState::Closed { failures: spec_inc32(failures) }
            }
        },
        BreakerState::Open { since_ms } => BreakerState::Open { since_ms },
        BreakerState::HalfOpen { .. } => BreakerState::Open { since_ms: now_ms },
    }
}

/// The state after one success.
pub open spec fn spec_on_success(s: BreakerState, c: CircuitBreakerConfig) -> BreakerState {
    match s {
        BreakerState::Closed { .. } => BreakerState::Closed { failures: 0 },
        BreakerState::Open { since_ms } => BreakerState::Open { since_ms },
        BreakerState::HalfOpen { successes } => {
            if spec_inc32(successes) >= c.half_open_trials {
                BreakerState::Closed { failures: 0 }
            } else {
                BreakerState::HalfOpen { successes: spec_inc32(successes) }
            }
        },
    }
}

/// Whether a call may go out at time `now_ms`, and the state after
/// asking: an expired open breaker turns half-open.
pub open spec fn spec_allow(s: BreakerState, c: CircuitBreakerConfig, now_ms: u64)
    -> (bool, BreakerState) {
    match s {
        BreakerState::Closed { .. } => (true, s),
        BreakerState::Open { since_ms } => {
            if now_ms >= since_ms && now_ms - since_ms >= c.open_duration_ms {
                (true, BreakerState::HalfOpen { successes: 0 })
            } else {
                (false, s)
            }
        },
        BreakerState::HalfOpen { .. } => (true, s),
    }
}

/// Per-agent circuit breaker.
#[derive(Debug, Clone, Copy, PartialEq, Eq, Structural)]
pub struct CircuitBreaker {
    /// Parameters
    pub config: CircuitBreakerConfig,
    /// Current state
    pub state: BreakerState,
}

impl CircuitBreaker {
    /// Fresh breaker: closed with no failures counted.
    pub fn new(config: CircuitBreakerConfig) -> (b: CircuitBreaker)
        ensures
            b.config == config,
            b.state == (BreakerState::Closed { failures: 0u32 }),
    {
        CircuitBreaker { config, state: BreakerState::Closed { failures: 0 } }
    }

    /// True while the breaker is closed.
    pub fn is_closed(&self) -> (r: bool)
        ensures
            r == (self.state is Closed),
    {
        matches!(self.state, BreakerState::Closed { .. })
    }

    /// Record a failed call.
    pub fn record_failure(&mut self, now_ms: u64)
        ensures
            final(self).config == old(self).config,
            final(self).state == spec_on_failure(old(self).state, old(self).config, now_ms),
    {
        match self.state {
            BreakerState::Closed { failures } => {
                let f = if failures < u32::MAX { failures + 1 } else { failures };
                if f >= self.config.failure_threshold {
                    self.state = BreakerState::Open { since_ms: now_ms };
                } else {
                    self.state = BreakerState::Closed { failures: f };
                }
            },
            BreakerState::Open { .. } => {},
            BreakerState::HalfOpen { .. } => {
                self.state = BreakerState::Open { since_ms: now_ms };
            },
        }
    }

    /// Record a timed-out call; a timeout counts as a failure.
    pub fn record_timeout(&mut self, now_ms: u64)
        ensures
            final(self).config == old(self).config,
            final(self).state == spec_on_failure(old(self).state, old(self).config, now_ms),
    {
        self.record_failure(now_ms);
    }

    /// Record a successful call.
    pub fn record_success(&mut self)
        ensures
            final(self).config == old(self).config,
            final(self).state == spec_on_success(old(self).state, old(self).config),
    {
        match self.state {
            BreakerState::Closed { .. } => {
                self.state = BreakerState::Closed { failures: 0 };
            },
            BreakerState::Open { .. } => {},
            BreakerState::HalfOpen { successes } => {
                let t = if successes < u32::MAX { successes + 1 } else { successes };
                if t >= self.config.half_open_trials {
                    self.state = BreakerState::Closed { failures: 0 };
                } else {
                    self.state = BreakerState::HalfOpen { successes: t };
                }
            },
        }
    }

    /// Ask whether a call may go out now; an open breaker whose
    /// duration has passed becomes half-open and lets it through.
    pub fn allow_request(&mut self, now_ms: u64) -> (r: bool)
        ensures
            final(self).config == old(self).config,
            r == spec_allow(old(self).state, old(self).config, now_ms).0,
            final(self).state == spec_allow(old(self).state, old(self).config, now_ms).1,
    {
        match self.state {
            BreakerState::Closed { .. } => true,
            BreakerState::Open { since_ms } => {
                if now_ms >= since_ms && now_ms - since_ms >= self.config.open_duration_ms {
                    self.state = BreakerState::HalfOpen { successes: 0 };
                    true
                } else {
                    false
                }
            },
            BreakerState::HalfOpen { .. } => true,
        }
    }
}

} // verus!
