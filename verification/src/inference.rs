//! Token-based rate limiting results for inference routes.

use vstd::prelude::*;

verus! {

/// Decision of one token rate-limit check.
#[derive(Debug, Clone, Copy, PartialEq, Eq, Structural)]
pub enum TokenRateLimitResult {
    /// The request may proceed
    Allowed,
    /// The request is limited; retry after the given delay
    Limited { retry_after_ms: u64 },
}

impl TokenRateLimitResult {
    /// True when the request may proceed.
    pub fn is_allowed(&self) -> (r: bool)
        ensures
            r == (*self is Allowed),
    {
        matches!(self, TokenRateLimitResult::Allowed)
    }

    /// Milliseconds to wait before retrying; zero when allowed.
    pub fn retry_after_ms(&self) -> (r: u64)
        ensures
            match *self {
                TokenRateLimitResult::Allowed => r == 0,
                TokenRateLimitResult::Limited { retry_after_ms } => r == retry_after_ms,
            },
    {
        match self {
            TokenRateLimitResult::Allowed => 0,
            TokenRateLimitResult::Limited { retry_after_ms } => *retry_after_ms,
        }
    }
}

/// Result of one inference rate-limit check.
#[derive(Debug, Clone)]
pub struct InferenceCheckResult {
    /// Rate-limit decision
    pub result: TokenRateLimitResult,
    /// Estimated tokens for the request
    pub estimated_tokens: u64,
    /// Model name, when detected
    pub model: Option<String>,
}

impl InferenceCheckResult {
    /// True when the request is allowed.
    pub fn is_allowed(&self) -> (r: bool)
        ensures
            r == (self.result is Allowed),
    {
        self.result.is_allowed()
    }

    /// Milliseconds to wait before retrying; zero when allowed.
    pub fn retry_after_ms(&self) -> (r: u64)
        ensures
            match self.result {
                TokenRateLimitResult::Allowed => r == 0,
                TokenRateLimitResult::Limited { retry_after_ms } => r == retry_after_ms,
            },
    {
        self.result.retry_after_ms()
    }
}

/// Stats for one route's inference rate limiter.
#[derive(Debug, Clone)]
pub struct InferenceRouteStats {
    /// Route ID
    pub route_id: String,
    /// Number of active rate-limit keys
    pub active_keys: usize,
    /// Configured tokens per minute
    pub tokens_per_minute: u64,
    /// Configured requests per minute, if any
    pub requests_per_minute: Option<u64>,
}

} // verus!
