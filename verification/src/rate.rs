//! Fixed-window rate limiting: the decision computed over the shared
//! counter's value. The counter itself lives in an external store that
//! increments atomically per window; this module turns one counter reading
//! into the allowed/remaining/reset answer.

use vstd::prelude::*;

verus! {

/// The answer of one rate-limit check.
#[derive(Debug, Clone)]
pub struct RateLimitResponse {
    pub success: bool,
    pub limit: u32,
    pub remaining: u32,
    pub reset: u64,
}

/// The start of the fixed window containing `now_ms`.
pub open spec fn window_start(now_ms: int, window_ms: int) -> int {
    (now_ms / window_ms) * window_ms
}

/// The fixed-window decision for the `count`-th request of the current
/// window: allowed while the count is within the limit, with the remaining
/// budget and the timestamp at which the window resets.
pub fn fixed_window(count: u64, limit: u32, window_ms: u64, now_ms: u64) -> (r: RateLimitResponse)
    requires
        window_ms > 0,
        now_ms + window_ms <= u64::MAX,
    ensures
        r.success == (count <= limit),
        r.limit == limit,
        r.remaining == (if count < limit {
            limit - count
        } else {
            0
        }),
        r.reset == window_start(now_ms as int, window_ms as int) + window_ms,
{
    proof {
        assert((now_ms as int) / (window_ms as int) * (window_ms as int) <= now_ms as int)
            by (nonlinear_arith)
            requires
                window_ms > 0,
        ;
        assert((now_ms as int) / (window_ms as int) * (window_ms as int) >= 0) by (nonlinear_arith)
            requires
                window_ms > 0,
                now_ms >= 0,
        ;
    }
    let start = now_ms / window_ms * window_ms;
    let remaining: u32 = if count < limit as u64 {
        limit - count as u32
    } else {
        0
    };
    RateLimitResponse { success: count <= limit as u64, limit, remaining, reset: start + window_ms }
}

/// How many whole minutes a rejected caller is told to wait before the
/// window resets: the time to the reset, rounded up to at least one minute;
/// a reset already in the past reads as one minute.
pub fn retry_after_minutes(reset_ms: u64, now_ms: u64) -> (r: u64)
    ensures
        r == (if reset_ms >= now_ms {
            (reset_ms - now_ms) / 60000 + 1
        } else {
            1
        }),
{
    if reset_ms >= now_ms {
        proof {
            assert((reset_ms - now_ms) / 60000 < u64::MAX);
        }
        (reset_ms - now_ms) / 60000 + 1
    } else {
        1
    }
}

} // verus!
