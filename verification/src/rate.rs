//! The rate budget: decides how long to pause before a request so that
//! server-declared limits are respected, and updates itself from the
//! rate-limit headers of each response.

use vstd::prelude::*;

use crate::codec::spec_parse_rate_number;
use crate::codec::parse_rate_number;

verus! {

/// How to pace requests against the rate budget.
#[derive(Debug, Copy, Clone, PartialEq, Eq, Structural)]
pub enum LimitMethod {
    /// Spread the remaining requests evenly across the remaining window.
    Steady,
    /// Send as fast as possible; pause until reset only once the budget is
    /// exhausted.
    Burst,
}

/// The server-declared rate budget. All times are in milliseconds on the
/// caller's clock; the caller passes the same clock's reading as `now`.
#[derive(Debug, Clone, PartialEq, Eq, Structural)]
pub struct RateBudget {
    /// Requests used in the current window, as last declared by the server.
    pub used: i32,
    /// Requests remaining in the current window; `None` until first observed.
    pub remaining: Option<i32>,
    /// When the window resets, as last declared by the server.
    pub reset_at: u64,
}

/// The delay a budget imposes at time `now` under the given strategy.
///
/// Steady: the time left until reset divided by the remaining requests
/// (at least one), so pacing self-corrects as the budget shrinks. Burst:
/// the whole time left until reset, but only once the budget is exhausted.
/// A budget never observed, or a reset horizon already passed, imposes no
/// delay.
pub open spec fn spec_throttle_delay(b: RateBudget, now: u64, method: LimitMethod) -> u64 {
    match b.remaining {
        None => 0u64,
        Some(rem) => {
            if now >= b.reset_at {
                0u64
            } else {
                match method {
                    LimitMethod::Steady => {
                        let div: u64 = if rem >= 1 {
                            rem as u64
                        } else {
                            1u64
                        };
                        ((b.reset_at - now) as u64 / div) as u64
                    },
                    LimitMethod::Burst => {
                        if rem <= 0 {
                            (b.reset_at - now) as u64
                        } else {
                            0u64
                        }
                    },
                }
            }
        },
    }
}

/// The budget after observing the three rate-limit headers of one response,
/// each given as the raw header bytes or `None` when the header was absent.
/// A header that is absent, does not read as a number, or does not fit its
/// field leaves that field unchanged; the reset header is a span of seconds
/// and is anchored at `now`.
pub open spec fn spec_observe(
    b: RateBudget,
    used: Option<Seq<u8>>,
    remaining: Option<Seq<u8>>,
    reset: Option<Seq<u8>>,
    now: u64,
) -> RateBudget {
    let new_used: i32 = match used {
        Some(h) => match spec_parse_rate_number(h) {
            Some(v) => if v <= i32::MAX {
                v as i32
            } else {
                b.used
            },
            None => b.used,
        },
        None => b.used,
    };
    let new_remaining: Option<i32> = match remaining {
        Some(h) => match spec_parse_rate_number(h) {
            Some(v) => if v <= i32::MAX {
                Some(v as i32)
            } else {
                b.remaining
            },
            None => b.remaining,
        },
        None => b.remaining,
    };
    let new_reset: u64 = match reset {
        Some(h) => match spec_parse_rate_number(h) {
            Some(v) => crate::codec::spec_ms_horizon(now, v),
            None => b.reset_at,
        },
        None => b.reset_at,
    };
    RateBudget { used: new_used, remaining: new_remaining, reset_at: new_reset }
}


impl RateBudget {
    /// A budget that has never observed any rate-limit header.
    pub fn new() -> (r: RateBudget)
        ensures
            r == (RateBudget { used: 0, remaining: None::<i32>, reset_at: 0u64 }),
    {
        RateBudget { used: 0, remaining: None, reset_at: 0 }
    }

    /// How long to pause before sending at time `now` under `method`,
    /// in milliseconds.
    pub fn throttle_delay(&self, now: u64, method: LimitMethod) -> (r: u64)
        ensures
            r == spec_throttle_delay(*self, now, method),
    {
        match self.remaining {
            None => 0,
            Some(rem) => {
                if now >= self.reset_at {
                    0
                } else {
                    match method {
                        LimitMethod::Steady => {
                            let div: u64 = if rem >= 1 {
                                rem as u64
                            } else {
                                1
                            };
                            (self.reset_at - now) / div
                        },
                        LimitMethod::Burst => {
                            if rem <= 0 {
                                self.reset_at - now
                            } else {
                                0
                            }
                        },
                    }
                }
            },
        }
    }

    /// Updates the budget from the rate-limit headers of one response.
    /// Headers may be absent; an absent or unreadable header leaves its
    /// field unchanged.
    pub fn observe(
        &mut self,
        used: Option<&Vec<u8>>,
        remaining: Option<&Vec<u8>>,
        reset: Option<&Vec<u8>>,
        now: u64,
    )
        ensures
            *final(self) == spec_observe(
                *old(self),
                match used {
                    Some(h) => Some(h@),
                    None => None,
                },
                match remaining {
                    Some(h) => Some(h@),
                    None => None,
                },
                match reset {
                    Some(h) => Some(h@),
                    None => None,
                },
                now,
            ),
    {
        if let Some(h) = used {
            if let Some(v) = parse_rate_number(h) {
                if v <= i32::MAX as u64 {
                    self.used = v as i32;
                }
            }
        }
        if let Some(h) = remaining {
            if let Some(v) = parse_rate_number(h) {
                if v <= i32::MAX as u64 {
                    self.remaining = Some(v as i32);
                }
            }
        }
        if let Some(h) = reset {
            if let Some(v) = parse_rate_number(h) {
                self.reset_at = crate::codec::ms_horizon(now, v);
            }
        }
    }
}

} // verus!
