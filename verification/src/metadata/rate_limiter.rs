//! The call budget of a provider.

use vstd::prelude::*;
use crate::error::{AppError, AppErrorView};
use crate::metadata::models::RateLimit;

verus! {

/// What a caller is told when it asks for a call.
#[derive(Debug, Clone, Copy, PartialEq, Eq, Structural)]
pub enum Admission {
    /// The call may go out now.
    Granted,
    /// The budget of this window is spent: ask again after so many seconds.
    Wait { seconds: u64 },
}

/// The mathematical value of a [`RateLimiter`]: its budget, the second at
/// which the current window began, and the calls granted in it.
pub struct LimiterState {
    pub limit: RateLimit,
    pub window_start: u64,
    pub used: u32,
}

impl LimiterState {
    /// The budget allows at least one call, and no more calls were granted in
    /// the window than it allows.
    pub open spec fn wf(self) -> bool {
        &&& self.limit.calls >= 1
        &&& self.used <= self.limit.calls
    }

    /// At `now` the window is over: its length has passed since it began. A
    /// clock that went back behind the start of the window begins a new one.
    pub open spec fn window_over(self, now: u64) -> bool {
        now < self.window_start || now - self.window_start >= self.limit.per_seconds
    }

    /// How many seconds of the window are left at `now`.
    pub open spec fn seconds_left(self, now: u64) -> int {
        self.limit.per_seconds - (now - self.window_start)
    }

    /// The state after a caller asked at `now`, and what it was told. A new
    /// window begins with its first call; within a window calls are granted
    /// while the budget lasts, and after that the caller waits for the rest of
    /// the window.
    pub open spec fn acquire(self, now: u64) -> (LimiterState, Admission) {
        if self.window_over(now) {
            (LimiterState { window_start: now, used: 1, ..self }, Admission::Granted)
        } else if self.used < self.limit.calls {
            (LimiterState { used: (self.used + 1) as u32, ..self }, Admission::Granted)
        } else {
            (self, Admission::Wait { seconds: self.seconds_left(now) as u64 })
        }
    }

    /// How many of the requests at `times`, asked in that order, are granted.
    pub open spec fn granted(self, times: Seq<u64>) -> nat
        decreases times.len(),
    {
        if times.len() == 0 {
            0
        } else {
            let (next, admission) = self.acquire(times[0]);
            let rest = next.granted(times.drop_first());
            if admission is Granted {
                1 + rest
            } else {
                rest
            }
        }
    }

    /// Every one of `times` lies in the current window.
    pub open spec fn all_in_window(self, times: Seq<u64>) -> bool {
        forall|i: int| 0 <= i < times.len() ==> !self.window_over(#[trigger] times[i])
    }
}

/// The call budget of one provider, kept over fixed windows.
#[derive(Debug)]
pub struct RateLimiter {
    limit: RateLimit,
    window_start: u64,
    used: u32,
}

impl View for RateLimiter {
    type V = LimiterState;

    closed spec fn view(&self) -> LimiterState {
        LimiterState { limit: self.limit, window_start: self.window_start, used: self.used }
    }
}

/// The message of the error for a budget that allows no call.
pub open spec fn empty_budget_message() -> Seq<char> {
    "rate limit must allow at least one call"@
}

impl RateLimiter {
    #[verifier::type_invariant]
    spec fn well_formed(&self) -> bool {
        self@.wf()
    }

    /// A limiter whose first window begins at `now` with nothing spent. A
    /// budget of no calls could never grant one and is refused.
    pub fn new(limit: RateLimit, now: u64) -> (made: Result<RateLimiter, AppError>)
        ensures
            limit.calls >= 1 ==> made is Ok && made->Ok_0@ == (LimiterState {
                limit,
                window_start: now,
                used: 0,
            }),
            limit.calls == 0 ==> made is Err && made->Err_0@ == AppErrorView::Config(
                empty_budget_message(),
            ),
    {
        if limit.calls == 0 {
            Err(AppError::ConfigError("rate limit must allow at least one call".to_owned()))
        } else {
            Ok(RateLimiter { limit, window_start: now, used: 0 })
        }
    }

    /// The budget.
    pub fn limit(&self) -> (limit: RateLimit)
        ensures
            limit == self@.limit,
            self@.wf(),
    {
        proof {
            use_type_invariant(self);
        }
        self.limit
    }

    /// How many calls the current window still allows at `now`.
    pub fn available(&self, now: u64) -> (calls: u32)
        ensures
            self@.wf(),
            calls == if self@.window_over(now) {
                self@.limit.calls as int
            } else {
                self@.limit.calls - self@.used
            },
    {
        proof {
            use_type_invariant(self);
        }
        if now < self.window_start || now - self.window_start >= self.limit.per_seconds {
            self.limit.calls
        } else {
            self.limit.calls - self.used
        }
    }

    /// Asks for one call at `now`, in seconds of a clock that does not go
    /// back. The call is granted or the caller is told how long to wait; it is
    /// never refused.
    pub fn acquire(&mut self, now: u64) -> (admission: Admission)
        ensures
            old(self)@.wf(),
            final(self)@.wf(),
            final(self)@ == old(self)@.acquire(now).0,
            admission == old(self)@.acquire(now).1,
    {
        proof {
            use_type_invariant(&*self);
        }
        if now < self.window_start || now - self.window_start >= self.limit.per_seconds {
            *self = RateLimiter { limit: self.limit, window_start: now, used: 1 };
            Admission::Granted
        } else if self.used < self.limit.calls {
            *self = RateLimiter {
                limit: self.limit,
                window_start: self.window_start,
                used: self.used + 1,
            };
            Admission::Granted
        } else {
            Admission::Wait { seconds: self.limit.per_seconds - (now - self.window_start) }
        }
    }
}

/// A request is never dropped. One that has to wait is told a time that is
/// positive and no longer than a window, the limiter is left as it was, and
/// the same request is granted when it comes back after that time or later.
pub proof fn lemma_wait_then_granted(state: LimiterState, now: u64, later: u64)
    requires
        state.wf(),
        state.acquire(now).1 is Wait,
        later >= now + state.acquire(now).1->seconds,
    ensures
        0 < state.acquire(now).1->seconds <= state.limit.per_seconds,
        state.acquire(now).0 == state,
        state.acquire(now).0.acquire(later).1 is Granted,
{
}

/// Within one window no more requests are granted than the budget has left,
/// however many are made.
pub proof fn lemma_budget_respected(state: LimiterState, times: Seq<u64>)
    requires
        state.wf(),
        state.all_in_window(times),
    ensures
        state.granted(times) <= state.limit.calls - state.used,
    decreases times.len(),
{
    if times.len() > 0 {
        let next = state.acquire(times[0]).0;
        let rest = times.drop_first();
        lemma_budget_respected(next, rest);
    }
}

/// While the budget lasts, a request in the window is granted at once.
pub proof fn lemma_granted_within_budget(state: LimiterState, now: u64)
    requires
        state.wf(),
        state.used < state.limit.calls || state.window_over(now),
    ensures
        state.acquire(now).1 is Granted,
        state.acquire(now).0.wf(),
{
}

} // verus!
