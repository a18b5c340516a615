//! Throttling of requests: once the number of counted requests reaches the
//! capacity, requests are turned away until thirty seconds have passed since
//! the limit was first hit.

use vstd::prelude::*;
use vstd::string::*;
use crate::clock::{
    lemma_unix_epoch_representable, now_utc, representable, trunc_div, unix_epoch, whole_seconds, Timestamp,
    MAX_INSTANT_NANOS,
};
use crate::responders::{is_error_toast_render, ApiResponse};
use crate::responses::{error_toast, TemplateView, TOO_MANY_REQUESTS};
use crate::text::{int_decimal, push_int_decimal};

verus! {

/// How long requests are turned away once the limit is hit, in seconds.
pub const COOLDOWN_SECONDS: u32 = 30;

/// The state of the request throttle.
#[derive(Clone, Copy, Debug, PartialEq, Eq)]
pub struct RateLimiter {
    /// The number of requests after which requests are turned away.
    pub capacity: u32,
    /// When the limit was first hit in the current cooldown.
    pub time_accumulator_started: Timestamp,
    /// Whether a cooldown is running.
    pub did_time_accumulator_start: bool,
    /// The number of requests counted.
    pub requests: u32,
}

/// The operations of a request throttle.
pub trait RateLimiterTrait {
    /// Starts the cooldown clock if it is not running yet.
    fn start_time_accumulator(&mut self) -> Result<(), ApiResponse>;

    /// Lets a request through, or turns it away while a cooldown runs.
    fn add_to_limit_or_return(&mut self) -> Result<(), ApiResponse>;
}

/// The end of a cooldown that started at `started` (the instant thirty
/// seconds later, saturating at the latest representable instant), in
/// nanoseconds since the Unix epoch.
pub open spec fn cooldown_end_nanos(started: Timestamp) -> int {
    if started.total_nanos() + COOLDOWN_SECONDS * 1_000_000_000 > MAX_INSTANT_NANOS {
        MAX_INSTANT_NANOS as int
    } else {
        started.total_nanos() + COOLDOWN_SECONDS * 1_000_000_000
    }
}

/// The whole seconds left, at `now`, of a cooldown that started at `started`
/// (rounded towards zero; zero or less when it is over).
pub open spec fn seconds_left(started: Timestamp, now: Timestamp) -> int {
    trunc_div(cooldown_end_nanos(started) - now.total_nanos(), 1_000_000_000)
}

/// The message of a turned-away request that may retry in `wait` seconds.
pub open spec fn too_many_requests_message(wait: int) -> Seq<char> {
    "The server is experiencing high loads of requests. Please try again in "@
        + int_decimal(wait) + "s."@
}

/// The template in which throttling errors are shown.
pub open spec fn toast_template() -> Seq<char> {
    "partials/toast"@
}

impl RateLimiter {
    /// The instant at which the cooldown counts as started, when the clock
    /// reads `now` should it not be running yet.
    pub open spec fn cooldown_start(self, now: Timestamp) -> Timestamp {
        if self.did_time_accumulator_start {
            self.time_accumulator_started
        } else {
            now
        }
    }

    /// What a request does to the throttle `old`, giving `new` and the
    /// answer `r`, when the clock reads `start_now` when the cooldown is
    /// started (if it is not running) and `check_now` when the cooldown is
    /// checked.
    pub open spec fn request_outcome(
        old: RateLimiter,
        new: RateLimiter,
        r: Result<(), ApiResponse>,
        start_now: Timestamp,
        check_now: Timestamp,
    ) -> bool {
        if old.requests < old.capacity {
            r is Ok && new == old
        } else {
            let started = old.cooldown_start(start_now);
            let wait = seconds_left(started, check_now);
            &&& new.capacity == old.capacity
            &&& new.time_accumulator_started == started
            &&& if wait <= 0 {
                &&& r is Ok
                &&& new.requests == 0
                &&& !new.did_time_accumulator_start
            } else {
                &&& new.requests == old.requests
                &&& new.did_time_accumulator_start
                &&& r matches Err(resp) && is_error_toast_render(
                    resp,
                    TOO_MANY_REQUESTS,
                    toast_template(),
                    too_many_requests_message(wait),
                )
            }
        }
    }

    /// A throttle with no requests counted and no cooldown running.
    pub fn new(capacity: u32, created_at: Timestamp) -> (r: RateLimiter)
        ensures
            r.capacity == capacity,
            r.requests == 0,
            !r.did_time_accumulator_start,
            r.time_accumulator_started == created_at,
    {
        RateLimiter {
            capacity,
            time_accumulator_started: created_at,
            did_time_accumulator_start: false,
            requests: 0,
        }
    }

    /// Starts the cooldown at `now` if it is not running yet.
    pub fn start_time_accumulator_at(&mut self, now: Timestamp)
        ensures
            final(self).capacity == old(self).capacity,
            final(self).requests == old(self).requests,
            final(self).did_time_accumulator_start,
            final(self).time_accumulator_started == old(self).cooldown_start(now),
    {
        if !self.did_time_accumulator_start {
            self.time_accumulator_started = now;
            self.did_time_accumulator_start = true;
        }
    }

    /// Lets a request through or turns it away, with the clock reading
    /// `start_now` when the cooldown is started and `check_now` when it is
    /// checked.
    pub fn add_to_limit_at(&mut self, start_now: Timestamp, check_now: Timestamp) -> (r: Result<
        (),
        ApiResponse,
    >)
        ensures
            RateLimiter::request_outcome(*old(self), *final(self), r, start_now, check_now),
    {
        if self.requests >= self.capacity {
            self.start_time_accumulator_at(start_now);
            let cooldown_end = self.time_accumulator_started.saturating_add_seconds(COOLDOWN_SECONDS);
            let left = cooldown_end.nanos_since(&check_now);
            let wait = whole_seconds(left);
            if wait <= 0 {
                self.requests = 0;
                self.did_time_accumulator_start = false;
                return Ok(());
            }
            let mut message = String::from_str(
                "The server is experiencing high loads of requests. Please try again in ",
            );
            push_int_decimal(&mut message, wait);
            message.append("s.");
            return Err(
                ApiResponse::Render {
                    status: TOO_MANY_REQUESTS,
                    template: Some(TemplateView::Toast { name: "partials/toast", toast: error_toast(message) }),
                    headers: None,
                },
            );
        }
        Ok(())
    }
}

impl RateLimiterTrait for RateLimiter {
    /// Starts the cooldown at the current instant if it is not running yet.
    fn start_time_accumulator(&mut self) -> (r: Result<(), ApiResponse>)
        ensures
            r is Ok,
            final(self).capacity == old(self).capacity,
            final(self).requests == old(self).requests,
            final(self).did_time_accumulator_start,
            old(self).did_time_accumulator_start ==> final(self).time_accumulator_started
                == old(self).time_accumulator_started,
            !old(self).did_time_accumulator_start ==> representable(
                final(self).time_accumulator_started,
            ),
    {
        if !self.did_time_accumulator_start {
            let now = now_utc();
            self.start_time_accumulator_at(now);
        }
        Ok(())
    }

    /// Lets a request through or turns it away, reading the clock.
    fn add_to_limit_or_return(&mut self) -> (r: Result<(), ApiResponse>)
        ensures
            exists|start_now: Timestamp, check_now: Timestamp|
                representable(start_now) && representable(check_now) && RateLimiter::request_outcome(
                    *old(self),
                    *final(self),
                    r,
                    start_now,
                    check_now,
                ),
    {
        if self.requests >= self.capacity {
            let start_now = if self.did_time_accumulator_start {
                self.time_accumulator_started
            } else {
                now_utc()
            };
            let check_now = now_utc();
            let r = self.add_to_limit_at(start_now, check_now);
            proof {
                // A running cooldown keeps its start, so the start reading
                // may as well be the check reading.
                let s = if old(self).did_time_accumulator_start {
                    check_now
                } else {
                    start_now
                };
                assert(old(self).cooldown_start(s) == old(self).cooldown_start(start_now));
                assert(RateLimiter::request_outcome(*old(self), *self, r, s, check_now));
            }
            r
        } else {
            proof {
                lemma_unix_epoch_representable();
                let t = unix_epoch();
                assert(RateLimiter::request_outcome(*old(self), *self, Ok(()), t, t));
            }
            Ok(())
        }
    }
}

/// A request never raises the count of requests: it is either left as it
/// was or reset to zero.
pub proof fn lemma_requests_never_grow(
    old: RateLimiter,
    new: RateLimiter,
    r: Result<(), ApiResponse>,
    start_now: Timestamp,
    check_now: Timestamp,
)
    requires
        RateLimiter::request_outcome(old, new, r, start_now, check_now),
    ensures
        new.requests <= old.requests,
        new.requests == old.requests || new.requests == 0,
        new.capacity == old.capacity,
{
}

/// A request is turned away only while a cooldown runs, and is then told
/// to retry in at most thirty seconds (and at least one) when the clock did
/// not run backwards since the cooldown started.
pub proof fn lemma_rejection_waits_at_most_cooldown(
    old: RateLimiter,
    new: RateLimiter,
    resp: ApiResponse,
    start_now: Timestamp,
    check_now: Timestamp,
)
    requires
        RateLimiter::request_outcome(old, new, Err(resp), start_now, check_now),
        old.cooldown_start(start_now).total_nanos() <= check_now.total_nanos(),
    ensures
        old.requests >= old.capacity,
        new.did_time_accumulator_start,
        1 <= seconds_left(old.cooldown_start(start_now), check_now) <= COOLDOWN_SECONDS,
{
    let started = old.cooldown_start(start_now);
    let left = cooldown_end_nanos(started) - check_now.total_nanos();
    assert(left <= 30_000_000_000);
    assert(left / 1_000_000_000 <= 30) by (nonlinear_arith)
        requires
            0 <= left <= 30_000_000_000,
    ;
}

/// Once a cooldown is over, the next request at capacity is let through and
/// the throttle starts counting afresh.
pub proof fn lemma_cooldown_over_resets(
    old: RateLimiter,
    new: RateLimiter,
    r: Result<(), ApiResponse>,
    start_now: Timestamp,
    check_now: Timestamp,
)
    requires
        RateLimiter::request_outcome(old, new, r, start_now, check_now),
        old.requests >= old.capacity,
        cooldown_end_nanos(old.cooldown_start(start_now)) < check_now.total_nanos() + 1_000_000_000,
    ensures
        r is Ok,
        new.requests == 0,
        !new.did_time_accumulator_start,
{
    let left = cooldown_end_nanos(old.cooldown_start(start_now)) - check_now.total_nanos();
    if left >= 0 {
        assert(left / 1_000_000_000 == 0);
    }
}

/// Two requests at capacity: the first, with the clock reading `t`, is
/// turned away and starts the cooldown at `t`; the second, with the clock
/// reading thirty seconds or more after `t`, is let through and the count
/// starts afresh.
pub proof fn lemma_turned_away_then_let_through(
    s0: RateLimiter,
    s1: RateLimiter,
    s2: RateLimiter,
    r1: Result<(), ApiResponse>,
    r2: Result<(), ApiResponse>,
    t: Timestamp,
    start_now: Timestamp,
    later: Timestamp,
)
    requires
        s0.requests >= s0.capacity,
        !s0.did_time_accumulator_start,
        t.total_nanos() + COOLDOWN_SECONDS * 1_000_000_000 <= MAX_INSTANT_NANOS,
        RateLimiter::request_outcome(s0, s1, r1, t, t),
        RateLimiter::request_outcome(s1, s2, r2, start_now, later),
        later.total_nanos() >= t.total_nanos() + COOLDOWN_SECONDS * 1_000_000_000,
    ensures
        r1 is Err,
        s1.did_time_accumulator_start,
        s1.time_accumulator_started == t,
        r2 is Ok,
        s2.requests == 0,
        !s2.did_time_accumulator_start,
{
    assert(seconds_left(t, t) == 30);
    let left = cooldown_end_nanos(t) - later.total_nanos();
    assert(left <= 0);
    assert(-left >= 0);
    assert(seconds_left(t, later) <= 0) by {
        assert((-left) / 1_000_000_000 >= 0);
    }
}

} // verus!
