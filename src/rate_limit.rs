//! A fixed-window request counter.
use vstd::prelude::*;
use crate::provider::StockDataError;

verus! {

/// Length of a window, in milliseconds.
pub const WINDOW_MS: u64 = 60000;

/// Requests allowed per window unless configured otherwise.
pub const DEFAULT_REQUESTS_PER_MINUTE: u32 = 5;

/// Requests made in the current window, which started at `window_start`
/// (milliseconds on the caller's clock).
#[derive(Debug, Clone, Copy)]
pub struct RateLimitState {
    pub requests_made: u32,
    pub window_start: u64,
    pub requests_per_minute: u32,
}

/// Whether `now` lies a full window or more after `start`.
pub open spec fn window_over(start: u64, now: u64) -> bool {
    now as int >= start as int + WINDOW_MS as int
}

/// The state after a request at `now`, and whether the request is admitted:
/// the window rolls forward first where it is over, then the request counts
/// if the ceiling is not reached.
pub open spec fn consume(s: RateLimitState, now: u64) -> (RateLimitState, bool) {
    let rolled = if window_over(s.window_start, now) {
        RateLimitState { requests_made: 0, window_start: now, ..s }
    } else {
        s
    };
    if rolled.requests_made >= rolled.requests_per_minute {
        (rolled, false)
    } else {
        (RateLimitState { requests_made: (rolled.requests_made + 1) as u32, ..rolled }, true)
    }
}

/// The state after requests at each of `times`, in order.
pub open spec fn run(s: RateLimitState, times: Seq<u64>) -> RateLimitState
    decreases times.len(),
{
    if times.len() == 0 {
        s
    } else {
        run(consume(s, times[0]).0, times.drop_first())
    }
}

impl Default for RateLimitState {
    fn default() -> (r: RateLimitState)
        ensures
            r.requests_made == 0,
            r.window_start == 0,
            r.requests_per_minute == DEFAULT_REQUESTS_PER_MINUTE,
    {
        RateLimitState::new(0)
    }
}

/// Relies on chrono's `Utc::now` and `DateTime::timestamp_millis`: the system
/// clock in milliseconds since the Unix epoch. Nothing is promised of it.
#[verifier::external_body]
fn clock_millis() -> i64 {
    chrono::Utc::now().timestamp_millis()
}

impl RateLimitState {
    /// A fresh window starting at `now`, with the default ceiling.
    pub fn new(now: u64) -> (r: RateLimitState)
        ensures
            r.requests_made == 0,
            r.window_start == now,
            r.requests_per_minute == DEFAULT_REQUESTS_PER_MINUTE,
    {
        RateLimitState { requests_made: 0, window_start: now, requests_per_minute: DEFAULT_REQUESTS_PER_MINUTE }
    }

    /// Counts a request made at `now`, or refuses it with `RateLimitExceeded`
    /// where the window's ceiling is reached.
    pub fn check_and_consume_at(&mut self, now: u64) -> (r: Result<(), StockDataError>)
        ensures
            *final(self) == consume(*old(self), now).0,
            r is Ok <==> consume(*old(self), now).1,
            r is Err ==> r == Err::<(), StockDataError>(StockDataError::RateLimitExceeded),
    {
        if now >= self.window_start && now - self.window_start >= WINDOW_MS {
            self.requests_made = 0;
            self.window_start = now;
        }
        if self.requests_made >= self.requests_per_minute {
            return Err(StockDataError::RateLimitExceeded);
        }
        self.requests_made = self.requests_made + 1;
        Ok(())
    }

    /// Counts a request made now, at an instant the clock gave; see
    /// `check_and_consume_at`. Below the ceiling it is always admitted.
    pub fn check_and_consume(&mut self) -> (r: Result<(), StockDataError>)
        ensures
            exists|now: u64| *final(self) == consume(*old(self), now).0 && (r is Ok <==> consume(*old(self), now).1),
            old(self).requests_made < old(self).requests_per_minute ==> r is Ok,
            r is Err ==> r == Err::<(), StockDataError>(StockDataError::RateLimitExceeded),
            final(self).requests_per_minute == old(self).requests_per_minute,
    {
        let t = clock_millis();
        let now: u64 = if t < 0 { 0 } else { t as u64 };
        let r = self.check_and_consume_at(now);
        assert(*final(self) == consume(*old(self), now).0 && (r is Ok <==> consume(*old(self), now).1));
        r
    }
}

/// Within one window the counter admits requests until the ceiling: after
/// requests at `times`, all before the window ends, the count is the smaller
/// of the ceiling and the requests made, and the window stays where it was.
pub proof fn lemma_window_counts(s: RateLimitState, times: Seq<u64>)
    requires
        s.requests_made <= s.requests_per_minute,
        forall|i: int| 0 <= i < times.len() ==> !window_over(s.window_start, #[trigger] times[i]),
    ensures
        run(s, times).requests_made as int == if s.requests_made + times.len() <= s.requests_per_minute {
            s.requests_made + times.len()
        } else {
            s.requests_per_minute as int
        },
        run(s, times).window_start == s.window_start,
        run(s, times).requests_per_minute == s.requests_per_minute,
    decreases times.len(),
{
    if times.len() > 0 {
        let next = consume(s, times[0]).0;
        assert forall|i: int| 0 <= i < times.drop_first().len() implies !window_over(next.window_start, #[trigger] times.drop_first()[i]) by {
            assert(times.drop_first()[i] == times[i + 1]);
        }
        lemma_window_counts(next, times.drop_first());
    }
}

/// Starting from an empty window, exactly `requests_per_minute` requests
/// made within it are admitted: the request that follows `k` earlier ones is
/// admitted exactly when `k` is below the ceiling.
pub proof fn lemma_fixed_window(s: RateLimitState, times: Seq<u64>, now: u64)
    requires
        s.requests_made == 0,
        forall|i: int| 0 <= i < times.len() ==> !window_over(s.window_start, #[trigger] times[i]),
        !window_over(s.window_start, now),
    ensures
        consume(run(s, times), now).1 == (times.len() < s.requests_per_minute),
{
    lemma_window_counts(s, times);
}

/// Once a window is over, the next request starts a new one at its own time,
/// with the count starting again from zero.
pub proof fn lemma_window_rolls_over(s: RateLimitState, now: u64)
    requires
        window_over(s.window_start, now),
    ensures
        consume(s, now).0.window_start == now,
        consume(s, now).0.requests_made == if s.requests_per_minute > 0 { 1u32 } else { 0u32 },
        consume(s, now).1 == (s.requests_per_minute > 0),
{
}

} // verus!
