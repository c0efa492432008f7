//! Admission control: a bound on the requests of one identity per window.
//!
//! Each request adds one to the counter of its identity. The first request
//! of a window sets the time at which the window ends; later ones leave it
//! alone. A request is admitted while the count, this request included, is
//! within the limit. A refused request still counts: a burst of refused
//! requests uses up budget, so probing is not free.
//!
//! `RateLimitStore` keeps the counters in the process. A deployment with
//! several gateway instances keeps them in a store that all instances
//! share, and asks `RateLimiter` for the key and for the decision.

use vstd::prelude::*;
use crate::nonce::{expiry, expiry_time};
use crate::table::TextMap;

verus! {

/// Most requests per window where no limit is configured.
pub const DEFAULT_MAX_REQUESTS: usize = 100;

/// Length of a window in seconds where none is configured.
pub const DEFAULT_WINDOW_SECONDS: usize = 60;

/// The counter of one identity.
#[derive(Debug, Clone, Copy, PartialEq, Eq)]
pub struct RateLimitWindow {
    /// Requests counted since the window began.
    pub count: u64,
    /// Time in milliseconds at which the window ends.
    pub expires_at_ms: i128,
}

/// The windows of a store, by key.
pub type Windows = Map<Seq<char>, RateLimitWindow>;

/// Whether `key` has a window that is open at `now_ms`.
pub open spec fn window_open(windows: Windows, key: Seq<char>, now_ms: int) -> bool {
    windows.contains_key(key) && now_ms < windows[key].expires_at_ms
}

/// The count of `key` at `now_ms`: that of its open window, or zero.
pub open spec fn count_at(windows: Windows, key: Seq<char>, now_ms: int) -> nat {
    if window_open(windows, key, now_ms) {
        windows[key].count as nat
    } else {
        0
    }
}

/// One more than `count`, except at the top of the range, where the count
/// stays.
pub open spec fn next_count(count: nat) -> nat {
    if count < u64::MAX {
        count + 1
    } else {
        count
    }
}

/// The windows after one request of `key` at `now_ms`: an open window counts
/// one more and keeps its end; otherwise a new window opens with count one
/// and lasts for `ttl_seconds`.
pub open spec fn windows_after(
    windows: Windows,
    key: Seq<char>,
    now_ms: int,
    ttl_seconds: int,
) -> Windows {
    if window_open(windows, key, now_ms) {
        windows.insert(
            key,
            RateLimitWindow {
                count: next_count(windows[key].count as nat) as u64,
                expires_at_ms: windows[key].expires_at_ms,
            },
        )
    } else {
        windows.insert(
            key,
            RateLimitWindow { count: 1, expires_at_ms: expiry(now_ms, ttl_seconds) as i128 },
        )
    }
}

/// The windows after one request of `key` at each of `times`, in order.
pub open spec fn windows_after_requests(
    windows: Windows,
    key: Seq<char>,
    times: Seq<i64>,
    ttl_seconds: int,
) -> Windows
    decreases times.len(),
{
    if times.len() == 0 {
        windows
    } else {
        windows_after(
            windows_after_requests(windows, key, times.drop_last(), ttl_seconds),
            key,
            times.last() as int,
            ttl_seconds,
        )
    }
}

/// Whether every window of `part` is a window of `windows`, unchanged.
pub open spec fn part_of(part: Windows, windows: Windows) -> bool {
    forall|key: Seq<char>| #[trigger]
        part.contains_key(key) ==> windows.contains_key(key) && part[key] == windows[key]
}

/// Whether `part` holds windows of `windows` only, and none that has ended
/// at `now_ms`.
pub open spec fn only_open(part: Windows, windows: Windows, now_ms: int) -> bool {
    part_of(part, windows) && forall|key: Seq<char>| #[trigger]
        part.contains_key(key) ==> now_ms < part[key].expires_at_ms
}

/// The key under which the counter of an identity is kept in a store.
pub open spec fn rate_limit_key(identifier: Seq<char>) -> Seq<char> {
    "ratelimit:"@ + identifier
}

/// An in-process store of request counters.
pub struct RateLimitStore {
    windows: TextMap<RateLimitWindow>,
}

impl View for RateLimitStore {
    type V = Windows;

    closed spec fn view(&self) -> Windows {
        self.windows@
    }
}

impl RateLimitStore {
    /// A store without counters.
    pub fn new() -> (store: RateLimitStore)
        ensures
            store@ == Windows::empty(),
    {
        RateLimitStore { windows: TextMap::new() }
    }

    /// Counts one request of `key` at `now_ms` and returns the count with
    /// this request included. The end of the window is set by the first
    /// request of the window only. The exclusive borrow makes the step
    /// indivisible.
    pub fn increment(&mut self, key: &str, now_ms: i64, ttl_seconds: u64) -> (count: u64)
        ensures
            final(self)@ == windows_after(old(self)@, key@, now_ms as int, ttl_seconds as int),
            count == next_count(count_at(old(self)@, key@, now_ms as int)),
            count == count_at(final(self)@, key@, now_ms as int) || ttl_seconds == 0,
    {
        let open = match self.windows.get(key) {
            Some(window) => if (now_ms as i128) < window.expires_at_ms {
                Some(window)
            } else {
                None
            },
            None => None,
        };
        match open {
            Some(window) => {
                let count: u64 = if window.count < u64::MAX {
                    window.count + 1
                } else {
                    window.count
                };
                self.windows.insert(
                    key,
                    RateLimitWindow { count, expires_at_ms: window.expires_at_ms },
                );
                count
            },
            None => {
                let expires_at_ms: i128 = expiry_time(now_ms, ttl_seconds);
                self.windows.insert(key, RateLimitWindow { count: 1, expires_at_ms });
                1
            },
        }
    }

    /// Drops the windows that have ended at `now_ms`. No count changes by
    /// this, at `now_ms` or at any later time.
    pub fn purge_expired(&mut self, now_ms: i64)
        ensures
            forall|key: Seq<char>, at_ms: int|
                at_ms >= now_ms ==> #[trigger] count_at(final(self)@, key, at_ms) == count_at(
                    old(self)@,
                    key,
                    at_ms,
                ),
            only_open(final(self)@, old(self)@, now_ms as int),
    {
        let keys = self.windows.keys();
        let count: usize = keys.len();
        let mut i: usize = 0;
        while i < count
            invariant
                count == keys@.len(),
                i <= count,
                forall|key: Seq<char>|
                    old(self)@.contains_key(key) ==> exists|j: int|
                        0 <= j < keys@.len() && (#[trigger] keys@[j])@ == key,
                part_of(self@, old(self)@),
                forall|key: Seq<char>|
                    old(self)@.contains_key(key) && now_ms < old(self)@[key].expires_at_ms
                        ==> #[trigger] self@.contains_key(key),
                forall|j: int|
                    0 <= j < i && self@.contains_key((#[trigger] keys@[j])@) ==> now_ms
                        < self@[keys@[j]@].expires_at_ms,
            decreases count - i,
        {
            let ended = match self.windows.get(keys[i].as_str()) {
                Some(window) => window.expires_at_ms <= now_ms as i128,
                None => false,
            };
            if ended {
                self.windows.remove(keys[i].as_str());
            }
            i = i + 1;
        }
        assert forall|key: Seq<char>| #[trigger] self@.contains_key(key) implies now_ms
            < self@[key].expires_at_ms by {
            let j = choose|j: int| 0 <= j < keys@.len() && (#[trigger] keys@[j])@ == key;
            assert(self@.contains_key(keys@[j]@));
        }
    }

    /// The count of `key` at `now_ms`. Counts nothing.
    pub fn peek(&self, key: &str, now_ms: i64) -> (count: u64)
        ensures
            count == count_at(self@, key@, now_ms as int),
    {
        match self.windows.get(key) {
            Some(window) => if (now_ms as i128) < window.expires_at_ms {
                window.count
            } else {
                0
            },
            None => 0,
        }
    }

    /// Clears the counter of `key`.
    pub fn reset(&mut self, key: &str)
        ensures
            final(self)@ == old(self)@.remove(key@),
    {
        self.windows.remove(key);
    }
}

/// The decision on one request.
#[derive(Debug, Clone, Copy, PartialEq, Eq)]
pub enum Admission {
    /// The request is within the limit.
    Admit,
    /// The request is over the limit of `limit` requests per window of
    /// `window_seconds`.
    Reject {
        /// Most requests per window.
        limit: usize,
        /// Length of the window in seconds.
        window_seconds: usize,
    },
}

/// The decision on a request that brought the count to `count`.
pub open spec fn decision_for(max_requests: usize, window_seconds: usize, count: nat) -> Admission {
    if count <= max_requests {
        Admission::Admit
    } else {
        Admission::Reject { limit: max_requests, window_seconds }
    }
}

/// Limits the requests of each identity to a number per window.
pub struct RateLimiter {
    max_requests: usize,
    window_seconds: usize,
}

impl RateLimiter {
    /// A limiter that admits `max_requests` per window of `window_seconds`.
    pub fn new(max_requests: usize, window_seconds: usize) -> (limiter: RateLimiter)
        ensures
            limiter.limit() == max_requests,
            limiter.window() == window_seconds,
    {
        RateLimiter { max_requests, window_seconds }
    }

    /// Most requests per window.
    pub closed spec fn limit(&self) -> usize {
        self.max_requests
    }

    /// Length of a window in seconds.
    pub closed spec fn window(&self) -> usize {
        self.window_seconds
    }

    /// Most requests per window.
    pub fn max_requests(&self) -> (max: usize)
        ensures
            max == self.limit(),
    {
        self.max_requests
    }

    /// Length of a window in seconds.
    pub fn window_seconds(&self) -> (seconds: usize)
        ensures
            seconds == self.window(),
    {
        self.window_seconds
    }

    /// The key under which a store keeps the counter of `identifier`.
    pub fn key_for(identifier: &str) -> (key: String)
        ensures
            key@ == rate_limit_key(identifier@),
    {
        "ratelimit:".to_owned().concat(identifier)
    }

    /// The decision on a request that brought the count of its identity to
    /// `count`: admitted while the count is within the limit.
    pub fn decide(&self, count: u64) -> (admission: Admission)
        ensures
            admission == decision_for(self.limit(), self.window(), count as nat),
    {
        if count <= self.max_requests as u64 {
            Admission::Admit
        } else {
            Admission::Reject { limit: self.max_requests, window_seconds: self.window_seconds }
        }
    }

    /// Counts one request of `identifier` and decides on it. The request is
    /// counted whether or not it is admitted.
    pub fn check(&self, store: &mut RateLimitStore, identifier: &str, now_ms: i64) -> (admission:
        Admission)
        ensures
            final(store)@ == windows_after(
                old(store)@,
                rate_limit_key(identifier@),
                now_ms as int,
                self.window() as int,
            ),
            admission == decision_for(
                self.limit(),
                self.window(),
                next_count(count_at(old(store)@, rate_limit_key(identifier@), now_ms as int)),
            ),
    {
        let key = Self::key_for(identifier);
        let count: u64 = store.increment(key.as_str(), now_ms, self.window_seconds as u64);
        self.decide(count)
    }

    /// The count of `identifier` at `now_ms`, without counting a request.
    pub fn get_count(&self, store: &RateLimitStore, identifier: &str, now_ms: i64) -> (count: u64)
        ensures
            count == count_at(store@, rate_limit_key(identifier@), now_ms as int),
    {
        let key = Self::key_for(identifier);
        store.peek(key.as_str(), now_ms)
    }

    /// Clears the counter of `identifier`.
    pub fn reset(&self, store: &mut RateLimitStore, identifier: &str)
        ensures
            final(store)@ == old(store)@.remove(rate_limit_key(identifier@)),
            forall|now_ms: int|
                count_at(final(store)@, rate_limit_key(identifier@), now_ms) == 0,
    {
        let key = Self::key_for(identifier);
        store.reset(key.as_str());
    }
}

impl Default for RateLimiter {
    /// The default limit: 100 requests per 60 seconds.
    fn default() -> (limiter: RateLimiter)
        ensures
            limiter.limit() == DEFAULT_MAX_REQUESTS,
            limiter.window() == DEFAULT_WINDOW_SECONDS,
    {
        RateLimiter { max_requests: DEFAULT_MAX_REQUESTS, window_seconds: DEFAULT_WINDOW_SECONDS }
    }
}

/// Why a request was turned away by the rate limit.
#[derive(Debug, Clone, Copy, PartialEq, Eq)]
pub enum RateLimitError {
    /// The limit was exceeded.
    TooManyRequests,
}

impl RateLimitError {
    /// The HTTP status that reports the error: 429.
    pub fn status_code(&self) -> (status: u16)
        ensures
            status == 429,
    {
        match self {
            RateLimitError::TooManyRequests => 429,
        }
    }

    /// The message that reports the error.
    pub fn message(&self) -> (message: String)
        ensures
            message@ == "Rate limit exceeded"@,
    {
        match self {
            RateLimitError::TooManyRequests => "Rate limit exceeded".to_owned(),
        }
    }

    /// The outcome of a check against a limiter that is shared by all
    /// identities: the request passes where the limiter allowed it.
    pub fn from_allowed(allowed: bool) -> (result: Result<(), RateLimitError>)
        ensures
            result is Ok <==> allowed,
    {
        if allowed {
            Ok(())
        } else {
            Err(RateLimitError::TooManyRequests)
        }
    }
}

/// The requests of one window of an identity are counted one by one: after
/// `n` requests (at least one, fewer than the counter can hold) of an
/// identity that had no open window, all before the window that the first
/// of them opened has ended, the count is `n`.
pub proof fn lemma_requests_counted(
    windows: Windows,
    key: Seq<char>,
    times: Seq<i64>,
    ttl_seconds: u64,
)
    requires
        1 <= times.len() < u64::MAX,
        !window_open(windows, key, times[0] as int),
        forall|i: int|
            0 <= i < times.len() ==> (#[trigger] times[i]) < expiry(
                times[0] as int,
                ttl_seconds as int,
            ),
    ensures
        count_at(
            windows_after_requests(windows, key, times, ttl_seconds as int),
            key,
            times.last() as int,
        ) == times.len(),
        windows_after_requests(windows, key, times, ttl_seconds as int)[key].expires_at_ms
            == expiry(times[0] as int, ttl_seconds as int),
        windows_after_requests(windows, key, times, ttl_seconds as int).contains_key(key),
    decreases times.len(),
{
    reveal_with_fuel(windows_after_requests, 2);
    if times.len() > 1 {
        lemma_requests_counted(windows, key, times.drop_last(), ttl_seconds);
    }
}

/// Within one window the limit decides: of the requests of an identity that
/// had no open window, the `n`-th is admitted exactly if `n` is within the
/// limit.
pub proof fn lemma_limit_decides(
    windows: Windows,
    key: Seq<char>,
    times: Seq<i64>,
    max_requests: usize,
    window_seconds: usize,
)
    requires
        1 <= times.len() < u64::MAX,
        !window_open(windows, key, times[0] as int),
        forall|i: int|
            0 <= i < times.len() ==> (#[trigger] times[i]) < expiry(
                times[0] as int,
                window_seconds as int,
            ),
    ensures
        decision_for(
            max_requests,
            window_seconds,
            next_count(
                count_at(
                    windows_after_requests(windows, key, times.drop_last(), window_seconds as int),
                    key,
                    times.last() as int,
                ),
            ),
        ) is Admit <==> times.len() <= max_requests,
{
    if times.len() > 1 {
        lemma_requests_counted(windows, key, times.drop_last(), window_seconds as u64);
    }
}

/// A refused request still counts: whatever the limit, a request within an
/// open window raises the count by one, up to the top of the counter's
/// range.
pub proof fn lemma_refusal_counts(windows: Windows, key: Seq<char>, now_ms: i64, ttl_seconds: u64)
    requires
        window_open(windows, key, now_ms as int),
    ensures
        count_at(windows_after(windows, key, now_ms as int, ttl_seconds as int), key, now_ms as int)
            == next_count(count_at(windows, key, now_ms as int)),
{
}

/// When the window of an identity has ended, its counter starts again: the
/// next request counts as the first.
pub proof fn lemma_window_resets(windows: Windows, key: Seq<char>, now_ms: i64, ttl_seconds: u64)
    requires
        windows.contains_key(key),
        windows[key].expires_at_ms <= now_ms,
    ensures
        next_count(count_at(windows, key, now_ms as int)) == 1,
        windows_after(windows, key, now_ms as int, ttl_seconds as int)[key].count == 1,
{
}

} // verus!
