//! Rate limiting for Discord API requests.
//!
//! Discord limits requests both globally and per route bucket. The limiter keeps
//! the global state, the known buckets and which bucket each route maps to, and
//! decides how long a request must wait. Time is a count of milliseconds on a
//! monotonic clock that the caller reads and passes in; the caller also does
//! the waiting.
use vstd::prelude::*;
use crate::assoc::{
    find_key, has_key, keys_distinct, lemma_pairs_map_at, lemma_pairs_map_push,
    lemma_pairs_map_update, pairs_map,
};
use crate::text::owned;

verus! {

/// Information about a rate limit.
#[derive(Clone, Debug)]
pub struct RateLimitInfo {
    /// Number of requests remaining in the current window.
    pub remaining: u32,
    /// Total number of requests allowed in the window.
    pub limit: u32,
    /// When the rate limit resets (milliseconds on the caller's clock).
    pub reset_at: u64,
    /// The bucket this rate limit belongs to.
    pub bucket: Option<String>,
}

/// The state of a bucket that has just been created at time `now`: one request
/// allowed, resetting now.
pub open spec fn fresh_info(now: u64) -> RateLimitInfo {
    RateLimitInfo { remaining: 1, limit: 1, reset_at: now, bucket: None }
}

/// How long a request must wait at `now` for a limit that resets at `reset_at`.
pub open spec fn wait_until(reset_at: u64, now: u64) -> u64 {
    if now >= reset_at {
        0
    } else {
        (reset_at - now) as u64
    }
}

impl RateLimitInfo {
    /// Whether a request at `now` must wait: none remain and the window has not reset.
    pub open spec fn waiting(&self, now: u64) -> bool {
        self.remaining == 0 && now < self.reset_at
    }

    /// Create a new rate limit info with default values.
    pub fn new(now: u64) -> (r: Self)
        ensures
            r == fresh_info(now),
    {
        RateLimitInfo { remaining: 1, limit: 1, reset_at: now, bucket: None }
    }

    /// Check if we should wait before making a request.
    pub fn should_wait(&self, now: u64) -> (r: bool)
        ensures
            r == self.waiting(now),
    {
        self.remaining == 0 && now < self.reset_at
    }

    /// Get the duration to wait before the rate limit resets.
    pub fn wait_duration(&self, now: u64) -> (r: u64)
        ensures
            r == wait_until(self.reset_at, now),
    {
        if now >= self.reset_at {
            0
        } else {
            self.reset_at - now
        }
    }
}

/// The abstract state of a rate limiter.
pub struct LimiterState {
    /// Whether a global rate limit has been reported.
    pub limited: bool,
    /// When the global rate limit resets.
    pub global_reset_at: u64,
    /// Remaining requests in the global limit.
    pub global_remaining: u32,
    /// The buckets, by key.
    pub buckets: Map<Seq<char>, RateLimitInfo>,
    /// The bucket key of each route seen.
    pub routes: Map<Seq<char>, Seq<char>>,
}

/// Every route maps to a bucket that exists.
pub open spec fn state_wf(s: LimiterState) -> bool {
    forall|r: Seq<char>| #[trigger] s.routes.contains_key(r) ==> s.buckets.contains_key(s.routes[r])
}

/// The bucket key of a route: the one it was mapped to, else the route itself.
pub open spec fn bucket_key_of(s: LimiterState, route: Seq<char>) -> Seq<char> {
    if s.routes.contains_key(route) {
        s.routes[route]
    } else {
        route
    }
}

/// The state after looking up the bucket of `route` at `now`: a route not seen
/// before maps to a bucket named after itself, created fresh if missing.
pub open spec fn with_route(s: LimiterState, route: Seq<char>, now: u64) -> LimiterState {
    if s.routes.contains_key(route) {
        s
    } else {
        LimiterState {
            buckets: if s.buckets.contains_key(route) {
                s.buckets
            } else {
                s.buckets.insert(route, fresh_info(now))
            },
            routes: s.routes.insert(route, route),
            ..s
        }
    }
}

/// How long a request on `route` at `now` must wait for its bucket, if at all.
pub open spec fn acquire_wait(s: LimiterState, route: Seq<char>, now: u64) -> Option<u64> {
    let info = with_route(s, route, now).buckets[bucket_key_of(s, route)];
    if info.waiting(now) {
        Some(wait_until(info.reset_at, now))
    } else {
        None
    }
}

/// How long any request at `now` must wait for the global limit, if at all.
pub open spec fn global_wait(s: LimiterState, now: u64) -> Option<u64> {
    if s.limited && now < s.global_reset_at {
        Some((s.global_reset_at - now) as u64)
    } else {
        None
    }
}

/// A bucket after a response's rate-limit headers: each reported value replaces
/// the stored one, the reset is `reset_after` from `now`, and the bucket hash is
/// recorded as reported (absent when not reported).
pub open spec fn info_after_headers(
    base: RateLimitInfo,
    remaining: Option<u32>,
    limit: Option<u32>,
    reset_after: Option<u64>,
    bucket: Option<String>,
    now: u64,
) -> RateLimitInfo {
    RateLimitInfo {
        remaining: match remaining {
            Some(v) => v,
            None => base.remaining,
        },
        limit: match limit {
            Some(v) => v,
            None => base.limit,
        },
        reset_at: match reset_after {
            Some(d) => (now + d) as u64,
            None => base.reset_at,
        },
        bucket,
    }
}

/// The state after a response on `route` reported rate-limit headers.
pub open spec fn after_headers(
    s: LimiterState,
    route: Seq<char>,
    remaining: Option<u32>,
    limit: Option<u32>,
    reset_after: Option<u64>,
    bucket: Option<String>,
    global: bool,
    now: u64,
) -> LimiterState {
    if global {
        LimiterState {
            limited: true,
            global_reset_at: match reset_after {
                Some(d) => (now + d) as u64,
                None => s.global_reset_at,
            },
            ..s
        }
    } else {
        let (t, key) = match bucket {
            Some(h) => (LimiterState { routes: s.routes.insert(route, h@), ..s }, h@),
            None => (with_route(s, route, now), bucket_key_of(s, route)),
        };
        let base = if t.buckets.contains_key(key) {
            t.buckets[key]
        } else {
            fresh_info(now)
        };
        LimiterState {
            buckets: t.buckets.insert(
                key,
                info_after_headers(base, remaining, limit, reset_after, bucket, now),
            ),
            ..t
        }
    }
}

/// The state after a 429 response on `route` asked to retry after `retry_after`
/// milliseconds: the global limit, or the route's bucket, is exhausted until then.
pub open spec fn after_rate_limit(
    s: LimiterState,
    route: Seq<char>,
    retry_after: u64,
    global: bool,
    now: u64,
) -> LimiterState {
    if global {
        LimiterState { limited: true, global_reset_at: (now + retry_after) as u64, ..s }
    } else {
        let t = with_route(s, route, now);
        let key = bucket_key_of(s, route);
        LimiterState {
            buckets: t.buckets.insert(
                key,
                RateLimitInfo { remaining: 0, reset_at: (now + retry_after) as u64, ..t.buckets[key] },
            ),
            ..t
        }
    }
}

/// The route table that pairs of route and bucket key denote.
pub open spec fn route_view(s: Seq<(String, String)>) -> Map<Seq<char>, Seq<char>> {
    pairs_map(s).map_values(|b: String| b@)
}

/// Routing one more route to an existing bucket keeps every route on an existing bucket.
proof fn lemma_routes_insert(
    old_routes: Seq<(String, String)>,
    new_routes: Seq<(String, String)>,
    buckets: Map<Seq<char>, RateLimitInfo>,
    route: Seq<char>,
    bucket: String,
)
    requires
        pairs_map(new_routes) == pairs_map(old_routes).insert(route, bucket),
        buckets.contains_key(bucket@),
        forall|r: Seq<char>| #[trigger] route_view(old_routes).contains_key(r)
            ==> buckets.contains_key(route_view(old_routes)[r]),
    ensures
        route_view(new_routes) == route_view(old_routes).insert(route, bucket@),
        forall|r: Seq<char>| #[trigger] route_view(new_routes).contains_key(r)
            ==> buckets.contains_key(route_view(new_routes)[r]),
{
    let old_view = route_view(old_routes);
    let new_view = route_view(new_routes);
    assert(new_view =~= old_view.insert(route, bucket@));
    assert forall|r: Seq<char>| #[trigger] new_view.contains_key(r) implies buckets.contains_key(
        new_view[r],
    ) by {
        if r != route {
            assert(old_view.contains_key(r));
        }
    }
}

/// Storing a bucket keeps every route on an existing bucket.
proof fn lemma_buckets_insert(
    routes: Map<Seq<char>, Seq<char>>,
    buckets: Map<Seq<char>, RateLimitInfo>,
    key: Seq<char>,
    info: RateLimitInfo,
)
    requires
        forall|r: Seq<char>| #[trigger] routes.contains_key(r) ==> buckets.contains_key(routes[r]),
    ensures
        forall|r: Seq<char>| #[trigger] routes.contains_key(r) ==> buckets.insert(key, info).contains_key(
            routes[r],
        ),
{
}

/// Global rate limit state.
#[derive(Debug)]
struct GlobalState {
    /// Whether we're currently globally rate limited.
    limited: bool,
    /// When the global rate limit resets.
    reset_at: u64,
    /// Remaining requests in the global limit.
    remaining: u32,
}

/// Global rate limiter for Discord API requests.
#[derive(Debug)]
pub struct RateLimiter {
    /// Global rate limit state.
    global: GlobalState,
    /// Per-route buckets, by bucket key.
    buckets: Vec<(String, RateLimitInfo)>,
    /// Mapping from route to bucket key.
    route_to_bucket: Vec<(String, String)>,
}

/// Guard returned when acquiring a rate limit slot.
#[derive(Debug)]
pub struct RateLimitGuard {
    route: String,
    bucket_key: String,
}

impl RateLimitGuard {
    /// The route text of this guard.
    pub closed spec fn route_text(&self) -> Seq<char> {
        self.route@
    }

    /// The bucket key text of this guard.
    pub closed spec fn bucket_text(&self) -> Seq<char> {
        self.bucket_key@
    }

    /// Get the route this guard is for.
    pub fn route(&self) -> (r: &str)
        ensures
            r@ == self.route_text(),
    {
        self.route.as_str()
    }

    /// Get the bucket key this guard is for.
    pub fn bucket_key(&self) -> (r: &str)
        ensures
            r@ == self.bucket_text(),
    {
        self.bucket_key.as_str()
    }
}

impl View for RateLimiter {
    type V = LimiterState;

    closed spec fn view(&self) -> LimiterState {
        LimiterState {
            limited: self.global.limited,
            global_reset_at: self.global.reset_at,
            global_remaining: self.global.remaining,
            buckets: pairs_map(self.buckets@),
            routes: route_view(self.route_to_bucket@),
        }
    }
}

impl RateLimiter {
    /// Well-formedness: the limiter's vectors have distinct keys and every route
    /// maps to a bucket.
    pub closed spec fn wf(&self) -> bool {
        &&& keys_distinct(self.buckets@)
        &&& keys_distinct(self.route_to_bucket@)
        &&& state_wf(self@)
    }

    /// Create a new rate limiter at time `now`.
    pub fn new(now: u64) -> (r: Self)
        ensures
            !r@.limited,
            r@.global_reset_at == now,
            r@.global_remaining == 50,
            r@.buckets == Map::<Seq<char>, RateLimitInfo>::empty(),
            r@.routes == Map::<Seq<char>, Seq<char>>::empty(),
            r.wf(),
    {
        let r = RateLimiter {
            global: GlobalState { limited: false, reset_at: now, remaining: 50 },
            buckets: Vec::new(),
            route_to_bucket: Vec::new(),
        };
        assert(r@.buckets =~= Map::<Seq<char>, RateLimitInfo>::empty());
        assert(r@.routes =~= Map::<Seq<char>, Seq<char>>::empty());
        r
    }

    /// How long requests at `now` must wait for the global rate limit, if at all.
    pub fn check_global(&self, now: u64) -> (r: Option<u64>)
        requires
            self.wf(),
        ensures
            r == global_wait(self@, now),
    {
        if self.global.limited && now < self.global.reset_at {
            Some(self.global.reset_at - now)
        } else {
            None
        }
    }

    /// The position of the bucket with key `key`, which must exist.
    fn bucket_index(&self, key: &str) -> (r: usize)
        requires
            self.wf(),
            self@.buckets.contains_key(key@),
        ensures
            r < self.buckets@.len(),
            self.buckets@[r as int].0@ == key@,
            self@.buckets[key@] == self.buckets@[r as int].1,
    {
        match find_key(&self.buckets, key) {
            Some(i) => {
                proof { lemma_pairs_map_at(self.buckets@, i as int); }
                i
            },
            None => {
                proof {
                    assert(!has_key(self.buckets@, key@));
                }
                0
            },
        }
    }

    /// Map the route `route` to the bucket `bucket`.
    fn set_route(&mut self, route: &str, bucket: &str)
        requires
            old(self).wf(),
            old(self)@.buckets.contains_key(bucket@),
        ensures
            final(self).wf(),
            final(self)@ == (LimiterState {
                routes: old(self)@.routes.insert(route@, bucket@),
                ..old(self)@
            }),
    {
                let ghost old_routes = self.route_to_bucket@;
        let ghost buckets = pairs_map(self.buckets@);
        let key = owned(route);
        let value = owned(bucket);
        match find_key(&self.route_to_bucket, route) {
            Some(i) => {
                proof {
                    let t = old_routes.update(i as int, (key, value));
                    lemma_pairs_map_update(old_routes, i as int, key, value);
                    lemma_routes_insert(old_routes, t, buckets, route@, value);
                }
                self.route_to_bucket.set(i, (key, value));
            },
            None => {
                proof {
                    let t = old_routes.push((key, value));
                    lemma_pairs_map_push(old_routes, key, value);
                    lemma_routes_insert(old_routes, t, buckets, route@, value);
                }
                self.route_to_bucket.push((key, value));
            },
        }
    }

    /// Store `info` under `key`, adding the bucket if it is new.
    fn set_bucket(&mut self, key: &str, info: RateLimitInfo)
        requires
            old(self).wf(),
        ensures
            final(self).wf(),
            final(self)@ == (LimiterState {
                buckets: old(self)@.buckets.insert(key@, info),
                ..old(self)@
            }),
    {
                let ghost old_buckets = self.buckets@;
        let ghost routes = self@.routes;
        let k = owned(key);
        match find_key(&self.buckets, key) {
            Some(i) => {
                proof {
                    lemma_pairs_map_update(old_buckets, i as int, k, info);
                    lemma_buckets_insert(routes, pairs_map(old_buckets), key@, info);
                }
                self.buckets.set(i, (k, info));
            },
            None => {
                proof {
                    lemma_pairs_map_push(old_buckets, k, info);
                    lemma_buckets_insert(routes, pairs_map(old_buckets), key@, info);
                }
                self.buckets.push((k, info));
            },
        }
    }

    /// Get or create the bucket of a route, returning its key.
    fn get_or_create_bucket(&mut self, route: &str, now: u64) -> (r: String)
        requires
            old(self).wf(),
        ensures
            final(self).wf(),
            r@ == bucket_key_of(old(self)@, route@),
            final(self)@ == with_route(old(self)@, route@, now),
            final(self)@.buckets.contains_key(r@),
    {
                match find_key(&self.route_to_bucket, route) {
            Some(i) => {
                proof { lemma_pairs_map_at(self.route_to_bucket@, i as int); }
                let key = self.route_to_bucket[i].1.clone();
                key
            },
            None => {
                proof {
                    assert(!pairs_map(self.route_to_bucket@).contains_key(route@));
                }
                let key = owned(route);
                match find_key(&self.buckets, route) {
                    Some(i) => {
                        proof { lemma_pairs_map_at(self.buckets@, i as int); }
                    },
                    None => {
                        self.set_bucket(route, RateLimitInfo::new(now));
                    },
                }
                self.set_route(route, route);
                proof {
                    assert(self@.buckets =~= with_route(old(self)@, route@, now).buckets);
                }
                key
            },
        }
    }

    /// Acquire permission to make a request to a specific route: the guard of the
    /// request and how long it must wait for its bucket, if at all. The global
    /// limit (`check_global`) is waited for before this is called.
    pub fn acquire(&mut self, route: &str, now: u64) -> (r: (RateLimitGuard, Option<u64>))
        requires
            old(self).wf(),
        ensures
            final(self).wf(),
            r.0.route_text() == route@,
            r.0.bucket_text() == bucket_key_of(old(self)@, route@),
            r.1 == acquire_wait(old(self)@, route@, now),
            final(self)@ == with_route(old(self)@, route@, now),
    {
        let key = self.get_or_create_bucket(route, now);
        let i = self.bucket_index(key.as_str());
        let info = &self.buckets[i].1;
        let wait = if info.should_wait(now) {
            Some(info.wait_duration(now))
        } else {
            None
        };
        (RateLimitGuard { route: owned(route), bucket_key: key }, wait)
    }

    /// Update rate limit info from response headers. `reset_after` is the
    /// reported reset delay in milliseconds.
    pub fn update_from_headers(
        &mut self,
        route: &str,
        remaining: Option<u32>,
        limit: Option<u32>,
        reset_after: Option<u64>,
        bucket: Option<String>,
        global: bool,
        now: u64,
    )
        requires
            old(self).wf(),
            reset_after matches Some(d) ==> now + d <= u64::MAX,
        ensures
            final(self).wf(),
            final(self)@ == after_headers(
                old(self)@,
                route@,
                remaining,
                limit,
                reset_after,
                bucket,
                global,
                now,
            ),
    {
        if global {
            self.global.limited = true;
            match reset_after {
                Some(d) => {
                    self.global.reset_at = now + d;
                },
                None => {},
            }
            return;
        }
        let ghost s0 = self@;
        let key = match &bucket {
            Some(hash) => {
                match find_key(&self.buckets, hash.as_str()) {
                    Some(_) => {},
                    None => {
                        self.set_bucket(hash.as_str(), RateLimitInfo::new(now));
                    },
                }
                self.set_route(route, hash.as_str());
                hash.clone()
            },
            None => self.get_or_create_bucket(route, now),
        };
        let i = self.bucket_index(key.as_str());
        let base = &self.buckets[i].1;
        let info = RateLimitInfo {
            remaining: match remaining {
                Some(v) => v,
                None => base.remaining,
            },
            limit: match limit {
                Some(v) => v,
                None => base.limit,
            },
            reset_at: match reset_after {
                Some(d) => now + d,
                None => base.reset_at,
            },
            bucket,
        };
        self.set_bucket(key.as_str(), info);
        proof {
            let target = after_headers(s0, route@, remaining, limit, reset_after, info.bucket, global, now);
            assert(self@.buckets =~= target.buckets);
            assert(self@.routes =~= target.routes);
        }
    }

    /// Handle a 429 rate limit response: the global limit, or the route's bucket,
    /// is exhausted for `retry_after` milliseconds from `now`. The caller then
    /// waits that long.
    pub fn handle_rate_limit(&mut self, route: &str, retry_after: u64, global: bool, now: u64)
        requires
            old(self).wf(),
            now + retry_after <= u64::MAX,
        ensures
            final(self).wf(),
            final(self)@ == after_rate_limit(old(self)@, route@, retry_after, global, now),
    {
        if global {
            self.global.limited = true;
            self.global.reset_at = now + retry_after;
        } else {
            let key = self.get_or_create_bucket(route, now);
            let i = self.bucket_index(key.as_str());
            let old_info = &self.buckets[i].1;
            let info = RateLimitInfo {
                remaining: 0,
                limit: old_info.limit,
                reset_at: now + retry_after,
                bucket: old_info.bucket.clone(),
            };
            self.set_bucket(key.as_str(), info);
        }
    }
}

/// After a 429 on a route, a request on the same route waits until the reset
/// that the 429 asked for.
pub proof fn law_rate_limited_route_waits(
    s: LimiterState,
    route: Seq<char>,
    retry_after: u64,
    now: u64,
    later: u64,
)
    requires
        state_wf(s),
        now + retry_after <= u64::MAX,
        now <= later < now + retry_after,
    ensures
        acquire_wait(after_rate_limit(s, route, retry_after, false, now), route, later) == Some(
            (now + retry_after - later) as u64,
        ),
{
    let t = after_rate_limit(s, route, retry_after, false, now);
    let key = bucket_key_of(s, route);
    assert(t.routes.contains_key(route));
    assert(bucket_key_of(t, route) == key);
    assert(with_route(t, route, later) == t);
}

/// After a global 429, every request waits until the reset that it asked for.
pub proof fn law_global_limit_waits(
    s: LimiterState,
    route: Seq<char>,
    retry_after: u64,
    now: u64,
    later: u64,
)
    requires
        now + retry_after <= u64::MAX,
        now <= later < now + retry_after,
    ensures
        global_wait(after_rate_limit(s, route, retry_after, true, now), later) == Some(
            (now + retry_after - later) as u64,
        ),
{
}

/// Once a bucket's reset time has passed, its requests no longer wait.
pub proof fn law_wait_ends_at_reset(s: LimiterState, route: Seq<char>, now: u64)
    requires
        state_wf(s),
        now >= with_route(s, route, now).buckets[bucket_key_of(s, route)].reset_at,
    ensures
        acquire_wait(s, route, now) is None,
{
}

/// A bucket makes a request wait only when it has no request left in its window
/// and the window has not reset yet; a request on a route then waits exactly
/// until its bucket's reset, and otherwise goes at once.
pub proof fn law_wait_only_when_bucket_exhausted(
    info: RateLimitInfo,
    s: LimiterState,
    route: Seq<char>,
    now: u64,
)
    ensures
        info.remaining > 0 ==> !info.waiting(now),
        now >= info.reset_at ==> !info.waiting(now),
        info.remaining == 0 && now < info.reset_at ==> info.waiting(now),
        ({
            let b = with_route(s, route, now).buckets[bucket_key_of(s, route)];
            acquire_wait(s, route, now) == if b.remaining == 0 && now < b.reset_at {
                Some((b.reset_at - now) as u64)
            } else {
                None
            }
        }),
{
}

/// Headers that report requests still remaining in the window let the next
/// request on the route go at once, whatever the reset.
pub proof fn law_headers_with_remaining_do_not_wait(
    s: LimiterState,
    route: Seq<char>,
    remaining: u32,
    limit: Option<u32>,
    reset_after: Option<u64>,
    now: u64,
    later: u64,
)
    requires
        state_wf(s),
        remaining > 0,
        reset_after matches Some(d) ==> now + d <= u64::MAX,
    ensures
        acquire_wait(
            after_headers(s, route, Some(remaining), limit, reset_after, None, false, now),
            route,
            later,
        ) is None,
{
    let t = after_headers(s, route, Some(remaining), limit, reset_after, None, false, now);
    assert(t.routes.contains_key(route));
    assert(bucket_key_of(t, route) == bucket_key_of(s, route));
    assert(with_route(t, route, later) == t);
}

/// Headers that report no remaining requests and a reset delay make the next
/// request on the route wait until that reset.
pub proof fn law_exhausted_headers_wait(
    s: LimiterState,
    route: Seq<char>,
    limit: Option<u32>,
    reset_after: u64,
    now: u64,
    later: u64,
)
    requires
        state_wf(s),
        now + reset_after <= u64::MAX,
        now <= later < now + reset_after,
    ensures
        acquire_wait(
            after_headers(s, route, Some(0), limit, Some(reset_after), None, false, now),
            route,
            later,
        ) == Some((now + reset_after - later) as u64),
{
    let t = after_headers(s, route, Some(0), limit, Some(reset_after), None, false, now);
    assert(t.routes.contains_key(route));
    assert(bucket_key_of(t, route) == bucket_key_of(s, route));
    assert(with_route(t, route, later) == t);
}

} // verus!
