//! Token budgets held in fixed-length windows.
//!
//! A [`ResourcePool`] counts the tokens reported for one class of request
//! since the start of its current window. A check never reserves anything: it
//! only compares the recorded usage with the limit, and usage grows when the
//! service reports what a finished call has cost.

use vstd::prelude::*;

verus! {

/// Length of the window of both default pools, in milliseconds.
pub const DEFAULT_WINDOW_MS: u64 = 60_000;

/// Tokens that the embedding pool admits per window by default.
pub const DEFAULT_EMBEDDINGS_LIMIT: u32 = 3_000_000;

/// Tokens that the reranking pool admits per window by default.
pub const DEFAULT_RERANKING_LIMIT: u32 = 2_000_000;

/// The mathematical state of a pool. Times are milliseconds on a monotonic
/// clock whose origin the caller chooses.
pub struct PoolState {
    pub limit: nat,
    pub window_length: nat,
    pub window_start: nat,
    pub used: nat,
}

impl PoolState {
    /// Time spent in the current window at `now`. A reading that lies before
    /// the start of the window counts as no time at all.
    pub open spec fn elapsed(self, now: nat) -> nat {
        if now >= self.window_start {
            (now - self.window_start) as nat
        } else {
            0
        }
    }

    /// The window is over at `now`.
    pub open spec fn expired(self, now: nat) -> bool {
        self.elapsed(now) >= self.window_length
    }

    /// The pool as an observation at `now` leaves it: an expired window is
    /// replaced by an empty one that starts at `now`.
    pub open spec fn rolled(self, now: nat) -> PoolState {
        if self.expired(now) {
            PoolState { window_start: now, used: 0, ..self }
        } else {
            self
        }
    }

    /// `estimate` more tokens stay within the limit.
    pub open spec fn admits(self, estimate: nat) -> bool {
        self.used + estimate <= self.limit
    }

    /// How long a caller that wants `estimate` tokens at `now` has to wait:
    /// nothing when the rolled pool admits them, else the rest of its window.
    pub open spec fn wait(self, now: nat, estimate: nat) -> nat {
        let pool = self.rolled(now);
        if pool.admits(estimate) {
            0
        } else {
            (pool.window_length - pool.elapsed(now)) as nat
        }
    }

    /// The pool after `actual` tokens were reported. The counter stops at
    /// the largest value it can hold.
    pub open spec fn charged(self, actual: nat) -> PoolState {
        PoolState {
            used: if self.used + actual <= u64::MAX { self.used + actual } else { u64::MAX as nat },
            ..self
        }
    }
}

/// One rate-limited class of requests.
#[derive(Debug)]
pub struct ResourcePool {
    limit: u32,
    window_length: u64,
    window_start: u64,
    used: u64,
}

impl View for ResourcePool {
    type V = PoolState;

    closed spec fn view(&self) -> PoolState {
        PoolState {
            limit: self.limit as nat,
            window_length: self.window_length as nat,
            window_start: self.window_start as nat,
            used: self.used as nat,
        }
    }
}

impl ResourcePool {
    /// A pool with nothing used, whose first window starts at `now`.
    pub fn new(limit: u32, window_length: u64, now: u64) -> (pool: ResourcePool)
        ensures
            pool@ == (PoolState {
                limit: limit as nat,
                window_length: window_length as nat,
                window_start: now as nat,
                used: 0,
            }),
    {
        ResourcePool { limit, window_length, window_start: now, used: 0 }
    }

    pub fn limit(&self) -> (limit: u32)
        ensures
            limit == self@.limit,
    {
        self.limit
    }

    pub fn window_length(&self) -> (length: u64)
        ensures
            length == self@.window_length,
    {
        self.window_length
    }

    pub fn window_start(&self) -> (start: u64)
        ensures
            start == self@.window_start,
    {
        self.window_start
    }

    pub fn used(&self) -> (used: u64)
        ensures
            used == self@.used,
    {
        self.used
    }

    fn roll(&mut self, now: u64)
        ensures
            final(self)@ == old(self)@.rolled(now as nat),
    {
        let elapsed: u64 = if now >= self.window_start {
            now - self.window_start
        } else {
            0
        };
        if elapsed >= self.window_length {
            self.window_start = now;
            self.used = 0;
        }
    }

    /// Rolls the window if it is over, then answers how long a caller that
    /// expects to spend `estimate` tokens must wait before it proceeds.
    /// Nothing is reserved: the usage recorded in the pool stays as it is.
    pub fn check(&mut self, now: u64, estimate: u32) -> (wait: u64)
        ensures
            final(self)@ == old(self)@.rolled(now as nat),
            wait == old(self)@.wait(now as nat, estimate as nat),
    {
        self.roll(now);
        if self.used <= self.limit as u64 && estimate as u64 <= self.limit as u64 - self.used {
            0
        } else {
            let elapsed: u64 = if now >= self.window_start {
                now - self.window_start
            } else {
                0
            };
            if elapsed >= self.window_length {
                0
            } else {
                self.window_length - elapsed
            }
        }
    }

    /// Rolls the window if it is over, then records `actual` tokens as used.
    pub fn update(&mut self, now: u64, actual: u32)
        ensures
            final(self)@ == old(self)@.rolled(now as nat).charged(actual as nat),
    {
        self.roll(now);
        self.used = self.used.saturating_add(actual as u64);
    }

    /// Checks as [`ResourcePool::check`] does and says what the caller has
    /// to do before it sends: go ahead where the pool admits the request,
    /// else sleep for the rest of the window. The request is sent after
    /// the sleep without a second check.
    pub fn admission(&mut self, now: u64, estimate: u32) -> (admission: Admission)
        ensures
            final(self)@ == old(self)@.rolled(now as nat),
            admission == admission_for(old(self)@.wait(now as nat, estimate as nat)),
    {
        let wait = self.check(now, estimate);
        if wait == 0 {
            Admission::Proceed
        } else {
            Admission::Sleep(wait)
        }
    }
}

/// Which of the two budgets a request draws on.
#[derive(Clone, Copy, Debug, PartialEq, Eq, Structural)]
pub enum Pool {
    Embeddings,
    Reranking,
}

/// The budgets of one client: one pool for embedding requests and one for
/// reranking requests. Neither pool is ever touched by traffic of the other.
#[derive(Debug)]
pub struct RateLimiter {
    embeddings: ResourcePool,
    reranking: ResourcePool,
}

impl RateLimiter {
    pub closed spec fn embeddings(&self) -> PoolState {
        self.embeddings@
    }

    pub closed spec fn reranking(&self) -> PoolState {
        self.reranking@
    }

    /// The state of the pool that `pool` names.
    pub open spec fn pool(&self, pool: Pool) -> PoolState {
        match pool {
            Pool::Embeddings => self.embeddings(),
            Pool::Reranking => self.reranking(),
        }
    }

    /// The pool that `pool` does not name.
    pub open spec fn other(&self, pool: Pool) -> PoolState {
        match pool {
            Pool::Embeddings => self.reranking(),
            Pool::Reranking => self.embeddings(),
        }
    }

    /// A limiter with the default limits, whose windows start at `now`.
    pub fn new(now: u64) -> (limiter: RateLimiter)
        ensures
            limiter.embeddings() == (PoolState {
                limit: DEFAULT_EMBEDDINGS_LIMIT as nat,
                window_length: DEFAULT_WINDOW_MS as nat,
                window_start: now as nat,
                used: 0,
            }),
            limiter.reranking() == (PoolState {
                limit: DEFAULT_RERANKING_LIMIT as nat,
                window_length: DEFAULT_WINDOW_MS as nat,
                window_start: now as nat,
                used: 0,
            }),
    {
        RateLimiter {
            embeddings: ResourcePool::new(DEFAULT_EMBEDDINGS_LIMIT, DEFAULT_WINDOW_MS, now),
            reranking: ResourcePool::new(DEFAULT_RERANKING_LIMIT, DEFAULT_WINDOW_MS, now),
        }
    }

    /// A limiter made of the two pools given.
    pub fn with_pools(embeddings: ResourcePool, reranking: ResourcePool) -> (limiter: RateLimiter)
        ensures
            limiter.embeddings() == embeddings@,
            limiter.reranking() == reranking@,
    {
        RateLimiter { embeddings, reranking }
    }

    /// The wait before a request on `pool` that is expected to cost
    /// `estimate` tokens; see [`ResourcePool::check`].
    pub fn check(&mut self, pool: Pool, now: u64, estimate: u32) -> (wait: u64)
        ensures
            final(self).pool(pool) == old(self).pool(pool).rolled(now as nat),
            final(self).other(pool) == old(self).other(pool),
            wait == old(self).pool(pool).wait(now as nat, estimate as nat),
    {
        match pool {
            Pool::Embeddings => self.embeddings.check(now, estimate),
            Pool::Reranking => self.reranking.check(now, estimate),
        }
    }

    /// Records what a finished request on `pool` has cost; see
    /// [`ResourcePool::update`].
    pub fn update(&mut self, pool: Pool, now: u64, actual: u32)
        ensures
            final(self).pool(pool) == old(self).pool(pool).rolled(now as nat).charged(actual as nat),
            final(self).other(pool) == old(self).other(pool),
    {
        match pool {
            Pool::Embeddings => self.embeddings.update(now, actual),
            Pool::Reranking => self.reranking.update(now, actual),
        }
    }

    pub fn check_embeddings_limit(&mut self, now: u64, estimated_tokens: u32) -> (wait: u64)
        ensures
            final(self).embeddings() == old(self).embeddings().rolled(now as nat),
            final(self).reranking() == old(self).reranking(),
            wait == old(self).embeddings().wait(now as nat, estimated_tokens as nat),
    {
        self.check(Pool::Embeddings, now, estimated_tokens)
    }

    pub fn check_reranking_limit(&mut self, now: u64, estimated_tokens: u32) -> (wait: u64)
        ensures
            final(self).reranking() == old(self).reranking().rolled(now as nat),
            final(self).embeddings() == old(self).embeddings(),
            wait == old(self).reranking().wait(now as nat, estimated_tokens as nat),
    {
        self.check(Pool::Reranking, now, estimated_tokens)
    }

    pub fn update_embeddings_usage(&mut self, now: u64, total_tokens: u32)
        ensures
            final(self).embeddings() == old(self).embeddings().rolled(now as nat).charged(
                total_tokens as nat,
            ),
            final(self).reranking() == old(self).reranking(),
    {
        self.update(Pool::Embeddings, now, total_tokens)
    }

    pub fn update_reranking_usage(&mut self, now: u64, total_tokens: u32)
        ensures
            final(self).reranking() == old(self).reranking().rolled(now as nat).charged(
                total_tokens as nat,
            ),
            final(self).embeddings() == old(self).embeddings(),
    {
        self.update(Pool::Reranking, now, total_tokens)
    }
}

/// What a caller does before it sends a request.
#[derive(Clone, Copy, Debug, PartialEq, Eq, Structural)]
pub enum Admission {
    /// Send at once.
    Proceed,
    /// Sleep for so many milliseconds, without holding up other callers,
    /// then send.
    Sleep(u64),
}

/// The admission that a wait of `wait` milliseconds stands for.
pub open spec fn admission_for(wait: nat) -> Admission {
    if wait == 0 {
        Admission::Proceed
    } else {
        Admission::Sleep(wait as u64)
    }
}

impl RateLimiter {
    /// What a caller has to do before it sends a request on `pool` that is
    /// expected to cost `estimate` tokens; see [`ResourcePool::admission`].
    pub fn admission(&mut self, pool: Pool, now: u64, estimate: u32) -> (admission: Admission)
        ensures
            final(self).pool(pool) == old(self).pool(pool).rolled(now as nat),
            final(self).other(pool) == old(self).other(pool),
            admission == admission_for(old(self).pool(pool).wait(now as nat, estimate as nat)),
    {
        match pool {
            Pool::Embeddings => self.embeddings.admission(now, estimate),
            Pool::Reranking => self.reranking.admission(now, estimate),
        }
    }

    /// Takes the limiter apart into its embedding pool and its reranking
    /// pool, so that each can be guarded on its own.
    pub fn into_pools(self) -> (pools: (ResourcePool, ResourcePool))
        ensures
            pools.0@ == self.embeddings(),
            pools.1@ == self.reranking(),
    {
        (self.embeddings, self.reranking)
    }
}

/// A request that fits the limit of an idle pool never waits once the
/// window in which it was refused is over: the check that finds the window
/// expired starts a new one at `now` with nothing used.
pub proof fn lemma_expired_window_admits(pool: PoolState, now: nat, estimate: nat)
    requires
        pool.expired(now),
        estimate <= pool.limit,
    ensures
        pool.wait(now, estimate) == 0,
        pool.rolled(now).used == 0,
        pool.rolled(now).window_start == now,
{
}

/// Within a window, a refused request is told to wait for the rest of the
/// window: a positive time, no longer than the window, after which the
/// window is over. This holds of clock readings that do not lie before the
/// start of the window.
pub proof fn lemma_wait_ends_window(pool: PoolState, now: nat, estimate: nat)
    requires
        pool.window_start <= now,
        !pool.expired(now),
        !pool.admits(estimate),
    ensures
        0 < pool.wait(now, estimate) <= pool.window_length,
        pool.expired(now + pool.wait(now, estimate)),
{
}

/// A check reserves nothing: whatever it answers, a second check at the
/// same instant gives the same answer and leaves the pool as the first did.
pub proof fn lemma_check_reserves_nothing(pool: PoolState, now: nat, estimate: nat)
    ensures
        pool.rolled(now).used <= pool.used,
        pool.rolled(now).rolled(now) == pool.rolled(now),
        pool.rolled(now).wait(now, estimate) == pool.wait(now, estimate),
{
}

/// Usage reported within a window counts against every later check in that
/// window: after `actual` tokens are recorded at `now`, a request for
/// `estimate` tokens at a later instant `then` of the same window waits
/// exactly when recorded usage, `actual` and `estimate` together exceed the
/// limit.
pub proof fn lemma_update_counts_in_window(
    pool: PoolState,
    now: nat,
    actual: nat,
    then: nat,
    estimate: nat,
)
    requires
        !pool.expired(now),
        now <= then,
        !pool.expired(then),
        pool.used + actual <= u64::MAX,
    ensures
        pool.rolled(now).charged(actual).wait(then, estimate) > 0 <==> pool.used + actual
            + estimate > pool.limit,
{
}

} // verus!
