//! The credential cache: whether elevation was granted recently enough that
//! the user need not be asked again. It holds the time of the last grant and
//! never the secret.

use vstd::prelude::*;

verus! {

/// What the cache holds: the time of the last grant that still counts, in
/// seconds, and the minutes a grant is trusted for.
pub struct CacheModel {
    pub granted_at: Option<u64>,
    pub ttl_minutes: u64,
}

/// A grant made at `granted_at` is trusted at `now` while fewer than
/// `ttl_minutes` minutes have passed since.
pub open spec fn window_open(granted_at: u64, ttl_minutes: u64, now: u64) -> bool {
    now - granted_at < ttl_minutes * 60
}

/// The cache vouches for elevation at `now`.
pub open spec fn model_valid(m: CacheModel, now: u64) -> bool {
    m.granted_at matches Some(g) && window_open(g, m.ttl_minutes, now)
}

/// The cache after a grant at `now`.
pub open spec fn model_recorded(m: CacheModel, now: u64) -> CacheModel {
    CacheModel { granted_at: Some(now), ttl_minutes: m.ttl_minutes }
}

/// The cache after it was told to forget.
pub open spec fn model_cleared(m: CacheModel) -> CacheModel {
    CacheModel { granted_at: None, ttl_minutes: m.ttl_minutes }
}

/// The cache after a sweep at `now` that trusts a grant for `ttl_minutes`.
pub open spec fn model_swept(m: CacheModel, ttl_minutes: u64, now: u64) -> CacheModel {
    match m.granted_at {
        Some(g) => if window_open(g, ttl_minutes, now) {
            m
        } else {
            model_cleared(m)
        },
        None => m,
    }
}

/// The minutes a grant is trusted for where nothing else is asked.
pub const DEFAULT_TTL_MINUTES: u64 = 15;

/// The record of the last grant of elevation. One cache serves the whole
/// process; whoever shares it puts it behind a lock, and every change goes
/// through `&mut self`, so no reader sees a half-made change.
#[derive(Debug)]
pub struct SudoCache {
    granted_at: Option<u64>,
    ttl_minutes: u64,
}

impl View for SudoCache {
    type V = CacheModel;

    closed spec fn view(&self) -> CacheModel {
        CacheModel { granted_at: self.granted_at, ttl_minutes: self.ttl_minutes }
    }
}

/// Whether a grant made at `granted_at` is still trusted at `now`.
fn window_is_open(granted_at: u64, ttl_minutes: u64, now: u64) -> (b: bool)
    ensures
        b == window_open(granted_at, ttl_minutes, now),
{
    if now < granted_at {
        true
    } else {
        let elapsed: u64 = now - granted_at;
        assert((elapsed / 60 < ttl_minutes) == (elapsed < ttl_minutes * 60)) by (nonlinear_arith)
            requires
                elapsed >= 0,
                ttl_minutes >= 0,
        ;
        elapsed / 60 < ttl_minutes
    }
}

impl SudoCache {
    /// An empty cache that trusts a grant for fifteen minutes.
    pub fn new() -> (c: SudoCache)
        ensures
            c@.granted_at is None,
            c@.ttl_minutes == DEFAULT_TTL_MINUTES,
    {
        SudoCache { granted_at: None, ttl_minutes: DEFAULT_TTL_MINUTES }
    }

    /// An empty cache that trusts a grant for `ttl_minutes` minutes.
    pub fn with_ttl(ttl_minutes: u64) -> (c: SudoCache)
        ensures
            c@.granted_at is None,
            c@.ttl_minutes == ttl_minutes,
    {
        SudoCache { granted_at: None, ttl_minutes }
    }

    /// Notes that elevation was granted at `now`: the window starts afresh.
    pub fn record_success(&mut self, now: u64)
        ensures
            final(self)@ == model_recorded(old(self)@, now),
    {
        self.granted_at = Some(now);
    }

    /// Whether a grant is on record that is still trusted at `now`.
    pub fn is_valid(&self, now: u64) -> (b: bool)
        ensures
            b == model_valid(self@, now),
    {
        match self.granted_at {
            Some(g) => window_is_open(g, self.ttl_minutes, now),
            None => false,
        }
    }

    /// Forgets the grant.
    pub fn clear(&mut self)
        ensures
            final(self)@ == model_cleared(old(self)@),
    {
        self.granted_at = None;
    }

    /// Forgets the grant where, at `now`, it is older than `ttl_minutes`
    /// minutes; a younger one stays.
    pub fn sweep(&mut self, ttl_minutes: u64, now: u64)
        ensures
            final(self)@ == model_swept(old(self)@, ttl_minutes, now),
    {
        match self.granted_at {
            Some(g) => {
                if !window_is_open(g, ttl_minutes, now) {
                    self.granted_at = None;
                }
            },
            None => {},
        }
    }
}

/// After a grant the cache vouches for elevation at once and until the
/// minutes it trusts a grant for have passed; a sweep within that time keeps
/// the grant.
pub proof fn lemma_grant_holds_for_ttl(m: CacheModel, granted: u64, now: u64)
    requires
        m.ttl_minutes > 0,
        granted <= now < granted + m.ttl_minutes * 60,
    ensures
        model_valid(model_recorded(m, granted), granted),
        model_valid(model_recorded(m, granted), now),
        model_swept(model_recorded(m, granted), m.ttl_minutes, now) == model_recorded(m, granted),
{
}

/// Once the minutes a grant is trusted for have passed, the cache vouches for
/// nothing, a sweep removes the grant, and after the sweep the cache vouches
/// for nothing at any time.
pub proof fn lemma_grant_expires(m: CacheModel, granted: u64, now: u64, later: u64)
    requires
        now >= granted + m.ttl_minutes * 60,
    ensures
        !model_valid(model_recorded(m, granted), now),
        model_swept(model_recorded(m, granted), m.ttl_minutes, now).granted_at is None,
        !model_valid(model_swept(model_recorded(m, granted), m.ttl_minutes, now), later),
{
}

/// A cache that was told to forget vouches for nothing.
pub proof fn lemma_cleared_is_invalid(m: CacheModel, now: u64)
    ensures
        !model_valid(model_cleared(m), now),
{
}

} // verus!
