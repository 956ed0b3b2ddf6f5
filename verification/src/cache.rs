//! The cache guard: a single-slot cache of the tide predictions with a
//! fixed freshness window.
//!
//! The guard's protocol is double-checked locking under a shared/exclusive
//! lock. A caller first checks the entry under a shared view and is served
//! immediately when it is fresh; otherwise it acquires the exclusive view,
//! re-checks (another caller may have refreshed the entry while it waited),
//! and only fetches when the entry is still stale. The lock itself and the
//! fetch are asynchronous I/O and live with the caller; the decisions and
//! the entry update are here, so the whole protocol is `check` under the
//! shared view, `check` again under the exclusive view, and
//! `apply_fetch_result` with whatever the one in-flight fetch produced.

use vstd::prelude::*;

use crate::tide::TideSet;

verus! {

/// The freshness window: an entry one hour old or older is stale.
pub const FRESH_WINDOW_MILLIS: u64 = 60 * 60 * 1000;

/// An entry created at `created_at` is fresh at `now` exactly when less
/// than the freshness window has passed; it is stale otherwise. A clock
/// that reads earlier than the creation time leaves the entry fresh.
pub open spec fn is_fresh(created_at: int, now: int) -> bool {
    now - created_at < FRESH_WINDOW_MILLIS
}

/// Why a refresh produced no value: the upstream request failed, or its
/// payload did not parse as a prediction set.
#[derive(Debug, PartialEq, Eq)]
pub enum FetchError {
    Transport(String),
    Parse(String),
}

/// The single cached value and the moment it was created, in milliseconds
/// of the system clock since the Unix epoch.
pub struct CacheEntry {
    pub created_at_millis: u128,
    pub value: TideSet,
}

impl CacheEntry {
    /// The placeholder the process starts with: an empty prediction set
    /// with creation time zero, which every real clock reading finds stale.
    pub fn initial() -> (e: CacheEntry)
        ensures
            e.created_at_millis == 0,
            e.value@ =~= Seq::<crate::tide::TideEvent>::empty(),
    {
        CacheEntry { created_at_millis: 0, value: TideSet::new() }
    }

    /// The freshness check, used under the shared view (the fast path) and
    /// again under the exclusive view (the stampede guard's re-check).
    /// Serves a copy of the cached value exactly when the entry is fresh.
    pub fn check(&self, now_millis: u128) -> (r: Option<TideSet>)
        ensures
            r is Some <==> is_fresh(self.created_at_millis as int, now_millis as int),
            r is Some ==> r->Some_0@ == self.value@,
    {
        let fresh = if now_millis <= self.created_at_millis {
            true
        } else {
            now_millis - self.created_at_millis < FRESH_WINDOW_MILLIS as u128
        };
        if fresh {
            Some(self.value.clone())
        } else {
            None
        }
    }

    /// Applies the outcome of the one fetch a stale exclusive holder made.
    /// A successful fetch replaces the entry wholesale with the fetched
    /// value stamped `now_millis` — strictly increasing the creation time —
    /// and returns a copy of that value; a failed fetch leaves the entry
    /// untouched and surfaces the error to this caller alone.
    pub fn apply_fetch_result(
        &mut self,
        now_millis: u128,
        fetched: Result<TideSet, FetchError>,
    ) -> (r: Result<TideSet, FetchError>)
        requires
            !is_fresh(old(self).created_at_millis as int, now_millis as int),
        ensures
            fetched is Ok ==> {
                &&& final(self).created_at_millis == now_millis
                &&& final(self).created_at_millis > old(self).created_at_millis
                &&& final(self).value@ == fetched->Ok_0@
                &&& r is Ok && r->Ok_0@ == fetched->Ok_0@
            },
            fetched is Err ==> {
                &&& *final(self) == *old(self)
                &&& r is Err && r->Err_0 == fetched->Err_0
            },
    {
        match fetched {
            Ok(tides) => {
                let copy = tides.clone();
                self.created_at_millis = now_millis;
                self.value = tides;
                Ok(copy)
            }
            Err(e) => Err(e),
        }
    }
}

/// Freshness law: every check within the freshness window of a successful
/// refresh finds the entry fresh, so `check` serves exactly the stored
/// value and the fetcher is not invoked again.
pub proof fn lemma_freshness(entry: CacheEntry, fetch_time: u128, now: u128)
    requires
        entry.created_at_millis == fetch_time,
        fetch_time <= now < fetch_time + FRESH_WINDOW_MILLIS,
    ensures
        is_fresh(entry.created_at_millis as int, now as int),
{
}

/// Stampede guard law: once the caller that won the exclusive view has
/// stored a fetched value, every caller that re-checks within the window
/// is served from the cache, so at most one fetch happens per stale
/// period.
pub proof fn lemma_stampede_guard(entry: CacheEntry, fetch_time: u128)
    requires
        entry.created_at_millis == fetch_time,
    ensures
        forall|now: int|
            fetch_time <= now < fetch_time + FRESH_WINDOW_MILLIS ==> is_fresh(
                entry.created_at_millis as int,
                now,
            ),
{
}

/// Failure isolation law: an entry a failed refresh left untouched does
/// not silently turn fresh — it is still stale at every later reading of
/// the clock, so the next caller retries the fetch.
pub proof fn lemma_stale_persists(created_at: int, now: int, later: int)
    requires
        !is_fresh(created_at, now),
        now <= later,
    ensures
        !is_fresh(created_at, later),
{
}

/// Monotonic replacement law: a refresh happens only while the entry is
/// stale, and then the clock reads strictly later than the entry's
/// creation time, so replacing the stamp with `now` never decreases it and
/// no reader observes the creation time go backwards.
pub proof fn lemma_monotonic_replacement(entry: CacheEntry, now: u128)
    requires
        !is_fresh(entry.created_at_millis as int, now as int),
    ensures
        now > entry.created_at_millis,
{
}

} // verus!
