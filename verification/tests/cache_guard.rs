//! The cache guard's behaviour: freshness, the stampede re-check, failure
//! isolation, and monotonic replacement.

use ritide::cache::{CacheEntry, FetchError, FRESH_WINDOW_MILLIS};
use ritide::tide::{TideEvent, TideKind, TideSet};

fn sample_set(first_minute: i64) -> TideSet {
    let mut s = TideSet::new();
    s.push(TideEvent { minute: first_minute, height_hundredths: 123, kind: TideKind::Low });
    s.push(TideEvent { minute: first_minute + 360, height_hundredths: 345, kind: TideKind::High });
    s
}

#[test]
fn initial_entry_is_stale_for_any_real_clock() {
    let e = CacheEntry::initial();
    assert_eq!(e.created_at_millis, 0);
    assert_eq!(e.value.events.len(), 0);
    // Any clock reading at least one window past the epoch finds the
    // sentinel stale.
    assert!(e.check(FRESH_WINDOW_MILLIS as u128).is_none());
    assert!(e.check(1_700_000_000_000).is_none());
}

#[test]
fn freshness_serves_the_stored_value_without_fetching() {
    let mut e = CacheEntry::initial();
    let t0: u128 = 1_700_000_000_000;
    let fetched = sample_set(100);
    let served = e.apply_fetch_result(t0, Ok(fetched)).expect("refresh succeeds");
    assert_eq!(served.events, sample_set(100).events);

    // Every call within the window is served the same value from the cache.
    for dt in [0u128, 1, 60_000, FRESH_WINDOW_MILLIS as u128 - 1] {
        let again = e.check(t0 + dt).expect("entry is fresh inside the window");
        assert_eq!(again.events, sample_set(100).events);
    }
    // At the window's edge the entry is stale again.
    assert!(e.check(t0 + FRESH_WINDOW_MILLIS as u128).is_none());
}

#[test]
fn stampede_recheck_serves_waiting_callers_after_one_fetch() {
    // N callers find the entry stale; the winner of the exclusive view
    // fetches once, and every caller re-checking afterwards is served from
    // the cache without another fetch.
    let mut e = CacheEntry::initial();
    let t0: u128 = 1_700_000_000_000;
    let mut fetches = 0;

    // All callers read a stale entry.
    assert!(e.check(t0).is_none());
    assert!(e.check(t0 + 5).is_none());
    assert!(e.check(t0 + 9).is_none());

    // The winner re-checks under the exclusive view, still stale, and
    // fetches.
    if e.check(t0 + 10).is_none() {
        fetches += 1;
        e.apply_fetch_result(t0 + 10, Ok(sample_set(7))).expect("refresh succeeds");
    }
    // The others acquire the exclusive view in turn, re-check, and are
    // served without fetching.
    for dt in [11u128, 25, 500] {
        match e.check(t0 + dt) {
            Some(v) => assert_eq!(v.events, sample_set(7).events),
            None => {
                fetches += 1;
            }
        }
    }
    assert_eq!(fetches, 1);
}

#[test]
fn failed_fetch_leaves_the_entry_untouched_and_surfaces_the_error() {
    let mut e = CacheEntry::initial();
    let t0: u128 = 1_700_000_000_000;
    e.apply_fetch_result(t0, Ok(sample_set(42))).expect("refresh succeeds");

    // One window later the entry is stale and the refresh fails.
    let t1 = t0 + FRESH_WINDOW_MILLIS as u128;
    assert!(e.check(t1).is_none());
    let err = e
        .apply_fetch_result(t1, Err(FetchError::Transport(String::from("connection refused"))))
        .expect_err("failed refresh surfaces its error");
    assert_eq!(err, FetchError::Transport(String::from("connection refused")));

    // The old value and stamp survive, and the next call finds the entry
    // still stale, so it retries rather than being served silently.
    assert_eq!(e.created_at_millis, t0);
    assert_eq!(e.value.events, sample_set(42).events);
    assert!(e.check(t1 + 1).is_none());

    // A parse failure is isolated the same way.
    let err = e
        .apply_fetch_result(t1 + 1, Err(FetchError::Parse(String::from("wrong type"))))
        .expect_err("failed refresh surfaces its error");
    assert_eq!(err, FetchError::Parse(String::from("wrong type")));
    assert_eq!(e.created_at_millis, t0);
}

#[test]
fn creation_time_never_decreases_across_refreshes() {
    let mut e = CacheEntry::initial();
    let mut seen = e.created_at_millis;
    let t0: u128 = 1_700_000_000_000;
    for round in 0..4u128 {
        let now = t0 + round * (FRESH_WINDOW_MILLIS as u128 + 1);
        assert!(e.check(now).is_none());
        e.apply_fetch_result(now, Ok(sample_set(round as i64))).expect("refresh succeeds");
        assert!(e.created_at_millis > seen);
        seen = e.created_at_millis;
    }
}
