//! The extremum locator: given the cached prediction set and the current
//! instant in station-local time, find the event temporally nearest to
//! now, the direction the water is moving, the signed countdown to that
//! event, and the index of the event just passed.

use vstd::prelude::*;

use crate::tide::{TideEvent, TideKind, TideSet};

verus! {

/// Why the locator produced no answer: the prediction set was empty, or
/// the nearest event is the first one and no event precedes it.
#[derive(Clone, Copy, Debug, PartialEq, Eq, Structural)]
pub enum LocatorError {
    EmptyDataset,
    NoPrecedingEvent,
}

/// Which way the water is moving: towards a high tide or away from one.
#[derive(Clone, Copy, Debug, PartialEq, Eq, Structural)]
pub enum Direction {
    Rising,
    Falling,
}

/// The signed time from now to the nearest event, decomposed into whole
/// hours and remaining minutes. A negative countdown (the nearest event is
/// in the past) keeps its sign in both fields.
#[derive(Clone, Copy, Debug, PartialEq, Eq, Structural)]
pub struct Countdown {
    pub hours: i64,
    pub minutes: i64,
}

/// Absolute time-distance, in minutes, between an event's moment and now.
pub open spec fn distance(minute: int, now: int) -> int {
    if minute >= now {
        minute - now
    } else {
        now - minute
    }
}

/// Index `i` holds the event nearest to `now` under the scan's tie-break
/// rule: no event is strictly nearer, and every earlier event is strictly
/// farther — a forward scan keeping only strict improvements lands here,
/// so ties go to the earliest event encountered.
pub open spec fn nearest_at(events: Seq<TideEvent>, now: int, i: int) -> bool {
    &&& 0 <= i < events.len()
    &&& forall|j: int|
        0 <= j < events.len() ==> #[trigger] distance(events[j].minute as int, now) >= distance(
            events[i].minute as int,
            now,
        )
    &&& forall|j: int|
        0 <= j < i ==> #[trigger] distance(events[j].minute as int, now) > distance(
            events[i].minute as int,
            now,
        )
}

/// The direction the water moves while the nearest event approaches: it
/// rises towards a high tide and falls towards a low one.
pub open spec fn direction_of(kind: TideKind) -> Direction {
    match kind {
        TideKind::High => Direction::Rising,
        TideKind::Low => Direction::Falling,
    }
}

/// `c` decomposes the signed duration `dur` (in minutes) into whole hours
/// and remaining minutes by truncating division, both fields carrying the
/// sign of `dur`.
pub open spec fn is_countdown_of(dur: int, c: Countdown) -> bool {
    &&& c.hours * 60 + c.minutes == dur
    &&& dur >= 0 ==> c.hours >= 0 && 0 <= c.minutes < 60
    &&& dur < 0 ==> c.hours <= 0 && -60 < c.minutes <= 0
}

/// The timestamps never decrease along the sequence — the order in which
/// the upstream source returns its predictions.
pub open spec fn ascending(events: Seq<TideEvent>) -> bool {
    forall|j: int, k: int|
        0 <= j < k < events.len() ==> #[trigger] events[j].minute <= #[trigger] events[k].minute
}

fn distance_exec(minute: i64, now: i64) -> (d: i128)
    ensures
        d == distance(minute as int, now as int),
{
    let m = minute as i128;
    let w = now as i128;
    if m >= w {
        m - w
    } else {
        w - m
    }
}

/// The index of the event nearest to `now_minute`, scanning forward and
/// keeping the first strict improvement, so ties keep the earliest index.
/// Fails exactly on an empty prediction set.
pub fn nearest_index(set: &TideSet, now_minute: i64) -> (r: Result<usize, LocatorError>)
    ensures
        r is Err <==> set@.len() == 0,
        r is Err ==> r->Err_0 == LocatorError::EmptyDataset,
        r is Ok ==> nearest_at(set@, now_minute as int, r->Ok_0 as int),
{
    let n = set.len();
    if n == 0 {
        return Err(LocatorError::EmptyDataset);
    }
    let mut best: usize = 0;
    let mut best_dist: i128 = distance_exec(set.event(0).minute, now_minute);
    let mut i: usize = 1;
    while i < n
        invariant
            1 <= i <= n,
            n == set@.len(),
            best < i,
            best_dist == distance(set@[best as int].minute as int, now_minute as int),
            forall|j: int|
                0 <= j < i ==> #[trigger] distance(set@[j].minute as int, now_minute as int)
                    >= best_dist,
            forall|j: int|
                0 <= j < best ==> #[trigger] distance(set@[j].minute as int, now_minute as int)
                    > best_dist,
        decreases n - i,
    {
        let d = distance_exec(set.event(i).minute, now_minute);
        if d < best_dist {
            best = i;
            best_dist = d;
        }
        i += 1;
    }
    Ok(best)
}

/// The index of the event just passed: the one immediately preceding the
/// nearest event. Fails exactly when the nearest event is the first one.
pub fn current_index(nearest: usize) -> (r: Result<usize, LocatorError>)
    ensures
        r is Err <==> nearest == 0,
        r is Err ==> r->Err_0 == LocatorError::NoPrecedingEvent,
        r is Ok ==> r->Ok_0 == nearest - 1,
{
    if nearest == 0 {
        Err(LocatorError::NoPrecedingEvent)
    } else {
        Ok(nearest - 1)
    }
}

/// The direction of movement implied by the event at `i`.
pub fn movement_direction(set: &TideSet, i: usize) -> (d: Direction)
    requires
        i < set@.len(),
    ensures
        d == direction_of(set@[i as int].kind),
{
    match set.event(i).kind {
        TideKind::High => Direction::Rising,
        TideKind::Low => Direction::Falling,
    }
}

/// The signed countdown from `now_minute` to the event at `i`, as whole
/// hours and remaining minutes.
pub fn countdown(set: &TideSet, i: usize, now_minute: i64) -> (c: Countdown)
    requires
        i < set@.len(),
    ensures
        is_countdown_of(set@[i as int].minute - now_minute, c),
{
    let m = set.event(i).minute as i128;
    let w = now_minute as i128;
    let dur = m - w;
    if dur >= 0 {
        let h = dur / 60;
        let mm = dur % 60;
        Countdown { hours: h as i64, minutes: mm as i64 }
    } else {
        let p = -dur;
        let h = p / 60;
        let mm = p % 60;
        Countdown { hours: -(h as i64), minutes: -(mm as i64) }
    }
}

/// Everything the presentation boundary needs about the nearest event.
#[derive(Clone, Copy, Debug, PartialEq, Eq, Structural)]
pub struct TideReport {
    pub nearest_index: usize,
    pub direction: Direction,
    pub countdown: Countdown,
}

/// The locator's full answer for a prediction set and the current instant:
/// the nearest event's index, the direction of movement its kind implies,
/// and the signed countdown to it. Fails exactly on an empty set.
pub fn locate(set: &TideSet, now_minute: i64) -> (r: Result<TideReport, LocatorError>)
    ensures
        r is Err <==> set@.len() == 0,
        r is Err ==> r->Err_0 == LocatorError::EmptyDataset,
        r is Ok ==> {
            let rep = r->Ok_0;
            &&& nearest_at(set@, now_minute as int, rep.nearest_index as int)
            &&& rep.direction == direction_of(set@[rep.nearest_index as int].kind)
            &&& is_countdown_of(
                set@[rep.nearest_index as int].minute - now_minute,
                rep.countdown,
            )
        },
{
    match nearest_index(set, now_minute) {
        Err(e) => Err(e),
        Ok(i) => {
            let direction = movement_direction(set, i);
            let cd = countdown(set, i, now_minute);
            Ok(TideReport { nearest_index: i, direction, countdown: cd })
        }
    }
}

/// At most one index satisfies the scan's nearest-with-tie-break rule, so
/// the rule pins the locator's answer down completely.
pub proof fn lemma_nearest_unique(events: Seq<TideEvent>, now: int, i1: int, i2: int)
    requires
        nearest_at(events, now, i1),
        nearest_at(events, now, i2),
    ensures
        i1 == i2,
{
    if i1 < i2 {
        assert(distance(events[i1].minute as int, now) > distance(events[i2].minute as int, now));
        assert(distance(events[i2].minute as int, now) >= distance(events[i1].minute as int, now));
    }
    if i2 < i1 {
        assert(distance(events[i2].minute as int, now) > distance(events[i1].minute as int, now));
        assert(distance(events[i1].minute as int, now) >= distance(events[i2].minute as int, now));
    }
}

/// First-event law: when `now` is no later than the first event of an
/// ascending prediction set, the first event is the nearest one — the
/// locator answers index zero, and deriving a preceding index from it
/// fails with the no-preceding-event error.
pub proof fn lemma_now_before_first(events: Seq<TideEvent>, now: int)
    requires
        events.len() > 0,
        ascending(events),
        now <= events[0].minute,
    ensures
        nearest_at(events, now, 0),
{
    assert forall|j: int| 0 <= j < events.len() implies #[trigger] distance(
        events[j].minute as int,
        now,
    ) >= distance(events[0].minute as int, now) by {
        if j > 0 {
            assert(events[0].minute <= events[j].minute);
        }
    }
}

} // verus!
