//! The extremum locator's behaviour: nearest selection, the tie-break
//! rule, the empty and first-event edge cases, and the countdown.

use ritide::cache::CacheEntry;
use ritide::locator::{
    countdown, current_index, locate, movement_direction, nearest_index, Direction, LocatorError,
};
use ritide::tide::{TideEvent, TideKind, TideSet};

fn set_of(entries: &[(i64, TideKind)]) -> TideSet {
    let mut s = TideSet::new();
    for &(minute, kind) in entries {
        s.push(TideEvent { minute, height_hundredths: 200, kind });
    }
    s
}

#[test]
fn nearest_selection_example() {
    // Events at 10:00 (Low), 16:00 (High), 22:00 (Low); now is 15:00.
    let s = set_of(&[
        (10 * 60, TideKind::Low),
        (16 * 60, TideKind::High),
        (22 * 60, TideKind::Low),
    ]);
    let now = 15 * 60;
    let nearest = nearest_index(&s, now).expect("set is not empty");
    assert_eq!(nearest, 1);
    assert_eq!(movement_direction(&s, nearest), Direction::Rising);
    let cd = countdown(&s, nearest, now);
    assert_eq!(cd.hours, 1);
    assert_eq!(cd.minutes, 0);
    assert_eq!(current_index(nearest).expect("an event precedes the nearest"), 0);

    let report = locate(&s, now).expect("set is not empty");
    assert_eq!(report.nearest_index, 1);
    assert_eq!(report.direction, Direction::Rising);
    assert_eq!(report.countdown.hours, 1);
    assert_eq!(report.countdown.minutes, 0);
}

#[test]
fn tie_keeps_the_first_event_encountered() {
    // Events at 12:00 and 14:00; now is 13:00, one hour from both. The
    // scan keeps only strict improvements, so the earlier event wins.
    let s = set_of(&[(12 * 60, TideKind::High), (14 * 60, TideKind::Low)]);
    let nearest = nearest_index(&s, 13 * 60).expect("set is not empty");
    assert_eq!(nearest, 0);
}

#[test]
fn empty_set_fails_with_the_empty_dataset_error() {
    let s = TideSet::new();
    assert_eq!(nearest_index(&s, 100), Err(LocatorError::EmptyDataset));
    assert_eq!(locate(&s, 100).expect_err("empty set"), LocatorError::EmptyDataset);
}

#[test]
fn empty_successful_fetch_makes_the_locator_fail_cleanly() {
    // The guard can legitimately cache a prediction set with zero events;
    // the locator must answer with its empty-dataset error, not crash.
    let mut e = CacheEntry::initial();
    let served =
        e.apply_fetch_result(1_700_000_000_000, Ok(TideSet::new())).expect("refresh succeeds");
    assert_eq!(locate(&served, 100).expect_err("empty set"), LocatorError::EmptyDataset);
}

#[test]
fn now_before_first_event_has_no_preceding_event() {
    let s = set_of(&[(10 * 60, TideKind::Low), (16 * 60, TideKind::High)]);
    let nearest = nearest_index(&s, 8 * 60).expect("set is not empty");
    assert_eq!(nearest, 0);
    assert_eq!(current_index(nearest), Err(LocatorError::NoPrecedingEvent));
}

#[test]
fn nearest_event_in_the_past_gives_a_signed_countdown() {
    // The only event was two and a half hours ago.
    let s = set_of(&[(10 * 60, TideKind::Low)]);
    let now = 12 * 60 + 30;
    let nearest = nearest_index(&s, now).expect("set is not empty");
    assert_eq!(nearest, 0);
    let cd = countdown(&s, nearest, now);
    assert_eq!(cd.hours, -2);
    assert_eq!(cd.minutes, -30);
    assert_eq!(cd.hours * 60 + cd.minutes, -150);
}

#[test]
fn countdown_decomposes_by_truncating_division() {
    let s = set_of(&[(600, TideKind::High)]);
    // 90 minutes ahead.
    let cd = countdown(&s, 0, 510);
    assert_eq!((cd.hours, cd.minutes), (1, 30));
    // Exactly now.
    let cd = countdown(&s, 0, 600);
    assert_eq!((cd.hours, cd.minutes), (0, 0));
    // 59 minutes ago: less than an hour keeps the hours at zero.
    let cd = countdown(&s, 0, 659);
    assert_eq!((cd.hours, cd.minutes), (0, -59));
}

#[test]
fn direction_follows_the_nearest_kind() {
    let s = set_of(&[(100, TideKind::Low), (460, TideKind::High)]);
    assert_eq!(movement_direction(&s, 0), Direction::Falling);
    assert_eq!(movement_direction(&s, 1), Direction::Rising);
}

#[test]
fn tide_set_clone_copies_every_event() {
    let s = set_of(&[(100, TideKind::Low), (460, TideKind::High)]);
    let c = s.clone();
    assert_eq!(c.events, s.events);
    assert_eq!(s.len(), 2);
    assert_eq!(s.event(1).minute, 460);
    assert_eq!(s.event(1).kind, TideKind::High);
}
