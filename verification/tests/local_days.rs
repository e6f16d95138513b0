use std::time::{SystemTime, UNIX_EPOCH};
use vulcan::calendar::{earliest, now_and_start_of_today, now_timestamp, single, start_of_commit_day, LocalInstants};

fn unix_now() -> i64 {
    SystemTime::now().duration_since(UNIX_EPOCH).unwrap().as_secs() as i64
}

#[test]
fn a_commit_day_starts_at_or_before_the_commit() {
    let t = 1_700_000_000;
    let start = start_of_commit_day(t).unwrap();
    assert!(start <= t && t - start < 2 * 86_400);
    assert_ne!(start, t);
}

#[test]
fn today_starts_before_now() {
    let before = unix_now();
    let (now, start) = now_and_start_of_today();
    let after = unix_now();
    assert!(before <= now && now <= after);
    let start = start.unwrap();
    assert!(start <= now && now - start < 2 * 86_400);
    let t = now_timestamp();
    assert!(now <= t);
}

#[test]
fn earliest_and_single_instants() {
    assert_eq!(earliest(LocalInstants::Ambiguous(5, 9)), Some(5));
    assert_eq!(single(LocalInstants::Ambiguous(5, 9)), None);
    assert_eq!(earliest(LocalInstants::Single(7)), Some(7));
    assert_eq!(single(LocalInstants::Single(7)), Some(7));
    assert_eq!(earliest(LocalInstants::Missing), None);
    assert_eq!(single(LocalInstants::Missing), None);
}
