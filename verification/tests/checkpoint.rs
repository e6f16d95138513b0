use std::time::{SystemTime, UNIX_EPOCH};
use vulcan::checkpoint::{apply_checkpoint, next_streak, run_checkpoint, CheckpointOutcome};
use vulcan::daemon::{credit_new_commit, record_daily_commit, DailyOutcome};
use vulcan::state::{provision_default_state, CommitPayload, ForgeState};

const TODAY: i64 = 1_700_006_400;
const DAY: i64 = 86_400;

fn commit(additions: u64, deletions: u64, files_changed: u64) -> CommitPayload {
    CommitPayload { additions, deletions, files_changed, is_collaborative: false }
}

fn profile(current_streak: u64, shields_available: u8, last_commit_timestamp: i64) -> ForgeState {
    ForgeState {
        metallurgy_xp: 1_000,
        synergy_xp: 0,
        current_streak,
        shields_available,
        last_commit_timestamp,
        last_processed_sha: String::from("aaa"),
    }
}

fn unix_now() -> i64 {
    SystemTime::now().duration_since(UNIX_EPOCH).unwrap().as_secs() as i64
}

#[test]
fn a_seventh_day_earns_a_shield() {
    let mut state = profile(6, 1, TODAY - 3_600);
    let award = apply_checkpoint(&mut state, &commit(100, 0, 1), String::from("bbb"), TODAY + 100, TODAY);
    // (5 + 5 + 100) * 1.7
    assert_eq!(award, Some(187));
    assert_eq!(state.current_streak, 7);
    assert_eq!(state.shields_available, 2);
    assert_eq!(state.metallurgy_xp, 1_187);
    assert_eq!(state.synergy_xp, 0);
    assert_eq!(state.last_commit_timestamp, TODAY + 100);
    assert_eq!(state.last_processed_sha, "bbb");
}

#[test]
fn the_same_commit_is_never_scored_twice() {
    let mut state = profile(6, 1, TODAY - 3_600);
    assert_eq!(apply_checkpoint(&mut state, &commit(100, 0, 1), String::from("aaa"), TODAY + 100, TODAY), None);
    assert_eq!(state.current_streak, 6);
    assert_eq!(state.metallurgy_xp, 1_000);
    assert_eq!(state.last_commit_timestamp, TODAY - 3_600);
    let first = apply_checkpoint(&mut state, &commit(100, 0, 1), String::from("ccc"), TODAY + 100, TODAY);
    assert!(first.is_some());
    let xp = state.metallurgy_xp;
    let again = apply_checkpoint(&mut state, &commit(100, 0, 1), String::from("ccc"), TODAY + 500, TODAY);
    assert_eq!(again, None);
    assert_eq!(state.metallurgy_xp, xp);
    assert_eq!(state.last_commit_timestamp, TODAY + 100);
}

#[test]
fn a_missed_day_breaks_a_shield() {
    let mut state = profile(10, 2, TODAY - 3 * DAY);
    let award = apply_checkpoint(&mut state, &commit(0, 5, 1), String::from("bbb"), TODAY + 10, TODAY);
    // (5 + 30 + 100) * 2.0
    assert_eq!(award, Some(270));
    assert_eq!(state.current_streak, 10);
    assert_eq!(state.shields_available, 1);
}

#[test]
fn a_missed_day_without_shields_resets_the_streak() {
    let mut state = profile(10, 0, TODAY - 3 * DAY);
    let award = apply_checkpoint(&mut state, &commit(0, 5, 1), String::from("bbb"), TODAY + 10, TODAY);
    assert_eq!(award, Some(135));
    assert_eq!(state.current_streak, 0);
    assert_eq!(state.shields_available, 0);
}

#[test]
fn later_commits_of_the_day_keep_the_streak() {
    let mut state = profile(4, 1, TODAY + 50);
    let award = apply_checkpoint(&mut state, &commit(100, 0, 1), String::from("bbb"), TODAY + 60, TODAY);
    assert_eq!(award, Some(2));
    assert_eq!(state.current_streak, 4);
    assert_eq!(state.shields_available, 1);
    let award = apply_checkpoint(&mut state, &commit(100, 0, 1), String::from("ccc"), TODAY + 600, TODAY);
    // (5 + 5) * 1.4, no ignition bonus
    assert_eq!(award, Some(14));
}

#[test]
fn a_first_commit_ever_keeps_the_streak() {
    let step = next_streak(0, 1, 0, TODAY);
    assert_eq!(step.streak, 0);
    assert_eq!(step.shields, 1);
    assert!(step.first_of_day);
}

#[test]
fn a_full_shield_rack_stays_full() {
    let step = next_streak(13, 3, TODAY - 10, TODAY);
    assert_eq!(step.streak, 14);
    assert_eq!(step.shields, 3);
}

#[test]
fn a_month_of_daily_commits_fills_three_shields() {
    let mut state = provision_default_state();
    for day in 0..30i64 {
        let today = TODAY + day * DAY;
        let sha = format!("{:040}", day + 1);
        let award = apply_checkpoint(&mut state, &commit(40, 0, 1), sha, today + 100, today);
        assert!(award.unwrap() >= 1);
        assert!(state.shields_available <= 3);
    }
    assert_eq!(state.current_streak, 29);
    assert_eq!(state.shields_available, 3);
}

#[test]
fn running_a_checkpoint_scores_once() {
    let mut state = provision_default_state();
    let outcome = run_checkpoint(&mut state, &commit(20, 0, 1), String::from("abc"), unix_now());
    // (5 + 1 + 100) * 1.0: a first commit ever
    assert!(matches!(outcome, CheckpointOutcome::Scored(106)));
    assert_eq!(state.metallurgy_xp, 106);
    assert_eq!(state.last_processed_sha, "abc");
    let outcome = run_checkpoint(&mut state, &commit(20, 0, 1), String::from("abc"), unix_now());
    assert!(matches!(outcome, CheckpointOutcome::AlreadyScored));
    assert_eq!(state.metallurgy_xp, 106);
}

#[test]
fn the_daemon_credits_a_new_commit_now() {
    let mut state = provision_default_state();
    let before = unix_now();
    let outcome = credit_new_commit(&mut state, &commit(20, 0, 1));
    let after = unix_now();
    assert!(matches!(outcome, DailyOutcome::Scored(106)));
    assert_eq!(state.metallurgy_xp, 106);
    assert!(before <= state.last_commit_timestamp && state.last_commit_timestamp <= after);
    assert_eq!(state.last_processed_sha, "0000000000000000000000000000000000000000");
}

#[test]
fn the_daemon_bookkeeping_on_a_given_day() {
    let mut state = profile(6, 1, TODAY - 3_600);
    let award = record_daily_commit(&mut state, &commit(100, 0, 1), TODAY + 100, TODAY);
    assert_eq!(award, 187);
    assert_eq!(state.current_streak, 7);
    assert_eq!(state.shields_available, 2);
    assert_eq!(state.last_commit_timestamp, TODAY + 100);
    assert_eq!(state.last_processed_sha, "aaa");
}

#[test]
fn a_checkpoint_that_would_overflow_changes_nothing() {
    let mut state = provision_default_state();
    state.metallurgy_xp = u64::MAX;
    let outcome = run_checkpoint(&mut state, &commit(20, 0, 1), String::from("abc"), unix_now());
    assert!(matches!(outcome, CheckpointOutcome::Overflow));
    assert_eq!(state.metallurgy_xp, u64::MAX);
    assert_eq!(state.last_processed_sha, "0000000000000000000000000000000000000000");
    let outcome = credit_new_commit(&mut state, &commit(20, 0, 1));
    assert!(matches!(outcome, DailyOutcome::Overflow));
    assert_eq!(state.last_commit_timestamp, 0);
}
