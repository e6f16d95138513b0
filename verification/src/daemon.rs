//! The polling daemon: scoring with session metrics, and the daily commit
//! bookkeeping done when the watched repository's HEAD log changes.

use vstd::prelude::*;
use crate::calendar::{now_and_start_of_today, within_chrono_range};
use crate::checkpoint::{next_streak, shields_after, starts_new_day, streak_after, streak_step_fits};
use crate::github::{
    classify_error_code, error_code, error_code_of, error_outcome, JsonMember, PollResult, PollView,
    TokenReply,
};
use crate::state::{
    commit_points, ignited_points, scale_by_streak, streak_scaled, CommitPayload, ForgeState,
};

verus! {

/// The day-to-day pacing of the user at the time of a commit.
pub struct SessionMetrics {
    /// Streak length in days.
    pub days_active_streak: u64,
    /// The commit is the first of its calendar day.
    pub is_first_commit_of_day: bool,
}

/// The XP of a commit under the session rules: base, cleanup or line bonus,
/// file bonus, shared-project factor and ignition bonus, times the streak
/// multiplier.
pub open spec fn session_momentum(commit: CommitPayload, session: SessionMetrics) -> int {
    streak_scaled(ignited_points(commit, session.is_first_commit_of_day), session.days_active_streak)
}

/// Calculates the reward for a commit under the session rules.
///
/// - Base value: +5 XP
/// - Cleanups (deletions > additions): +30 XP
/// - Otherwise +1 XP per 20 added lines, at most 50
/// - More than 5 files changed: +15 XP
/// - Shared repository: 1.5x, rounded down
/// - First commit of the day: +100 XP
/// - Streak multiplier: 1.0 + 0.1 per streak day, at most 5.0x, rounded down
pub fn calculate_forge_momentum(commit: &CommitPayload, session: &SessionMetrics) -> (xp: u64)
    ensures
        xp == session_momentum(*commit, *session),
        xp <= 1025,
{
    let mut points = commit_points(commit);
    if session.is_first_commit_of_day {
        points = points + 100;
    }
    scale_by_streak(points, session.days_active_streak)
}

/// The XP the daemon awards for a commit seen on the day that starts at `today_start`.
pub open spec fn daily_award(state: ForgeState, commit: CommitPayload, today_start: i64) -> int {
    session_momentum(
        commit,
        SessionMetrics {
            days_active_streak: streak_after(
                state.current_streak,
                state.shields_available,
                state.last_commit_timestamp,
                today_start,
            ) as u64,
            is_first_commit_of_day: starts_new_day(state.last_commit_timestamp, today_start),
        },
    )
}

/// The inputs on which the daemon's bookkeeping computes without overflow.
pub open spec fn daily_commit_fits(state: ForgeState, commit: CommitPayload, today_start: i64) -> bool {
    &&& streak_step_fits(state.current_streak, state.last_commit_timestamp, today_start)
    &&& state.metallurgy_xp + daily_award(state, commit, today_start) <= u64::MAX
}

/// `after` is `before` once a commit seen at `now`, on the day that starts at
/// `today_start`, has been credited with `award` XP.
pub open spec fn daily_commit_applied(
    before: ForgeState,
    after: ForgeState,
    commit: CommitPayload,
    now: i64,
    today_start: i64,
    award: u64,
) -> bool {
    let last = before.last_commit_timestamp;
    &&& award == daily_award(before, commit, today_start)
    &&& after.metallurgy_xp == before.metallurgy_xp + award
    &&& after.synergy_xp == before.synergy_xp
    &&& after.current_streak == streak_after(before.current_streak, before.shields_available, last, today_start)
    &&& after.shields_available == shields_after(before.current_streak, before.shields_available, last, today_start)
    &&& after.last_commit_timestamp == now
    &&& after.last_processed_sha == before.last_processed_sha
}

/// Credits a commit seen at `now` on the day that starts at `today_start`:
/// updates the streak and shields, awards the session XP and records the time.
pub fn record_daily_commit(
    state: &mut ForgeState,
    commit: &CommitPayload,
    now: i64,
    today_start: i64,
) -> (award: u64)
    requires
        daily_commit_fits(*old(state), *commit, today_start),
    ensures
        daily_commit_applied(*old(state), *final(state), *commit, now, today_start, award),
{
    let step = next_streak(state.current_streak, state.shields_available, state.last_commit_timestamp, today_start);
    state.current_streak = step.streak;
    state.shields_available = step.shields;
    let session_state = SessionMetrics {
        days_active_streak: state.current_streak,
        is_first_commit_of_day: step.first_of_day,
    };
    let awarded_points = calculate_forge_momentum(commit, &session_state);
    state.metallurgy_xp = state.metallurgy_xp + awarded_points;
    state.last_commit_timestamp = now;
    awarded_points
}

/// `after` is `before` with a commit credited with `award` XP at some time the
/// clock can give, on a day whose start lies less than three days before and
/// less than two days after that time, and on which the bookkeeping fits.
pub open spec fn credited_at_some_time(
    before: ForgeState,
    after: ForgeState,
    commit: CommitPayload,
    award: u64,
) -> bool {
    exists|now: i64, today_start: i64|
        within_chrono_range(now) && within_chrono_range(today_start) && now - 3 * 86400 < today_start
            < now + 2 * 86400 && daily_commit_fits(before, commit, today_start)
            && #[trigger] daily_commit_applied(before, after, commit, now, today_start, award)
}

/// What the daemon did with a new commit.
pub enum DailyOutcome {
    /// Today's local midnight is not a single instant; nothing changed.
    NoLocalMidnight,
    /// Crediting would overflow a counter; nothing changed.
    Overflow,
    /// The commit was credited with this many XP.
    Scored(u64),
}

/// Credits a new commit at the current time of day: looks up the current time
/// and the start of today, then does what `record_daily_commit` does. The
/// clock and the time zone decide both, so the result is stated for some pair;
/// whether today's midnight is a single instant is the time zone's to say. An
/// overflow comes only from a streak or XP counter at its limit.
pub fn credit_new_commit(state: &mut ForgeState, commit: &CommitPayload) -> (outcome: DailyOutcome)
    ensures
        !(outcome is Scored) ==> *final(state) == *old(state),
        outcome is Overflow ==> exists|today_start: i64| !daily_commit_fits(*old(state), *commit, today_start),
        outcome is Overflow ==> old(state).current_streak == u64::MAX || old(state).metallurgy_xp + 1025
            > u64::MAX,
        outcome matches DailyOutcome::Scored(award) ==> credited_at_some_time(
            *old(state),
            *final(state),
            *commit,
            award,
        ),
{
    let (now, start) = now_and_start_of_today();
    let today_start = match start {
        Some(t) => t,
        None => return DailyOutcome::NoLocalMidnight,
    };
    if today_start < i64::MIN + 86400 {
        assert(!daily_commit_fits(*state, *commit, today_start));
        return DailyOutcome::Overflow;
    }
    let last = state.last_commit_timestamp;
    if last >= today_start - 86400 && last < today_start && state.current_streak == u64::MAX {
        assert(!daily_commit_fits(*state, *commit, today_start));
        return DailyOutcome::Overflow;
    }
    let step = next_streak(state.current_streak, state.shields_available, last, today_start);
    let award = calculate_forge_momentum(
        commit,
        &SessionMetrics { days_active_streak: step.streak, is_first_commit_of_day: step.first_of_day },
    );
    assert(award == daily_award(*state, *commit, today_start));
    if award > u64::MAX - state.metallurgy_xp {
        assert(!daily_commit_fits(*state, *commit, today_start));
        return DailyOutcome::Overflow;
    }
    let ghost before = *state;
    assert(daily_commit_fits(before, *commit, today_start));
    let awarded = record_daily_commit(state, commit, now, today_start);
    assert(daily_commit_applied(before, *state, *commit, now, today_start, awarded));
    DailyOutcome::Scored(awarded)
}

/// How the daemon reads a token reply: an `error` member decides by its code;
/// otherwise a string `access_token` is the token, and a non-string one a
/// corrupted token; otherwise the reply is unmapped.
pub open spec fn daemon_reply_outcome(reply: TokenReply) -> PollView {
    match reply.error {
        JsonMember::Absent => match reply.access_token {
            JsonMember::Text(t) => PollView::Success(t@),
            JsonMember::NonText => PollView::UnknownError("Corrupted token signature"@),
            JsonMember::Absent => PollView::UnknownError(
                "GitHub engine returned unmapped server response tables"@,
            ),
        },
        _ => error_outcome(error_code(reply.error)),
    }
}

/// Reads one reply of the token endpoint as the daemon does.
pub fn poll_outcome(reply: TokenReply) -> (result: PollResult)
    ensures
        result@ == daemon_reply_outcome(reply),
{
    match reply.error {
        JsonMember::Absent => match reply.access_token {
            JsonMember::Text(t) => PollResult::Success(t),
            JsonMember::NonText => PollResult::UnknownError(String::from_str("Corrupted token signature")),
            JsonMember::Absent => PollResult::UnknownError(
                String::from_str("GitHub engine returned unmapped server response tables"),
            ),
        },
        error => classify_error_code(error_code_of(error)),
    }
}

} // verus!
